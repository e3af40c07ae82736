//! The shared-memory transport, taken from the `iceoryx2` crate: the handles
//! that stand for its node, service and ports, and the calls into it. Nothing
//! in this file is proved. Each contract here is an assumption about
//! `iceoryx2`; where a function has none, nothing is assumed of what it
//! returns.

use vstd::prelude::*;
use iceoryx2::config::Config;
use iceoryx2::node::{Node, NodeBuilder, NodeCreationFailure};
use iceoryx2::port::publisher::{Publisher, PublisherCreateError};
use iceoryx2::port::subscriber::{Subscriber, SubscriberCreateError};
use iceoryx2::port::{ReceiveError, SendError};
use iceoryx2::service::builder::publish_subscribe::PublishSubscribeOpenOrCreateError;
use iceoryx2::service::ipc;
use iceoryx2::service::port_factory::publish_subscribe::PortFactory;
use iceoryx2::service::service_name::{ServiceName, ServiceNameError};
use crate::channel::{valid_channel_name, ChannelConfig};

verus! {

/// What travels through a channel: four 64-bit words.
pub type Frame = [u64; 4];

/// `iceoryx2::service::service_name::ServiceName`.
#[verifier::external_type_specification]
#[verifier::external_body]
pub struct ExServiceName(ServiceName);

/// `iceoryx2::service::service_name::ServiceNameError`.
#[verifier::external_type_specification]
#[verifier::external_body]
pub struct ExServiceNameError(ServiceNameError);

/// `iceoryx2::node::NodeCreationFailure`.
#[verifier::external_type_specification]
#[verifier::external_body]
pub struct ExNodeCreationFailure(NodeCreationFailure);

/// `iceoryx2::service::builder::publish_subscribe::PublishSubscribeOpenOrCreateError`.
#[verifier::external_type_specification]
#[verifier::external_body]
pub struct ExOpenOrCreateError(PublishSubscribeOpenOrCreateError);

/// `iceoryx2::port::publisher::PublisherCreateError`.
#[verifier::external_type_specification]
#[verifier::external_body]
pub struct ExPublisherCreateError(PublisherCreateError);

/// `iceoryx2::port::subscriber::SubscriberCreateError`.
#[verifier::external_type_specification]
#[verifier::external_body]
pub struct ExSubscriberCreateError(SubscriberCreateError);

/// `iceoryx2::port::SendError`.
#[verifier::external_type_specification]
#[verifier::external_body]
pub struct ExSendError(SendError);

/// `iceoryx2::port::ReceiveError`.
#[verifier::external_type_specification]
#[verifier::external_body]
pub struct ExReceiveError(ReceiveError);

/// A process's entry to the transport: an `iceoryx2` node for inter-process
/// services. Its inside is hidden from the verifier, which cannot take the
/// node's own type with the bounds that it carries.
#[verifier::external_body]
pub struct IpcNode {
    inner: Node<ipc::Service>,
}

/// A channel that was opened or created by name: an `iceoryx2`
/// publish-subscribe port factory for frames. Hidden like [`IpcNode`].
#[verifier::external_body]
pub struct Channel {
    inner: PortFactory<ipc::Service, Frame, ()>,
}

/// The sending end of a channel: an `iceoryx2` publisher of frames. Hidden
/// like [`IpcNode`].
#[verifier::external_body]
pub struct PublisherPort {
    inner: Publisher<ipc::Service, Frame, ()>,
}

/// The receiving end of a channel: an `iceoryx2` subscriber to frames. Hidden
/// like [`IpcNode`].
#[verifier::external_body]
pub struct SubscriberPort {
    inner: Subscriber<ipc::Service, Frame, ()>,
}

/// `NodeBuilder::new().config(..).create::<ipc::Service>()`: makes a node
/// with the transport's built-in settings (`Config::default`), so that no file
/// of the machine is looked up. Nothing is assumed of the outcome.
#[verifier::external_body]
pub(crate) fn create_node() -> (r: Result<IpcNode, NodeCreationFailure>) {
    match NodeBuilder::new().config(&Config::default()).create::<ipc::Service>() {
        Ok(inner) => Ok(IpcNode { inner }),
        Err(e) => Err(e),
    }
}

/// `Node::wait`: sleeps for `millis` milliseconds unless a termination or
/// interrupt signal ends the wait. `true` where the node reported no signal.
/// Nothing is assumed of the outcome.
#[verifier::external_body]
pub(crate) fn wait_on(node: &IpcNode, millis: u64) -> (r: bool) {
    node.inner.wait(core::time::Duration::from_millis(millis)).is_ok()
}

/// `ServiceName::new`. Assumed, as its source reads: it accepts a name if and
/// only if the name is not empty, does not begin with the prefix that
/// `iceoryx2` keeps for its own services, and is no longer in bytes than a
/// service name may be.
#[verifier::external_body]
pub(crate) fn make_name(name: &str) -> (r: Result<ServiceName, ServiceNameError>)
    ensures
        r is Ok <==> valid_channel_name(name@),
{
    ServiceName::new(name)
}

/// `Node::service_builder`, then the publish-subscribe builder for frames
/// with each setting of `config`, then `open_or_create`. Nothing is assumed of
/// the outcome: it depends on what other processes have made of the name.
#[verifier::external_body]
pub(crate) fn open_channel(node: &IpcNode, name: &ServiceName, config: &ChannelConfig) -> (r:
    Result<Channel, PublishSubscribeOpenOrCreateError>) {
    let opened = node.inner.service_builder(name)
        .publish_subscribe::<Frame>()
        .enable_safe_overflow(config.safe_overflow)
        .history_size(config.history_size)
        .subscriber_max_buffer_size(config.buffer_depth)
        .max_subscribers(config.max_subscribers)
        .max_publishers(config.max_publishers)
        .open_or_create();
    match opened {
        Ok(inner) => Ok(Channel { inner }),
        Err(e) => Err(e),
    }
}

/// `PortFactory::publisher_builder().create()`. Nothing is assumed of the
/// outcome: it depends on how many publishers the channel already has.
#[verifier::external_body]
pub(crate) fn attach_publisher(channel: &Channel) -> (r: Result<
    PublisherPort,
    PublisherCreateError,
>) {
    match channel.inner.publisher_builder().create() {
        Ok(inner) => Ok(PublisherPort { inner }),
        Err(e) => Err(e),
    }
}

/// `PortFactory::subscriber_builder().create()`. Nothing is assumed of the
/// outcome: it depends on how many subscribers the channel already has.
#[verifier::external_body]
pub(crate) fn attach_subscriber(channel: &Channel) -> (r: Result<
    SubscriberPort,
    SubscriberCreateError,
>) {
    match channel.inner.subscriber_builder().create() {
        Ok(inner) => Ok(SubscriberPort { inner }),
        Err(e) => Err(e),
    }
}

/// `Publisher::send_copy`: loans a sample, writes the frame into it and sends
/// it. On success the number is how many subscribers received it. Nothing is
/// assumed of the outcome.
#[verifier::external_body]
pub(crate) fn send_frame(port: &PublisherPort, frame: Frame) -> (r: Result<usize, SendError>) {
    port.inner.send_copy(frame)
}

/// `Subscriber::receive`, with the frame copied out of the sample
/// (`Sample::payload`). `Ok(None)` where no sample is waiting. Nothing is
/// assumed of the outcome.
#[verifier::external_body]
pub(crate) fn receive_frame(port: &SubscriberPort) -> (r: Result<Option<Frame>, ReceiveError>) {
    match port.inner.receive() {
        Ok(Some(sample)) => Ok(Some(*sample.payload())),
        Ok(None) => Ok(None),
        Err(e) => Err(e),
    }
}

} // verus!
