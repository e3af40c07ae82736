//! The channel: its name, its fixed configuration, the ways in which the
//! transport can fail, and the opening of a channel by name.

use vstd::prelude::*;
use iceoryx2::node::NodeCreationFailure;
use iceoryx2::port::publisher::PublisherCreateError;
use iceoryx2::port::subscriber::SubscriberCreateError;
use iceoryx2::port::{ReceiveError, SendError};
use iceoryx2::service::builder::publish_subscribe::PublishSubscribeOpenOrCreateError;
use iceoryx2::service::service_name::ServiceNameError;
use crate::lifecycle::Signal;
use crate::transport::{create_node, make_name, open_channel, wait_on, Channel, IpcNode};

verus! {

/// Samples that a subscriber's buffer holds before the oldest is discarded.
pub const BUFFER_DEPTH: usize = 30;

/// Samples that a channel keeps for subscribers that join late.
pub const HISTORY_SIZE: usize = 30;

/// Publishers that a channel admits at one time.
pub const MAX_PUBLISHERS: usize = 5;

/// Subscribers that a channel admits at one time.
pub const MAX_SUBSCRIBERS: usize = 5;

/// The heartbeat period of a publisher, in milliseconds.
pub const HEARTBEAT_MILLIS: u64 = 10;

/// The longest channel name, in bytes.
pub const MAX_NAME_BYTES: usize = 255;

/// Whether a name begins with the prefix that the transport keeps for its own
/// services.
pub open spec fn has_reserved_prefix(name: Seq<char>) -> bool {
    name.len() >= 7 && name.subrange(0, 7) == "iox2://"@
}

/// Whether a channel can bear this name: it is not empty, does not begin
/// with the reserved prefix, and its UTF-8 form has at most
/// [`MAX_NAME_BYTES`] bytes.
pub open spec fn valid_channel_name(name: Seq<char>) -> bool {
    &&& name.len() > 0
    &&& !has_reserved_prefix(name)
    &&& vstd::utf8::encode_utf8(name).len() <= MAX_NAME_BYTES
}

/// The settings of a channel. They are fixed when the channel is created and
/// the same for every participant that opens it by name.
#[derive(Clone, Copy, Debug, PartialEq, Eq, Structural)]
pub struct ChannelConfig {
    pub buffer_depth: usize,
    pub history_size: usize,
    pub max_publishers: usize,
    pub max_subscribers: usize,
    /// When a subscriber's buffer is full, the oldest unread sample gives way
    /// to the new one, and the publisher is not held up.
    pub safe_overflow: bool,
}

impl ChannelConfig {
    /// The configuration that every channel of this library has.
    pub open spec fn standard_spec() -> ChannelConfig {
        ChannelConfig {
            buffer_depth: BUFFER_DEPTH,
            history_size: HISTORY_SIZE,
            max_publishers: MAX_PUBLISHERS,
            max_subscribers: MAX_SUBSCRIBERS,
            safe_overflow: true,
        }
    }

    /// The configuration that every channel of this library has.
    pub fn standard() -> (r: ChannelConfig)
        ensures
            r == ChannelConfig::standard_spec(),
    {
        ChannelConfig {
            buffer_depth: BUFFER_DEPTH,
            history_size: HISTORY_SIZE,
            max_publishers: MAX_PUBLISHERS,
            max_subscribers: MAX_SUBSCRIBERS,
            safe_overflow: true,
        }
    }
}

/// A failure of the transport, by the step that failed. Where the transport
/// gave a reason, it is carried along.
#[derive(Debug)]
pub enum TransportError {
    /// The process could not enter the transport.
    Node(NodeCreationFailure),
    /// The name cannot be the name of a channel.
    InvalidName(ServiceNameError),
    /// The channel could neither be opened nor created, for one because a
    /// channel of that name exists with another configuration.
    Channel(PublishSubscribeOpenOrCreateError),
    /// The channel admits no further publisher.
    PublisherAttach(PublisherCreateError),
    /// The channel admits no further subscriber.
    SubscriberAttach(SubscriberCreateError),
    /// An envelope could not be written into the channel.
    Send(SendError),
    /// The channel could not be read.
    Receive(ReceiveError),
    /// What was read from the channel is not the frame of an envelope.
    MalformedFrame,
}

impl IpcNode {
    /// Enters the transport. Whether this succeeds lies with the system.
    pub fn create() -> (r: Result<IpcNode, TransportError>)
        ensures
            r matches Err(e) ==> e is Node,
    {
        match create_node() {
            Ok(node) => Ok(node),
            Err(e) => Err(TransportError::Node(e)),
        }
    }

    /// Waits for `millis` milliseconds, or less where the process is told to
    /// stop. The signal is `Tick` after a full wait and `Stop` otherwise;
    /// never `Launch`.
    pub fn wait(&self, millis: u64) -> (r: Signal)
        ensures
            r is Tick || r is Stop,
    {
        Signal::after_wait(wait_on(self, millis))
    }
}

/// Opens the channel of this name, or creates it where none exists, with the
/// standard configuration. An invalid name fails without a call into the
/// transport; for a valid one the outcome lies with the transport.
pub fn service(name: String, node: &IpcNode) -> (r: Result<Channel, TransportError>)
    ensures
        !valid_channel_name(name@) <==> r matches Err(TransportError::InvalidName(_)),
        r matches Err(e) ==> e is InvalidName || e is Channel,
{
    let config = ChannelConfig::standard();
    match make_name(name.as_str()) {
        Ok(service_name) => match open_channel(node, &service_name, &config) {
            Ok(channel) => Ok(channel),
            Err(e) => Err(TransportError::Channel(e)),
        },
        Err(e) => Err(TransportError::InvalidName(e)),
    }
}

} // verus!
