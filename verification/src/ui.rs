use vstd::prelude::*;
use crate::text::concat;

verus! {

/// What `format!("{:?}", Duration::new(secs, nanos))` writes (such as "1.5s").
pub uninterp spec fn duration_debug_text(secs: u64, nanos: u32) -> Seq<char>;

/// Calls `format!("{:?}", std::time::Duration::new(secs, nanos))`. Claimed: the
/// text is the named `duration_debug_text` of the two numbers. Below a billion
/// nanoseconds, `Duration::new` cannot overflow.
#[verifier::external_body]
fn duration_debug(secs: u64, nanos: u32) -> (r: String)
    requires
        nanos < 1_000_000_000,
    ensures
        r@ == duration_debug_text(secs, nanos),
{
    format!("{:?}", std::time::Duration::new(secs, nanos))
}

/// What the network client reports to the user interface.
pub enum ClientEvent {
    /// The client has joined the network.
    ConnectedToNetwork,
    /// A gossip message arrived on this topic.
    GossipsubMsg { topic: String },
    /// The client has been inactive this long (seconds, and nanoseconds below a
    /// second).
    InactiveClient { secs: u64, nanos: u32 },
    /// The cost of storing could not be obtained; the message says why.
    ObtainStoreCostFailed(String),
}

/// What receiving from the client's event channel came to.
pub enum ClientEventReceipt {
    Event(ClientEvent),
    /// The channel is closed.
    Closed,
}

/// The client-feedback text the user interface shows for what it received, and
/// whether it keeps listening.
pub open spec fn client_feedback_text(received: ClientEventReceipt) -> (Seq<char>, bool) {
    match received {
        ClientEventReceipt::Event(ClientEvent::ConnectedToNetwork) => ("Connected to the network"@, true),
        ClientEventReceipt::Event(ClientEvent::GossipsubMsg { topic }) => (
            "Received message on topic "@ + topic@,
            true,
        ),
        ClientEventReceipt::Event(ClientEvent::InactiveClient { secs, nanos }) => (
            "Inactive client for "@ + duration_debug_text(secs, nanos),
            true,
        ),
        ClientEventReceipt::Event(ClientEvent::ObtainStoreCostFailed(msg)) => (msg@, true),
        ClientEventReceipt::Closed => ("Event channel closed. Exiting..."@, false),
    }
}

/// The user interface's decision on what the client reported: the feedback text
/// to show, and whether to keep listening (not once the channel is closed).
pub fn on_client_event(received: ClientEventReceipt) -> (r: (String, bool))
    requires
        received matches ClientEventReceipt::Event(ClientEvent::InactiveClient { nanos, .. }) ==> nanos
            < 1_000_000_000,
    ensures
        (r.0@, r.1) == client_feedback_text(received),
{
    match received {
        ClientEventReceipt::Event(ClientEvent::ConnectedToNetwork) => (
            "Connected to the network".to_owned(),
            true,
        ),
        ClientEventReceipt::Event(ClientEvent::GossipsubMsg { topic }) => (
            concat("Received message on topic ", topic.as_str()),
            true,
        ),
        ClientEventReceipt::Event(ClientEvent::InactiveClient { secs, nanos }) => {
            let d = duration_debug(secs, nanos);
            (concat("Inactive client for ", d.as_str()), true)
        },
        ClientEventReceipt::Event(ClientEvent::ObtainStoreCostFailed(error_msg)) => (error_msg, true),
        ClientEventReceipt::Closed => ("Event channel closed. Exiting...".to_owned(), false),
    }
}

} // verus!
