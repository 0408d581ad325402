//! Cross-channel message relay engine.
//!
//! Messages posted in any channel whose name equals the broadcast label are
//! re-emitted into every other channel sharing that label, through per-channel
//! proxy identities (webhooks), styled as the original author. This crate
//! holds the verified decision logic: relay eligibility and target discovery,
//! proxy-identity selection, outbound payload construction, and the
//! per-target execution protocol with failure isolation. The event stream,
//! the channel cache and the platform HTTP calls live outside, in the
//! unverified shell that drives this library.

pub mod decision;
pub mod forwarder;
pub mod model;
pub mod resolver;
pub mod run;

use vstd::prelude::*;

verus! {

/// What the event consumer does after a stream error: a fatal error stops
/// it; a recoverable one is logged and the next event is awaited.
#[derive(Clone, Copy, Debug, PartialEq, Eq)]
pub enum StreamAction {
    /// Stop consuming events.
    Halt,
    /// Log and pull the next event.
    AwaitNext,
}

/// Classifies a stream error by its fatality: the consumer halts exactly on
/// fatal errors and otherwise keeps pulling.
pub fn on_stream_error(fatal: bool) -> (a: StreamAction)
    ensures
        a == (if fatal {
            StreamAction::Halt
        } else {
            StreamAction::AwaitNext
        }),
{
    if fatal {
        StreamAction::Halt
    } else {
        StreamAction::AwaitNext
    }
}

/// The fixed channel name that designates relay-eligible channels.
pub open spec fn broadcast_label_spec() -> Seq<char> {
    "test-global"@
}

/// Returns the broadcast label as an owned string.
pub fn broadcast_label() -> (s: String)
    ensures
        s@ == broadcast_label_spec(),
{
    "test-global".to_owned()
}

} // verus!
