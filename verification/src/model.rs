//! Plain-value snapshots of the platform entities the relay engine reasons
//! about. The unverified shell converts the platform's own types into these
//! before calling into the library, and back on the way out.

use vstd::prelude::*;

verus! {

/// The author of an inbound message.
#[derive(Debug)]
pub struct Author {
    /// Platform account identifier.
    pub id: u64,
    /// Display name shown beside the message.
    pub name: String,
    /// True for automated accounts, including the relay's own proxy sends.
    pub bot: bool,
    /// Avatar asset identifier, if the account has a custom avatar.
    pub avatar: Option<String>,
}

/// An inbound message, constructed from one message-creation event and
/// discarded after the relay attempt.
#[derive(Debug)]
pub struct Message {
    /// Message identifier.
    pub id: u64,
    /// Channel the message was posted in.
    pub channel_id: u64,
    /// The posting account.
    pub author: Author,
    /// Verbatim text content.
    pub content: String,
}

/// A channel snapshot as read from the directory.
#[derive(Debug)]
pub struct Channel {
    /// Channel identifier; identity equality is by this id.
    pub id: u64,
    /// Channel name, absent for channel kinds that carry none.
    pub name: Option<String>,
}

/// A proxy identity (webhook): a channel-scoped, tokened send-as mechanism.
#[derive(Debug)]
pub struct ProxyIdentity {
    /// Identity id.
    pub id: u64,
    /// Channel this identity is bound to.
    pub channel_id: u64,
    /// Display label; the resolver matches on it.
    pub name: Option<String>,
    /// Secret token used to send through this identity.
    pub token: Option<String>,
}

/// Whether a channel is a member of the relay group for `label`: it has a
/// name and the name equals the label exactly. A nameless channel is never
/// a member.
pub open spec fn channel_has_name(c: Channel, label: Seq<char>) -> bool {
    match c.name {
        Some(n) => n@ == label,
        None => false,
    }
}

/// Whether a proxy identity carries the display label `label`. An unlabeled
/// identity never matches.
pub open spec fn proxy_has_label(p: ProxyIdentity, label: Seq<char>) -> bool {
    match p.name {
        Some(n) => n@ == label,
        None => false,
    }
}

} // verus!
