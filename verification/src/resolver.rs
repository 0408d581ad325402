//! Proxy-identity resolution: given the proxy identities already bound to a
//! target channel, pick the existing one carrying the broadcast label, or
//! direct the caller to create one. Lookup-before-create is mandatory here,
//! not an optimization: it is what keeps one identity per (channel, label)
//! pair. Two drivers resolving the same channel at nearly the same time can
//! still race and create duplicates; callers wanting a strict guarantee must
//! serialize resolution per target channel.

use vstd::prelude::*;
use crate::model::{ProxyIdentity, proxy_has_label};

verus! {

impl Clone for ProxyIdentity {
    fn clone(&self) -> (r: Self)
        ensures
            r == *self,
    {
        ProxyIdentity {
            id: self.id,
            channel_id: self.channel_id,
            name: match &self.name {
                Some(n) => Some(n.clone()),
                None => None,
            },
            token: match &self.token {
                Some(t) => Some(t.clone()),
                None => None,
            },
        }
    }
}

/// The outcome of scanning a target channel's existing proxy identities.
pub enum Resolution {
    /// An identity labeled with the broadcast label already exists: reuse
    /// it. No new identity may be created.
    UseExisting(ProxyIdentity),
    /// No identity carries the label: the caller must create one bound to
    /// the target channel, labeled with the broadcast label.
    CreateNew,
}

/// The first identity in `list` whose display label equals `label`, if any.
/// First match wins; the tie-break is first encountered in the given order,
/// with no secondary key.
pub open spec fn find_match(list: Seq<ProxyIdentity>, label: Seq<char>) -> Option<ProxyIdentity>
    decreases list.len(),
{
    if list.len() == 0 {
        None
    } else if proxy_has_label(list[0], label) {
        Some(list[0])
    } else {
        find_match(list.drop_first(), label)
    }
}

/// Scans the identities already bound to a target channel and decides
/// whether one can be reused or a new one must be created. Reuses the first
/// identity whose label equals `label`; directs creation exactly when no
/// identity matches.
pub fn select_proxy(existing: &Vec<ProxyIdentity>, label: &String) -> (r: Resolution)
    ensures
        match find_match(existing@, label@) {
            Some(p) => r == Resolution::UseExisting(p),
            None => r == Resolution::CreateNew,
        },
{
    let n = existing.len();
    proof {
        assert(existing@.skip(0) =~= existing@);
    }
    for i in 0..n
        invariant
            n == existing.len(),
            find_match(existing@, label@) == find_match(existing@.skip(i as int), label@),
    {
        assert(existing@.skip(i as int)[0] == existing@[i as int]);
        let candidate = &existing[i];
        let labeled = match &candidate.name {
            Some(name) => *name == *label,
            None => false,
        };
        if labeled {
            return Resolution::UseExisting(candidate.clone());
        }
        assert(existing@.skip(i as int).drop_first() =~= existing@.skip(i + 1));
    }
    assert(existing@.skip(n as int) =~= Seq::<ProxyIdentity>::empty());
    Resolution::CreateNew
}

/// Resolution is idempotent with respect to the persisted identities: when
/// some identity in the list already carries the label, the resolver reuses
/// a matching one and never directs a second creation.
pub proof fn lemma_resolution_idempotent(list: Seq<ProxyIdentity>, label: Seq<char>)
    requires
        exists|i: int| 0 <= i < list.len() && proxy_has_label(list[i], label),
    ensures
        find_match(list, label) matches Some(p) && proxy_has_label(p, label),
    decreases list.len(),
{
    if proxy_has_label(list[0], label) {
    } else {
        let i = choose|i: int| 0 <= i < list.len() && proxy_has_label(list[i], label);
        assert(list.drop_first()[i - 1] == list[i]);
        lemma_resolution_idempotent(list.drop_first(), label);
    }
}

} // verus!
