//! Relay decision: given an inbound message and a snapshot of the channel
//! directory, decide whether the message qualifies for relaying and compute
//! the set of target channels.

use vstd::prelude::*;
use crate::model::{Channel, Message, channel_has_name};

verus! {

/// What the relay engine will do with one inbound message.
pub enum Decision {
    /// The author is a flagged automated account; never relayed, which
    /// prevents feedback loops through the proxy identities themselves.
    AutomatedAuthor,
    /// The source channel is unknown to the directory; the message is
    /// dropped with a diagnostic, not escalated.
    ChannelNotFound,
    /// The source channel is not named with the broadcast label; the
    /// message is ordinary and not eligible.
    NotBroadcast,
    /// The message is eligible: forward it to each target in order.
    Relay(RelayPlan),
}

/// An eligible message together with the ids of the other broadcast-label
/// channels it will be forwarded into. An empty target list still executes
/// (as zero forwards); it is not an error.
pub struct RelayPlan {
    /// The inbound message to re-emit.
    pub message: Message,
    /// The other relay-group members, in directory order.
    pub targets: Vec<u64>,
}

/// Directory lookup by channel id: the first entry with that id, if any.
pub open spec fn lookup_spec(dir: Seq<Channel>, id: u64) -> Option<Channel>
    decreases dir.len(),
{
    if dir.len() == 0 {
        None
    } else if dir[0].id == id {
        Some(dir[0])
    } else {
        lookup_spec(dir.drop_first(), id)
    }
}

/// A relay target for a message from `source`: any other channel whose name
/// equals the label.
pub open spec fn is_target(c: Channel, source: u64, label: Seq<char>) -> bool {
    c.id != source && channel_has_name(c, label)
}

/// The ids of all relay targets in `dir`, in directory order.
pub open spec fn target_ids(dir: Seq<Channel>, source: u64, label: Seq<char>) -> Seq<u64>
    decreases dir.len(),
{
    if dir.len() == 0 {
        Seq::empty()
    } else {
        let rest = target_ids(dir.drop_last(), source, label);
        if is_target(dir.last(), source, label) {
            rest.push(dir.last().id)
        } else {
            rest
        }
    }
}

/// The relay targets are exactly the other broadcast-label channels in the
/// directory, one per channel, in directory order, and never the source
/// channel itself.
pub proof fn lemma_targets_exact(dir: Seq<Channel>, source: u64, label: Seq<char>)
    ensures
        target_ids(dir, source, label) == dir.filter(|c: Channel| is_target(c, source, label)).map_values(|c: Channel| c.id),
        forall|j: int| 0 <= j < target_ids(dir, source, label).len() ==> #[trigger] target_ids(dir, source, label)[j] != source,
    decreases dir.len(),
{
    let pred = |c: Channel| is_target(c, source, label);
    let proj = |c: Channel| c.id;
    reveal(Seq::filter);
    if dir.len() == 0 {
        assert(target_ids(dir, source, label) =~= dir.filter(pred).map_values(proj));
    } else {
        lemma_targets_exact(dir.drop_last(), source, label);
        assert(dir.filter(pred).map_values(proj) =~= if pred(dir.last()) {
            dir.drop_last().filter(pred).map_values(proj).push(dir.last().id)
        } else {
            dir.drop_last().filter(pred).map_values(proj)
        });
        assert(target_ids(dir, source, label) =~= dir.filter(pred).map_values(proj));
    }
}

/// Whether an optional channel name equals the label: checks presence first,
/// treating a nameless channel as a non-member rather than failing.
fn name_equals(name: &Option<String>, label: &String) -> (r: bool)
    ensures
        r == match *name {
            Some(n) => n@ == label@,
            None => false,
        },
{
    match name {
        Some(n) => *n == *label,
        None => false,
    }
}

/// Looks the source channel up in the directory snapshot.
fn lookup_channel<'a>(dir: &'a Vec<Channel>, id: u64) -> (r: Option<&'a Channel>)
    ensures
        match r {
            Some(c) => lookup_spec(dir@, id) == Some(*c),
            None => lookup_spec(dir@, id) is None,
        },
{
    let n = dir.len();
    proof {
        assert(dir@.skip(0) =~= dir@);
    }
    for i in 0..n
        invariant
            n == dir.len(),
            lookup_spec(dir@, id) == lookup_spec(dir@.skip(i as int), id),
    {
        assert(dir@.skip(i as int)[0] == dir@[i as int]);
        if dir[i].id == id {
            return Some(&dir[i]);
        }
        assert(dir@.skip(i as int).drop_first() =~= dir@.skip(i + 1));
    }
    assert(dir@.skip(n as int) =~= Seq::<Channel>::empty());
    None
}

/// Collects the ids of every other broadcast-label channel, in directory
/// order.
fn collect_targets(dir: &Vec<Channel>, source: u64, label: &String) -> (t: Vec<u64>)
    ensures
        t@ == target_ids(dir@, source, label@),
{
    let mut t: Vec<u64> = Vec::new();
    let n = dir.len();
    for i in 0..n
        invariant
            n == dir.len(),
            t@ == target_ids(dir@.take(i as int), source, label@),
    {
        let c = &dir[i];
        if c.id != source && name_equals(&c.name, label) {
            t.push(c.id);
        }
        proof {
            let next = dir@.take(i + 1);
            assert(next.drop_last() =~= dir@.take(i as int));
            assert(next.last() == dir@[i as int]);
        }
    }
    proof {
        assert(dir@.take(n as int) =~= dir@);
    }
    t
}

/// Decides whether `msg` is relayed and where to. A message is skipped when
/// its author is an automated account, when its source channel is unknown to
/// the directory, or when the source channel is not named `label`; otherwise
/// the plan lists every other `label`-named channel as a target, in
/// directory order.
pub fn decide(msg: Message, directory: &Vec<Channel>, label: &String) -> (d: Decision)
    ensures
        msg.author.bot ==> d == Decision::AutomatedAuthor,
        !msg.author.bot ==> match lookup_spec(directory@, msg.channel_id) {
            None => d == Decision::ChannelNotFound,
            Some(c) => if channel_has_name(c, label@) {
                d matches Decision::Relay(plan)
                    && plan.message == msg
                    && plan.targets@ == target_ids(directory@, msg.channel_id, label@)
            } else {
                d == Decision::NotBroadcast
            },
        },
{
    if msg.author.bot {
        return Decision::AutomatedAuthor;
    }
    match lookup_channel(directory, msg.channel_id) {
        None => Decision::ChannelNotFound,
        Some(source) => {
            if name_equals(&source.name, label) {
                let targets = collect_targets(directory, msg.channel_id, label);
                Decision::Relay(RelayPlan { message: msg, targets })
            } else {
                Decision::NotBroadcast
            }
        },
    }
}

} // verus!
