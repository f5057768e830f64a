//! The identity manager: thread routing and the per-channel cache of
//! alternate-identity handles.
//!
//! A thread never gets its own identity; it is addressed through its parent
//! channel's identity plus a thread routing parameter. Each parent channel's
//! identity is created once and cached for good.

use vstd::prelude::*;

use crate::models::DBChannel;
use crate::text::{first_where, lemma_first_where, lemma_first_where_is, lemma_first_where_none};

verus! {

/// The kinds of channel the relay distinguishes: ordinary text channels and
/// the two thread forms that are routed through their parent.
#[derive(Clone, Copy, Debug, PartialEq, Eq, Structural)]
pub enum ChannelKind {
    Text,
    PublicThread,
    PrivateThread,
}

/// The channel is a thread.
pub fn is_thread(kind: &ChannelKind) -> (r: bool)
    ensures
        r == (kind is PublicThread || kind is PrivateThread),
{
    match kind {
        ChannelKind::PublicThread => true,
        ChannelKind::PrivateThread => true,
        ChannelKind::Text => false,
    }
}

/// Picks the channel whose identity carries the message and the thread to
/// route into: a thread sends through its parent with itself as the routing
/// parameter, any other channel sends directly.
pub fn route_channel(channel_id: u64, parent_id: Option<u64>, kind: &ChannelKind) -> (r: (
    u64,
    Option<u64>,
))
    requires
        (kind is PublicThread || kind is PrivateThread) ==> parent_id is Some,
    ensures
        (kind is PublicThread || kind is PrivateThread) ==> r.0 == parent_id->0 && r.1 == Some(
            channel_id,
        ),
        kind is Text ==> r.0 == channel_id && r.1 is None,
{
    if is_thread(kind) {
        match parent_id {
            Some(p) => (p, Some(channel_id)),
            None => (channel_id, None),
        }
    } else {
        (channel_id, None)
    }
}

/// What acquiring a channel's identity takes next: the cached handle is
/// used as it stands, or one must be created on the parent channel and then
/// offered to the cache.
#[derive(Clone, Debug, PartialEq)]
pub enum IdentityStep {
    /// Send through this cached handle, routed into the given thread.
    UseCached { channel: DBChannel, thread_id: Option<u64> },
    /// No handle is cached: create one on this parent channel, then offer
    /// it to the cache and use whatever entry wins. A creation the platform
    /// refuses aborts the event's pipeline and caches nothing.
    CreateFor { parent_id: u64, thread_id: Option<u64> },
}

/// Resolves which identity handle carries a message for `channel_id`:
/// threads are routed through their parent, and the parent's cached handle
/// is used when there is one.
pub fn resolve_identity(
    registry: &ChannelRegistry,
    channel_id: u64,
    parent_id: Option<u64>,
    kind: &ChannelKind,
) -> (r: IdentityStep)
    requires
        (kind is PublicThread || kind is PrivateThread) ==> parent_id is Some,
    ensures
        ({
            let parent = if kind is PublicThread || kind is PrivateThread {
                parent_id->0
            } else {
                channel_id
            };
            let thread = if kind is PublicThread || kind is PrivateThread {
                Some(channel_id)
            } else {
                None::<u64>
            };
            match first_where(registry.entries_seq(), with_channel_id(parent as i64)) {
                Some(k) => r == (IdentityStep::UseCached {
                    channel: registry.entries_seq()[k],
                    thread_id: thread,
                }),
                None => r == (IdentityStep::CreateFor { parent_id: parent, thread_id: thread }),
            }
        }),
{
    let (parent, thread_id) = route_channel(channel_id, parent_id, kind);
    match registry.lookup(parent as i64) {
        Some(channel) => IdentityStep::UseCached { channel, thread_id },
        None => IdentityStep::CreateFor { parent_id: parent, thread_id },
    }
}

/// The channel entry carries this channel id.
pub open spec fn with_channel_id(id: i64) -> spec_fn(DBChannel) -> bool {
    |c: DBChannel| c.id == id
}

/// A copy of a channel entry.
fn clone_channel(c: &DBChannel) -> (r: DBChannel)
    ensures
        r == *c,
{
    DBChannel { id: c.id, webhook_id: c.webhook_id, webhook_token: c.webhook_token.clone() }
}

/// The in-process cache of per-channel identity handles, at most one entry
/// per channel id.
#[derive(Clone, Debug)]
pub struct ChannelRegistry {
    pub entries: Vec<DBChannel>,
}

impl ChannelRegistry {
    /// Every channel id occurs at most once.
    pub open spec fn wf(self) -> bool {
        forall|i: int, j: int|
            #![trigger self.entries@[i].id, self.entries@[j].id]
            0 <= i < j < self.entries@.len() ==> self.entries@[i].id != self.entries@[j].id
    }

    /// The cached entries, in insertion order.
    pub open spec fn entries_seq(self) -> Seq<DBChannel> {
        self.entries@
    }

    /// An empty cache.
    pub fn new() -> (r: ChannelRegistry)
        ensures
            r.wf(),
            r.entries_seq().len() == 0,
    {
        ChannelRegistry { entries: Vec::new() }
    }

    /// Looks a channel's identity up in the cache.
    pub fn lookup(&self, channel_id: i64) -> (r: Option<DBChannel>)
        ensures
            r is Some <==> first_where(self.entries_seq(), with_channel_id(channel_id)) is Some,
            r matches Some(c) ==> (match first_where(
                self.entries_seq(),
                with_channel_id(channel_id),
            ) {
                Some(k) => c == self.entries_seq()[k],
                None => false,
            }),
    {
        let n = self.entries.len();
        let mut i: usize = 0;
        while i < n
            invariant
                n == self.entries@.len(),
                i <= n,
                forall|j: int| 0 <= j < i ==> !(with_channel_id(channel_id)(self.entries@[j])),
            decreases n - i,
        {
            if self.entries[i].id == channel_id {
                proof {
                    assert(with_channel_id(channel_id)(self.entries@[i as int]));
                    lemma_first_where_is(self.entries@, with_channel_id(channel_id), i as int);
                }
                return Some(clone_channel(&self.entries[i]));
            }
            proof {
                assert(!(with_channel_id(channel_id)(self.entries@[i as int])));
            }
            i += 1;
        }
        proof {
            lemma_first_where_none(self.entries@, with_channel_id(channel_id));
        }
        None
    }

    /// Inserts a freshly created identity unless the channel already has
    /// one, and returns the entry that is cached afterwards: the loser of a
    /// creation race gets the winner's entry back and must discard its own.
    pub fn insert_if_absent(&mut self, ch: DBChannel) -> (winner: DBChannel)
        requires
            old(self).wf(),
        ensures
            final(self).wf(),
            match first_where(old(self).entries_seq(), with_channel_id(ch.id)) {
                Some(k) => final(self).entries_seq() == old(self).entries_seq() && winner == old(
                    self,
                ).entries_seq()[k],
                None => final(self).entries_seq() == old(self).entries_seq().push(ch) && winner
                    == ch,
            },
    {
        let existing = self.lookup(ch.id);
        match existing {
            Some(c) => c,
            None => {
                let winner = clone_channel(&ch);
                self.entries.push(ch);
                proof {
                    lemma_first_where(old(self).entries_seq(), with_channel_id(ch.id));
                    assert forall|i: int, j: int|
                        0 <= i < j < self.entries@.len() implies self.entries@[i].id
                        != self.entries@[j].id by {
                        if j == self.entries@.len() - 1 {
                            assert(!(with_channel_id(ch.id)(old(self).entries@[i])));
                        }
                    }
                }
                winner
            },
        }
    }
}

} // verus!
