//! The ownership ledger and the reaction handler: relay records map a
//! relayed message back to its original author and persona, and reactions
//! against a relayed message are interpreted through them.

use vstd::prelude::*;

use crate::models::{DBMate, DBMessage, ProxyError};
use crate::text::{first_where, lemma_first_where, lemma_first_where_is, lemma_first_where_none};

verus! {

/// The relay record carries this relayed-message id.
pub open spec fn with_message_id(id: u64) -> spec_fn(DBMessage) -> bool {
    |r: DBMessage| r.message_id == id
}

/// A copy of a relay record.
pub fn clone_record(r: &DBMessage) -> (c: DBMessage)
    ensures
        c == *r,
{
    DBMessage {
        user_id: r.user_id,
        message_id: r.message_id,
        mate_name: crate::models::clone_opt_string(&r.mate_name),
    }
}

/// The ownership ledger: at most one relay record per relayed-message id. A
/// record exists exactly while the relayed message it describes has not
/// been retracted.
#[derive(Clone, Debug)]
pub struct MessageLedger {
    pub records: Vec<DBMessage>,
}

impl MessageLedger {
    /// Every relayed-message id occurs at most once.
    pub open spec fn wf(self) -> bool {
        forall|i: int, j: int|
            #![trigger self.records@[i].message_id, self.records@[j].message_id]
            0 <= i < j < self.records@.len() ==> self.records@[i].message_id
                != self.records@[j].message_id
    }

    /// An empty ledger.
    pub fn new() -> (r: MessageLedger)
        ensures
            r.wf(),
            r.records@.len() == 0,
    {
        MessageLedger { records: Vec::new() }
    }

    /// Looks up the relay record of a message, failing with `NotFound` for a
    /// message that was not relayed (or was already retracted).
    pub fn find(&self, message_id: u64) -> (r: Result<DBMessage, ProxyError>)
        ensures
            r is Ok <==> first_where(self.records@, with_message_id(message_id)) is Some,
            r matches Ok(rec) ==> (match first_where(self.records@, with_message_id(message_id)) {
                Some(k) => rec == self.records@[k],
                None => false,
            }),
            r matches Err(e) ==> e == ProxyError::NotFound,
    {
        let n = self.records.len();
        let mut i: usize = 0;
        while i < n
            invariant
                n == self.records@.len(),
                i <= n,
                forall|j: int| 0 <= j < i ==> !(with_message_id(message_id)(self.records@[j])),
            decreases n - i,
        {
            if self.records[i].message_id == message_id {
                proof {
                    assert(with_message_id(message_id)(self.records@[i as int]));
                    lemma_first_where_is(self.records@, with_message_id(message_id), i as int);
                }
                return Ok(clone_record(&self.records[i]));
            }
            proof {
                assert(!(with_message_id(message_id)(self.records@[i as int])));
            }
            i += 1;
        }
        proof {
            lemma_first_where_none(self.records@, with_message_id(message_id));
        }
        Err(ProxyError::NotFound)
    }

    /// Adds the record written right after a successful relay. A record for
    /// an id the ledger already holds leaves the ledger unchanged.
    pub fn record(&mut self, rec: DBMessage) -> (added: bool)
        requires
            old(self).wf(),
        ensures
            final(self).wf(),
            added <==> first_where(old(self).records@, with_message_id(rec.message_id)) is None,
            added ==> final(self).records@ == old(self).records@.push(rec),
            !added ==> final(self).records@ == old(self).records@,
    {
        let present = {
            let n = self.records.len();
            let mut i: usize = 0;
            let mut found = false;
            while i < n && !found
                invariant
                    n == self.records@.len(),
                    i <= n,
                    found ==> i < n && with_message_id(rec.message_id)(self.records@[i as int]),
                    !found ==> forall|j: int|
                        0 <= j < i ==> !(with_message_id(rec.message_id)(self.records@[j])),
                decreases n - i + (if found { 0int } else { 1int }),
            {
                if self.records[i].message_id == rec.message_id {
                    found = true;
                } else {
                    i += 1;
                }
            }
            proof {
                if found {
                    lemma_first_where_is(self.records@, with_message_id(rec.message_id), i as int);
                } else {
                    lemma_first_where_none(self.records@, with_message_id(rec.message_id));
                }
            }
            found
        };
        if present {
            false
        } else {
            self.records.push(rec);
            proof {
                lemma_first_where(old(self).records@, with_message_id(rec.message_id));
                assert forall|i: int, j: int|
                    0 <= i < j < self.records@.len() implies self.records@[i].message_id
                    != self.records@[j].message_id by {
                    if j == self.records@.len() - 1 {
                        assert(!(with_message_id(rec.message_id)(old(self).records@[i])));
                    }
                }
            }
            true
        }
    }

    /// Removes a retracted message's record; removing an unknown id changes
    /// nothing.
    pub fn remove(&mut self, message_id: u64) -> (removed: bool)
        requires
            old(self).wf(),
        ensures
            final(self).wf(),
            removed <==> first_where(old(self).records@, with_message_id(message_id)) is Some,
            match first_where(old(self).records@, with_message_id(message_id)) {
                Some(k) => final(self).records@ == old(self).records@.remove(k),
                None => final(self).records@ == old(self).records@,
            },
    {
        let n = self.records.len();
        let mut i: usize = 0;
        while i < n
            invariant
                self.records@ == old(self).records@,
                old(self).wf(),
                n == self.records@.len(),
                i <= n,
                forall|j: int| 0 <= j < i ==> !(with_message_id(message_id)(self.records@[j])),
            decreases n - i,
        {
            if self.records[i].message_id == message_id {
                proof {
                    assert(with_message_id(message_id)(self.records@[i as int]));
                    lemma_first_where_is(self.records@, with_message_id(message_id), i as int);
                }
                self.records.remove(i);
                proof {
                    let o = old(self).records@;
                    o.remove_ensures(i as int);
                    assert forall|p: int, q: int|
                        0 <= p < q < self.records@.len() implies self.records@[p].message_id
                        != self.records@[q].message_id by {
                        let pp: int = if p < i { p } else { p + 1 };
                        let qq: int = if q < i { q } else { q + 1 };
                        assert(self.records@[p] == o[pp]);
                        assert(self.records@[q] == o[qq]);
                    }
                }
                return true;
            }
            proof {
                assert(!(with_message_id(message_id)(self.records@[i as int])));
            }
            i += 1;
        }
        proof {
            lemma_first_where_none(self.records@, with_message_id(message_id));
        }
        false
    }
}

/// Checks that the acting user may touch a relayed message: the recorded
/// original author always may, anyone else is denied; with no user given
/// (an internal lookup) the check passes.
pub fn require_message_owner(record: &DBMessage, user_id: Option<u64>) -> (r: Result<
    (),
    ProxyError,
>)
    ensures
        match user_id {
            Some(u) => r == (if record.user_id == u {
                Ok::<(), ProxyError>(())
            } else {
                Err::<(), ProxyError>(ProxyError::PermissionDenied)
            }),
            None => r == Ok::<(), ProxyError>(()),
        },
{
    match user_id {
        Some(u) => {
            if record.user_id == u {
                Ok(())
            } else {
                Err(ProxyError::PermissionDenied)
            }
        },
        None => Ok(()),
    }
}

/// The reactions the handler distinguishes: the retract emoji, the info
/// emoji, and everything else.
#[derive(Clone, Copy, Debug, PartialEq, Eq, Structural)]
pub enum ReactionKind {
    Retract,
    Info,
    Other,
}

/// What a reaction against a relayed message leads to.
#[derive(Clone, Copy, Debug, PartialEq, Eq, Structural)]
pub enum ReactionResponse {
    /// Delete the relayed message through its identity handle, then remove
    /// its relay record.
    DeleteRelayed,
    /// Privately send the reacting user the message's info summary, then
    /// remove the triggering reaction.
    SendInfo,
    /// Do nothing.
    Nothing,
}

/// Interprets one reaction against a relayed message: a retract reaction
/// deletes the message only when it comes from the recorded original
/// author; an info reaction is answered whoever reacts; anything else is
/// ignored.
pub fn handle_reaction(record: &DBMessage, reactor_id: u64, kind: &ReactionKind) -> (r:
    ReactionResponse)
    ensures
        r is DeleteRelayed <==> kind is Retract && record.user_id == reactor_id,
        r is SendInfo <==> kind is Info,
        r is Nothing <==> (kind is Retract && record.user_id != reactor_id) || kind is Other,
{
    match kind {
        ReactionKind::Retract => {
            if record.user_id == reactor_id {
                ReactionResponse::DeleteRelayed
            } else {
                ReactionResponse::Nothing
            }
        },
        ReactionKind::Info => ReactionResponse::SendInfo,
        ReactionKind::Other => ReactionResponse::Nothing,
    }
}

/// The fields of the private summary an info reaction is answered with.
#[derive(Clone, Debug, PartialEq)]
pub struct InfoSummary {
    /// The owning account, as a platform mention.
    pub user_field: String,
    /// The persona the message was relayed as, or `Unknown`.
    pub mate_field: String,
    /// A clamped copy of the relayed content with a jump link.
    pub message_field: String,
    /// The original timestamp, as a platform timestamp tag.
    pub timestamp_field: String,
}

/// Assembles the info summary for a relayed message: who owns it, which
/// persona sent it (resolved best-effort; an unresolvable persona reads
/// `Unknown`), its clamped content with a jump link, and its timestamp.
pub fn build_info_summary(
    record: &DBMessage,
    mate: &Option<DBMate>,
    relayed_content: &String,
    jump_link: &String,
    timestamp: u64,
) -> (r: InfoSummary)
    ensures
        r.user_field@ == "<@"@ + crate::text::dec_of(record.user_id as int) + ">"@,
        r.mate_field@ == info_label_spec(match mate {
            Some(m) => Some(*m),
            None => None,
        }),
        r.message_field@ == crate::messages::reply_description_spec(
            relayed_content@,
            jump_link@,
        ),
        r.timestamp_field@ == "<t:"@ + crate::text::dec_of(timestamp as int) + ">"@,
{
    InfoSummary {
        user_field: String::from_str("<@").concat(
            crate::text::u64_to_dec(record.user_id).as_str(),
        ).concat(">"),
        mate_field: info_mate_label(mate),
        message_field: crate::messages::reply_embed_description(relayed_content, jump_link),
        timestamp_field: String::from_str("<t:").concat(
            crate::text::u64_to_dec(timestamp).as_str(),
        ).concat(">"),
    }
}

/// The persona line of an info summary: the display name with the persona
/// name in parentheses, the bare persona name without a display name, and
/// `Unknown` when the persona cannot be resolved any more.
pub open spec fn info_label_spec(mate: Option<DBMate>) -> Seq<char> {
    match mate {
        None => "Unknown"@,
        Some(m) => match m.display_name {
            Some(d) => d@ + " ("@ + m.name@ + ")"@,
            None => m.name@,
        },
    }
}

/// Renders the persona line of an info summary.
pub fn info_mate_label(mate: &Option<DBMate>) -> (r: String)
    ensures
        r@ == info_label_spec(match mate {
            Some(m) => Some(*m),
            None => None,
        }),
{
    match mate {
        None => {
            let r = String::from_str("Unknown");
            r
        },
        Some(m) => match &m.display_name {
            Some(d) => d.clone().concat(" (").concat(m.name.as_str()).concat(")"),
            None => m.name.clone(),
        },
    }
}

} // verus!
