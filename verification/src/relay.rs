//! The relay executor's decisions: whether an inbound message is relayed at
//! all, as which persona, and what the latch keeps of it.
//!
//! The platform work around these decisions — the send, the delete of the
//! original, the ledger write — runs outside the library; its required
//! order (send first, delete and record only after a successful send) is
//! the caller's contract.

use vstd::prelude::*;

use crate::mates::{autoproxy_choice, get_autoproxied_mate, get_matching_mate, matching};
use crate::models::{clone_mate, AutoproxySettings, DBMate, DBUserSettings, Latch};
use crate::settings::update_latch;
use crate::text::{first_where, starts_with, starts_with_spec};

verus! {

/// What one inbound message leads to.
#[derive(Clone, Debug, PartialEq)]
pub enum MessageDecision {
    /// Nothing is relayed and nothing changes.
    Skip,
    /// The message is the latch-clearing escape: clear the resolved scope's
    /// latch slot and relay nothing.
    ClearLatch,
    /// Relay the message as this persona; `manual` says a tag match (not
    /// the autoproxy) selected it.
    Proxy { mate: DBMate, manual: bool },
}

/// Decides one message event. Bot authors, voice messages and owners
/// without personas are passed through untouched; the double-escape prefix
/// clears the latch; the single escape suppresses relaying; otherwise the
/// first tag match wins and, failing that, the autoproxy fallback; with
/// neither, the message is passed through.
pub fn decide_message(
    content: &String,
    author_is_bot: bool,
    is_voice: bool,
    mates: &Vec<DBMate>,
    settings: &DBUserSettings,
    guild_id: u64,
) -> (r: MessageDecision)
    ensures
        (author_is_bot || is_voice || mates@.len() == 0) ==> r is Skip,
        !(author_is_bot || is_voice || mates@.len() == 0) ==> (if starts_with_spec(
            content@,
            seq!['\\', '\\'],
        ) {
            r is ClearLatch
        } else if starts_with_spec(content@, seq!['\\']) {
            r is Skip
        } else {
            match first_where(mates@, matching(content@)) {
                Some(k) => r matches MessageDecision::Proxy { mate, manual } && mate == mates@[k]
                    && manual,
                None => match autoproxy_choice(*settings, mates@, guild_id) {
                    Some(k) => r matches MessageDecision::Proxy { mate, manual } && mate
                        == mates@[k] && !manual,
                    None => r is Skip,
                },
            }
        }),
{
    if author_is_bot || is_voice || mates.len() == 0 {
        return MessageDecision::Skip;
    }
    proof {
        reveal_strlit("\\\\");
        reveal_strlit("\\");
        assert("\\\\"@ =~= seq!['\\', '\\']);
        assert("\\"@ =~= seq!['\\']);
    }
    if starts_with(content.as_str(), "\\\\") {
        return MessageDecision::ClearLatch;
    }
    if starts_with(content.as_str(), "\\") {
        return MessageDecision::Skip;
    }
    match get_matching_mate(mates, content) {
        Some(m) => MessageDecision::Proxy { mate: clone_mate(m), manual: true },
        None => {
            match get_autoproxied_mate(settings, mates, guild_id) {
                Some(m) => MessageDecision::Proxy { mate: clone_mate(m), manual: false },
                None => MessageDecision::Skip,
            }
        },
    }
}

/// Decides one message-edit event: like a fresh message, but without the
/// escape sequences and without any latch effect.
pub fn decide_edit(
    content: &String,
    author_is_bot: bool,
    mates: &Vec<DBMate>,
    settings: &DBUserSettings,
    guild_id: u64,
) -> (r: MessageDecision)
    ensures
        (author_is_bot || mates@.len() == 0) ==> r is Skip,
        !(author_is_bot || mates@.len() == 0) ==> (match first_where(mates@, matching(content@)) {
            Some(k) => r matches MessageDecision::Proxy { mate, manual } && mate == mates@[k]
                && manual,
            None => match autoproxy_choice(*settings, mates@, guild_id) {
                Some(k) => r matches MessageDecision::Proxy { mate, manual } && mate == mates@[k]
                    && !manual,
                None => r is Skip,
            },
        }),
        !(r is ClearLatch),
{
    if author_is_bot || mates.len() == 0 {
        return MessageDecision::Skip;
    }
    match get_matching_mate(mates, content) {
        Some(m) => MessageDecision::Proxy { mate: clone_mate(m), manual: true },
        None => {
            match get_autoproxied_mate(settings, mates, guild_id) {
                Some(m) => MessageDecision::Proxy { mate: clone_mate(m), manual: false },
                None => MessageDecision::Skip,
            }
        },
    }
}

/// The settings row the latch writes back after a decision, if any: only a
/// manual match stores its persona's name, only the latch escape clears the
/// slot, and an autoproxy-derived match never touches it. The row written
/// is the one the resolved `Latch` scope points at.
pub fn latch_action(
    decision: &MessageDecision,
    guild_settings: &DBUserSettings,
    global_settings: &DBUserSettings,
) -> (r: Option<DBUserSettings>)
    ensures
        match decision {
            MessageDecision::Skip => r is None,
            MessageDecision::ClearLatch => latch_write_spec(
                r,
                *guild_settings,
                *global_settings,
                None,
            ),
            MessageDecision::Proxy { mate, manual } => if *manual {
                latch_write_spec(r, *guild_settings, *global_settings, Some(mate.name))
            } else {
                r is None
            },
        },
{
    match decision {
        MessageDecision::Skip => None,
        MessageDecision::ClearLatch => update_latch(guild_settings, global_settings, None),
        MessageDecision::Proxy { mate, manual } => {
            if *manual {
                update_latch(guild_settings, global_settings, Some(mate.name.clone()))
            } else {
                None
            }
        },
    }
}

/// What the latch updater writes for a slot value `new`: the global row
/// when the resolved mode is a global latch, the guild row when it is a
/// guild latch, nothing under any other mode.
pub open spec fn latch_write_spec(
    r: Option<DBUserSettings>,
    guild_settings: DBUserSettings,
    global_settings: DBUserSettings,
    new: Option<String>,
) -> bool {
    match guild_settings.autoproxy {
        Some(AutoproxySettings::Latch(Latch::Global(_))) => r == Some(
            DBUserSettings {
                autoproxy: Some(AutoproxySettings::Latch(Latch::Global(new))),
                ..global_settings
            },
        ),
        Some(AutoproxySettings::Latch(Latch::Guild(_))) => r == Some(
            DBUserSettings {
                autoproxy: Some(AutoproxySettings::Latch(Latch::Guild(new))),
                ..guild_settings
            },
        ),
        _ => r is None,
    }
}

/// Under a globally resolved latch mode, writing a manual match's persona
/// name leaves the global row remembering exactly that name; under a
/// guild-resolved latch mode, the guild row remembers it.
pub proof fn lemma_manual_match_sets_slot(
    guild_settings: DBUserSettings,
    global_settings: DBUserSettings,
    r: Option<DBUserSettings>,
    name: String,
)
    requires
        latch_write_spec(r, guild_settings, global_settings, Some(name)),
    ensures
        guild_settings.autoproxy matches Some(AutoproxySettings::Latch(Latch::Global(_)))
            ==> r matches Some(row) && row.guild_id == global_settings.guild_id && row.autoproxy
            == Some(AutoproxySettings::Latch(Latch::Global(Some(name)))),
        guild_settings.autoproxy matches Some(AutoproxySettings::Latch(Latch::Guild(_)))
            ==> r matches Some(row) && row.guild_id == guild_settings.guild_id && row.autoproxy
            == Some(AutoproxySettings::Latch(Latch::Guild(Some(name)))),
{
}

/// The latch never moves on an autoproxy-derived match: only a manual match
/// (or the explicit latch-clearing escape) yields a row to write.
pub proof fn lemma_latch_only_after_manual(
    decision: MessageDecision,
    guild_settings: DBUserSettings,
    global_settings: DBUserSettings,
    r: Option<DBUserSettings>,
)
    requires
        decision matches MessageDecision::Proxy { mate, manual } && !manual,
        match decision {
            MessageDecision::Skip => r is None,
            MessageDecision::ClearLatch => latch_write_spec(
                r,
                guild_settings,
                global_settings,
                None,
            ),
            MessageDecision::Proxy { mate, manual } => if manual {
                latch_write_spec(r, guild_settings, global_settings, Some(mate.name))
            } else {
                r is None
            },
        },
    ensures
        r is None,
{
}

} // verus!
