//! Per-(owner, scope) autoproxy settings: lazy row creation, one-level
//! guild-to-global inheritance, and the latch updater.

use vstd::prelude::*;

use crate::models::{AutoproxySettings, DBUserSettings, Latch};

verus! {

/// The choice a settings command offers for the autoproxy mode.
#[derive(Clone, Debug, PartialEq)]
pub enum AutoproxySlashOptions {
    Disabled,
    SwitchedIn,
    Latch,
}

impl AutoproxySlashOptions {
    /// The stored mode this choice stands for; a persona name given along
    /// with it always wins and pins that name.
    pub fn into_dbsettings(&self, mate_name: Option<String>) -> (r: AutoproxySettings)
        ensures
            r == (match mate_name {
                Some(n) => AutoproxySettings::Mate(n),
                None => match self {
                    AutoproxySlashOptions::Disabled => AutoproxySettings::Disabled,
                    AutoproxySlashOptions::SwitchedIn => AutoproxySettings::SwitchedIn,
                    AutoproxySlashOptions::Latch => AutoproxySettings::Latch(Latch::Global(None)),
                },
            }),
    {
        if let Some(mate_name) = mate_name {
            AutoproxySettings::Mate(mate_name)
        } else {
            match self {
                AutoproxySlashOptions::Disabled => AutoproxySettings::Disabled,
                AutoproxySlashOptions::SwitchedIn => AutoproxySettings::SwitchedIn,
                AutoproxySlashOptions::Latch => AutoproxySettings::Latch(Latch::Global(None)),
            }
        }
    }
}

/// Rescopes a latch request: a guild-only request starts with an empty guild
/// slot, any other latch request with an empty global slot; other modes pass
/// through.
pub fn scope_latch(a: AutoproxySettings, guild_only: bool) -> (r: AutoproxySettings)
    ensures
        r == (match a {
            AutoproxySettings::Latch(_) => if guild_only {
                AutoproxySettings::Latch(Latch::Guild(None))
            } else {
                AutoproxySettings::Latch(Latch::Global(None))
            },
            _ => a,
        }),
{
    match a {
        AutoproxySettings::Latch(_) => {
            if guild_only {
                AutoproxySettings::Latch(Latch::Guild(None))
            } else {
                AutoproxySettings::Latch(Latch::Global(None))
            }
        },
        other => other,
    }
}

/// The row created on first touch of a scope: guild rows start unset (they
/// inherit), the global row starts at `SwitchedIn` with sed editing on.
pub open spec fn default_settings_spec(user_id: u64, guild_id: Option<i64>) -> DBUserSettings {
    DBUserSettings {
        user_id,
        guild_id,
        autoproxy: if guild_id is Some {
            None
        } else {
            Some(AutoproxySettings::SwitchedIn)
        },
        regex_sed_editing: if guild_id is Some {
            None
        } else {
            Some(true)
        },
    }
}

/// Builds the default row for a scope.
pub fn default_user_settings(user_id: u64, guild_id: Option<i64>) -> (r: DBUserSettings)
    ensures
        r == default_settings_spec(user_id, guild_id),
{
    if guild_id.is_some() {
        DBUserSettings { user_id, guild_id, autoproxy: None, regex_sed_editing: None }
    } else {
        DBUserSettings {
            user_id,
            guild_id,
            autoproxy: Some(AutoproxySettings::SwitchedIn),
            regex_sed_editing: Some(true),
        }
    }
}

/// The mode a resolution request ends up with: an explicitly set mode on the
/// requested row wins; a guild row with unset mode takes the global row's
/// mode; rows created on the spot behave like their defaults.
pub open spec fn effective_autoproxy(
    existing: Option<DBUserSettings>,
    global: Option<DBUserSettings>,
    guild_id: Option<i64>,
) -> Option<AutoproxySettings> {
    match existing {
        Some(s) => if s.autoproxy is Some {
            s.autoproxy
        } else if guild_id is Some {
            match global {
                Some(g) => g.autoproxy,
                None => None,
            }
        } else {
            None
        },
        None => if guild_id is Some {
            match global {
                Some(g) => g.autoproxy,
                None => Some(AutoproxySettings::SwitchedIn),
            }
        } else {
            Some(AutoproxySettings::SwitchedIn)
        },
    }
}

/// A guild row with unset mode resolves to the global row's mode, and an
/// explicitly set guild mode overrides the global row.
pub proof fn lemma_guild_mode_inheritance(s: DBUserSettings, g: DBUserSettings)
    requires
        s.guild_id is Some,
    ensures
        s.autoproxy is None ==> effective_autoproxy(Some(s), Some(g), s.guild_id) == g.autoproxy,
        s.autoproxy is Some ==> effective_autoproxy(Some(s), Some(g), s.guild_id) == s.autoproxy,
{
}

/// Fills the unset mode of a row from a fallback row.
fn fallback(settings: &mut DBUserSettings, fallback_settings: DBUserSettings)
    ensures
        final(settings).user_id == old(settings).user_id,
        final(settings).guild_id == old(settings).guild_id,
        final(settings).regex_sed_editing == old(settings).regex_sed_editing,
        final(settings).autoproxy == (if old(settings).autoproxy is Some {
            old(settings).autoproxy
        } else {
            fallback_settings.autoproxy
        }),
{
    if settings.autoproxy.is_none() {
        settings.autoproxy = fallback_settings.autoproxy;
    }
}

/// Resolves the effective settings row for `(user_id, guild_id)` from the
/// rows the store already holds: `existing` is the row stored under that
/// exact key, `global` the owner's global row. Returns the effective row
/// together with the default rows that the store is missing and should
/// create (the requested scope's, and for a guild request the global one).
pub fn get_or_create_user_settings(
    existing: Option<DBUserSettings>,
    global: Option<DBUserSettings>,
    user_id: u64,
    guild_id: Option<i64>,
) -> (r: (DBUserSettings, Vec<DBUserSettings>))
    requires
        existing matches Some(s) ==> s.user_id == user_id && s.guild_id == guild_id,
        global matches Some(g) ==> g.user_id == user_id && g.guild_id is None,
    ensures
        r.0.user_id == user_id,
        r.0.guild_id == guild_id,
        r.0.autoproxy == effective_autoproxy(existing, global, guild_id),
        r.0.regex_sed_editing == (match existing {
            Some(s) => s.regex_sed_editing,
            None => default_settings_spec(user_id, guild_id).regex_sed_editing,
        }),
        r.1@.len() == (match existing {
            Some(_) => 0int,
            None => if guild_id is Some && global is None {
                2int
            } else {
                1int
            },
        }),
        existing is None ==> r.1@[0] == default_settings_spec(user_id, guild_id),
        existing is None && guild_id is Some && global is None ==> r.1@[1]
            == default_settings_spec(user_id, None),
{
    match existing {
        Some(mut s) => {
            if guild_id.is_some() {
                if let Some(g) = global {
                    fallback(&mut s, g);
                }
            }
            (s, Vec::new())
        },
        None => {
            let mut new_settings = default_user_settings(user_id, guild_id);
            let mut inserts: Vec<DBUserSettings> = Vec::new();
            inserts.push(default_user_settings(user_id, guild_id));
            if guild_id.is_some() {
                match global {
                    Some(g) => {
                        fallback(&mut new_settings, g);
                    },
                    None => {
                        let new_global = default_user_settings(user_id, None);
                        inserts.push(default_user_settings(user_id, None));
                        fallback(&mut new_settings, new_global);
                    },
                }
            }
            (new_settings, inserts)
        },
    }
}

/// A copy of `settings` whose mode is overwritten when a new one is given.
pub fn update_user_settings(settings: DBUserSettings, autoproxy: Option<AutoproxySettings>) -> (r:
    DBUserSettings)
    ensures
        r == (DBUserSettings {
            autoproxy: if autoproxy is Some {
                autoproxy
            } else {
                settings.autoproxy
            },
            ..settings
        }),
{
    match autoproxy {
        Some(a) => DBUserSettings { autoproxy: Some(a), ..settings },
        None => settings,
    }
}

/// The latch updater: after a manual match, the slot of the scope the
/// resolved mode came from is overwritten with `new`. A mode resolved from
/// the global row rewrites the global row's slot, one resolved from a guild
/// override rewrites the guild row's slot; any other mode updates nothing.
pub fn update_latch(
    guild_settings: &DBUserSettings,
    global_settings: &DBUserSettings,
    new: Option<String>,
) -> (r: Option<DBUserSettings>)
    ensures
        match guild_settings.autoproxy {
            Some(AutoproxySettings::Latch(Latch::Global(_))) => r == Some(
                DBUserSettings {
                    autoproxy: Some(AutoproxySettings::Latch(Latch::Global(new))),
                    ..*global_settings
                },
            ),
            Some(AutoproxySettings::Latch(Latch::Guild(_))) => r == Some(
                DBUserSettings {
                    autoproxy: Some(AutoproxySettings::Latch(Latch::Guild(new))),
                    ..*guild_settings
                },
            ),
            _ => r is None,
        },
{
    match &guild_settings.autoproxy {
        Some(AutoproxySettings::Latch(Latch::Global(_))) => Some(
            DBUserSettings {
                user_id: global_settings.user_id,
                guild_id: global_settings.guild_id,
                autoproxy: Some(AutoproxySettings::Latch(Latch::Global(new))),
                regex_sed_editing: global_settings.regex_sed_editing,
            },
        ),
        Some(AutoproxySettings::Latch(Latch::Guild(_))) => Some(
            DBUserSettings {
                user_id: guild_settings.user_id,
                guild_id: guild_settings.guild_id,
                autoproxy: Some(AutoproxySettings::Latch(Latch::Guild(new))),
                regex_sed_editing: guild_settings.regex_sed_editing,
            },
        ),
        _ => None,
    }
}

} // verus!
