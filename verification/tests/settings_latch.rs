use multiplex::models::{AutoproxySettings, DBMate, DBUserSettings, Latch};
use multiplex::relay::{decide_message, latch_action, MessageDecision};
use multiplex::settings::{
    default_user_settings, get_or_create_user_settings, scope_latch, update_latch,
    update_user_settings, AutoproxySlashOptions,
};

fn mate(name: &str, prefix: Option<&str>) -> DBMate {
    DBMate {
        id: None,
        user_id: 1,
        autoproxy: false,
        name: name.to_string(),
        avatar: String::new(),
        is_public: true,
        bio: None,
        prefix: prefix.map(|s| s.to_string()),
        postfix: None,
        pronouns: None,
        signature: None,
        display_name: None,
    }
}

fn row(guild_id: Option<i64>, autoproxy: Option<AutoproxySettings>) -> DBUserSettings {
    DBUserSettings {
        user_id: 1,
        guild_id,
        autoproxy,
        regex_sed_editing: None,
    }
}

#[test]
fn global_defaults_to_switched_in() {
    let (effective, inserts) = get_or_create_user_settings(None, None, 1, None);
    assert_eq!(effective.autoproxy, Some(AutoproxySettings::SwitchedIn));
    assert_eq!(effective.regex_sed_editing, Some(true));
    assert_eq!(inserts.len(), 1);
    assert_eq!(inserts[0].guild_id, None);
    assert_eq!(inserts[0].autoproxy, Some(AutoproxySettings::SwitchedIn));
}

#[test]
fn unset_guild_row_inherits_global_mode() {
    let guild = row(Some(9), None);
    let global = row(None, Some(AutoproxySettings::Latch(Latch::Global(Some("A".to_string())))));
    let (effective, inserts) =
        get_or_create_user_settings(Some(guild), Some(global), 1, Some(9));
    assert_eq!(
        effective.autoproxy,
        Some(AutoproxySettings::Latch(Latch::Global(Some("A".to_string()))))
    );
    assert_eq!(effective.guild_id, Some(9));
    assert!(inserts.is_empty());
}

#[test]
fn explicit_guild_mode_overrides_global() {
    let guild = row(Some(9), Some(AutoproxySettings::Disabled));
    let global = row(None, Some(AutoproxySettings::SwitchedIn));
    let (effective, _) = get_or_create_user_settings(Some(guild), Some(global), 1, Some(9));
    assert_eq!(effective.autoproxy, Some(AutoproxySettings::Disabled));
}

#[test]
fn missing_rows_are_created_lazily() {
    // A guild request with nothing stored creates the guild row and the
    // global row, and resolves to the global default.
    let (effective, inserts) = get_or_create_user_settings(None, None, 1, Some(9));
    assert_eq!(effective.autoproxy, Some(AutoproxySettings::SwitchedIn));
    assert_eq!(inserts.len(), 2);
    assert_eq!(inserts[0].guild_id, Some(9));
    assert_eq!(inserts[0].autoproxy, None);
    assert_eq!(inserts[1].guild_id, None);
    assert_eq!(inserts[1].autoproxy, Some(AutoproxySettings::SwitchedIn));
}

#[test]
fn default_rows_by_scope() {
    let g = default_user_settings(1, Some(4));
    assert_eq!(g.autoproxy, None);
    assert_eq!(g.regex_sed_editing, None);
    let d = default_user_settings(1, None);
    assert_eq!(d.autoproxy, Some(AutoproxySettings::SwitchedIn));
    assert_eq!(d.regex_sed_editing, Some(true));
}

#[test]
fn manual_match_updates_global_latch_slot() {
    // Mode Latch(global): a manual match on persona `A` rewrites the global
    // row's slot to `A`.
    let guild = row(Some(9), Some(AutoproxySettings::Latch(Latch::Global(None))));
    let global = row(None, Some(AutoproxySettings::Latch(Latch::Global(None))));
    let written = update_latch(&guild, &global, Some("A".to_string())).expect("a row to write");
    assert_eq!(written.guild_id, None);
    assert_eq!(
        written.autoproxy,
        Some(AutoproxySettings::Latch(Latch::Global(Some("A".to_string()))))
    );
}

#[test]
fn manual_match_updates_guild_latch_slot() {
    let guild = row(Some(9), Some(AutoproxySettings::Latch(Latch::Guild(None))));
    let global = row(None, Some(AutoproxySettings::SwitchedIn));
    let written = update_latch(&guild, &global, Some("A".to_string())).expect("a row to write");
    assert_eq!(written.guild_id, Some(9));
    assert_eq!(
        written.autoproxy,
        Some(AutoproxySettings::Latch(Latch::Guild(Some("A".to_string()))))
    );
}

#[test]
fn other_modes_never_touch_the_latch() {
    for mode in [
        None,
        Some(AutoproxySettings::Disabled),
        Some(AutoproxySettings::SwitchedIn),
        Some(AutoproxySettings::Mate("A".to_string())),
    ] {
        let guild = row(Some(9), mode);
        let global = row(None, Some(AutoproxySettings::SwitchedIn));
        assert!(update_latch(&guild, &global, Some("A".to_string())).is_none());
    }
}

#[test]
fn autoproxy_derived_match_leaves_latch_alone() {
    // Same Latch(global) mode, but the persona came from the autoproxy
    // fallback: the slot stays untouched.
    let guild = row(Some(9), Some(AutoproxySettings::Latch(Latch::Global(Some("Old".to_string())))));
    let global = row(None, Some(AutoproxySettings::Latch(Latch::Global(Some("Old".to_string())))));
    let decision = MessageDecision::Proxy {
        mate: mate("A", None),
        manual: false,
    };
    assert!(latch_action(&decision, &guild, &global).is_none());
}

#[test]
fn manual_decision_drives_latch_action() {
    let guild = row(Some(9), Some(AutoproxySettings::Latch(Latch::Global(None))));
    let global = row(None, Some(AutoproxySettings::Latch(Latch::Global(None))));
    let decision = MessageDecision::Proxy {
        mate: mate("A", Some("[")),
        manual: true,
    };
    let written = latch_action(&decision, &guild, &global).expect("a row to write");
    assert_eq!(
        written.autoproxy,
        Some(AutoproxySettings::Latch(Latch::Global(Some("A".to_string()))))
    );
    // The latch-clearing escape empties the slot instead.
    let cleared = latch_action(&MessageDecision::ClearLatch, &guild, &global)
        .expect("a row to write");
    assert_eq!(
        cleared.autoproxy,
        Some(AutoproxySettings::Latch(Latch::Global(None)))
    );
}

#[test]
fn decide_message_prefers_manual_match() {
    let mates = vec![mate("A", Some("a!")), mate("B", Some("b!"))];
    let settings = row(Some(9), Some(AutoproxySettings::Mate("B".to_string())));
    match decide_message(&"a!hi".to_string(), false, false, &mates, &settings, 9) {
        MessageDecision::Proxy { mate, manual } => {
            assert_eq!(mate.name, "A");
            assert!(manual);
        }
        other => panic!("expected a manual proxy decision, got {:?}", other),
    }
}

#[test]
fn decide_message_falls_back_to_autoproxy() {
    let mates = vec![mate("A", Some("a!")), mate("B", Some("b!"))];
    let settings = row(Some(9), Some(AutoproxySettings::Mate("B".to_string())));
    match decide_message(&"no tag here".to_string(), false, false, &mates, &settings, 9) {
        MessageDecision::Proxy { mate, manual } => {
            assert_eq!(mate.name, "B");
            assert!(!manual);
        }
        other => panic!("expected an autoproxy decision, got {:?}", other),
    }
}

#[test]
fn decide_message_escapes_and_skips() {
    let mates = vec![mate("A", Some("a!"))];
    let settings = row(Some(9), Some(AutoproxySettings::SwitchedIn));
    assert_eq!(
        decide_message(&"\\\\done".to_string(), false, false, &mates, &settings, 9),
        MessageDecision::ClearLatch
    );
    assert_eq!(
        decide_message(&"\\a!quiet".to_string(), false, false, &mates, &settings, 9),
        MessageDecision::Skip
    );
    // Bot authors, voice messages and ownerless lists are passed through.
    assert_eq!(
        decide_message(&"a!hi".to_string(), true, false, &mates, &settings, 9),
        MessageDecision::Skip
    );
    assert_eq!(
        decide_message(&"a!hi".to_string(), false, true, &mates, &settings, 9),
        MessageDecision::Skip
    );
    assert_eq!(
        decide_message(&"a!hi".to_string(), false, false, &Vec::new(), &settings, 9),
        MessageDecision::Skip
    );
}

#[test]
fn latched_guild_and_global_resolution_end_to_end() {
    // Guild G has a guild-scoped latch with slot `X`; guild H has no
    // override and falls back to the global mode (SwitchedIn, pinned `P`).
    let guild_g: i64 = 100;
    let mut mates = vec![mate("X", None), mate("P", None)];
    assert!(multiplex::models::apply_switch(&mut mates, &"P".to_string()));

    let g_row = row(
        Some(guild_g),
        Some(AutoproxySettings::Latch(Latch::Guild(Some("X".to_string())))),
    );
    let global_row = row(None, Some(AutoproxySettings::SwitchedIn));

    let (effective_g, _) =
        get_or_create_user_settings(Some(g_row), Some(global_row.clone()), 1, Some(guild_g));
    let chosen_g =
        multiplex::mates::get_autoproxied_mate(&effective_g, &mates, guild_g as u64).unwrap();
    assert_eq!(chosen_g.name, "X");

    // Guild H: no stored row; the effective row inherits the global mode.
    let (effective_h, _) =
        get_or_create_user_settings(None, Some(global_row), 1, Some(200));
    let chosen_h = multiplex::mates::get_autoproxied_mate(&effective_h, &mates, 200).unwrap();
    assert_eq!(chosen_h.name, "P");
}

#[test]
fn slash_options_map_to_modes() {
    assert_eq!(
        AutoproxySlashOptions::Disabled.into_dbsettings(None),
        AutoproxySettings::Disabled
    );
    assert_eq!(
        AutoproxySlashOptions::SwitchedIn.into_dbsettings(None),
        AutoproxySettings::SwitchedIn
    );
    assert_eq!(
        AutoproxySlashOptions::Latch.into_dbsettings(None),
        AutoproxySettings::Latch(Latch::Global(None))
    );
    // A persona name always wins.
    assert_eq!(
        AutoproxySlashOptions::Disabled.into_dbsettings(Some("A".to_string())),
        AutoproxySettings::Mate("A".to_string())
    );
}

#[test]
fn latch_request_is_rescoped() {
    assert_eq!(
        scope_latch(AutoproxySettings::Latch(Latch::Global(Some("A".to_string()))), true),
        AutoproxySettings::Latch(Latch::Guild(None))
    );
    assert_eq!(
        scope_latch(AutoproxySettings::Latch(Latch::Guild(None)), false),
        AutoproxySettings::Latch(Latch::Global(None))
    );
    assert_eq!(
        scope_latch(AutoproxySettings::Disabled, true),
        AutoproxySettings::Disabled
    );
}

#[test]
fn update_user_settings_overwrites_only_given_mode() {
    let base = row(None, Some(AutoproxySettings::SwitchedIn));
    let updated = update_user_settings(base.clone(), Some(AutoproxySettings::Disabled));
    assert_eq!(updated.autoproxy, Some(AutoproxySettings::Disabled));
    let kept = update_user_settings(base, None);
    assert_eq!(kept.autoproxy, Some(AutoproxySettings::SwitchedIn));
}
