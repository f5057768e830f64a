use multiplex::mates::{get_autoproxied_mate, get_matching_mate};
use multiplex::messages::{parse_selector, prepare_proxied_message, strip_tag};
use multiplex::models::{
    apply_switch, apply_unswitch, AutoproxySettings, DBCollective, DBMate, DBUserSettings, Latch,
    Signature,
};

fn mate(name: &str, prefix: Option<&str>, postfix: Option<&str>) -> DBMate {
    DBMate {
        id: None,
        user_id: 1,
        autoproxy: false,
        name: name.to_string(),
        avatar: "https://example.test/avatar.png".to_string(),
        is_public: true,
        bio: None,
        prefix: prefix.map(|s| s.to_string()),
        postfix: postfix.map(|s| s.to_string()),
        pronouns: None,
        signature: None,
        display_name: None,
    }
}

fn collective() -> DBCollective {
    DBCollective {
        id: None,
        user_id: 1,
        is_public: true,
        name: None,
        bio: None,
        pronouns: None,
        collective_tag: None,
        switch_logs: None,
    }
}

#[test]
fn bracket_tag_selects_and_strips() {
    // A persona with prefix `[` and suffix `]`: the message `[hello world]`
    // matches it and relays as exactly `hello world`.
    let mates = vec![mate("Sam", Some("["), Some("]"))];
    let text = "[hello world]".to_string();
    let found = get_matching_mate(&mates, &text).expect("tag should match");
    assert_eq!(found.name, "Sam");
    let stripped = strip_tag(&text, &found.prefix, &found.postfix);
    assert_eq!(stripped, "hello world");
}

#[test]
fn scenario_bracket_relay_shows_persona_name() {
    let mates = vec![mate("Sam", Some("["), Some("]"))];
    let text = "[hello world]".to_string();
    let found = get_matching_mate(&mates, &text).expect("tag should match");
    let plan = prepare_proxied_message(
        found,
        &collective(),
        &text,
        &None,
        &Vec::new(),
        None,
        &"https://example.test/default.png".to_string(),
    );
    assert_eq!(plan.content, "hello world");
    assert_eq!(plan.username, "Sam");
    assert_eq!(plan.avatar_url, "https://example.test/avatar.png");
    assert!(plan.embed_description.is_none());
}

#[test]
fn untagged_personas_never_match() {
    let mates = vec![mate("Quiet", None, None)];
    for text in ["", "Quiet", "[x]", "anything at all"] {
        assert!(get_matching_mate(&mates, &text.to_string()).is_none());
    }
}

#[test]
fn first_registered_persona_wins_ambiguity() {
    // A with prefix `A:` and B with prefix `A:B:`, registered in that order:
    // `A:B:hi` matches A first.
    let mates = vec![mate("A", Some("A:"), None), mate("B", Some("A:B:"), None)];
    let found = get_matching_mate(&mates, &"A:B:hi".to_string()).expect("should match");
    assert_eq!(found.name, "A");
}

#[test]
fn prefix_only_and_postfix_only_tags() {
    let mates = vec![mate("P", Some("p!"), None), mate("S", None, Some("!s"))];
    assert_eq!(
        get_matching_mate(&mates, &"p!hello".to_string()).unwrap().name,
        "P"
    );
    assert_eq!(
        get_matching_mate(&mates, &"hello !s".to_string()).unwrap().name,
        "S"
    );
    assert!(get_matching_mate(&mates, &"hello".to_string()).is_none());
}

#[test]
fn strip_tolerates_absent_sides() {
    // Only what is present is stripped.
    let pre = Some("[".to_string());
    let post = Some("]".to_string());
    assert_eq!(strip_tag(&"[open".to_string(), &pre, &post), "open");
    assert_eq!(strip_tag(&"close]".to_string(), &pre, &post), "close");
    assert_eq!(strip_tag(&"plain".to_string(), &pre, &post), "plain");
    assert_eq!(strip_tag(&"[]".to_string(), &pre, &post), "");
}

#[test]
fn parse_selector_splits_at_marker() {
    assert_eq!(
        parse_selector(Some("[text]".to_string())),
        (Some("[".to_string()), Some("]".to_string()))
    );
    assert_eq!(
        parse_selector(Some("<<text".to_string())),
        (Some("<<".to_string()), Some("".to_string()))
    );
    // No marker: everything is prefix.
    assert_eq!(
        parse_selector(Some(">>".to_string())),
        (Some(">>".to_string()), None)
    );
    assert_eq!(parse_selector(None), (None, None));
}

#[test]
fn signature_parse_mirrors_selector_split() {
    let sig = Signature::parse("~text~".to_string());
    assert_eq!(sig.prefix, "~");
    assert_eq!(sig.postfix, "~");
    let sig = Signature::parse("--".to_string());
    assert_eq!(sig.prefix, "--");
    assert_eq!(sig.postfix, "");
}

#[test]
fn switch_keeps_at_most_one_pin() {
    let mut mates = vec![
        mate("A", None, None),
        mate("B", None, None),
        mate("C", None, None),
    ];
    assert!(apply_switch(&mut mates, &"B".to_string()));
    assert!(!mates[0].autoproxy && mates[1].autoproxy && !mates[2].autoproxy);
    assert!(apply_switch(&mut mates, &"C".to_string()));
    assert!(!mates[0].autoproxy && !mates[1].autoproxy && mates[2].autoproxy);
    assert_eq!(mates.iter().filter(|m| m.autoproxy).count(), 1);
    // A name nobody carries changes nothing.
    assert!(!apply_switch(&mut mates, &"missing".to_string()));
    assert!(mates[2].autoproxy);
    apply_unswitch(&mut mates);
    assert_eq!(mates.iter().filter(|m| m.autoproxy).count(), 0);
}

#[test]
fn switched_in_mode_selects_pinned_persona() {
    let mut mates = vec![mate("A", None, None), mate("B", None, None)];
    assert!(apply_switch(&mut mates, &"B".to_string()));
    let settings = DBUserSettings {
        user_id: 1,
        guild_id: None,
        autoproxy: Some(AutoproxySettings::SwitchedIn),
        regex_sed_editing: None,
    };
    let chosen = get_autoproxied_mate(&settings, &mates, 7).expect("pinned persona");
    assert_eq!(chosen.name, "B");
}

#[test]
fn disabled_and_unset_modes_select_nothing() {
    let mut mates = vec![mate("A", None, None)];
    assert!(apply_switch(&mut mates, &"A".to_string()));
    for autoproxy in [Some(AutoproxySettings::Disabled), None] {
        let settings = DBUserSettings {
            user_id: 1,
            guild_id: None,
            autoproxy,
            regex_sed_editing: None,
        };
        assert!(get_autoproxied_mate(&settings, &mates, 7).is_none());
    }
}

#[test]
fn named_mode_tolerates_deleted_persona() {
    let mates = vec![mate("A", None, None)];
    let settings = DBUserSettings {
        user_id: 1,
        guild_id: None,
        autoproxy: Some(AutoproxySettings::Mate("Gone".to_string())),
        regex_sed_editing: None,
    };
    assert!(get_autoproxied_mate(&settings, &mates, 7).is_none());
    let settings = DBUserSettings {
        autoproxy: Some(AutoproxySettings::Mate("A".to_string())),
        ..settings
    };
    assert_eq!(get_autoproxied_mate(&settings, &mates, 7).unwrap().name, "A");
}

#[test]
fn guild_latch_slot_resolves_in_its_guild_only() {
    // Latch(guild) slot `X` in guild G resolves to persona X; an empty
    // global slot resolves to nothing.
    let mates = vec![mate("X", None, None), mate("Y", None, None)];
    let guild_g: u64 = 77;
    let settings = DBUserSettings {
        user_id: 1,
        guild_id: Some(guild_g as i64),
        autoproxy: Some(AutoproxySettings::Latch(Latch::Guild(Some("X".to_string())))),
        regex_sed_editing: None,
    };
    let chosen = get_autoproxied_mate(&settings, &mates, guild_g).expect("latched persona");
    assert_eq!(chosen.name, "X");
    // The same row consulted for another guild does not hand its slot out.
    assert!(get_autoproxied_mate(&settings, &mates, 88).is_none());
}

#[test]
fn global_latch_slot_resolves_anywhere() {
    let mates = vec![mate("X", None, None)];
    let settings = DBUserSettings {
        user_id: 1,
        guild_id: Some(88),
        autoproxy: Some(AutoproxySettings::Latch(Latch::Global(Some("X".to_string())))),
        regex_sed_editing: None,
    };
    assert_eq!(get_autoproxied_mate(&settings, &mates, 88).unwrap().name, "X");
    let empty_slot = DBUserSettings {
        autoproxy: Some(AutoproxySettings::Latch(Latch::Global(None))),
        ..settings
    };
    assert!(get_autoproxied_mate(&empty_slot, &mates, 88).is_none());
}
