use multiplex::models::{DBMate, Signature};
use multiplex::pluralkit::{Config, MemberPrivacy, SystemPrivacy};
use multiplex::relay::{decide_edit, MessageDecision};
use multiplex::tupperbox::Tupper;

fn base_mate() -> DBMate {
    DBMate {
        id: Some(3),
        user_id: 1,
        autoproxy: true,
        name: "Old".to_string(),
        avatar: "old.png".to_string(),
        is_public: false,
        bio: None,
        prefix: None,
        postfix: None,
        pronouns: None,
        signature: None,
        display_name: None,
    }
}

#[test]
fn constructors_take_fields_verbatim() {
    let m = DBMate::new(
        1,
        true,
        "Sam".to_string(),
        "a.png".to_string(),
        false,
        Some("bio".to_string()),
        Some("[".to_string()),
        Some("]".to_string()),
        None,
        Some("Sammy".to_string()),
        None,
        Some(8),
    );
    assert_eq!(m.name, "Sam");
    assert!(m.autoproxy && !m.is_public);
    assert_eq!(m.display_name.as_deref(), Some("Sammy"));
    assert_eq!(m.id, Some(8));

    let c = multiplex::models::DBCollective::new(
        1,
        true,
        Some("Us".to_string()),
        None,
        None,
        Some("| cast".to_string()),
        None,
        None,
    );
    assert_eq!(c.name.as_deref(), Some("Us"));
    assert_eq!(c.collective_tag.as_deref(), Some("| cast"));
    assert!(c.is_public);
}

#[test]
fn mate_edit_replaces_only_given_fields() {
    let mut m = base_mate();
    m.edit(
        Some("New".to_string()),
        None,
        Some("a bio".to_string()),
        None,
        Some("{text}".to_string()),
        Some(true),
        None,
        None,
    );
    assert_eq!(m.name, "New");
    assert_eq!(m.bio.as_deref(), Some("a bio"));
    assert_eq!(m.prefix.as_deref(), Some("{"));
    assert_eq!(m.postfix.as_deref(), Some("}"));
    assert!(m.is_public);
    assert_eq!(m.avatar, "old.png");
    assert_eq!(m.display_name, None);
    assert!(m.autoproxy);
    assert_eq!(m.id, Some(3));
}

#[test]
fn mate_edit_parses_signature() {
    let mut m = base_mate();
    m.edit(None, None, None, None, None, None, None, Some("-text-".to_string()));
    let sig = m.signature.expect("signature set");
    assert_eq!(sig.prefix, "-");
    assert_eq!(sig.postfix, "-");
    // A selector without the marker becomes all prefix and leaves the
    // postfix untouched.
    let mut m2 = base_mate();
    m2.edit(None, None, None, None, Some(">>".to_string()), None, None, None);
    assert_eq!(m2.prefix.as_deref(), Some(">>"));
    assert_eq!(m2.postfix, None);
}

#[test]
fn collective_edit_clears_tag_on_empty_string() {
    let mut c = multiplex::models::default_collective(1);
    c.edit(None, None, None, None, Some("| cast".to_string()));
    assert_eq!(c.collective_tag.as_deref(), Some("| cast"));
    c.edit(None, None, None, None, Some("".to_string()));
    assert_eq!(c.collective_tag, None);
    c.edit(Some("Us".to_string()), None, None, Some(false), None);
    assert_eq!(c.name.as_deref(), Some("Us"));
    assert!(!c.is_public);
}

#[test]
fn signature_parse_handles_marker_twice() {
    // Only the part between the first and second marker becomes the
    // postfix.
    let sig = Signature::parse("atextbtextc".to_string());
    assert_eq!(sig.prefix, "a");
    assert_eq!(sig.postfix, "b");
}

#[test]
fn tupper_converts_to_mate() {
    let t = Tupper {
        id: 4,
        name: "Imported".to_string(),
        avatar_url: String::new(),
        brackets: vec!["<".to_string(), ">".to_string()],
        posts: 12,
        show_brackets: false,
        description: Some("from elsewhere".to_string()),
        nick: Some("Immy".to_string()),
    };
    let m = t.to_mate(9, &"https://example.test/default.png".to_string());
    assert_eq!(m.user_id, 9);
    assert!(!m.autoproxy);
    assert_eq!(m.name, "Imported");
    assert_eq!(m.avatar, "https://example.test/default.png");
    assert_eq!(m.prefix.as_deref(), Some("<"));
    assert_eq!(m.postfix.as_deref(), Some(">"));
    assert_eq!(m.display_name.as_deref(), Some("Immy"));
    assert!(m.is_public);

    // Empty brackets mean no tag on that side; a stored avatar is kept.
    let t2 = Tupper {
        avatar_url: "https://example.test/own.png".to_string(),
        brackets: vec!["".to_string(), "]".to_string()],
        ..t
    };
    let m2 = t2.to_mate(9, &"https://example.test/default.png".to_string());
    assert_eq!(m2.avatar, "https://example.test/own.png");
    assert_eq!(m2.prefix, None);
    assert_eq!(m2.postfix.as_deref(), Some("]"));
}

#[test]
fn privacy_blocks_fill_every_field() {
    let s = SystemPrivacy::create_from_single("private");
    assert_eq!(s.description_privacy, "private");
    assert_eq!(s.front_history_privacy, "private");
    let m = MemberPrivacy::create_from_single("public");
    assert_eq!(m.visibility, "public");
    assert_eq!(m.metadata_privacy, "public");
}

#[test]
fn export_config_defaults() {
    let c = Config::default();
    assert_eq!(c.timezone, "UTC");
    assert!(c.case_sensitive_proxy_tags);
    assert!(!c.pings_enabled);
    assert_eq!(c.member_limit, 1000);
    assert_eq!(c.group_limit, 250);
}

#[test]
fn edits_relay_like_messages_but_never_latch() {
    let mates = vec![DBMate {
        prefix: Some("[".to_string()),
        postfix: Some("]".to_string()),
        ..base_mate()
    }];
    let settings = multiplex::models::DBUserSettings {
        user_id: 1,
        guild_id: Some(9),
        autoproxy: Some(multiplex::models::AutoproxySettings::Disabled),
        regex_sed_editing: None,
    };
    match decide_edit(&"[fixed]".to_string(), false, &mates, &settings, 9) {
        MessageDecision::Proxy { mate, manual } => {
            assert_eq!(mate.name, "Old");
            assert!(manual);
        }
        other => panic!("expected a proxy decision, got {:?}", other),
    }
    // No tag match and a disabled autoproxy: the edit passes through.
    assert_eq!(
        decide_edit(&"plain".to_string(), false, &mates, &settings, 9),
        MessageDecision::Skip
    );
}
