//! Data carried by pluralkit-style exports, as far as the library's own
//! rules touch it. Reading and writing the export files themselves happens
//! outside the library.

use vstd::prelude::*;

verus! {

/// System-wide privacy switches of an export.
#[derive(Debug, Clone, PartialEq)]
pub struct SystemPrivacy<'a> {
    pub description_privacy: &'a str,
    pub pronoun_privacy: &'a str,
    pub member_list_privacy: &'a str,
    pub group_list_privacy: &'a str,
    pub front_privacy: &'a str,
    pub front_history_privacy: &'a str,
}

impl<'a> SystemPrivacy<'a> {
    /// A privacy block with every switch set to the same level.
    pub fn create_from_single(privacy: &'a str) -> (r: Self)
        ensures
            r.description_privacy == privacy,
            r.pronoun_privacy == privacy,
            r.member_list_privacy == privacy,
            r.group_list_privacy == privacy,
            r.front_privacy == privacy,
            r.front_history_privacy == privacy,
    {
        SystemPrivacy {
            description_privacy: privacy,
            pronoun_privacy: privacy,
            member_list_privacy: privacy,
            group_list_privacy: privacy,
            front_privacy: privacy,
            front_history_privacy: privacy,
        }
    }
}

/// Per-member privacy switches of an export.
#[derive(Debug, Clone, PartialEq)]
pub struct MemberPrivacy<'a> {
    pub visibility: &'a str,
    pub name_privacy: &'a str,
    pub description_privacy: &'a str,
    pub birthday_privacy: &'a str,
    pub pronoun_privacy: &'a str,
    pub avatar_privacy: &'a str,
    pub metadata_privacy: &'a str,
}

impl<'a> MemberPrivacy<'a> {
    /// A privacy block with every switch set to the same level.
    pub fn create_from_single(privacy: &'a str) -> (r: Self)
        ensures
            r.visibility == privacy,
            r.name_privacy == privacy,
            r.description_privacy == privacy,
            r.birthday_privacy == privacy,
            r.pronoun_privacy == privacy,
            r.avatar_privacy == privacy,
            r.metadata_privacy == privacy,
    {
        MemberPrivacy {
            description_privacy: privacy,
            pronoun_privacy: privacy,
            avatar_privacy: privacy,
            birthday_privacy: privacy,
            metadata_privacy: privacy,
            name_privacy: privacy,
            visibility: privacy,
        }
    }
}

/// Exported system configuration.
#[derive(Debug, Clone, PartialEq)]
pub struct Config {
    pub timezone: String,
    pub pings_enabled: bool,
    pub latch_timeout: Option<i64>,
    pub member_default_private: bool,
    pub group_default_private: bool,
    pub show_private_info: bool,
    pub member_limit: i64,
    pub group_limit: i64,
    pub case_sensitive_proxy_tags: bool,
    pub description_templates: Vec<()>,
}

impl Default for Config {
    /// The configuration an export without one falls back to.
    fn default() -> (r: Config)
        ensures
            r.timezone@ == "UTC"@,
            !r.pings_enabled,
            r.case_sensitive_proxy_tags,
            r.latch_timeout is None,
            !r.member_default_private,
            !r.show_private_info,
            !r.group_default_private,
            r.member_limit == 1000,
            r.group_limit == 250,
            r.description_templates@.len() == 0,
    {
        Config {
            timezone: String::from_str("UTC"),
            pings_enabled: false,
            case_sensitive_proxy_tags: true,
            latch_timeout: None,
            member_default_private: false,
            show_private_info: false,
            group_default_private: false,
            member_limit: 1000,
            group_limit: 250,
            description_templates: Vec::new(),
        }
    }
}

/// One proxy tag of an exported member.
#[derive(Debug, Clone, PartialEq, Default)]
pub struct ProxyTag {
    pub prefix: Option<String>,
    pub suffix: Option<String>,
}

/// One switch entry of an export.
#[derive(Debug, Clone, PartialEq, Default)]
pub struct Switch {
    pub timestamp: String,
    pub members: Vec<String>,
}

} // verus!
