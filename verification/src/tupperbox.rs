//! Data carried by tupperbox-style exports and its conversion into the
//! library's persona type. Reading the export file itself happens outside
//! the library.

use vstd::prelude::*;

use crate::models::DBMate;

verus! {

/// A whole export: the list of personas it carries.
#[derive(Debug, Clone, PartialEq, Default)]
pub struct TupperboxExport {
    pub tuppers: Vec<Tupper>,
}

/// One exported persona.
#[derive(Debug, Clone, PartialEq, Default)]
pub struct Tupper {
    pub id: i64,
    pub name: String,
    pub avatar_url: String,
    /// The tag, as a two-element bracket pair; an empty string means that
    /// side of the tag is absent.
    pub brackets: Vec<String>,
    pub posts: i64,
    pub show_brackets: bool,
    pub description: Option<String>,
    pub nick: Option<String>,
}

impl Tupper {
    /// The persona this export entry stands for: public, unpinned, with the
    /// brackets as its tag and `default_avatar` standing in for a missing
    /// avatar.
    pub fn to_mate(&self, user_id: u64, default_avatar: &String) -> (r: DBMate)
        requires
            self.brackets@.len() >= 2,
        ensures
            r.user_id == user_id as i64,
            !r.autoproxy,
            r.name@ == self.name@,
            r.avatar@ == (if self.avatar_url@.len() > 0 {
                self.avatar_url@
            } else {
                default_avatar@
            }),
            r.is_public,
            r.bio == self.description,
            r.prefix.deep_view() == (if self.brackets@[0]@.len() > 0 {
                Some(self.brackets@[0]@)
            } else {
                None::<Seq<char>>
            }),
            r.postfix.deep_view() == (if self.brackets@[1]@.len() > 0 {
                Some(self.brackets@[1]@)
            } else {
                None::<Seq<char>>
            }),
            r.pronouns is None,
            r.signature is None,
            r.display_name == self.nick,
            r.id is None,
    {
        let avatar = if !self.avatar_url.as_str().is_empty() {
            self.avatar_url.clone()
        } else {
            default_avatar.clone()
        };
        let prefix = if !self.brackets[0].as_str().is_empty() {
            Some(self.brackets[0].clone())
        } else {
            None
        };
        let postfix = if !self.brackets[1].as_str().is_empty() {
            Some(self.brackets[1].clone())
        } else {
            None
        };
        DBMate::new(
            user_id as i64,
            false,
            self.name.clone(),
            avatar,
            true,
            crate::models::clone_opt_string(&self.description),
            prefix,
            postfix,
            None,
            crate::models::clone_opt_string(&self.nick),
            None,
            None,
        )
    }
}

} // verus!
