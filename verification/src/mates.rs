//! Persona selection: the tag matcher and the autoproxy fallback resolver.

use vstd::prelude::*;

use crate::models::{named, pinned, AutoproxySettings, DBMate, DBUserSettings, Latch};
use crate::text::{
    ends_with, ends_with_spec, first_where, lemma_first_where_is, lemma_first_where_none,
    starts_with, starts_with_spec,
};

verus! {

/// The persona has a tag at all: a prefix, a postfix, or both.
pub open spec fn has_tag(m: DBMate) -> bool {
    m.prefix is Some || m.postfix is Some
}

/// The persona's tag prefix; an absent prefix reads as the empty string.
pub open spec fn tag_prefix(m: DBMate) -> Seq<char> {
    match m.prefix {
        Some(p) => p@,
        None => Seq::<char>::empty(),
    }
}

/// The persona's tag postfix; an absent postfix reads as the empty string.
pub open spec fn tag_postfix(m: DBMate) -> Seq<char> {
    match m.postfix {
        Some(p) => p@,
        None => Seq::<char>::empty(),
    }
}

/// The persona has a tag and both of its parts bound the text.
pub open spec fn mate_matches(m: DBMate, text: Seq<char>) -> bool {
    has_tag(m) && starts_with_spec(text, tag_prefix(m)) && ends_with_spec(text, tag_postfix(m))
}

/// The persona matches `text`; for selecting out of a list.
pub open spec fn matching(text: Seq<char>) -> spec_fn(DBMate) -> bool {
    |m: DBMate| mate_matches(m, text)
}

/// A persona without any tag is never selected by the matcher, whatever the
/// message text.
pub proof fn lemma_untagged_never_matches(m: DBMate, text: Seq<char>)
    requires
        m.prefix is None,
        m.postfix is None,
    ensures
        !mate_matches(m, text),
{
}

/// A message built as prefix + body + postfix always matches the persona the
/// tag belongs to.
pub proof fn lemma_tagged_message_matches(m: DBMate, body: Seq<char>)
    requires
        has_tag(m),
    ensures
        mate_matches(m, tag_prefix(m) + body + tag_postfix(m)),
{
    let text = tag_prefix(m) + body + tag_postfix(m);
    let pre = tag_prefix(m);
    let post = tag_postfix(m);
    assert(text.subrange(0, pre.len() as int) =~= pre);
    assert(text.subrange(text.len() - post.len(), text.len() as int) =~= post);
}

/// Tests one persona's tag against the text.
fn tag_bounds_text(m: &DBMate, text: &String) -> (r: bool)
    ensures
        r == mate_matches(*m, text@),
{
    let tagged = m.prefix.is_some() || m.postfix.is_some();
    if !tagged {
        return false;
    }
    let pre: &str = match &m.prefix {
        Some(p) => p.as_str(),
        None => "",
    };
    let post: &str = match &m.postfix {
        Some(p) => p.as_str(),
        None => "",
    };
    proof {
        reveal_strlit("");
        assert(pre@ == tag_prefix(*m));
        assert(post@ == tag_postfix(*m));
    }
    starts_with(text.as_str(), pre) && ends_with(text.as_str(), post)
}

/// Returns the first persona of the list whose tag bounds the message text,
/// or nothing when no tagged persona matches.
pub fn get_matching_mate<'a>(mates: &'a Vec<DBMate>, message_content: &String) -> (r: Option<
    &'a DBMate,
>)
    ensures
        r is Some <==> first_where(mates@, matching(message_content@)) is Some,
        r matches Some(m) ==> (match first_where(mates@, matching(message_content@)) {
            Some(k) => *m == mates@[k],
            None => false,
        }),
{
    let n = mates.len();
    let mut i: usize = 0;
    while i < n
        invariant
            n == mates@.len(),
            i <= n,
            forall|j: int| 0 <= j < i ==> !(matching(message_content@)(mates@[j])),
        decreases n - i,
    {
        if tag_bounds_text(&mates[i], message_content) {
            proof {
                assert(matching(message_content@)(mates@[i as int]));
                lemma_first_where_is(mates@, matching(message_content@), i as int);
            }
            return Some(&mates[i]);
        }
        proof {
            assert(!(matching(message_content@)(mates@[i as int])));
        }
        i += 1;
    }
    proof {
        lemma_first_where_none(mates@, matching(message_content@));
    }
    None
}

/// The persona name a latch slot supplies: a guild slot only counts when the
/// row belongs to the guild the message came from, a global slot always
/// counts, an empty slot never.
pub open spec fn latch_slot_name(l: Latch, row_guild: Option<i64>, guild_id: u64) -> Option<
    Seq<char>,
> {
    match l {
        Latch::Guild(slot) => match slot {
            Some(g) => if row_guild == Some(guild_id as i64) {
                Some(g@)
            } else {
                None
            },
            None => None,
        },
        Latch::Global(slot) => match slot {
            Some(g) => Some(g@),
            None => None,
        },
    }
}

/// Which persona (by position in the owner's list) the autoproxy falls back
/// to: none under `Disabled` or an unset mode, the first pinned persona
/// under `SwitchedIn`, the persona the scope-appropriate slot remembers
/// under `Latch`, and the persona of the stored name under a pinned name.
pub open spec fn autoproxy_choice(
    settings: DBUserSettings,
    mates: Seq<DBMate>,
    guild_id: u64,
) -> Option<int> {
    match settings.autoproxy {
        None => None,
        Some(AutoproxySettings::Disabled) => None,
        Some(AutoproxySettings::SwitchedIn) => first_where(mates, pinned()),
        Some(AutoproxySettings::Latch(l)) => match latch_slot_name(
            l,
            settings.guild_id,
            guild_id,
        ) {
            Some(nm) => first_where(mates, named(nm)),
            None => None,
        },
        Some(AutoproxySettings::Mate(n)) => first_where(mates, named(n@)),
    }
}

/// Resolves the autoproxy fallback persona from the effective settings row;
/// a remembered name that no persona carries yields none.
pub fn get_autoproxied_mate<'a>(
    user_settings: &DBUserSettings,
    mates: &'a Vec<DBMate>,
    guild_id: u64,
) -> (r: Option<&'a DBMate>)
    ensures
        match autoproxy_choice(*user_settings, mates@, guild_id) {
            Some(k) => r matches Some(m) && *m == mates@[k],
            None => r is None,
        },
{
    match &user_settings.autoproxy {
        None => None,
        Some(AutoproxySettings::Disabled) => None,
        Some(AutoproxySettings::SwitchedIn) => {
            match crate::models::find_pinned_index(mates) {
                Some(i) => Some(&mates[i]),
                None => None,
            }
        },
        Some(AutoproxySettings::Latch(l)) => {
            let slot_name: Option<&String> = match l {
                Latch::Guild(slot) => match slot {
                    Some(g) => {
                        let scope_ok = match user_settings.guild_id {
                            Some(gid) => gid == guild_id as i64,
                            None => false,
                        };
                        if scope_ok {
                            Some(g)
                        } else {
                            None
                        }
                    },
                    None => None,
                },
                Latch::Global(slot) => match slot {
                    Some(g) => Some(g),
                    None => None,
                },
            };
            match slot_name {
                Some(nm) => {
                    match crate::models::find_named_index(mates, nm) {
                        Some(i) => Some(&mates[i]),
                        None => None,
                    }
                },
                None => None,
            }
        },
        Some(AutoproxySettings::Mate(n)) => {
            match crate::models::find_named_index(mates, n) {
                Some(i) => Some(&mates[i]),
                None => None,
            }
        },
    }
}

} // verus!
