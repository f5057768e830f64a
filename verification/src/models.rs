//! Data model of the relay pipeline: personas ("mates"), collectives,
//! per-scope autoproxy settings, channel identities and relay records.
//!
//! Platform-side handles (database object ids, timestamps) appear here as
//! plain integers so that every rule over them can be stated and checked.

use vstd::prelude::*;

use crate::messages::{parse_selector_spec, parse_selector};
use crate::text::{first_where, split_text_spec, split_text};

verus! {

/// Errors the pipeline can signal to its caller.
#[derive(Clone, Copy, Debug, PartialEq, Eq, Structural)]
pub enum ProxyError {
    /// A record, persona or settings row was absent where one was required.
    NotFound,
    /// The acting user is not allowed to touch the addressed resource.
    PermissionDenied,
}

/// A persona's message signature: a prefix/postfix pair, written down in
/// the same selector style as a trigger tag but kept separately from it.
#[derive(Clone, Debug, Default, PartialEq)]
pub struct Signature {
    pub prefix: String,
    pub postfix: String,
}

impl Signature {
    /// Splits a selector such as `"[text]"` into prefix `"["` and postfix
    /// `"]"`; a selector without the marker is all prefix.
    pub fn parse(signature: String) -> (r: Signature)
        ensures
            r.prefix@ == split_text_spec(signature@).0,
            match split_text_spec(signature@).1 {
                Some(p) => r.postfix@ == p,
                None => r.postfix@.len() == 0,
            },
    {
        let (prefix, postfix) = split_text(signature.as_str());
        let postfix = match postfix {
            Some(p) => p,
            None => String::new(),
        };
        Signature { prefix, postfix }
    }
}

/// A persona: an alternate identity its owner relays messages as.
#[derive(Clone, Debug, Default, PartialEq)]
pub struct DBMate {
    /// Persistence-layer id of this row, when it has been stored.
    pub id: Option<u64>,
    pub user_id: i64,
    /// The "switched-in" pin: autoproxy's `SwitchedIn` mode selects the
    /// persona carrying it. At most one persona per owner may carry it.
    pub autoproxy: bool,
    pub name: String,
    pub avatar: String,
    pub is_public: bool,
    pub bio: Option<String>,
    pub prefix: Option<String>,
    pub postfix: Option<String>,
    pub pronouns: Option<String>,
    pub signature: Option<Signature>,
    pub display_name: Option<String>,
}

impl DBMate {
    /// Plain constructor; every field comes straight from the arguments.
    pub fn new(
        user_id: i64,
        autoproxy: bool,
        name: String,
        avatar: String,
        is_public: bool,
        bio: Option<String>,
        prefix: Option<String>,
        postfix: Option<String>,
        pronouns: Option<String>,
        display_name: Option<String>,
        signature: Option<Signature>,
        id: Option<u64>,
    ) -> (r: DBMate)
        ensures
            r == (DBMate {
                user_id,
                autoproxy,
                name,
                avatar,
                is_public,
                bio,
                prefix,
                postfix,
                pronouns,
                display_name,
                signature,
                id,
            }),
    {
        DBMate {
            user_id,
            autoproxy,
            name,
            avatar,
            is_public,
            bio,
            prefix,
            postfix,
            pronouns,
            display_name,
            signature,
            id,
        }
    }

    /// Applies an owner's edit: every argument that is present replaces the
    /// corresponding field, every absent one leaves it untouched. The
    /// selector is split into tag prefix and postfix; the signature string is
    /// parsed like a selector.
    pub fn edit(
        &mut self,
        name: Option<String>,
        display_name: Option<String>,
        bio: Option<String>,
        pronouns: Option<String>,
        selector: Option<String>,
        publicity: Option<bool>,
        avatar: Option<String>,
        signature: Option<String>,
    )
        ensures
            final(self).id == old(self).id,
            final(self).user_id == old(self).user_id,
            final(self).autoproxy == old(self).autoproxy,
            final(self).name == (match name {
                Some(n) => n,
                None => old(self).name,
            }),
            final(self).display_name == (if display_name is Some {
                display_name
            } else {
                old(self).display_name
            }),
            final(self).bio == (if bio is Some {
                bio
            } else {
                old(self).bio
            }),
            final(self).pronouns == (if pronouns is Some {
                pronouns
            } else {
                old(self).pronouns
            }),
            final(self).prefix.deep_view() == (if parse_selector_spec(
                selector.deep_view(),
            ).0 is Some {
                parse_selector_spec(selector.deep_view()).0
            } else {
                old(self).prefix.deep_view()
            }),
            final(self).postfix.deep_view() == (if parse_selector_spec(
                selector.deep_view(),
            ).1 is Some {
                parse_selector_spec(selector.deep_view()).1
            } else {
                old(self).postfix.deep_view()
            }),
            final(self).is_public == (match publicity {
                Some(p) => p,
                None => old(self).is_public,
            }),
            final(self).avatar == (match avatar {
                Some(a) => a,
                None => old(self).avatar,
            }),
            match signature {
                Some(s) => final(self).signature matches Some(sig) && sig.prefix@
                    == split_text_spec(s@).0 && (match split_text_spec(s@).1 {
                    Some(p) => sig.postfix@ == p,
                    None => sig.postfix@.len() == 0,
                }),
                None => final(self).signature == old(self).signature,
            },
    {
        if let Some(n) = name {
            self.name = n;
        }
        if display_name.is_some() {
            self.display_name = display_name;
        }
        if bio.is_some() {
            self.bio = bio;
        }
        if pronouns.is_some() {
            self.pronouns = pronouns;
        }
        let (prefix, postfix) = parse_selector(selector);
        if prefix.is_some() {
            self.prefix = prefix;
        }
        if postfix.is_some() {
            self.postfix = postfix;
        }
        if let Some(p) = publicity {
            self.is_public = p;
        }
        if let Some(a) = avatar {
            self.avatar = a;
        }
        if let Some(s) = signature {
            self.signature = Some(Signature::parse(s));
        }
    }
}

/// At most one persona of the list carries the "switched-in" pin.
pub open spec fn at_most_one_pinned(mates: Seq<DBMate>) -> bool {
    forall|i: int, j: int|
        #![trigger mates[i].autoproxy, mates[j].autoproxy]
        0 <= i < j < mates.len() ==> !(mates[i].autoproxy && mates[j].autoproxy)
}

/// A copy of `m` whose pin is `pinned` and whose other fields are unchanged.
fn with_pin(m: &DBMate, pinned: bool) -> (r: DBMate)
    ensures
        r == (DBMate { autoproxy: pinned, ..*m }),
{
    DBMate {
        id: m.id,
        user_id: m.user_id,
        autoproxy: pinned,
        name: m.name.clone(),
        avatar: m.avatar.clone(),
        is_public: m.is_public,
        bio: clone_opt_string(&m.bio),
        prefix: clone_opt_string(&m.prefix),
        postfix: clone_opt_string(&m.postfix),
        pronouns: clone_opt_string(&m.pronouns),
        signature: (match &m.signature {
            Some(sig) => Some(
                Signature { prefix: sig.prefix.clone(), postfix: sig.postfix.clone() },
            ),
            None => None,
        }),
        display_name: clone_opt_string(&m.display_name),
    }
}

/// A copy of a persona.
pub fn clone_mate(m: &DBMate) -> (r: DBMate)
    ensures
        r == *m,
{
    with_pin(m, m.autoproxy)
}

/// A copy of an optional string.
pub fn clone_opt_string(o: &Option<String>) -> (r: Option<String>)
    ensures
        r == *o,
{
    match o {
        Some(s) => Some(s.clone()),
        None => None,
    }
}

/// Any update that moves no pin — edits of names, tags, avatars and the
/// like — keeps the one-pin-per-owner invariant.
pub proof fn lemma_pin_preserving_update_keeps_invariant(before: Seq<DBMate>, after: Seq<DBMate>)
    requires
        before.len() == after.len(),
        forall|i: int|
            0 <= i < before.len() ==> #[trigger] after[i].autoproxy == before[i].autoproxy,
        at_most_one_pinned(before),
    ensures
        at_most_one_pinned(after),
{
}

/// The persona is called `name`.
pub open spec fn named(name: Seq<char>) -> spec_fn(DBMate) -> bool {
    |m: DBMate| m.name@ == name
}

/// The persona carries the "switched-in" pin.
pub open spec fn pinned() -> spec_fn(DBMate) -> bool {
    |m: DBMate| m.autoproxy
}

/// Index of the owner's first persona called `name`, if any.
pub fn find_named_index(mates: &Vec<DBMate>, name: &String) -> (r: Option<usize>)
    ensures
        r is Some <==> first_where(mates@, named(name@)) is Some,
        r matches Some(i) ==> first_where(mates@, named(name@)) == Some(i as int) && i
            < mates@.len(),
{
    let n = mates.len();
    let mut i: usize = 0;
    while i < n
        invariant
            n == mates@.len(),
            i <= n,
            forall|j: int| 0 <= j < i ==> !(named(name@)(mates@[j])),
        decreases n - i,
    {
        if mates[i].name == *name {
            proof {
                assert(named(name@)(mates@[i as int]));
                crate::text::lemma_first_where_is(mates@, named(name@), i as int);
            }
            return Some(i);
        }
        proof {
            assert(!(named(name@)(mates@[i as int])));
        }
        i += 1;
    }
    proof {
        crate::text::lemma_first_where_none(mates@, named(name@));
    }
    None
}

/// Index of the owner's first pinned persona, if any.
pub fn find_pinned_index(mates: &Vec<DBMate>) -> (r: Option<usize>)
    ensures
        r is Some <==> first_where(mates@, pinned()) is Some,
        r matches Some(i) ==> first_where(mates@, pinned()) == Some(i as int) && i < mates@.len(),
{
    let n = mates.len();
    let mut i: usize = 0;
    while i < n
        invariant
            n == mates@.len(),
            i <= n,
            forall|j: int| 0 <= j < i ==> !(pinned()(mates@[j])),
        decreases n - i,
    {
        if mates[i].autoproxy {
            proof {
                assert(pinned()(mates@[i as int]));
                crate::text::lemma_first_where_is(mates@, pinned(), i as int);
            }
            return Some(i);
        }
        proof {
            assert(!(pinned()(mates@[i as int])));
        }
        i += 1;
    }
    proof {
        crate::text::lemma_first_where_none(mates@, pinned());
    }
    None
}

/// Moves the pin to the first persona called `name`, unpinning every other
/// one; a list without that name is left unchanged. Afterwards at most one
/// persona is pinned.
pub fn apply_switch(mates: &mut Vec<DBMate>, name: &String) -> (found: bool)
    ensures
        final(mates)@.len() == old(mates)@.len(),
        found == (first_where(old(mates)@, named(name@)) is Some),
        !found ==> final(mates)@ == old(mates)@,
        (match first_where(old(mates)@, named(name@)) {
            Some(k) => forall|i: int|
                0 <= i < old(mates)@.len() ==> final(mates)@[i] == (DBMate {
                    autoproxy: i == k,
                    ..old(mates)@[i]
                }),
            None => true,
        }),
        found ==> at_most_one_pinned(final(mates)@),
{
    match find_named_index(mates, name) {
        None => false,
        Some(k) => {
            let ghost orig = mates@;
            let n = mates.len();
            let mut result: Vec<DBMate> = Vec::new();
            let mut i: usize = 0;
            while i < n
                invariant
                    n == mates@.len(),
                    mates@ == orig,
                    k < n,
                    i <= n,
                    result@.len() == i,
                    forall|j: int|
                        0 <= j < i ==> result@[j] == (DBMate {
                            autoproxy: j == k,
                            ..orig[j]
                        }),
                decreases n - i,
            {
                result.push(with_pin(&mates[i], i == k));
                i += 1;
            }
            *mates = result;
            proof {
                assert forall|p: int, q: int|
                    0 <= p < q < mates@.len() implies !(mates@[p].autoproxy
                    && mates@[q].autoproxy) by {
                    assert(mates@[p].autoproxy ==> p == k);
                    assert(mates@[q].autoproxy ==> q == k);
                }
            }
            true
        },
    }
}

/// Clears the pin on every persona of the list.
pub fn apply_unswitch(mates: &mut Vec<DBMate>)
    ensures
        final(mates)@.len() == old(mates)@.len(),
        forall|i: int|
            0 <= i < old(mates)@.len() ==> final(mates)@[i] == (DBMate {
                autoproxy: false,
                ..old(mates)@[i]
            }),
        at_most_one_pinned(final(mates)@),
{
    let ghost orig = mates@;
    let n = mates.len();
    let mut result: Vec<DBMate> = Vec::new();
    let mut i: usize = 0;
    while i < n
        invariant
            n == mates@.len(),
            mates@ == orig,
            i <= n,
            result@.len() == i,
            forall|j: int|
                0 <= j < i ==> result@[j] == (DBMate { autoproxy: false, ..orig[j] }),
        decreases n - i,
    {
        result.push(with_pin(&mates[i], false));
        i += 1;
    }
    *mates = result;
}

/// How many switch-history entries are kept.
pub open spec fn switch_log_bound() -> int {
    5
}

/// Prepends a new switch-history entry, keeping only the latest five. The
/// new entry records the moment, the personas involved, and whether the
/// switch was an un-switch (no new persona).
pub fn update_switch_logs(
    collective: &mut DBCollective,
    date: i64,
    mate_id: Option<u64>,
    previous_mate_id: Option<u64>,
)
    ensures
        final(collective).id == old(collective).id,
        final(collective).user_id == old(collective).user_id,
        final(collective).is_public == old(collective).is_public,
        final(collective).name == old(collective).name,
        final(collective).bio == old(collective).bio,
        final(collective).pronouns == old(collective).pronouns,
        final(collective).collective_tag == old(collective).collective_tag,
        final(collective).switch_logs matches Some(logs) && {
            let prior = (match old(collective).switch_logs {
                Some(v) => v@,
                None => Seq::<SwitchLog>::empty(),
            });
            &&& logs@.len() == (if prior.len() + 1 <= switch_log_bound() {
                prior.len() + 1 as int
            } else {
                switch_log_bound()
            })
            &&& logs@[0] == (SwitchLog {
                date,
                mate_id,
                previous_mate_id,
                unswitch: mate_id is None,
            })
            &&& forall|i: int| 1 <= i < logs@.len() ==> logs@[i] == prior[i - 1]
        },
{
    let entry = SwitchLog { date, mate_id, previous_mate_id, unswitch: mate_id.is_none() };
    let mut logs: Vec<SwitchLog> = Vec::new();
    logs.push(entry);
    let ghost prior = (match old(collective).switch_logs {
        Some(v) => v@,
        None => Seq::<SwitchLog>::empty(),
    });
    match &collective.switch_logs {
        Some(v) => {
            let m = v.len();
            let mut i: usize = 0;
            while i < m && i < 4
                invariant
                    m == prior.len(),
                    v@ == prior,
                    i <= m,
                    i <= 4,
                    logs@.len() == i + 1,
                    logs@[0] == entry,
                    forall|j: int| 1 <= j < logs@.len() ==> logs@[j] == prior[j - 1],
                decreases m - i,
            {
                logs.push(v[i]);
                i += 1;
            }
        },
        None => {},
    }
    collective.switch_logs = Some(logs);
}

/// An owner's umbrella profile: shared display tag and bounded switch
/// history.
#[derive(Clone, Debug, PartialEq)]
pub struct DBCollective {
    /// Persistence-layer id of this row, when it has been stored.
    pub id: Option<u64>,
    pub user_id: i64,
    pub is_public: bool,
    pub name: Option<String>,
    pub bio: Option<String>,
    pub pronouns: Option<String>,
    /// Suffix appended to relayed usernames.
    pub collective_tag: Option<String>,
    pub switch_logs: Option<Vec<SwitchLog>>,
}

/// One entry of the switch history.
#[derive(Clone, Copy, Debug, PartialEq)]
pub struct SwitchLog {
    /// Seconds since the Unix epoch.
    pub date: i64,
    pub mate_id: Option<u64>,
    pub previous_mate_id: Option<u64>,
    /// True when the entry records clearing the pin rather than moving it.
    pub unswitch: bool,
}

impl DBCollective {
    /// Plain constructor; every field comes straight from the arguments.
    pub fn new(
        user_id: i64,
        is_public: bool,
        name: Option<String>,
        bio: Option<String>,
        pronouns: Option<String>,
        collective_tag: Option<String>,
        id: Option<u64>,
        switch_logs: Option<Vec<SwitchLog>>,
    ) -> (r: DBCollective)
        ensures
            r == (DBCollective {
                user_id,
                is_public,
                name,
                bio,
                pronouns,
                collective_tag,
                id,
                switch_logs,
            }),
    {
        DBCollective { user_id, is_public, name, bio, pronouns, collective_tag, id, switch_logs }
    }

    /// Applies an owner's edit: every argument that is present replaces the
    /// corresponding field. An empty collective tag clears the tag.
    pub fn edit(
        &mut self,
        name: Option<String>,
        bio: Option<String>,
        pronouns: Option<String>,
        is_public: Option<bool>,
        collective_tag: Option<String>,
    )
        ensures
            final(self).id == old(self).id,
            final(self).user_id == old(self).user_id,
            final(self).switch_logs == old(self).switch_logs,
            final(self).name == (if name is Some {
                name
            } else {
                old(self).name
            }),
            final(self).bio == (if bio is Some {
                bio
            } else {
                old(self).bio
            }),
            final(self).pronouns == (if pronouns is Some {
                pronouns
            } else {
                old(self).pronouns
            }),
            final(self).is_public == (match is_public {
                Some(p) => p,
                None => old(self).is_public,
            }),
            match collective_tag {
                Some(t) => if t@.len() == 0 {
                    final(self).collective_tag is None
                } else {
                    final(self).collective_tag == Some(t)
                },
                None => final(self).collective_tag == old(self).collective_tag,
            },
    {
        if name.is_some() {
            self.name = name;
        }
        if bio.is_some() {
            self.bio = bio;
        }
        if pronouns.is_some() {
            self.pronouns = pronouns;
        }
        if let Some(p) = is_public {
            self.is_public = p;
        }
        if let Some(t) = collective_tag {
            if t.as_str().is_empty() {
                self.collective_tag = None;
            } else {
                self.collective_tag = Some(t);
            }
        }
    }
}

/// The collective created on an owner's first access: public, with nothing
/// else set.
pub fn default_collective(user_id: i64) -> (r: DBCollective)
    ensures
        r == (DBCollective {
            id: None,
            user_id,
            is_public: true,
            name: None,
            bio: None,
            pronouns: None,
            collective_tag: None,
            switch_logs: None,
        }),
{
    DBCollective {
        id: None,
        user_id,
        is_public: true,
        name: None,
        bio: None,
        pronouns: None,
        collective_tag: None,
        switch_logs: None,
    }
}

/// The guild row created on a guild's first access: no proxy-log channel.
pub fn default_guild(guild_id: i64) -> (r: DBGuild)
    ensures
        r == (DBGuild { id: guild_id, proxy_logs_channel_id: None }),
{
    DBGuild { id: guild_id, proxy_logs_channel_id: None }
}

/// Resolves an owner's collective from what the store holds: an existing
/// row is used as it stands, a missing one comes into being as the default
/// collective. The flag says whether the store must create the returned
/// row.
pub fn get_or_create_collective(existing: Option<DBCollective>, user_id: i64) -> (r: (
    DBCollective,
    bool,
))
    requires
        existing matches Some(c) ==> c.user_id == user_id,
    ensures
        match existing {
            Some(c) => r.0 == c && !r.1,
            None => r.0 == (DBCollective {
                id: None,
                user_id,
                is_public: true,
                name: None,
                bio: None,
                pronouns: None,
                collective_tag: None,
                switch_logs: None,
            }) && r.1,
        },
{
    match existing {
        Some(c) => (c, false),
        None => (default_collective(user_id), true),
    }
}

/// Resolves a guild's row from what the store holds: an existing row is
/// used as it stands, a missing one comes into being as the default guild
/// row. The flag says whether the store must create the returned row.
pub fn get_or_create_dbguild(existing: Option<DBGuild>, guild_id: i64) -> (r: (DBGuild, bool))
    requires
        existing matches Some(g) ==> g.id == guild_id,
    ensures
        match existing {
            Some(g) => r.0 == g && !r.1,
            None => r.0 == (DBGuild { id: guild_id, proxy_logs_channel_id: None }) && r.1,
        },
{
    match existing {
        Some(g) => (g, false),
        None => (default_guild(guild_id), true),
    }
}

/// A guild's stored configuration.
#[derive(Clone, Debug, PartialEq)]
pub struct DBGuild {
    pub id: i64,
    pub proxy_logs_channel_id: Option<i64>,
}

/// A parent channel's alternate-identity handle: the platform-side webhook
/// id together with its secret token.
#[derive(Clone, Debug, PartialEq)]
pub struct DBChannel {
    pub id: i64,
    pub webhook_id: i64,
    pub webhook_token: String,
}

/// One relay record of the ownership ledger: which account a relayed message
/// belongs to and which persona sent it.
#[derive(Clone, Debug, PartialEq)]
pub struct DBMessage {
    pub user_id: u64,
    pub message_id: u64,
    pub mate_name: Option<String>,
}

/// The autoproxy mode of one settings row.
#[derive(Clone, Debug, PartialEq)]
pub enum AutoproxySettings {
    /// Never fall back to a persona.
    Disabled,
    /// Fall back to the owner's pinned ("switched-in") persona.
    SwitchedIn,
    /// Fall back to the persona remembered by the latch slot.
    Latch(Latch),
    /// Fall back to the persona with the stored name.
    Mate(String),
}

/// The latch slot, scoped either to one guild or globally; the payload is
/// the remembered persona name.
#[derive(Clone, Debug, PartialEq)]
pub enum Latch {
    Guild(Option<String>),
    Global(Option<String>),
}

/// One per-(owner, scope) settings row. `guild_id` is `None` for the global
/// row; a guild row whose `autoproxy` is unset inherits the global mode.
#[derive(Clone, Debug, PartialEq)]
pub struct DBUserSettings {
    pub user_id: u64,
    pub guild_id: Option<i64>,
    pub autoproxy: Option<AutoproxySettings>,
    pub regex_sed_editing: Option<bool>,
}

} // verus!
