//! Message-side logic: selector parsing, content clamping and the assembly
//! of a relay plan from an inbound message.

use vstd::prelude::*;

use unicode_segmentation::UnicodeSegmentation;

use crate::models::{DBCollective, DBMate, DBMessage};
use crate::text::{
    dec_of, ends_with, ends_with_spec, split_text_spec, split_text, starts_with, starts_with_spec,
    u64_to_dec,
};

verus! {

/// The grapheme clusters of a string, as the Unicode segmentation rules
/// define them. Only stated facts about this name hold; the clusters
/// themselves come from the segmentation library.
pub uninterp spec fn graphemes_of(s: Seq<char>) -> Seq<Seq<char>>;

/// Relies on unicode_segmentation's `UnicodeSegmentation::graphemes` (with
/// extended clusters): the clusters depend on the characters alone, stand in
/// message order, and concatenate back to the input string.
#[verifier::external_body]
fn graphemes(s: &str) -> (r: Vec<String>)
    ensures
        r.deep_view() == graphemes_of(s@),
        r.deep_view().flatten() == s@,
{
    s.graphemes(true).map(|g| g.to_string()).collect()
}

/// What parsing an optional selector yields: nothing for no selector, else
/// the selector split at the marker.
pub open spec fn parse_selector_spec(selector: Option<Seq<char>>) -> (
    Option<Seq<char>>,
    Option<Seq<char>>,
) {
    match selector {
        None => (None, None),
        Some(s) => {
            let (pre, post) = split_text_spec(s);
            (Some(pre), post)
        },
    }
}

/// Splits a selector such as `"[text]"` into an optional prefix and postfix.
pub fn parse_selector(selector: Option<String>) -> (r: (Option<String>, Option<String>))
    ensures
        r.0.deep_view() == parse_selector_spec(selector.deep_view()).0,
        r.1.deep_view() == parse_selector_spec(selector.deep_view()).1,
{
    match selector {
        None => (None, None),
        Some(s) => {
            let (pre, post) = split_text(s.as_str());
            (Some(pre), post)
        },
    }
}

/// How many grapheme clusters a quoted or summarised message may show.
pub open spec fn clamp_limit() -> int {
    100
}

/// The trailing marker of a truncated summary.
pub open spec fn ellipsis() -> Seq<char> {
    seq!['.', '.', '.']
}

/// What clamping leaves of a string: text of at most 100 grapheme clusters
/// is unchanged, longer text is cut to its first 100 clusters plus an
/// ellipsis.
pub open spec fn clamped_spec(s: Seq<char>) -> Seq<char> {
    let gs = graphemes_of(s);
    if gs.len() > clamp_limit() {
        gs.take(clamp_limit()).flatten() + ellipsis()
    } else {
        s
    }
}

/// Clamps message text to 100 grapheme clusters, appending `...` when
/// something was cut.
pub fn clamp_message_length(content: &String) -> (r: String)
    ensures
        r@ == clamped_spec(content@),
{
    let gs = graphemes(content.as_str());
    let ghost gseq = graphemes_of(content@);
    if gs.len() > 100 {
        let mut acc = String::new();
        let mut i: usize = 0;
        while i < 100
            invariant
                gs.deep_view() == gseq,
                gs@.len() == gseq.len(),
                gseq.len() > 100,
                i <= 100,
                acc@ == gseq.take(i as int).flatten(),
            decreases 100 - i,
        {
            acc.append(gs[i].as_str());
            proof {
                assert(gs@[i as int]@ == gseq[i as int]);
                assert(gseq.take(i + 1).drop_last() =~= gseq.take(i as int));
                assert(gseq.take(i + 1) =~= gseq.take(i as int).push(gseq[i as int]));
                gseq.take(i as int).lemma_flatten_push(gseq[i as int]);
            }
            i += 1;
        }
        let r = acc.concat("...");
        proof {
            reveal_strlit("...");
            assert("..."@ =~= ellipsis());
        }
        r
    } else {
        let r = content.clone();
        proof {
            assert(clamped_spec(content@) == content@);
        }
        r
    }
}

/// The sequence an optional string holds; an absent one reads as empty.
pub open spec fn opt_or_empty(o: Option<Seq<char>>) -> Seq<char> {
    match o {
        Some(s) => s,
        None => Seq::<char>::empty(),
    }
}

/// What stripping a tag leaves of message text: one leading copy of the
/// prefix goes if it is there, then one trailing copy of the postfix;
/// whatever part is absent is simply not stripped.
pub open spec fn strip_tag_spec(text: Seq<char>, pre: Seq<char>, post: Seq<char>) -> Seq<char> {
    let after_pre = if starts_with_spec(text, pre) {
        text.subrange(pre.len() as int, text.len() as int)
    } else {
        text
    };
    if ends_with_spec(after_pre, post) {
        after_pre.subrange(0, after_pre.len() - post.len())
    } else {
        after_pre
    }
}

/// A message built as prefix + body + postfix strips back to exactly the
/// body.
pub proof fn lemma_strip_tag_roundtrip(pre: Seq<char>, body: Seq<char>, post: Seq<char>)
    ensures
        strip_tag_spec(pre + body + post, pre, post) == body,
{
    let text = pre + body + post;
    assert(text.subrange(0, pre.len() as int) =~= pre);
    let after_pre = text.subrange(pre.len() as int, text.len() as int);
    assert(after_pre =~= body + post);
    assert(after_pre.subrange(after_pre.len() - post.len(), after_pre.len() as int) =~= post);
    assert(after_pre.subrange(0, after_pre.len() - post.len()) =~= body);
}

/// A tagged persona's own message round-trips: for any body, the text
/// prefix + body + postfix matches the persona, and stripping the tag off
/// that text yields exactly the body again.
pub proof fn lemma_tag_match_roundtrip(m: DBMate, body: Seq<char>)
    requires
        crate::mates::has_tag(m),
    ensures
        crate::mates::mate_matches(
            m,
            crate::mates::tag_prefix(m) + body + crate::mates::tag_postfix(m),
        ),
        strip_tag_spec(
            crate::mates::tag_prefix(m) + body + crate::mates::tag_postfix(m),
            opt_or_empty(m.prefix.deep_view()),
            opt_or_empty(m.postfix.deep_view()),
        ) == body,
{
    crate::mates::lemma_tagged_message_matches(m, body);
    assert(opt_or_empty(m.prefix.deep_view()) == crate::mates::tag_prefix(m));
    assert(opt_or_empty(m.postfix.deep_view()) == crate::mates::tag_postfix(m));
    lemma_strip_tag_roundtrip(
        crate::mates::tag_prefix(m),
        body,
        crate::mates::tag_postfix(m),
    );
}

/// Strips a persona's tag off the message text.
pub fn strip_tag(content: &String, prefix: &Option<String>, postfix: &Option<String>) -> (r:
    String)
    ensures
        r@ == strip_tag_spec(
            content@,
            opt_or_empty(prefix.deep_view()),
            opt_or_empty(postfix.deep_view()),
        ),
{
    let pre: &str = match prefix {
        Some(p) => p.as_str(),
        None => "",
    };
    let post: &str = match postfix {
        Some(p) => p.as_str(),
        None => "",
    };
    proof {
        reveal_strlit("");
        assert(pre@ == opt_or_empty(prefix.deep_view()));
        assert(post@ == opt_or_empty(postfix.deep_view()));
    }
    let s = content.as_str();
    let s_len = s.unicode_len();
    let start: usize = if starts_with(s, pre) {
        pre.unicode_len()
    } else {
        0
    };
    let mid = s.substring_char(start, s_len);
    let ghost after_pre = (if starts_with_spec(content@, pre@) {
        content@.subrange(pre@.len() as int, content@.len() as int)
    } else {
        content@
    });
    proof {
        assert(mid@ == after_pre);
    }
    if ends_with(mid, post) {
        let mid_len = s_len - start;
        s.substring_char(start, start + (mid_len - post.unicode_len())).to_owned()
    } else {
        mid.to_owned()
    }
}

/// What a relayed message shows as its sender: the persona's display name
/// (else its name), with the collective's tag appended after a space when
/// the collective has one.
pub open spec fn proxied_username_spec(m: DBMate, c: DBCollective) -> Seq<char> {
    let base = match m.display_name {
        Some(d) => d@,
        None => m.name@,
    };
    match c.collective_tag {
        Some(t) => base + seq![' '] + t@,
        None => base,
    }
}

/// Builds the username a relayed message is sent under.
pub fn proxied_username(mate: &DBMate, collective: &DBCollective) -> (r: String)
    ensures
        r@ == proxied_username_spec(*mate, *collective),
{
    let base = match &mate.display_name {
        Some(d) => d.clone(),
        None => mate.name.clone(),
    };
    match &collective.collective_tag {
        Some(t) => {
            let r = base.concat(" ").concat(t.as_str());
            proof {
                reveal_strlit(" ");
                assert(" "@ =~= seq![' ']);
            }
            r
        },
        None => base,
    }
}

/// One attachment of an inbound message, by size and name; the bytes
/// themselves are re-streamed outside the library.
#[derive(Clone, Debug, PartialEq)]
pub struct AttachmentInfo {
    pub size: u64,
    pub filename: String,
}

/// The size from which attachments are dropped rather than relayed.
pub open spec fn attachment_limit() -> int {
    25000000
}

/// The attachments that survive filtering: every one under the size limit,
/// in their original order.
pub open spec fn kept_attachments(s: Seq<AttachmentInfo>) -> Seq<AttachmentInfo>
    decreases s.len(),
{
    if s.len() == 0 {
        Seq::<AttachmentInfo>::empty()
    } else {
        let rest = kept_attachments(s.drop_last());
        if s.last().size < attachment_limit() {
            rest.push(s.last())
        } else {
            rest
        }
    }
}

/// Drops every attachment at or above 25 MB, keeping the rest unchanged and
/// in order.
pub fn filter_attachments(atts: &Vec<AttachmentInfo>) -> (r: Vec<AttachmentInfo>)
    ensures
        r@ == kept_attachments(atts@),
{
    let n = atts.len();
    let mut r: Vec<AttachmentInfo> = Vec::new();
    let mut i: usize = 0;
    while i < n
        invariant
            n == atts@.len(),
            i <= n,
            r@ == kept_attachments(atts@.take(i as int)),
        decreases n - i,
    {
        proof {
            assert(atts@.take(i + 1).drop_last() =~= atts@.take(i as int));
            assert(atts@.take(i + 1).last() == atts@[i as int]);
        }
        if atts[i].size < 25000000 {
            r.push(AttachmentInfo { size: atts[i].size, filename: atts[i].filename.clone() });
        }
        i += 1;
    }
    proof {
        assert(atts@.take(n as int) =~= atts@);
    }
    r
}

/// What a reply embed quotes: the referenced message, who wrote it, and
/// whether the replying message pings that author.
#[derive(Clone, Debug, PartialEq)]
pub struct ReplyContext {
    /// Content of the referenced message.
    pub referenced_content: String,
    /// Jump link to the referenced message.
    pub referenced_link: String,
    /// The quoted author's platform-side display name.
    pub author_display: String,
    /// The quoted author's avatar, when they have one.
    pub author_avatar: Option<String>,
    /// The quoted author's account id.
    pub author_id: u64,
    /// The replying message mentions the quoted author.
    pub mentions_author: bool,
    /// The referenced message's relay record, when it was itself relayed.
    pub record: Option<DBMessage>,
}

/// The name a reply quotes its author under: the persona name the ownership
/// ledger recorded when the referenced message was itself relayed, else the
/// platform display name.
pub open spec fn quoted_author_spec(rc: ReplyContext) -> Seq<char> {
    match rc.record {
        Some(rec) => match rec.mate_name {
            Some(n) => n@,
            None => rc.author_display@,
        },
        None => rc.author_display@,
    }
}

/// Resolves the quoted author's display name through the ledger record.
pub fn quoted_author_name(rc: &ReplyContext) -> (r: String)
    ensures
        r@ == quoted_author_spec(*rc),
{
    match &rc.record {
        Some(rec) => match &rec.mate_name {
            Some(n) => n.clone(),
            None => rc.author_display.clone(),
        },
        None => rc.author_display.clone(),
    }
}

/// The description of a reply embed: the clamped quoted content followed by
/// a jump link.
pub open spec fn reply_description_spec(content: Seq<char>, link: Seq<char>) -> Seq<char> {
    clamped_spec(content) + " ([jump to message]("@ + link + "))"@
}

/// Builds a reply embed's description.
pub fn reply_embed_description(referenced_content: &String, jump_link: &String) -> (r: String)
    ensures
        r@ == reply_description_spec(referenced_content@, jump_link@),
{
    clamp_message_length(referenced_content).concat(" ([jump to message](").concat(
        jump_link.as_str(),
    ).concat("))")
}

/// Message content with a suppressed (non-pinging) mention of the quoted
/// author appended.
pub open spec fn suppressed_mention_spec(content: Seq<char>, author_id: u64) -> Seq<char> {
    content + " ||<@"@ + dec_of(author_id as int) + ">||"@
}

/// Appends a suppressed mention of the quoted author to the content.
pub fn suppressed_mention(content: String, author_id: u64) -> (r: String)
    ensures
        r@ == suppressed_mention_spec(content@, author_id),
{
    content.concat(" ||<@").concat(u64_to_dec(author_id).as_str()).concat(">||")
}

/// Everything the platform send needs for one relayed message; assembling
/// it is pure, the send itself is not part of the library.
#[derive(Clone, Debug, PartialEq)]
pub struct RelayPlan {
    /// Username to send under.
    pub username: String,
    /// Avatar to send under.
    pub avatar_url: String,
    /// Transformed content.
    pub content: String,
    /// Header of the reply embed, when the message is a reply.
    pub embed_author: Option<String>,
    /// Icon of the reply embed.
    pub embed_icon: Option<String>,
    /// Description of the reply embed.
    pub embed_description: Option<String>,
    /// Attachments to re-stream, oversized ones already dropped.
    pub attachments: Vec<AttachmentInfo>,
    /// Thread to route into, when the channel was a thread.
    pub thread_id: Option<u64>,
}

/// Assembles the relay plan for a matched persona: strips the tag, quotes a
/// reply, appends a suppressed mention when the reply pings its author,
/// filters oversized attachments, and picks username and avatar.
pub fn prepare_proxied_message(
    mate: &DBMate,
    collective: &DBCollective,
    content: &String,
    reply: &Option<ReplyContext>,
    attachments: &Vec<AttachmentInfo>,
    thread_id: Option<u64>,
    default_avatar: &String,
) -> (r: RelayPlan)
    ensures
        r.username@ == proxied_username_spec(*mate, *collective),
        r.avatar_url@ == mate.avatar@,
        r.content@ == ({
            let stripped = strip_tag_spec(
                content@,
                opt_or_empty(mate.prefix.deep_view()),
                opt_or_empty(mate.postfix.deep_view()),
            );
            match reply {
                Some(rc) => if rc.mentions_author {
                    suppressed_mention_spec(stripped, rc.author_id)
                } else {
                    stripped
                },
                None => stripped,
            }
        }),
        match reply {
            Some(rc) => {
                &&& r.embed_author matches Some(a) && a@ == quoted_author_spec(*rc) + " \u{2935}\u{fe0f}"@
                &&& r.embed_icon matches Some(ic) && ic@ == (match rc.author_avatar {
                    Some(av) => av@,
                    None => default_avatar@,
                })
                &&& r.embed_description matches Some(d) && d@ == reply_description_spec(
                    rc.referenced_content@,
                    rc.referenced_link@,
                )
            },
            None => r.embed_author is None && r.embed_icon is None && r.embed_description is None,
        },
        r.attachments@ == kept_attachments(attachments@),
        r.thread_id == thread_id,
{
    let stripped = strip_tag(content, &mate.prefix, &mate.postfix);
    let username = proxied_username(mate, collective);
    let avatar_url = mate.avatar.clone();
    let kept = filter_attachments(attachments);
    match reply {
        Some(rc) => {
            let author = quoted_author_name(rc).concat(" \u{2935}\u{fe0f}");
            let icon = match &rc.author_avatar {
                Some(av) => av.clone(),
                None => default_avatar.clone(),
            };
            let description = reply_embed_description(&rc.referenced_content, &rc.referenced_link);
            let content_out = if rc.mentions_author {
                suppressed_mention(stripped, rc.author_id)
            } else {
                stripped
            };
            RelayPlan {
                username,
                avatar_url,
                content: content_out,
                embed_author: Some(author),
                embed_icon: Some(icon),
                embed_description: Some(description),
                attachments: kept,
                thread_id,
            }
        },
        None => RelayPlan {
            username,
            avatar_url,
            content: stripped,
            embed_author: None,
            embed_icon: None,
            embed_description: None,
            attachments: kept,
            thread_id,
        },
    }
}

} // verus!
