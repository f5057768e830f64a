//! Small helpers around the pipeline: the sed-statement probe, message-link
//! parsing, and the avatar storage paths.

use vstd::prelude::*;

use crate::models::ProxyError;
use crate::text::{
    after_last_slash, all_dec_digits, dec_of, dec_val, last_path_segment, parse_u64, u64_to_dec,
};

verus! {

/// The statement names a substitution: its first part — up to the first
/// `/` not preceded by a backslash — is exactly `s`. Since `s` is no
/// backslash, that is: the statement is `s` alone or starts with `s/`.
pub open spec fn is_sed_statement(s: Seq<char>) -> bool {
    (s.len() == 1 && s[0] == 's') || (s.len() >= 2 && s[0] == 's' && s[1] == '/')
}

/// Probes a text command for a sed-style substitution statement; the
/// substitution itself is not applied here.
pub fn handle_sed_edit(message_content: &String, sed_statement: &String) -> (r: bool)
    ensures
        r == is_sed_statement(sed_statement@),
{
    let _ = message_content;
    let s = sed_statement.as_str();
    let len = s.unicode_len();
    if len == 0 {
        return false;
    }
    if s.get_char(0) != 's' {
        return false;
    }
    if len == 1 {
        return true;
    }
    s.get_char(1) == '/'
}

/// Extracts the message id from a message jump link: the part after the
/// last `/` must be a decimal number.
pub fn message_link_to_id(message_link: String) -> (r: Result<u64, ProxyError>)
    ensures
        match r {
            Ok(id) => {
                let seg = after_last_slash(message_link@);
                seg.len() > 0 && all_dec_digits(seg) && dec_val(seg) == id as int
            },
            Err(e) => e == ProxyError::NotFound && {
                let seg = after_last_slash(message_link@);
                seg.len() == 0 || !all_dec_digits(seg) || dec_val(seg) > u64::MAX
            },
        },
{
    let seg = last_path_segment(message_link.as_str());
    match parse_u64(seg.as_str()) {
        Some(id) => Ok(id),
        None => Err(ProxyError::NotFound),
    }
}

/// The percent-encoded form of a string. Only stated facts about this name
/// hold; the encoding itself comes from the urlencoding crate.
pub uninterp spec fn urlencoded(s: Seq<char>) -> Seq<char>;

/// Relies on urlencoding::encode: percent-encodes every byte except ASCII
/// alphanumerics and `-`, `_`, `.`, `~`; the result depends on the
/// characters alone.
#[verifier::external_body]
fn urlencode(s: &str) -> (r: String)
    ensures
        r@ == urlencoded(s@),
        s@.len() == 0 ==> r@.len() == 0,
{
    urlencoding::encode(s).into_owned()
}

/// The file extension recorded for a mime type. Only stated facts about
/// this name hold; the table itself comes from the mime2ext crate.
pub uninterp spec fn ext_of_mime(m: Seq<char>) -> Option<Seq<char>>;

/// Relies on mime2ext::mime2ext: a fixed table lookup from mime type to
/// file extension, depending on the string alone.
#[verifier::external_body]
fn mime_to_ext(mime: &str) -> (r: Option<String>)
    ensures
        r.deep_view() == ext_of_mime(mime@),
{
    mime2ext::mime2ext(mime).map(|e| e.to_owned())
}

/// Picks the file extension an uploaded avatar is stored under; an
/// attachment without a known mime type cannot be stored.
pub fn avatar_file_ext(content_type: &Option<String>) -> (r: Result<String, ProxyError>)
    ensures
        match content_type {
            None => r == Err::<String, ProxyError>(ProxyError::NotFound),
            Some(ct) => match ext_of_mime(ct@) {
                Some(e) => r matches Ok(s) && s@ == e,
                None => r == Err::<String, ProxyError>(ProxyError::NotFound),
            },
        },
{
    match content_type {
        None => Err(ProxyError::NotFound),
        Some(ct) => {
            match mime_to_ext(ct.as_str()) {
                Some(e) => Ok(e),
                None => Err(ProxyError::NotFound),
            }
        },
    }
}

/// The object key an avatar is stored under: `/{owner}/{name}.{ext}`.
pub fn avatar_object_key(user_id: u64, mate_name: &String, file_ext: &String) -> (r: String)
    ensures
        r@ == seq!['/'] + dec_of(user_id as int) + seq!['/'] + mate_name@ + seq!['.'] + file_ext@,
{
    let r = String::from_str("/").concat(u64_to_dec(user_id).as_str()).concat("/").concat(
        mate_name.as_str(),
    ).concat(".").concat(file_ext.as_str());
    proof {
        reveal_strlit("/");
        reveal_strlit(".");
        assert("/"@ =~= seq!['/']);
        assert("."@ =~= seq!['.']);
    }
    r
}

/// The public URL an uploaded avatar is served from:
/// `{base}/{owner}/{encoded name}.{ext}`, with the persona name
/// percent-encoded.
pub fn avatar_public_url(base: &String, user_id: u64, mate_name: &String, file_ext: &String) -> (r:
    String)
    ensures
        r@ == base@ + seq!['/'] + dec_of(user_id as int) + seq!['/'] + urlencoded(mate_name@)
            + seq!['.'] + file_ext@,
{
    let r = base.clone().concat("/").concat(u64_to_dec(user_id).as_str()).concat("/").concat(
        urlencode(mate_name.as_str()).as_str(),
    ).concat(".").concat(file_ext.as_str());
    proof {
        reveal_strlit("/");
        reveal_strlit(".");
        assert("/"@ =~= seq!['/']);
        assert("."@ =~= seq!['.']);
    }
    r
}

} // verus!
