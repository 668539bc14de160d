//! The ecosystem status document.
//!
//! A status query always succeeds and returns one JSON object: a fixed list
//! of four service names, a fixed health line, and the timestamp of the call
//! in RFC 3339 form. Only the timestamp varies between calls; the rendering
//! is pinned character for character by [`status_json`].

use vstd::prelude::*;
use vstd::string::StringExecFns;
use crate::text::{append_json_escaped, json_escape};

verus! {

/// The JSON array of the four service names, as it stands in the document.
pub open spec fn services_text() -> Seq<char> {
    "[\"KREACH\",\"OnlyOneAPI\",\"NEXTGEN\",\"KVIBE\"]"@
}

/// The fixed health line.
pub open spec fn health_text() -> Seq<char> {
    "All systems operational"@
}

/// Everything of the status document that precedes the timestamp's
/// characters: the services array and the health field, then the opening of
/// the timestamp field.
pub open spec fn status_prefix() -> Seq<char> {
    "{\"services\":"@ + services_text() + ",\"health\":\""@ + health_text()
        + "\",\"timestamp\":\""@
}

/// Everything of the status document that follows the timestamp's
/// characters.
pub open spec fn status_suffix() -> Seq<char> {
    "\"}"@
}

/// The whole status document for a given timestamp text.
pub open spec fn status_json(ts: Seq<char>) -> Seq<char> {
    status_prefix() + json_escape(ts) + status_suffix()
}

/// Whether `c` can appear in an RFC 3339 timestamp as chrono writes it: an
/// ASCII digit or one of the separators `-`, `+`, `:`, `.`, `T`.
pub open spec fn rfc3339_char(c: char) -> bool {
    (48 <= c as u32 && c as u32 <= 57) || c == '-' || c == '+' || c == ':' || c == '.' || c
        == 'T'
}

/// Whether `ts` has the character shape of an RFC 3339 timestamp: nonempty,
/// with every character an ASCII digit or one of `-`, `+`, `:`, `.`, `T`.
pub open spec fn timestamp_text(ts: Seq<char>) -> bool {
    ts.len() > 0 && forall|i: int| 0 <= i < ts.len() ==> rfc3339_char(#[trigger] ts[i])
}

/// Whether `s` is a status document: the fixed prefix and suffix around a
/// verbatim timestamp of RFC 3339 shape.
pub open spec fn is_status_text(s: Seq<char>) -> bool {
    exists|ts: Seq<char>|
        #[trigger] timestamp_text(ts) && s == status_prefix() + ts + status_suffix()
}

/// Renders the status document for the given timestamp text.
pub fn render_status(timestamp: &str) -> (r: String)
    ensures
        r@ == status_json(timestamp@),
{
    let mut out: String = String::from_str("{\"services\":");
    out.append("[\"KREACH\",\"OnlyOneAPI\",\"NEXTGEN\",\"KVIBE\"]");
    out.append(",\"health\":\"");
    out.append("All systems operational");
    out.append("\",\"timestamp\":\"");
    append_json_escaped(&mut out, timestamp);
    out.append("\"}");
    proof {
        assert(out@ =~= status_json(timestamp@));
    }
    out
}

/// Relies on chrono's `Utc::now` and `DateTime::to_rfc3339` for the current
/// UTC time written as an RFC 3339 string: nonempty, every character an
/// ASCII digit or one of `-`, `+`, `:`, `.`, `T` (chrono writes the UTC
/// offset as `+00:00`, never `Z`). `Utc::now` aborts if the system clock
/// stands before the Unix epoch or outside chrono's representable years — an
/// environmental condition, not one of any input.
#[verifier::external_body]
fn now_rfc3339() -> (r: String)
    ensures
        timestamp_text(r@),
{
    chrono::Utc::now().to_rfc3339()
}

/// Reports the ecosystem status. Always succeeds; the returned text is the
/// status document carrying, verbatim, an RFC 3339-shaped timestamp — the
/// one of the call.
pub fn get_ecosystem_status() -> (r: Result<String, String>)
    ensures
        r matches Ok(s) && is_status_text(s@),
{
    let ts: String = now_rfc3339();
    let body: String = render_status(ts.as_str());
    proof {
        assert forall|i: int| 0 <= i < ts@.len() implies ts@[i] != '"' && ts@[i] != '\\' && (
        ts@[i] as u32) >= 32 by {
            assert(rfc3339_char(ts@[i]));
        }
        lemma_status_timestamp_verbatim(ts@);
        assert(timestamp_text(ts@) && body@ == status_prefix() + ts@ + status_suffix());
    }
    Ok(body)
}

/// The services and health fields of the status document do not depend on
/// the timestamp: for any two timestamps the rendered documents agree on the
/// whole fixed leading portion, which carries the services array and the
/// health line.
pub proof fn lemma_status_fields_stable(ts1: Seq<char>, ts2: Seq<char>)
    ensures
        status_json(ts1).subrange(0, status_prefix().len() as int) == status_prefix(),
        status_json(ts1).subrange(0, status_prefix().len() as int) == status_json(
            ts2,
        ).subrange(0, status_prefix().len() as int),
{
    assert(status_json(ts1).subrange(0, status_prefix().len() as int) =~= status_prefix());
    assert(status_json(ts2).subrange(0, status_prefix().len() as int) =~= status_prefix());
}

/// A timestamp without quote, backslash or control characters — as every
/// RFC 3339 timestamp is — stands verbatim in the status document, between
/// the fixed prefix and the closing of the field.
pub proof fn lemma_status_timestamp_verbatim(ts: Seq<char>)
    requires
        forall|i: int| 0 <= i < ts.len() ==> ts[i] != '"' && ts[i] != '\\' && (ts[i] as u32)
            >= 32,
    ensures
        status_json(ts) == status_prefix() + ts + status_suffix(),
{
    crate::text::lemma_escape_plain(ts);
}

/// Every status document embeds exactly the fixed four-element services
/// array, at the same place whatever the timestamp.
pub proof fn lemma_status_services(ts: Seq<char>)
    ensures
        status_json(ts).subrange(12, 53) == services_text(),
{
    reveal_strlit("{\"services\":");
    reveal_strlit("[\"KREACH\",\"OnlyOneAPI\",\"NEXTGEN\",\"KVIBE\"]");
    assert(status_json(ts).subrange(12, 53) =~= services_text());
}

} // verus!
