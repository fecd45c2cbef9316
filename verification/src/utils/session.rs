use vstd::arithmetic::power2::pow2;
use vstd::prelude::*;

use crate::utils::text::{is_true_flag, true_flag};

verus! {

/// The lowercase hexadecimal digit of `d` (0..=15).
pub open spec fn hex_digit(d: nat) -> char {
    if d < 10 {
        (d + 48) as char
    } else {
        (d + 87) as char
    }
}

/// The `k`-th hexadecimal digit of `x`, counting from the most significant (0..=31).
pub open spec fn nibble(x: u128, k: nat) -> nat {
    ((x as nat / pow2((4 * (31 - k)) as nat)) % 16) as nat
}

/// Which hexadecimal digit of a session id stands at position `i` of its text.
pub open spec fn digit_index(i: int) -> nat {
    if i < 8 {
        i as nat
    } else if i < 13 {
        (i - 1) as nat
    } else if i < 18 {
        (i - 2) as nat
    } else if i < 23 {
        (i - 3) as nat
    } else {
        (i - 4) as nat
    }
}

/// The text of a session id: the 128-bit value as 32 lowercase hexadecimal
/// digits, most significant first, in groups of 8-4-4-4-12 joined by hyphens.
pub open spec fn session_text(x: u128) -> Seq<char> {
    Seq::new(
        36,
        |i: int|
            if i == 8 || i == 13 || i == 18 || i == 23 {
                '-'
            } else {
                hex_digit(nibble(x, digit_index(i)))
            },
    )
}

/// What `uuid::Uuid::parse_str` makes of a text, as a 128-bit value.
pub uninterp spec fn uuid_parse_spec(s: Seq<char>) -> Option<u128>;

/// Calls `uuid::Uuid::parse_str` and takes the parsed id as a 128-bit value
/// (`Uuid::as_u128`). Trusted: the result is the parser's verdict on the
/// text, and the text of an id in the form written by `session_text` (the
/// parser's hyphenated form) parses back to that id.
#[verifier::external_body]
fn uuid_parse(s: &str) -> (r: Option<u128>)
    ensures
        r == uuid_parse_spec(s@),
        forall|x: u128| s@ == session_text(x) ==> r == Some(x),
{
    match uuid::Uuid::parse_str(s) {
        Ok(id) => Some(id.as_u128()),
        Err(_) => None,
    }
}

/// Calls `uuid::Uuid::from_u128` and renders the id with `to_string`.
/// Trusted: the text is the id's lowercase hyphenated form, `session_text`.
#[verifier::external_body]
fn uuid_text(x: u128) -> (s: String)
    ensures
        s@ == session_text(x),
{
    uuid::Uuid::from_u128(x).to_string()
}

/// Parses a session id given in a page address.
pub fn parse_session_id(s: &str) -> (r: Option<u128>)
    ensures
        r == uuid_parse_spec(s@),
        forall|x: u128| s@ == session_text(x) ==> r == Some(x),
{
    uuid_parse(s)
}

/// The text under which a session id is shared.
pub fn session_id_text(id: u128) -> (s: String)
    ensures
        s@ == session_text(id),
{
    uuid_text(id)
}

/// How a page finds its session from its address.
#[derive(PartialEq, Eq, Structural, Clone, Copy, Debug)]
pub enum SessionQuery {
    /// The address names this session.
    Join(u128),
    /// The address names no session: start a new one and put it in the address.
    Create,
}

/// Whether an address's `session_id` value is one a page can join: it is
/// absent, or it is a session id.
pub open spec fn joinable(session_id: Option<&str>) -> bool {
    session_id matches Some(s) ==> uuid_parse_spec(s@) is Some
}

/// The session a page joins, from the address's `session_id` value, which
/// must be absent or a session id.
pub fn session_from_query(session_id: Option<&str>) -> (r: SessionQuery)
    requires
        joinable(session_id),
    ensures
        r == match session_id {
            None => SessionQuery::Create,
            Some(s) => SessionQuery::Join(uuid_parse_spec(s@)->0),
        },
        session_id matches Some(s) ==> forall|x: u128| s@ == session_text(x) ==> r == SessionQuery::Join(x),
{
    match session_id {
        None => SessionQuery::Create,
        Some(s) => match uuid_parse(s) {
            Some(id) => SessionQuery::Join(id),
            None => SessionQuery::Create,
        },
    }
}

/// The session a page joins, when the address's `session_id` value is absent
/// or a session id; `None` when it is some other text.
pub fn checked_session_from_query(session_id: Option<&str>) -> (r: Option<SessionQuery>)
    ensures
        r is Some <==> joinable(session_id),
        r matches Some(q) ==> q == match session_id {
            None => SessionQuery::Create,
            Some(s) => SessionQuery::Join(uuid_parse_spec(s@)->0),
        },
        session_id matches Some(s) ==> forall|x: u128| s@ == session_text(x) ==> r == Some(SessionQuery::Join(x)),
{
    match session_id {
        None => Some(session_from_query(None)),
        Some(s) => match uuid_parse(s) {
            Some(_) => Some(session_from_query(Some(s))),
            None => None,
        },
    }
}

/// Whether the page is the host, from the address's `is_host` value: only
/// the text `true` makes it the host.
pub fn host_from_query(is_host: &str) -> (r: bool)
    ensures
        r == (is_host@ == true_flag()),
{
    is_true_flag(is_host)
}

/// How the meeting page finds its room: the session named in the address,
/// joined as the host exactly when `is_host` is `true` (a missing flag means
/// a client). When the address names no session, `fresh` is the new session
/// and this page hosts it.
pub fn room_from_query(session_id: Option<String>, is_host: Option<String>, fresh: String) -> (r: (String, bool))
    ensures
        r == match session_id {
            None => (fresh, true),
            Some(s) => (s, is_host matches Some(h) && h@ == true_flag()),
        },
{
    match session_id {
        None => (fresh, true),
        Some(s) => {
            let host = match is_host {
                Some(h) => is_true_flag(h.as_str()),
                None => false,
            };
            (s, host)
        },
    }
}

/// How the game page finds its session: both the session and the host flag
/// must be in the address, the page being the host when the flag is `true`;
/// otherwise `fresh` is the new session, hosted by this page.
pub fn game_from_query(session_id: Option<String>, is_host: Option<String>, fresh: String) -> (r: (String, bool))
    ensures
        r == match (session_id, is_host) {
            (Some(s), Some(h)) => (s, h@ == true_flag()),
            _ => (fresh, true),
        },
{
    match (session_id, is_host) {
        (Some(s), Some(h)) => {
            let host = is_true_flag(h.as_str());
            (s, host)
        },
        _ => (fresh, true),
    }
}

} // verus!
