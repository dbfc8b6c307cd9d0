//! The structured payload grammar of the relay.
//!
//! A payload is a JSON object of exactly two members whose values are JSON
//! strings: `{"topic": ..., "data": ...}` for a published message and
//! `{"publisher": ..., "topic": ...}` for a subscription, each in either
//! member order, with the usual JSON whitespace between tokens. A string
//! holds any characters but the quote, the backslash and the control range,
//! and the single-character escapes `\" \\ \/ \b \f \n \r \t`, which decode
//! as JSON says; numeric `\u` escapes are not part of this grammar.

use vstd::prelude::*;
use crate::messages::PublisherMsg;
use crate::messages::PublisherMsgView;
use crate::messages::SubscriberMsg;
use crate::messages::SubscriberMsgView;
use crate::text::str_eq;

verus! {

/// JSON insignificant whitespace.
pub open spec fn is_json_ws(c: char) -> bool {
    c == ' ' || c == '\t' || c == '\n' || c == '\r'
}

/// A character that may stand unescaped inside a string: anything but the
/// closing quote, the backslash and the control range.
pub open spec fn is_string_char(c: char) -> bool {
    c != '"' && c != '\\' && (c as u32) >= 32
}

/// What the character after a backslash decodes to, if the pair is one of
/// the single-character escapes of JSON.
pub open spec fn decode_escape(e: char) -> Option<char> {
    if e == '"' {
        Some('"')
    } else if e == '\\' {
        Some('\\')
    } else if e == '/' {
        Some('/')
    } else if e == 'b' {
        Some('\u{0008}')
    } else if e == 'f' {
        Some('\u{000C}')
    } else if e == 'n' {
        Some('\n')
    } else if e == 'r' {
        Some('\r')
    } else if e == 't' {
        Some('\t')
    } else {
        None
    }
}

/// The first position at or after `i` holding no JSON whitespace.
pub open spec fn spec_skip_ws(s: Seq<char>, i: int) -> int
    decreases s.len() - i,
{
    if 0 <= i < s.len() && is_json_ws(s[i]) {
        spec_skip_ws(s, i + 1)
    } else {
        i
    }
}

/// A string body read from position `i` with `acc` already decoded: the
/// decoded content grows with each plain character or escape pair until the
/// closing quote, whose successor position is yielded beside the content.
pub open spec fn spec_string_tail(s: Seq<char>, i: int, acc: Seq<char>) -> Option<
    (Seq<char>, int),
>
    decreases s.len() - i,
{
    if !(0 <= i < s.len()) {
        None
    } else if s[i] == '"' {
        Some((acc, i + 1))
    } else if s[i] == '\\' {
        if i + 1 < s.len() {
            match decode_escape(s[i + 1]) {
                Some(c) => spec_string_tail(s, i + 2, acc.push(c)),
                None => None,
            }
        } else {
            None
        }
    } else if is_string_char(s[i]) {
        spec_string_tail(s, i + 1, acc.push(s[i]))
    } else {
        None
    }
}

/// The decoded content of a string whose body starts at `i` (just past the
/// opening quote), and the position just past its closing quote.
pub open spec fn spec_string(s: Seq<char>, i: int) -> Option<(Seq<char>, int)> {
    spec_string_tail(s, i, Seq::empty())
}

/// One object member starting at `i`: a quoted key, a colon and a quoted
/// value, with whitespace allowed around the colon. Yields the decoded key,
/// the decoded value and the position just past the value's closing quote.
pub open spec fn spec_parse_member(s: Seq<char>, i: int) -> Option<(Seq<char>, Seq<char>, int)> {
    if 0 <= i < s.len() && s[i] == '"' {
        match spec_string(s, i + 1) {
            Some((key, p)) => {
                let j = spec_skip_ws(s, p);
                if j < s.len() && s[j] == ':' {
                    let k = spec_skip_ws(s, j + 1);
                    if k < s.len() && s[k] == '"' {
                        match spec_string(s, k + 1) {
                            Some((val, q)) => Some((key, val, q)),
                            None => None,
                        }
                    } else {
                        None
                    }
                } else {
                    None
                }
            },
            None => None,
        }
    } else {
        None
    }
}

/// A whole payload document: an object of exactly two members, in textual
/// order, with nothing but whitespace around and between the tokens.
pub open spec fn spec_parse_pair_object(s: Seq<char>) -> Option<
    (Seq<char>, Seq<char>, Seq<char>, Seq<char>),
> {
    let i = spec_skip_ws(s, 0);
    if i < s.len() && s[i] == '{' {
        match spec_parse_member(s, spec_skip_ws(s, i + 1)) {
            Some((k1, v1, p)) => {
                let q = spec_skip_ws(s, p);
                if q < s.len() && s[q] == ',' {
                    match spec_parse_member(s, spec_skip_ws(s, q + 1)) {
                        Some((k2, v2, u)) => {
                            let w = spec_skip_ws(s, u);
                            if w < s.len() && s[w] == '}' && spec_skip_ws(s, w + 1) == s.len() {
                                Some((k1, v1, k2, v2))
                            } else {
                                None
                            }
                        },
                        None => None,
                    }
                } else {
                    None
                }
            },
            None => None,
        }
    } else {
        None
    }
}

/// The two values of a pair object keyed `ka` and `kb`, in that order,
/// whichever order the document wrote them in. A document whose keys are not
/// exactly `{ka, kb}` means nothing.
pub open spec fn spec_two_fields(s: Seq<char>, ka: Seq<char>, kb: Seq<char>) -> Option<
    (Seq<char>, Seq<char>),
> {
    match spec_parse_pair_object(s) {
        Some((k1, v1, k2, v2)) => {
            if k1 == ka && k2 == kb {
                Some((v1, v2))
            } else if k1 == kb && k2 == ka {
                Some((v2, v1))
            } else {
                None
            }
        },
        None => None,
    }
}

/// What a text frame means as a published message.
pub open spec fn spec_parse_publish(s: Seq<char>) -> Option<PublisherMsgView> {
    match spec_two_fields(s, "topic"@, "data"@) {
        Some(p) => Some(PublisherMsgView { topic: p.0, data: p.1 }),
        None => None,
    }
}

/// What a text frame means as a subscription request.
pub open spec fn spec_parse_subscribe(s: Seq<char>) -> Option<SubscriberMsgView> {
    match spec_two_fields(s, "publisher"@, "topic"@) {
        Some(p) => Some(SubscriberMsgView { publisher: p.0, topic: p.1 }),
        None => None,
    }
}

/// Skip JSON whitespace from `i`.
fn skip_ws(s: &str, i: usize, n: usize) -> (r: usize)
    requires
        n == s@.len(),
        i <= n,
    ensures
        i <= r <= n,
        r as int == spec_skip_ws(s@, i as int),
    decreases n - i,
{
    if i < n {
        let c = s.get_char(i);
        if c == ' ' || c == '\t' || c == '\n' || c == '\r' {
            return skip_ws(s, i + 1, n);
        }
    }
    i
}

/// The one-character text an escape pair decodes to.
fn escape_piece(e: char) -> (r: Option<&'static str>)
    ensures
        r matches Some(p) ==> (decode_escape(e) matches Some(c) && p@ == seq![c]),
        r is None ==> decode_escape(e) is None,
{
    match e {
        '"' => {
            proof {
                reveal_strlit("\"");
                assert(("\"")@ =~= seq!['"']);
            }
            Some("\"")
        },
        '\\' => {
            proof {
                reveal_strlit("\\");
                assert(("\\")@ =~= seq!['\\']);
            }
            Some("\\")
        },
        '/' => {
            proof {
                reveal_strlit("/");
                assert(("/")@ =~= seq!['/']);
            }
            Some("/")
        },
        'b' => {
            proof {
                reveal_strlit("\u{0008}");
                assert(("\u{0008}")@ =~= seq!['\u{0008}']);
            }
            Some("\u{0008}")
        },
        'f' => {
            proof {
                reveal_strlit("\u{000C}");
                assert(("\u{000C}")@ =~= seq!['\u{000C}']);
            }
            Some("\u{000C}")
        },
        'n' => {
            proof {
                reveal_strlit("\n");
                assert(("\n")@ =~= seq!['\n']);
            }
            Some("\n")
        },
        'r' => {
            proof {
                reveal_strlit("\r");
                assert(("\r")@ =~= seq!['\r']);
            }
            Some("\r")
        },
        't' => {
            proof {
                reveal_strlit("\t");
                assert(("\t")@ =~= seq!['\t']);
            }
            Some("\t")
        },
        _ => None,
    }
}

/// Decode a string whose body starts at `start` (just past the opening
/// quote), up to and including its closing quote.
fn parse_string(s: &str, start: usize, n: usize) -> (r: Option<(String, usize)>)
    requires
        n == s@.len(),
        start <= n,
    ensures
        r matches Some(t) ==> t.1 <= n && spec_string(s@, start as int) == Some((t.0@, t.1 as int)),
        r is None ==> spec_string(s@, start as int) is None,
{
    let mut out = String::new();
    let mut i = start;
    while i < n
        invariant
            n == s@.len(),
            start <= i <= n,
            spec_string(s@, start as int) == spec_string_tail(s@, i as int, out@),
        decreases n - i,
    {
        let c = s.get_char(i);
        if c == '"' {
            return Some((out, i + 1));
        } else if c == '\\' {
            if i + 1 >= n {
                return None;
            }
            let piece = match escape_piece(s.get_char(i + 1)) {
                Some(p) => p,
                None => {
                    return None;
                },
            };
            let ghost out0 = out@;
            out.append(piece);
            proof {
                assert(out@ =~= out0.push(piece@[0]));
                assert(spec_string_tail(s@, i as int, out0) == spec_string_tail(
                    s@,
                    i + 2,
                    out0.push(piece@[0]),
                ));
            }
            i = i + 2;
        } else if (c as u32) >= 32 {
            let piece = s.substring_char(i, i + 1);
            proof {
                assert(piece@ =~= seq![s@[i as int]]);
            }
            let ghost out0 = out@;
            out.append(piece);
            proof {
                assert(out@ =~= out0.push(s@[i as int]));
                assert(spec_string_tail(s@, i as int, out0) == spec_string_tail(
                    s@,
                    i + 1,
                    out0.push(s@[i as int]),
                ));
            }
            i = i + 1;
        } else {
            return None;
        }
    }
    None
}

/// Parse one object member starting at `i`.
fn parse_member(s: &str, i: usize, n: usize) -> (r: Option<(String, String, usize)>)
    requires
        n == s@.len(),
        i <= n,
    ensures
        r matches Some(t) ==> t.2 <= n && spec_parse_member(s@, i as int) == Some(
            (t.0@, t.1@, t.2 as int),
        ),
        r is None ==> spec_parse_member(s@, i as int) is None,
{
    if i >= n {
        return None;
    }
    if s.get_char(i) != '"' {
        return None;
    }
    let (key, p) = match parse_string(s, i + 1, n) {
        Some(t) => t,
        None => {
            return None;
        },
    };
    let j = skip_ws(s, p, n);
    if j >= n {
        return None;
    }
    if s.get_char(j) != ':' {
        return None;
    }
    let k = skip_ws(s, j + 1, n);
    if k >= n {
        return None;
    }
    if s.get_char(k) != '"' {
        return None;
    }
    let (val, q) = match parse_string(s, k + 1, n) {
        Some(t) => t,
        None => {
            return None;
        },
    };
    Some((key, val, q))
}

/// Parse a whole two-member object document.
fn parse_pair_object(s: &str) -> (r: Option<(String, String, String, String)>)
    ensures
        r matches Some(t) ==> spec_parse_pair_object(s@) == Some((t.0@, t.1@, t.2@, t.3@)),
        r is None ==> spec_parse_pair_object(s@) is None,
{
    let n = s.unicode_len();
    let i = skip_ws(s, 0, n);
    if i >= n {
        return None;
    }
    if s.get_char(i) != '{' {
        return None;
    }
    let m1 = skip_ws(s, i + 1, n);
    let (k1, v1, p) = match parse_member(s, m1, n) {
        Some(t) => t,
        None => {
            return None;
        },
    };
    let q = skip_ws(s, p, n);
    if q >= n {
        return None;
    }
    if s.get_char(q) != ',' {
        return None;
    }
    let m2 = skip_ws(s, q + 1, n);
    let (k2, v2, u) = match parse_member(s, m2, n) {
        Some(t) => t,
        None => {
            return None;
        },
    };
    let w = skip_ws(s, u, n);
    if w >= n {
        return None;
    }
    if s.get_char(w) != '}' {
        return None;
    }
    if skip_ws(s, w + 1, n) != n {
        return None;
    }
    Some((k1, v1, k2, v2))
}

/// Parse a text frame as a published message: `{"topic": ..., "data": ...}`.
pub fn parse_publish_payload(s: &str) -> (r: Option<PublisherMsg>)
    ensures
        r matches Some(m) ==> spec_parse_publish(s@) == Some(m@),
        r is None ==> spec_parse_publish(s@) is None,
{
    match parse_pair_object(s) {
        Some((k1, v1, k2, v2)) => {
            if str_eq(k1.as_str(), "topic") && str_eq(k2.as_str(), "data") {
                Some(PublisherMsg { topic: v1, data: v2 })
            } else if str_eq(k1.as_str(), "data") && str_eq(k2.as_str(), "topic") {
                Some(PublisherMsg { topic: v2, data: v1 })
            } else {
                None
            }
        },
        None => None,
    }
}

/// Parse a text frame as a subscription request:
/// `{"publisher": ..., "topic": ...}`.
pub fn parse_subscribe_payload(s: &str) -> (r: Option<SubscriberMsg>)
    ensures
        r matches Some(f) ==> spec_parse_subscribe(s@) == Some(f@),
        r is None ==> spec_parse_subscribe(s@) is None,
{
    match parse_pair_object(s) {
        Some((k1, v1, k2, v2)) => {
            if str_eq(k1.as_str(), "publisher") && str_eq(k2.as_str(), "topic") {
                Some(SubscriberMsg { publisher: v1, topic: v2 })
            } else if str_eq(k1.as_str(), "topic") && str_eq(k2.as_str(), "publisher") {
                Some(SubscriberMsg { publisher: v2, topic: v1 })
            } else {
                None
            }
        },
        None => None,
    }
}

} // verus!
