//! The line-oriented handshake command grammar.
//!
//! Two fixed commands exist: `pub auth <password>` and `pub name <identifier>`.
//! Each is the nine-character prefix followed by exactly one non-empty token
//! holding no space. Anything else is not a command.

use vstd::prelude::*;
use crate::text::str_eq;

verus! {

/// A recognised handshake command.
pub enum Command {
    /// `pub auth <password>`: authenticate this connection as a publisher.
    Auth(String),
    /// `pub name <identifier>`: bind this connection to a publisher name.
    Name(String),
}

/// The mathematical value of a [`Command`].
pub enum CommandView {
    Auth(Seq<char>),
    Name(Seq<char>),
}

impl View for Command {
    type V = CommandView;

    open spec fn view(&self) -> CommandView {
        match self {
            Command::Auth(t) => CommandView::Auth(t@),
            Command::Name(t) => CommandView::Name(t@),
        }
    }
}

/// A single command token: non-empty and free of spaces.
pub open spec fn spec_is_token(s: Seq<char>) -> bool {
    s.len() > 0 && (forall|k: int| 0 <= k < s.len() ==> s[k] != ' ')
}

/// What a line of text means as a command: `pub auth` or `pub name`, each
/// followed by one token; every other line is no command at all.
pub open spec fn spec_parse_command(s: Seq<char>) -> Option<CommandView> {
    if s.len() > 9 && s.subrange(0, 9) == "pub auth "@ && spec_is_token(s.skip(9)) {
        Some(CommandView::Auth(s.skip(9)))
    } else if s.len() > 9 && s.subrange(0, 9) == "pub name "@ && spec_is_token(s.skip(9)) {
        Some(CommandView::Name(s.skip(9)))
    } else {
        None
    }
}

/// Whether `t` is a single command token.
fn is_token(t: &str) -> (r: bool)
    ensures
        r == spec_is_token(t@),
{
    let n = t.unicode_len();
    if n == 0 {
        return false;
    }
    let mut i: usize = 0;
    while i < n
        invariant
            n == t@.len(),
            0 <= i <= n,
            forall|k: int| 0 <= k < i ==> t@[k] != ' ',
        decreases n - i,
    {
        if t.get_char(i) == ' ' {
            return false;
        }
        i = i + 1;
    }
    true
}

/// Classify one line against the command grammar.
pub fn parse_command(s: &str) -> (r: Option<Command>)
    ensures
        r matches Some(c) ==> spec_parse_command(s@) == Some(c@),
        r is None ==> spec_parse_command(s@) is None,
{
    let n = s.unicode_len();
    if n < 10 {
        return None;
    }
    let prefix = s.substring_char(0, 9);
    let rest = s.substring_char(9, n);
    proof {
        assert(rest@ =~= s@.skip(9));
    }
    if !is_token(rest) {
        return None;
    }
    if str_eq(prefix, "pub auth ") {
        Some(Command::Auth(rest.to_owned()))
    } else if str_eq(prefix, "pub name ") {
        Some(Command::Name(rest.to_owned()))
    } else {
        None
    }
}

} // verus!
