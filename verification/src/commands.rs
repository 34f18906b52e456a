//! Parsing console lines and network command names into bus events.
//!
//! A console line is trimmed, its first whitespace-separated word matched
//! against the command keywords without regard to ASCII case; anything else
//! yields an error event naming the word.  Network clients send the bare
//! command name, matched exactly.

use vstd::prelude::*;
use vstd::string::StrSliceExecFns;
use vstd::string::StringExecFns;
use crate::data::{Command, Event};

verus! {

/// ASCII whitespace: space, tab, carriage return, line feed.
pub open spec fn is_space(c: char) -> bool {
    c == ' ' || c == '\t' || c == '\r' || c == '\n'
}

/// The input without its leading whitespace.
pub open spec fn trim_start_spec(s: Seq<char>) -> Seq<char>
    decreases s.len(),
{
    if s.len() == 0 {
        s
    } else if is_space(s[0]) {
        trim_start_spec(s.drop_first())
    } else {
        s
    }
}

/// The leading run of non-whitespace characters.
pub open spec fn take_token(s: Seq<char>) -> Seq<char>
    decreases s.len(),
{
    if s.len() == 0 || is_space(s[0]) {
        Seq::empty()
    } else {
        seq![s[0]] + take_token(s.drop_first())
    }
}

/// The first whitespace-separated word of the input; empty when the input
/// holds none.
pub open spec fn first_token(s: Seq<char>) -> Seq<char> {
    take_token(trim_start_spec(s))
}

/// The ASCII-lowercase code point of `c`.
pub open spec fn lower_code(c: char) -> int {
    if 65 <= c as u32 && c as u32 <= 90 {
        c as u32 + 32
    } else {
        c as u32 as int
    }
}

/// `tok` equals the keyword `kw` up to ASCII case.
pub open spec fn matches_keyword_ci(tok: Seq<char>, kw: Seq<char>) -> bool {
    &&& tok.len() == kw.len()
    &&& forall|i: int| 0 <= i < tok.len() ==> lower_code(tok[i]) == kw[i] as u32
}

proof fn lemma_trim_start(s: Seq<char>, i: int)
    requires
        0 <= i <= s.len(),
        forall|k: int| 0 <= k < i ==> is_space(#[trigger] s[k]),
        i < s.len() ==> !is_space(s[i]),
    ensures
        trim_start_spec(s) == s.subrange(i, s.len() as int),
    decreases i,
{
    if i == 0 {
        assert(s.subrange(0, s.len() as int) =~= s);
    } else {
        assert(is_space(s[0]));
        lemma_trim_start(s.drop_first(), i - 1);
        assert(s.drop_first().subrange(i - 1, s.drop_first().len() as int) =~= s.subrange(i, s.len() as int));
    }
}

proof fn lemma_take_token(s: Seq<char>, j: int)
    requires
        0 <= j <= s.len(),
        forall|k: int| 0 <= k < j ==> !is_space(#[trigger] s[k]),
        j < s.len() ==> is_space(s[j]),
    ensures
        take_token(s) == s.subrange(0, j),
    decreases j,
{
    if j == 0 {
        assert(s.subrange(0, 0) =~= Seq::<char>::empty());
    } else {
        assert(!is_space(s[0]));
        lemma_take_token(s.drop_first(), j - 1);
        assert(seq![s[0]] + s.drop_first().subrange(0, j - 1) =~= s.subrange(0, j));
    }
}

/// Whether `c` is ASCII whitespace.
fn is_space_char(c: char) -> (r: bool)
    ensures
        r == is_space(c),
{
    c == ' ' || c == '\t' || c == '\r' || c == '\n'
}

/// Whether `c` folds to the (lowercase) keyword character `l`.
fn char_matches_ci(c: char, l: char) -> (r: bool)
    ensures
        r == (lower_code(c) == l as u32),
{
    let u = c as u32;
    let lu = l as u32;
    if 65 <= u && u <= 90 {
        u + 32 == lu
    } else {
        u == lu
    }
}

/// Whether `line[i..j]` equals `kw` up to ASCII case.
pub(crate) fn span_matches_ci(line: &str, i: usize, j: usize, kw: &str) -> (r: bool)
    requires
        i <= j <= line@.len(),
    ensures
        r == matches_keyword_ci(line@.subrange(i as int, j as int), kw@),
{
    let klen = kw.unicode_len();
    if j - i != klen {
        return false;
    }
    let mut k: usize = 0;
    while k < klen
        invariant
            k <= klen,
            klen == kw@.len(),
            i <= j <= line@.len(),
            j - i == klen,
            forall|t: int| 0 <= t < k ==> lower_code(line@.subrange(i as int, j as int)[t]) == kw@[t] as u32,
        decreases klen - k,
    {
        if !char_matches_ci(line.get_char(i + k), kw.get_char(k)) {
            return false;
        }
        k = k + 1;
    }
    true
}

/// Exact equality of two strings.
fn str_eq(a: &str, b: &str) -> (r: bool)
    ensures
        r == (a@ == b@),
{
    let alen = a.unicode_len();
    let blen = b.unicode_len();
    if alen != blen {
        return false;
    }
    let mut k: usize = 0;
    while k < alen
        invariant
            k <= alen,
            alen == a@.len(),
            alen == b@.len(),
            forall|t: int| 0 <= t < k ==> a@[t] == b@[t],
        decreases alen - k,
    {
        if a.get_char(k) != b.get_char(k) {
            return false;
        }
        k = k + 1;
    }
    proof {
        assert(a@ =~= b@);
    }
    true
}

/// What `parse_tui_command` owes: no word, no event; a known keyword
/// (matched without regard to ASCII case), its event; any other word, an
/// error event naming the word as it was typed.
pub open spec fn tui_command_spec(s: Seq<char>, r: Option<Event>) -> bool {
    let tok = first_token(s);
    if tok.len() == 0 {
        r is None
    } else if matches_keyword_ci(tok, "exit"@) {
        r == Some(Event::Exit)
    } else if matches_keyword_ci(tok, "calibrate"@) {
        r == Some(Event::Command(Command::Calibrate))
    } else if matches_keyword_ci(tok, "scan"@) {
        r == Some(Event::Command(Command::Scan))
    } else if matches_keyword_ci(tok, "status"@) {
        r == Some(Event::Command(Command::Status))
    } else if matches_keyword_ci(tok, "disconnect"@) {
        r == Some(Event::Command(Command::Disconnect))
    } else if matches_keyword_ci(tok, "reconnect"@) {
        r == Some(Event::Command(Command::Reconnect))
    } else {
        r matches Some(Event::Error(m)) && m@ == "Unknown command: "@ + tok
    }
}

/// Parses one console line into the event it publishes.
pub fn parse_tui_command(line: &str) -> (r: Option<Event>)
    ensures
        tui_command_spec(line@, r),
{
    let n = line.unicode_len();
    let mut i: usize = 0;
    while i < n && is_space_char(line.get_char(i))
        invariant
            i <= n,
            n == line@.len(),
            forall|k: int| 0 <= k < i ==> is_space(#[trigger] line@[k]),
        decreases n - i,
    {
        i = i + 1;
    }
    proof {
        lemma_trim_start(line@, i as int);
    }
    if i == n {
        proof {
            assert(line@.subrange(i as int, n as int).len() == 0);
            assert(first_token(line@).len() == 0);
        }
        return None;
    }
    let mut j: usize = i;
    while j < n && !is_space_char(line.get_char(j))
        invariant
            i <= j <= n,
            n == line@.len(),
            forall|k: int| i <= k < j ==> !is_space(#[trigger] line@[k]),
        decreases n - j,
    {
        j = j + 1;
    }
    proof {
        let rest = line@.subrange(i as int, n as int);
        assert forall|k: int| 0 <= k < j - i implies !is_space(#[trigger] rest[k]) by {
            assert(rest[k] == line@[i + k]);
        }
        lemma_take_token(rest, j - i);
        assert(rest.subrange(0, j - i) =~= line@.subrange(i as int, j as int));
        assert(first_token(line@) == line@.subrange(i as int, j as int));
    }
    if span_matches_ci(line, i, j, "exit") {
        Some(Event::Exit)
    } else if span_matches_ci(line, i, j, "calibrate") {
        Some(Event::Command(Command::Calibrate))
    } else if span_matches_ci(line, i, j, "scan") {
        Some(Event::Command(Command::Scan))
    } else if span_matches_ci(line, i, j, "status") {
        Some(Event::Command(Command::Status))
    } else if span_matches_ci(line, i, j, "disconnect") {
        Some(Event::Command(Command::Disconnect))
    } else if span_matches_ci(line, i, j, "reconnect") {
        Some(Event::Command(Command::Reconnect))
    } else {
        let word = line.substring_char(i, j);
        Some(Event::Error(("Unknown command: ".to_owned()).concat(word)))
    }
}

/// What `server_command_event` owes: the exact command names map to their
/// events, anything else to nothing.
pub open spec fn server_command_spec(s: Seq<char>, r: Option<Event>) -> bool {
    if s == "exit"@ {
        r == Some(Event::Exit)
    } else if s == "calibrate"@ {
        r == Some(Event::Command(Command::Calibrate))
    } else if s == "scan"@ {
        r == Some(Event::Command(Command::Scan))
    } else if s == "status"@ {
        r == Some(Event::Command(Command::Status))
    } else if s == "disconnect"@ {
        r == Some(Event::Command(Command::Disconnect))
    } else if s == "reconnect"@ {
        r == Some(Event::Command(Command::Reconnect))
    } else {
        r is None
    }
}

/// Maps a network client's command name to the event it publishes.
pub fn server_command_event(name: &str) -> (r: Option<Event>)
    ensures
        server_command_spec(name@, r),
{
    if str_eq(name, "exit") {
        Some(Event::Exit)
    } else if str_eq(name, "calibrate") {
        Some(Event::Command(Command::Calibrate))
    } else if str_eq(name, "scan") {
        Some(Event::Command(Command::Scan))
    } else if str_eq(name, "status") {
        Some(Event::Command(Command::Status))
    } else if str_eq(name, "disconnect") {
        Some(Event::Command(Command::Disconnect))
    } else if str_eq(name, "reconnect") {
        Some(Event::Command(Command::Reconnect))
    } else {
        None
    }
}

} // verus!
