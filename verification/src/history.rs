use vstd::prelude::*;
use crate::builtins::{history_chars, pwd_chars};
use crate::stage::clone_chars;
use crate::tokenize::{trim, trim_spec};

verus! {

/// What the shell hands to the history store for a line: the line with
/// surrounding whitespace removed.
pub open spec fn record_of(line: Seq<char>) -> Seq<char> {
    trim_spec(line)
}

/// Whether an accepted line is recorded: every non-empty line is, except
/// the literal commands `history` and `pwd`.
pub open spec fn should_record_spec(line: Seq<char>) -> bool {
    &&& trim_spec(line).len() > 0
    &&& trim_spec(line) != history_chars()
    &&& trim_spec(line) != pwd_chars()
}

/// Decides whether a line goes to the history store.
pub fn should_record(line: &Vec<char>) -> (b: bool)
    ensures
        b == should_record_spec(line@),
{
    let t = trim(line);
    if t.len() == 0 {
        return false;
    }
    match crate::builtins::classify(&t) {
        Some(crate::builtins::BuiltinKind::History) => false,
        Some(crate::builtins::BuiltinKind::Pwd) => false,
        _ => true,
    }
}

/// The trimmed text that the history store receives.
pub fn record_text(line: &Vec<char>) -> (r: Vec<char>)
    ensures
        r@ == record_of(line@),
{
    trim(line)
}

/// The decimal digit characters.
pub open spec fn digit_char(d: int) -> char {
    if d == 0 {
        '0'
    } else if d == 1 {
        '1'
    } else if d == 2 {
        '2'
    } else if d == 3 {
        '3'
    } else if d == 4 {
        '4'
    } else if d == 5 {
        '5'
    } else if d == 6 {
        '6'
    } else if d == 7 {
        '7'
    } else if d == 8 {
        '8'
    } else {
        '9'
    }
}

/// The decimal numeral of `n`, most significant digit first.
pub open spec fn decimal_chars(n: int) -> Seq<char>
    decreases n,
{
    if n < 10 {
        seq![digit_char(n)]
    } else {
        decimal_chars(n / 10).push(digit_char(n % 10))
    }
}

fn digit_of(n: u64) -> (c: char)
    requires
        n < 10,
    ensures
        c == digit_char(n as int),
{
    if n == 0 {
        '0'
    } else if n == 1 {
        '1'
    } else if n == 2 {
        '2'
    } else if n == 3 {
        '3'
    } else if n == 4 {
        '4'
    } else if n == 5 {
        '5'
    } else if n == 6 {
        '6'
    } else if n == 7 {
        '7'
    } else if n == 8 {
        '8'
    } else {
        '9'
    }
}

/// Writes `n` in decimal.
pub fn format_index(n: u64) -> (r: Vec<char>)
    ensures
        r@ == decimal_chars(n as int),
    decreases n,
{
    if n < 10 {
        let mut r: Vec<char> = Vec::new();
        r.push(digit_of(n));
        proof {
            assert(r@ =~= seq![digit_char(n as int)]);
        }
        r
    } else {
        let mut r = format_index(n / 10);
        r.push(digit_of(n % 10));
        r
    }
}

/// One line of the `history` builtin's display: the 1-based index in
/// decimal, a colon and a space, then the entry.
pub open spec fn history_line_spec(i: int, entry: Seq<char>) -> Seq<char> {
    decimal_chars(i + 1) + seq![':', ' '] + entry
}

/// Renders the history store's entries as a 1-based numbered list, one
/// line per entry, in order.
pub fn history_lines(entries: &Vec<Vec<char>>) -> (r: Vec<Vec<char>>)
    ensures
        r@.len() == entries@.len(),
        forall|i: int|
            0 <= i < entries@.len() ==> r@[i]@ == history_line_spec(i, entries@[i]@),
{
    let mut r: Vec<Vec<char>> = Vec::new();
    let mut i: usize = 0;
    while i < entries.len()
        invariant
            i <= entries.len(),
            r@.len() == i,
            forall|k: int| 0 <= k < i ==> r@[k]@ == history_line_spec(k, entries@[k]@),
        decreases entries.len() - i,
    {
        let mut line = format_index((i as u64) + 1);
        line.push(':');
        line.push(' ');
        let mut e = clone_chars(&entries[i]);
        line.append(&mut e);
        proof {
            assert(line@ =~= history_line_spec(i as int, entries@[i as int]@));
        }
        r.push(line);
        i = i + 1;
    }
    r
}

} // verus!
