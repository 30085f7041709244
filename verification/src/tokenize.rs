use vstd::prelude::*;

verus! {

/// Whitespace as the tokenizer understands it: the ASCII blanks that can
/// separate words on a command line.
pub open spec fn is_ws(c: char) -> bool {
    c == ' ' || c == '\t' || c == '\n' || c == '\r'
}

/// Executable test for [`is_ws`].
pub fn ws_char(c: char) -> (b: bool)
    ensures
        b == is_ws(c),
{
    c == ' ' || c == '\t' || c == '\n' || c == '\r'
}

/// Copies `s[a..b]` into a fresh vector.
pub fn copy_range(s: &Vec<char>, a: usize, b: usize) -> (r: Vec<char>)
    requires
        a <= b <= s.len(),
    ensures
        r@ == s@.subrange(a as int, b as int),
{
    let mut r: Vec<char> = Vec::new();
    let mut i: usize = a;
    while i < b
        invariant
            a <= i <= b <= s.len(),
            r@ == s@.subrange(a as int, i as int),
        decreases b - i,
    {
        r.push(s[i]);
        proof {
            assert(s@.subrange(a as int, i + 1) =~= s@.subrange(a as int, i as int).push(
                s@[i as int],
            ));
        }
        i = i + 1;
    }
    r
}

/// The line with trailing whitespace removed.
pub open spec fn trim_end_spec(s: Seq<char>) -> Seq<char>
    decreases s.len(),
{
    if s.len() > 0 && is_ws(s.last()) {
        trim_end_spec(s.drop_last())
    } else {
        s
    }
}

/// The line with leading whitespace removed.
pub open spec fn trim_start_spec(s: Seq<char>) -> Seq<char>
    decreases s.len(),
{
    if s.len() > 0 && is_ws(s.first()) {
        trim_start_spec(s.drop_first())
    } else {
        s
    }
}

/// The line with whitespace removed from both ends.
pub open spec fn trim_spec(s: Seq<char>) -> Seq<char> {
    trim_start_spec(trim_end_spec(s))
}

/// Removes leading and trailing whitespace.
pub fn trim(s: &Vec<char>) -> (r: Vec<char>)
    ensures
        r@ == trim_spec(s@),
{
    let mut j: usize = s.len();
    proof {
        assert(s@.subrange(0, j as int) =~= s@);
    }
    while j > 0 && ws_char(s[j - 1])
        invariant
            j <= s.len(),
            trim_end_spec(s@) == trim_end_spec(s@.subrange(0, j as int)),
        decreases j,
    {
        proof {
            let t = s@.subrange(0, j as int);
            assert(t.last() == s@[j - 1]);
            assert(t.drop_last() =~= s@.subrange(0, j - 1));
        }
        j = j - 1;
    }
    proof {
        let t = s@.subrange(0, j as int);
        if j > 0 {
            assert(t.last() == s@[j - 1]);
        }
        assert(trim_end_spec(t) == t);
    }
    let mut i: usize = 0;
    while i < j && ws_char(s[i])
        invariant
            i <= j <= s.len(),
            trim_end_spec(s@) == s@.subrange(0, j as int),
            trim_start_spec(s@.subrange(0, j as int)) == trim_start_spec(
                s@.subrange(i as int, j as int),
            ),
        decreases j - i,
    {
        proof {
            let u = s@.subrange(i as int, j as int);
            assert(u.first() == s@[i as int]);
            assert(u.drop_first() =~= s@.subrange(i + 1, j as int));
        }
        i = i + 1;
    }
    proof {
        let u = s@.subrange(i as int, j as int);
        if i < j {
            assert(u.first() == s@[i as int]);
        }
        assert(trim_start_spec(u) == u);
    }
    copy_range(s, i, j)
}

/// Whether the three characters starting at `i` are the stage separator,
/// a pipe with exactly one space on each side.
pub open spec fn sep_at(s: Seq<char>, i: int) -> bool {
    &&& i + 3 <= s.len()
    &&& s[i] == ' '
    &&& s[i + 1] == '|'
    &&& s[i + 2] == ' '
}

/// The first position at or after `from` where a stage separator starts,
/// or `-1` when there is none.
pub open spec fn find_sep_from(s: Seq<char>, from: int) -> int
    decreases s.len() - from,
{
    if from + 3 > s.len() {
        -1
    } else if sep_at(s, from) {
        from
    } else {
        find_sep_from(s, from + 1)
    }
}

/// A found separator lies at or after the start of the search.
pub proof fn lemma_find_sep_bounds(s: Seq<char>, from: int)
    requires
        0 <= from,
    ensures
        find_sep_from(s, from) == -1 || (from <= find_sep_from(s, from) && sep_at(
            s,
            find_sep_from(s, from),
        )),
    decreases s.len() - from,
{
    if from + 3 > s.len() {
    } else if sep_at(s, from) {
    } else {
        lemma_find_sep_bounds(s, from + 1);
    }
}

/// Finds the first stage separator at or after `from`.
pub fn find_sep(s: &Vec<char>, from: usize) -> (r: Option<usize>)
    requires
        from <= s.len(),
    ensures
        match r {
            Some(j) => find_sep_from(s@, from as int) == j as int && from <= j && j + 3 <= s.len(),
            None => find_sep_from(s@, from as int) == -1,
        },
{
    let mut i: usize = from;
    loop
        invariant
            from <= i <= s.len(),
            find_sep_from(s@, from as int) == find_sep_from(s@, i as int),
        decreases s.len() - i,
    {
        if s.len() - i < 3 {
            return None;
        }
        if s[i] == ' ' && s[i + 1] == '|' && s[i + 2] == ' ' {
            return Some(i);
        }
        i = i + 1;
    }
}

/// The stage substrings of a line: the pieces between stage separators,
/// in order, scanning for the leftmost separator first.
pub open spec fn stages_from(s: Seq<char>, from: int) -> Seq<Seq<char>>
    decreases s.len() - from,
    when 0 <= from <= s.len()
    via stages_from_decreases
{
    let j = find_sep_from(s, from);
    if j < 0 {
        seq![s.subrange(from, s.len() as int)]
    } else {
        seq![s.subrange(from, j)] + stages_from(s, j + 3)
    }
}

#[via_fn]
proof fn stages_from_decreases(s: Seq<char>, from: int) {
    lemma_find_sep_bounds(s, from);
}

/// The stage substrings of a whole line.
pub open spec fn stages_of(s: Seq<char>) -> Seq<Seq<char>> {
    stages_from(s, 0)
}

fn split_stages_from(s: &Vec<char>, from: usize) -> (r: Vec<Vec<char>>)
    requires
        from <= s.len(),
    ensures
        r@.map_values(|v: Vec<char>| v@) == stages_from(s@, from as int),
        r@.len() >= 1,
    decreases s.len() - from,
{
    match find_sep(s, from) {
        None => {
            let mut r: Vec<Vec<char>> = Vec::new();
            r.push(copy_range(s, from, s.len()));
            proof {
                assert(r@.map_values(|v: Vec<char>| v@) =~= stages_from(s@, from as int));
            }
            r
        },
        Some(j) => {
            let head = copy_range(s, from, j);
            let mut rest = split_stages_from(s, j + 3);
            let mut r: Vec<Vec<char>> = Vec::new();
            r.push(head);
            r.append(&mut rest);
            proof {
                assert(r@.map_values(|v: Vec<char>| v@) =~= stages_from(s@, from as int));
            }
            r
        },
    }
}

/// Splits a line into its stage substrings.
pub fn split_stages(s: &Vec<char>) -> (r: Vec<Vec<char>>)
    ensures
        r@.map_values(|v: Vec<char>| v@) == stages_of(s@),
        r@.len() >= 1,
{
    split_stages_from(s, 0)
}

/// The first position at or after `from` holding a non-whitespace character,
/// or the length when there is none.
pub open spec fn skip_ws_from(s: Seq<char>, from: int) -> int
    decreases s.len() - from,
{
    if from >= s.len() {
        s.len() as int
    } else if !is_ws(s[from]) {
        from
    } else {
        skip_ws_from(s, from + 1)
    }
}

/// The first position at or after `from` holding a whitespace character,
/// or the length when there is none.
pub open spec fn word_end_from(s: Seq<char>, from: int) -> int
    decreases s.len() - from,
{
    if from >= s.len() {
        s.len() as int
    } else if is_ws(s[from]) {
        from
    } else {
        word_end_from(s, from + 1)
    }
}

pub proof fn lemma_skip_ws_bounds(s: Seq<char>, from: int)
    requires
        0 <= from <= s.len(),
    ensures
        from <= skip_ws_from(s, from) <= s.len(),
        skip_ws_from(s, from) < s.len() ==> !is_ws(s[skip_ws_from(s, from)]),
    decreases s.len() - from,
{
    if from >= s.len() {
    } else if !is_ws(s[from]) {
    } else {
        lemma_skip_ws_bounds(s, from + 1);
    }
}

pub proof fn lemma_word_end_bounds(s: Seq<char>, from: int)
    requires
        0 <= from <= s.len(),
    ensures
        from <= word_end_from(s, from) <= s.len(),
    decreases s.len() - from,
{
    if from >= s.len() {
    } else if is_ws(s[from]) {
    } else {
        lemma_word_end_bounds(s, from + 1);
    }
}

/// The whitespace-separated words of a stage substring, scanning from `from`.
pub open spec fn words_from(s: Seq<char>, from: int) -> Seq<Seq<char>>
    decreases s.len() - from,
    when 0 <= from <= s.len()
    via words_from_decreases
{
    let a = skip_ws_from(s, from);
    if a >= s.len() {
        seq![]
    } else {
        seq![s.subrange(a, word_end_from(s, a))] + words_from(s, word_end_from(s, a))
    }
}

#[via_fn]
proof fn words_from_decreases(s: Seq<char>, from: int) {
    lemma_skip_ws_bounds(s, from);
    let a = skip_ws_from(s, from);
    if a < s.len() {
        lemma_word_end_bounds(s, a + 1);
    }
}

/// The whitespace-separated words of a stage substring.
pub open spec fn words_of(s: Seq<char>) -> Seq<Seq<char>> {
    words_from(s, 0)
}

/// Finds the first non-whitespace position at or after `from`.
pub fn skip_ws(s: &Vec<char>, from: usize) -> (r: usize)
    requires
        from <= s.len(),
    ensures
        r as int == skip_ws_from(s@, from as int),
        from <= r <= s.len(),
{
    let mut i: usize = from;
    loop
        invariant
            from <= i <= s.len(),
            skip_ws_from(s@, from as int) == skip_ws_from(s@, i as int),
        decreases s.len() - i,
    {
        if i >= s.len() {
            return i;
        }
        if !ws_char(s[i]) {
            return i;
        }
        i = i + 1;
    }
}

/// Finds the first whitespace position at or after `from`.
pub fn word_end(s: &Vec<char>, from: usize) -> (r: usize)
    requires
        from <= s.len(),
    ensures
        r as int == word_end_from(s@, from as int),
        from <= r <= s.len(),
{
    let mut i: usize = from;
    loop
        invariant
            from <= i <= s.len(),
            word_end_from(s@, from as int) == word_end_from(s@, i as int),
        decreases s.len() - i,
    {
        if i >= s.len() {
            return i;
        }
        if ws_char(s[i]) {
            return i;
        }
        i = i + 1;
    }
}

fn split_words_from(s: &Vec<char>, from: usize) -> (r: Vec<Vec<char>>)
    requires
        from <= s.len(),
    ensures
        r@.map_values(|v: Vec<char>| v@) == words_from(s@, from as int),
    decreases s.len() - from,
{
    let a = skip_ws(s, from);
    if a >= s.len() {
        let r: Vec<Vec<char>> = Vec::new();
        proof {
            assert(r@.map_values(|v: Vec<char>| v@) =~= words_from(s@, from as int));
        }
        r
    } else {
        proof {
            lemma_skip_ws_bounds(s@, from as int);
            lemma_word_end_bounds(s@, a + 1);
        }
        let b = word_end(s, a);
        let head = copy_range(s, a, b);
        let mut rest = split_words_from(s, b);
        let mut r: Vec<Vec<char>> = Vec::new();
        r.push(head);
        r.append(&mut rest);
        proof {
            assert(r@.map_values(|v: Vec<char>| v@) =~= words_from(s@, from as int));
        }
        r
    }
}

/// Splits a stage substring into its whitespace-separated words.
pub fn split_words(s: &Vec<char>) -> (r: Vec<Vec<char>>)
    ensures
        r@.map_values(|v: Vec<char>| v@) == words_of(s@),
{
    split_words_from(s, 0)
}

/// Whether a raw line asks for background execution: its final character is
/// the background operator, with nothing after it.
pub open spec fn background_spec(line: Seq<char>) -> bool {
    line.len() > 0 && line.last() == '&'
}

/// The raw line with the background operator removed when it is present.
pub open spec fn body_spec(line: Seq<char>) -> Seq<char> {
    if background_spec(line) {
        line.drop_last()
    } else {
        line
    }
}

/// Detects a trailing background operator and strips it. A line whose last
/// character is anything else, a trailing space included, is foreground.
pub fn strip_background(line: &Vec<char>) -> (r: (Vec<char>, bool))
    ensures
        r.1 == background_spec(line@),
        r.0@ == body_spec(line@),
{
    if line.len() > 0 && line[line.len() - 1] == '&' {
        let body = copy_range(line, 0, line.len() - 1);
        proof {
            assert(line@.drop_last() =~= line@.subrange(0, line@.len() - 1));
        }
        (body, true)
    } else {
        let body = copy_range(line, 0, line.len());
        proof {
            assert(line@.subrange(0, line@.len() as int) =~= line@);
        }
        (body, false)
    }
}

} // verus!
