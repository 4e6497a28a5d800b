//! Character-level helpers on which the rest of the library builds.
//!
//! Text is modelled as `Seq<char>`. Executable code works on `Vec<char>`
//! buffers so that every scan is linear.

use vstd::prelude::*;
use vstd::std_specs::iter::IteratorSpec;
use vstd::string::StringExecFns;

verus! {

/// `needle` occurs in `hay` starting at index `at`.
pub open spec fn is_prefix_at(hay: Seq<char>, at: int, needle: Seq<char>) -> bool {
    &&& 0 <= at
    &&& at + needle.len() <= hay.len()
    &&& hay.subrange(at, at + needle.len()) == needle
}

/// `hay` begins with `needle`.
pub open spec fn starts_with(hay: Seq<char>, needle: Seq<char>) -> bool {
    is_prefix_at(hay, 0, needle)
}

/// `needle` occurs somewhere in `hay`.
pub open spec fn is_substring(hay: Seq<char>, needle: Seq<char>) -> bool {
    exists|i: int| is_prefix_at(hay, i, needle)
}

/// Index of the first `c` in `s` at or after `from`, or `s.len()` if none.
pub open spec fn index_of(s: Seq<char>, from: int, c: char) -> int
    decreases s.len() - from,
{
    if from < 0 || from >= s.len() {
        s.len() as int
    } else if s[from] == c {
        from
    } else {
        index_of(s, from + 1, c)
    }
}

/// The part of `s` before its first `c`; all of `s` if it holds none.
pub open spec fn before_char(s: Seq<char>, c: char) -> Seq<char> {
    s.subrange(0, index_of(s, 0, c))
}

/// `s` with every leading repetition of `p` removed.
pub open spec fn strip_leading(s: Seq<char>, p: Seq<char>) -> Seq<char>
    decreases s.len(),
{
    if p.len() > 0 && starts_with(s, p) {
        strip_leading(s.subrange(p.len() as int, s.len() as int), p)
    } else {
        s
    }
}

/// What `str::to_lowercase` makes of a text.
pub uninterp spec fn lowercase(s: Seq<char>) -> Seq<char>;

/// `str::to_lowercase` of std: the result depends on the characters alone,
/// and is named `lowercase`; nothing else is claimed of it.
pub assume_specification[ str::to_lowercase ](s: &str) -> (r: String)
    ensures
        r@ == lowercase(s@),
;

/// `String::push` of std appends one character.
pub assume_specification[ String::push ](s: &mut String, c: char)
    ensures
        final(s)@ == old(s)@.push(c),
;

pub proof fn lemma_index_of_bounds(s: Seq<char>, from: int, c: char)
    requires
        0 <= from <= s.len(),
    ensures
        from <= index_of(s, from, c) <= s.len(),
        index_of(s, from, c) < s.len() ==> s[index_of(s, from, c)] == c,
        forall|j: int| from <= j < index_of(s, from, c) ==> s[j] != c,
    decreases s.len() - from,
{
    if from < s.len() && s[from] != c {
        lemma_index_of_bounds(s, from + 1, c);
    }
}

/// The characters of `s`, in order.
pub fn chars_of(s: &str) -> (v: Vec<char>)
    ensures
        v@ == s@,
{
    let mut v: Vec<char> = Vec::new();
    let chars = s.chars();
    for c in it: chars
        invariant
            v@ == it.seq().take(it.index()),
            it.seq() == s@,
    {
        v.push(c);
    }
    v
}

/// The text made of `v[from..to]`.
pub fn string_from(v: &Vec<char>, from: usize, to: usize) -> (s: String)
    requires
        from <= to <= v.len(),
    ensures
        s@ == v@.subrange(from as int, to as int),
{
    let mut s = String::new();
    let mut i: usize = from;
    while i < to
        invariant
            from <= i <= to <= v.len(),
            s@ == v@.subrange(from as int, i as int),
        decreases to - i,
    {
        s.push(v[i]);
        assert(v@.subrange(from as int, i as int).push(v@[i as int]) =~= v@.subrange(
            from as int,
            i + 1,
        ));
        i += 1;
    }
    s
}

/// Equality of two texts.
pub fn str_eq(a: &str, b: &str) -> (r: bool)
    ensures
        r == (a@ == b@),
{
    let x = String::from_str(a);
    let y = String::from_str(b);
    x == y
}

/// Does `needle` occur in `hay` at index `at`?
pub fn matches_at(hay: &Vec<char>, at: usize, needle: &Vec<char>) -> (b: bool)
    ensures
        b == is_prefix_at(hay@, at as int, needle@),
{
    if at > hay.len() || needle.len() > hay.len() - at {
        return false;
    }
    let mut k: usize = 0;
    while k < needle.len()
        invariant
            at + needle.len() <= hay.len(),
            k <= needle.len(),
            forall|j: int| 0 <= j < k ==> hay@[at + j] == needle@[j],
        decreases needle.len() - k,
    {
        if hay[at + k] != needle[k] {
            assert(hay@.subrange(at as int, at + needle.len())[k as int] != needle@[k as int]);
            return false;
        }
        k += 1;
    }
    assert(hay@.subrange(at as int, at + needle.len()) =~= needle@);
    true
}

/// Does `needle` occur anywhere in `hay`?
pub fn contains(hay: &Vec<char>, needle: &Vec<char>) -> (b: bool)
    ensures
        b == is_substring(hay@, needle@),
{
    let mut i: usize = 0;
    while i < hay.len()
        invariant
            i <= hay.len(),
            forall|j: int| 0 <= j < i ==> !is_prefix_at(hay@, j, needle@),
        decreases hay.len() - i,
    {
        if matches_at(hay, i, needle) {
            return true;
        }
        i += 1;
    }
    matches_at(hay, i, needle)
}

/// Index of the first `c` at or after `from`, or the length if there is none.
pub fn find_char(s: &Vec<char>, from: usize, c: char) -> (r: usize)
    requires
        from <= s.len(),
    ensures
        r as int == index_of(s@, from as int, c),
        from <= r <= s.len(),
{
    let mut i: usize = from;
    while i < s.len() && s[i] != c
        invariant
            from <= i <= s.len(),
            index_of(s@, from as int, c) == index_of(s@, i as int, c),
        decreases s.len() - i,
    {
        i += 1;
    }
    i
}

/// Index just past every leading repetition of `p` in `s[from..]`.
pub fn skip_leading(s: &Vec<char>, from: usize, p: &Vec<char>) -> (r: usize)
    requires
        from <= s.len(),
    ensures
        from <= r <= s.len(),
        s@.subrange(r as int, s.len() as int) == strip_leading(
            s@.subrange(from as int, s.len() as int),
            p@,
        ),
{
    let mut i: usize = from;
    if p.len() == 0 {
        return i;
    }
    while matches_at(s, i, p)
        invariant
            from <= i <= s.len(),
            p.len() > 0,
            strip_leading(s@.subrange(from as int, s.len() as int), p@) == strip_leading(
                s@.subrange(i as int, s.len() as int),
                p@,
            ),
        decreases s.len() - i,
    {
        proof {
            let rest = s@.subrange(i as int, s.len() as int);
            assert(rest.subrange(0, p.len() as int) =~= s@.subrange(i as int, i + p.len()));
            assert(rest.subrange(p.len() as int, rest.len() as int) =~= s@.subrange(
                i + p.len(),
                s.len() as int,
            ));
        }
        i += p.len();
    }
    proof {
        let rest = s@.subrange(i as int, s.len() as int);
        if i + p.len() <= s.len() {
            assert(rest.subrange(0, p.len() as int) =~= s@.subrange(i as int, i + p.len()));
        }
    }
    i
}

/// Whether `char::is_whitespace` holds of a character.
pub uninterp spec fn is_space(c: char) -> bool;

/// `char::is_whitespace` of std: the result depends on the character alone,
/// and is named `is_space`.
pub assume_specification[ char::is_whitespace ](c: char) -> (b: bool)
    ensures
        b == is_space(c),
;

/// Index of the first character at or after `from` that is not white space,
/// or the length.
pub open spec fn first_visible(s: Seq<char>, from: int) -> int
    decreases s.len() - from,
{
    if from < 0 || from >= s.len() {
        s.len() as int
    } else if !is_space(s[from]) {
        from
    } else {
        first_visible(s, from + 1)
    }
}

/// Index just past the last character before `to` that is not white space,
/// and at least `floor`.
pub open spec fn last_visible(s: Seq<char>, floor: int, to: int) -> int
    decreases to,
{
    if to <= floor || to <= 0 || to > s.len() {
        floor
    } else if !is_space(s[to - 1]) {
        to
    } else {
        last_visible(s, floor, to - 1)
    }
}

/// `s` without the white space at its start and at its end.
pub open spec fn trimmed(s: Seq<char>) -> Seq<char> {
    let start = first_visible(s, 0);
    s.subrange(start, last_visible(s, start, s.len() as int))
}

/// Index of the first character of `s[from..to]` that is not white space, or
/// `to`.
pub fn skip_spaces(s: &Vec<char>, from: usize, to: usize) -> (r: usize)
    requires
        from <= to <= s.len(),
    ensures
        from <= r <= to,
        r as int == first_visible(s@.subrange(0, to as int), from as int),
{
    let ghost part = s@.subrange(0, to as int);
    let mut i: usize = from;
    while i < to && s[i].is_whitespace()
        invariant
            from <= i <= to <= s.len(),
            part == s@.subrange(0, to as int),
            first_visible(part, from as int) == first_visible(part, i as int),
        decreases to - i,
    {
        i += 1;
    }
    i
}

/// Index just past the last character of `s[floor..to]` that is not white
/// space, or `floor`.
pub fn skip_spaces_back(s: &Vec<char>, floor: usize, to: usize) -> (r: usize)
    requires
        floor <= to <= s.len(),
    ensures
        floor <= r <= to,
        r as int == last_visible(s@, floor as int, to as int),
{
    let mut i: usize = to;
    while i > floor && s[i - 1].is_whitespace()
        invariant
            floor <= i <= to <= s.len(),
            last_visible(s@, floor as int, to as int) == last_visible(s@, floor as int, i as int),
        decreases i,
    {
        i -= 1;
    }
    i
}

/// `s` without the white space at its start and at its end.
pub fn trim(s: &str) -> (r: String)
    ensures
        r@ == trimmed(s@),
{
    let v = chars_of(s);
    assert(v@.subrange(0, v.len() as int) =~= v@);
    let start = skip_spaces(&v, 0, v.len());
    let end = skip_spaces_back(&v, start, v.len());
    string_from(&v, start, end)
}

/// Index of the first occurrence of `needle` in `hay` that starts at or
/// after `from` and before the end of `hay`, or the length of `hay`.
pub open spec fn first_occurrence(hay: Seq<char>, needle: Seq<char>, from: int) -> int
    decreases hay.len() - from,
{
    if from < 0 || from >= hay.len() {
        hay.len() as int
    } else if is_prefix_at(hay, from, needle) {
        from
    } else {
        first_occurrence(hay, needle, from + 1)
    }
}

/// Index of the first white-space character at or after `from`, or the
/// length.
pub open spec fn first_blank(s: Seq<char>, from: int) -> int
    decreases s.len() - from,
{
    if from < 0 || from >= s.len() {
        s.len() as int
    } else if is_space(s[from]) {
        from
    } else {
        first_blank(s, from + 1)
    }
}

/// The first run of characters of `s` that are not white space.
pub open spec fn first_token(s: Seq<char>) -> Seq<char> {
    let start = first_visible(s, 0);
    s.subrange(start, first_blank(s, start))
}

/// Where `needle` first occurs in `hay`, or the length of `hay`.
pub fn find_text(hay: &Vec<char>, needle: &Vec<char>) -> (r: usize)
    ensures
        r as int == first_occurrence(hay@, needle@, 0),
        r <= hay.len(),
{
    let mut i: usize = 0;
    while i < hay.len()
        invariant
            i <= hay.len(),
            first_occurrence(hay@, needle@, 0) == first_occurrence(hay@, needle@, i as int),
        decreases hay.len() - i,
    {
        if matches_at(hay, i, needle) {
            return i;
        }
        i += 1;
    }
    i
}

/// Index of the first white-space character at or after `from`, or the
/// length.
pub fn find_blank(s: &Vec<char>, from: usize) -> (r: usize)
    requires
        from <= s.len(),
    ensures
        r as int == first_blank(s@, from as int),
        from <= r <= s.len(),
{
    let mut i: usize = from;
    while i < s.len() && !s[i].is_whitespace()
        invariant
            from <= i <= s.len(),
            first_blank(s@, from as int) == first_blank(s@, i as int),
        decreases s.len() - i,
    {
        i += 1;
    }
    i
}

/// A copy of `v[from..to]`.
pub fn slice_of(v: &Vec<char>, from: usize, to: usize) -> (r: Vec<char>)
    requires
        from <= to <= v.len(),
    ensures
        r@ == v@.subrange(from as int, to as int),
{
    let mut r: Vec<char> = Vec::new();
    let mut i: usize = from;
    while i < to
        invariant
            from <= i <= to <= v.len(),
            r@ == v@.subrange(from as int, i as int),
        decreases to - i,
    {
        r.push(v[i]);
        assert(r@ =~= v@.subrange(from as int, i + 1));
        i += 1;
    }
    r
}

/// A line without the carriage return before its line feed, if it has one.
pub open spec fn without_return(line: Seq<char>) -> Seq<char> {
    if line.len() > 0 && line.last() == '\r' {
        line.drop_last()
    } else {
        line
    }
}

/// The lines of `s` at or after `from`, as `str::lines` gives them: a line
/// ends at a line feed, which is not part of it, nor is a carriage return
/// just before it; what stands after the last line feed is a line unless
/// it is empty.
pub open spec fn lines_from(s: Seq<char>, from: int) -> Seq<Seq<char>>
    decreases s.len() - from,
{
    if from < 0 || from >= s.len() {
        Seq::empty()
    } else {
        let end = index_of(s, from, '\n');
        if from <= end < s.len() {
            seq![without_return(s.subrange(from, end))] + lines_from(s, end + 1)
        } else {
            seq![s.subrange(from, s.len() as int)]
        }
    }
}

/// The views of a list of character buffers.
pub open spec fn buffers(v: Seq<Vec<char>>) -> Seq<Seq<char>> {
    Seq::new(v.len(), |i: int| v[i]@)
}

/// The lines of a text, as `str::lines` gives them.
pub fn lines_of(s: &Vec<char>) -> (lines: Vec<Vec<char>>)
    ensures
        buffers(lines@) == lines_from(s@, 0),
{
    let mut lines: Vec<Vec<char>> = Vec::new();
    let mut from: usize = 0;
    assert(buffers(lines@) + lines_from(s@, 0) =~= lines_from(s@, 0));
    while from < s.len()
        invariant
            from <= s.len(),
            buffers(lines@) + lines_from(s@, from as int) == lines_from(s@, 0),
        decreases s.len() - from,
    {
        let end = find_char(s, from, '\n');
        let ghost before = buffers(lines@);
        if end < s.len() {
            let stop = if end > from && s[end - 1] == '\r' {
                end - 1
            } else {
                end
            };
            let line = slice_of(s, from, stop);
            assert(line@ =~= without_return(s@.subrange(from as int, end as int)));
            lines.push(line);
            assert(buffers(lines@) =~= before.push(line@));
            assert(buffers(lines@) + lines_from(s@, end + 1) =~= before + lines_from(
                s@,
                from as int,
            ));
            from = end + 1;
        } else {
            let line = slice_of(s, from, s.len());
            lines.push(line);
            assert(buffers(lines@) =~= before.push(line@));
            assert(buffers(lines@) + lines_from(s@, s.len() as int) =~= before + lines_from(
                s@,
                from as int,
            ));
            from = s.len();
        }
    }
    assert(buffers(lines@) + lines_from(s@, from as int) =~= buffers(lines@));
    lines
}

/// The first `n` lines, with a line feed between every two.
pub open spec fn joined_lines(lines: Seq<Seq<char>>, n: int) -> Seq<char>
    decreases n,
{
    if n <= 0 {
        Seq::empty()
    } else if n == 1 {
        lines[0]
    } else {
        joined_lines(lines, n - 1) + seq!['\n'] + lines[n - 1]
    }
}

/// Appends the lines to `out`, with a line feed between every two.
pub fn push_joined(out: &mut String, lines: &Vec<Vec<char>>)
    ensures
        final(out)@ == old(out)@ + joined_lines(buffers(lines@), lines@.len() as int),
{
    let mut i: usize = 0;
    assert(out@ =~= old(out)@ + joined_lines(buffers(lines@), 0));
    while i < lines.len()
        invariant
            i <= lines.len(),
            out@ == old(out)@ + joined_lines(buffers(lines@), i as int),
        decreases lines.len() - i,
    {
        if i > 0 {
            out.push('\n');
        }
        let ghost before = out@;
        let line = &lines[i];
        let mut k: usize = 0;
        assert(out@ =~= before + line@.take(0));
        while k < line.len()
            invariant
                k <= line.len(),
                out@ == before + line@.take(k as int),
            decreases line.len() - k,
        {
            out.push(line[k]);
            assert(out@ =~= before + line@.take(k + 1));
            k += 1;
        }
        assert(line@.take(k as int) =~= line@);
        assert(buffers(lines@)[i as int] == line@);
        assert(out@ =~= old(out)@ + joined_lines(buffers(lines@), i + 1));
        i += 1;
    }
}

} // verus!
