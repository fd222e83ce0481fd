//! Character-level helpers shared by the parsers: white space, trimming,
//! line splitting and literal replacement, each with its mathematical meaning.
use vstd::prelude::*;

verus! {

broadcast use vstd::string::group_string_axioms;

/// The characters that Unicode gives the `White_Space` property; `str::trim`
/// strips exactly these.
pub open spec fn is_space(c: char) -> bool {
    let u = c as u32;
    (0x9 <= u <= 0xd) || u == 0x20 || u == 0x85 || u == 0xa0 || u == 0x1680 || (0x2000 <= u
        <= 0x200a) || u == 0x2028 || u == 0x2029 || u == 0x202f || u == 0x205f || u == 0x3000
}

/// `s` without its leading white space.
pub open spec fn trim_start(s: Seq<char>) -> Seq<char>
    decreases s.len(),
{
    if s.len() > 0 && is_space(s[0]) {
        trim_start(s.drop_first())
    } else {
        s
    }
}

/// `s` without its trailing white space.
pub open spec fn trim_end(s: Seq<char>) -> Seq<char>
    decreases s.len(),
{
    if s.len() > 0 && is_space(s.last()) {
        trim_end(s.drop_last())
    } else {
        s
    }
}

/// `s` without white space at either end.
pub open spec fn trim(s: Seq<char>) -> Seq<char> {
    trim_end(trim_start(s))
}

pub fn is_space_char(c: char) -> (r: bool)
    ensures
        r == is_space(c),
{
    let u = c as u32;
    (0x9 <= u && u <= 0xd) || u == 0x20 || u == 0x85 || u == 0xa0 || u == 0x1680 || (0x2000 <= u
        && u <= 0x200a) || u == 0x2028 || u == 0x2029 || u == 0x202f || u == 0x205f || u == 0x3000
}

/// The characters of `s`, in order.
pub fn chars_of(s: &str) -> (r: Vec<char>)
    ensures
        r@ == s@,
{
    let mut v: Vec<char> = Vec::new();
    for c in it: s.chars()
        invariant
            it.seq() == s@,
            v@ == it.seq().take(it.index() as int),
    {
        v.push(c);
    }
    v
}


proof fn lemma_trim_start_at(s: Seq<char>, i: int)
    requires
        0 <= i <= s.len(),
        forall|k: int| 0 <= k < i ==> is_space(#[trigger] s[k]),
        i == s.len() || !is_space(s[i]),
    ensures
        trim_start(s) == s.subrange(i, s.len() as int),
    decreases i,
{
    if i > 0 {
        let t = s.drop_first();
        assert forall|k: int| 0 <= k < i - 1 implies is_space(#[trigger] t[k]) by {
            assert(t[k] == s[k + 1]);
        }
        lemma_trim_start_at(t, i - 1);
        assert(t.subrange(i - 1, t.len() as int) =~= s.subrange(i, s.len() as int));
    } else {
        assert(s.subrange(0, s.len() as int) =~= s);
    }
}

proof fn lemma_trim_end_at(s: Seq<char>, j: int)
    requires
        0 <= j <= s.len(),
        forall|k: int| j <= k < s.len() ==> is_space(#[trigger] s[k]),
        j == 0 || !is_space(s[j - 1]),
    ensures
        trim_end(s) == s.subrange(0, j),
    decreases s.len() - j,
{
    if j < s.len() {
        let t = s.drop_last();
        assert forall|k: int| j <= k < t.len() implies is_space(#[trigger] t[k]) by {
            assert(t[k] == s[k]);
        }
        lemma_trim_end_at(t, j);
        assert(t.subrange(0, j) =~= s.subrange(0, j));
    } else {
        assert(s.subrange(0, j) =~= s);
    }
}

/// The bounds `(i, j)` of the trimmed part of `cs`.
fn trimmed_bounds(cs: &Vec<char>) -> (r: (usize, usize))
    ensures
        r.0 <= r.1 <= cs.len(),
        cs@.subrange(r.0 as int, r.1 as int) == trim(cs@),
{
    let n = cs.len();
    let mut i: usize = 0;
    while i < n && is_space_char(cs[i])
        invariant
            i <= n == cs.len(),
            forall|k: int| 0 <= k < i ==> is_space(#[trigger] cs@[k]),
        decreases n - i,
    {
        i = i + 1;
    }
    let mut j: usize = n;
    while j > i && is_space_char(cs[j - 1])
        invariant
            i <= j <= n == cs.len(),
            forall|k: int| j <= k < n ==> is_space(#[trigger] cs@[k]),
        decreases j,
    {
        j = j - 1;
    }
    proof {
        lemma_trim_start_at(cs@, i as int);
        let t = cs@.subrange(i as int, n as int);
        assert forall|k: int| j - i <= k < t.len() implies is_space(#[trigger] t[k]) by {
            assert(t[k] == cs@[k + i]);
        }
        if j > i {
            assert(t[j - i - 1] == cs@[j - 1]);
        }
        lemma_trim_end_at(t, j - i);
        assert(t.subrange(0, j - i) =~= cs@.subrange(i as int, j as int));
    }
    (i, j)
}

/// `s` without white space at either end, as `str::trim` gives it.
pub fn trim_str(s: &str) -> (r: &str)
    ensures
        r@ == trim(s@),
{
    let cs = chars_of(s);
    let (i, j) = trimmed_bounds(&cs);
    s.substring_char(i, j)
}


/// How many characters the line that starts at `i` holds before its line
/// feed, or before the end of `s`.
pub open spec fn line_len(s: Seq<char>, i: int) -> nat
    decreases s.len() - i,
{
    if i < 0 || i >= s.len() || s[i] == '\n' {
        0
    } else {
        1 + line_len(s, i + 1)
    }
}

/// A line ended by a line feed loses the carriage return before it.
pub open spec fn strip_cr(l: Seq<char>) -> Seq<char> {
    if l.len() > 0 && l.last() == '\r' {
        l.drop_last()
    } else {
        l
    }
}

/// The lines of `s` from index `i` on.
pub open spec fn lines_from(s: Seq<char>, i: int) -> Seq<Seq<char>>
    decreases s.len() - i,
{
    if i < 0 || i >= s.len() {
        seq![]
    } else {
        let e = i + line_len(s, i);
        if e < s.len() {
            seq![strip_cr(s.subrange(i, e))] + lines_from(s, e + 1)
        } else {
            seq![s.subrange(i, e)]
        }
    }
}

/// The lines of `s` as `str::lines` yields them: split at each line feed,
/// a `\r\n` ending counts as one, and a final line ending adds no empty line.
pub open spec fn lines(s: Seq<char>) -> Seq<Seq<char>> {
    lines_from(s, 0)
}

proof fn lemma_line_len(s: Seq<char>, i: int, j: int)
    requires
        0 <= i <= j <= s.len(),
        forall|k: int| i <= k < j ==> s[k] != '\n',
        j == s.len() || s[j] == '\n',
    ensures
        i + line_len(s, i) == j,
    decreases j - i,
{
    if i < j {
        lemma_line_len(s, i + 1, j);
    }
}

/// The lines of `s`, as `str::lines` yields them.
pub fn split_lines<'a>(s: &'a str) -> (r: Vec<&'a str>)
    ensures
        r@.map_values(|l: &str| l@) == lines(s@),
{
    let cs = chars_of(s);
    let n = cs.len();
    let mut r: Vec<&'a str> = Vec::new();
    let mut i: usize = 0;
    while i < n
        invariant
            n == cs.len(),
            cs@ == s@,
            i <= n,
            lines(s@) == r@.map_values(|l: &str| l@) + lines_from(s@, i as int),
        decreases n - i,
    {
        let mut j: usize = i;
        while j < n && cs[j] != '\n'
            invariant
                i <= j <= n == cs.len(),
                forall|k: int| i <= k < j ==> cs@[k] != '\n',
            decreases n - j,
        {
            j = j + 1;
        }
        proof {
            lemma_line_len(s@, i as int, j as int);
        }
        let ghost before = r@.map_values(|l: &str| l@);
        if j < n {
            let mut k: usize = j;
            if k > i && cs[k - 1] == '\r' {
                k = k - 1;
            }
            let line = s.substring_char(i, k);
            assert(line@ == strip_cr(s@.subrange(i as int, j as int))) by {
                if j > i && cs@[j - 1] == '\r' {
                    assert(s@.subrange(i as int, j as int).drop_last() =~= s@.subrange(
                        i as int,
                        k as int,
                    ));
                }
            }
            r.push(line);
            assert(r@.map_values(|l: &str| l@) =~= before.push(line@));
            assert(lines_from(s@, i as int) == seq![line@] + lines_from(s@, j + 1));
            assert(before + lines_from(s@, i as int) =~= r@.map_values(|l: &str| l@)
                + lines_from(s@, j + 1));
            i = j + 1;
        } else {
            let line = s.substring_char(i, n);
            r.push(line);
            assert(r@.map_values(|l: &str| l@) =~= before.push(line@));
            assert(lines_from(s@, n as int) =~= seq![]);
            assert(before + lines_from(s@, i as int) =~= r@.map_values(|l: &str| l@)
                + lines_from(s@, n as int));
            i = n;
        }
    }
    assert(lines_from(s@, n as int) =~= seq![]);
    assert(lines(s@) =~= r@.map_values(|l: &str| l@));
    r
}


proof fn lemma_trim_start_shape(s: Seq<char>)
    ensures
        trim_start(s).len() <= s.len(),
        trim_start(s).len() == 0 || !is_space(trim_start(s)[0]),
        trim_start(s) =~= s.subrange(s.len() - trim_start(s).len(), s.len() as int),
    decreases s.len(),
{
    if s.len() > 0 && is_space(s[0]) {
        lemma_trim_start_shape(s.drop_first());
    }
}

proof fn lemma_trim_end_shape(s: Seq<char>)
    ensures
        trim_end(s).len() <= s.len(),
        trim_end(s).len() == 0 || !is_space(trim_end(s).last()),
        trim_end(s) =~= s.subrange(0, trim_end(s).len() as int),
    decreases s.len(),
{
    if s.len() > 0 && is_space(s.last()) {
        lemma_trim_end_shape(s.drop_last());
    }
}

/// Trimming twice trims no more than trimming once.
pub proof fn lemma_trim_idempotent(s: Seq<char>)
    ensures
        trim(trim(s)) == trim(s),
{
    let u = trim_start(s);
    lemma_trim_start_shape(s);
    let v = trim_end(u);
    lemma_trim_end_shape(u);
    if v.len() > 0 {
        assert(v[0] == u.subrange(0, v.len() as int)[0]);
    }
    assert(trim_start(v) == v);
    assert(trim_end(v) == v);
}

/// Whether `a` and `b` hold the same characters.
pub fn same_text(a: &str, b: &str) -> (r: bool)
    ensures
        r == (a@ == b@),
{
    a.to_owned() == b.to_owned()
}


/// The index of the first `c` in `s`, or `s.len()` when there is none.
pub open spec fn first_index(s: Seq<char>, c: char) -> int
    decreases s.len(),
{
    if s.len() == 0 {
        0
    } else if s[0] == c {
        0
    } else {
        1 + first_index(s.drop_first(), c)
    }
}

proof fn lemma_first_index(s: Seq<char>, c: char, i: int)
    requires
        0 <= i <= s.len(),
        forall|k: int| 0 <= k < i ==> s[k] != c,
        i == s.len() || s[i] == c,
    ensures
        first_index(s, c) == i,
    decreases i,
{
    if i > 0 {
        let t = s.drop_first();
        assert forall|k: int| 0 <= k < i - 1 implies t[k] != c by {
            assert(t[k] == s[k + 1]);
        }
        if i < s.len() {
            assert(t[i - 1] == s[i]);
        }
        lemma_first_index(t, c, i - 1);
    }
}

/// The index of the first `c` in `s`, or its length when there is none.
pub fn find_char(s: &str, c: char) -> (r: usize)
    ensures
        r == first_index(s@, c),
        r <= s@.len(),
{
    let cs = chars_of(s);
    let mut i: usize = 0;
    while i < cs.len() && cs[i] != c
        invariant
            cs@ == s@,
            i <= cs.len(),
            forall|k: int| 0 <= k < i ==> cs@[k] != c,
        decreases cs.len() - i,
    {
        i = i + 1;
    }
    proof {
        lemma_first_index(s@, c, i as int);
    }
    i
}


/// The parts joined, with `sep` between each two.
pub open spec fn join_with(parts: Seq<Seq<char>>, sep: Seq<char>) -> Seq<char>
    decreases parts.len(),
{
    if parts.len() == 0 {
        seq![]
    } else if parts.len() == 1 {
        parts[0]
    } else {
        join_with(parts.drop_last(), sep) + sep + parts.last()
    }
}

} // verus!
