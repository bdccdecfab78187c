//! Character-level helpers on strings: splitting into characters, finding a
//! character, and replacing every occurrence of a pattern.
use vstd::prelude::*;
use vstd::string::*;

verus! {

/// `s` with each occurrence of `from` replaced by `to`, scanning from the left
/// and never overlapping two occurrences, as `str::replace` does. An empty
/// pattern occurs before each character and at the end.
pub open spec fn replace_all(s: Seq<char>, from: Seq<char>, to: Seq<char>) -> Seq<char>
    decreases s.len(),
{
    if from.len() == 0 {
        if s.len() == 0 {
            to
        } else {
            to + seq![s[0]] + replace_all(s.drop_first(), from, to)
        }
    } else if s.len() == 0 {
        s
    } else if from.len() <= s.len() && s.subrange(0, from.len() as int) == from {
        to + replace_all(s.subrange(from.len() as int, s.len() as int), from, to)
    } else {
        seq![s[0]] + replace_all(s.drop_first(), from, to)
    }
}

/// The position of the first `c` in `s`, if any.
pub open spec fn first_index_of(s: Seq<char>, c: char) -> Option<int>
    decreases s.len(),
{
    if s.len() == 0 {
        None
    } else if s[0] == c {
        Some(0)
    } else {
        match first_index_of(s.drop_first(), c) {
            Some(i) => Some(i + 1),
            None => None,
        }
    }
}

/// The characters of `s`, one by one.
pub fn chars_of(s: &str) -> (r: Vec<char>)
    ensures
        r@ == s@,
{
    let n = s.unicode_len();
    let mut r: Vec<char> = Vec::new();
    let mut i: usize = 0;
    while i < n
        invariant
            n == s@.len(),
            i <= n,
            r@ == s@.subrange(0, i as int),
        decreases n - i,
    {
        r.push(s.get_char(i));
        i = i + 1;
    }
    assert(r@ =~= s@);
    r
}

/// Whether `pat` occurs in `s` at position `at`.
fn occurs_at(s: &Vec<char>, at: usize, pat: &Vec<char>) -> (r: bool)
    requires
        at + pat@.len() <= s@.len(),
    ensures
        r == (s@.subrange(at as int, at + pat@.len()) == pat@),
{
    let total = s.len();
    let mut j: usize = 0;
    while j < pat.len()
        invariant
            total == s@.len(),
            at + pat@.len() <= s@.len(),
            j <= pat@.len(),
            s@.subrange(at as int, at + j) == pat@.subrange(0, j as int),
        decreases pat@.len() - j,
    {
        if s[at + j] != pat[j] {
            assert(s@.subrange(at as int, at + pat@.len())[j as int] != pat@[j as int]);
            return false;
        }
        assert(s@.subrange(at as int, at + j + 1) =~= pat@.subrange(0, j + 1));
        j = j + 1;
    }
    assert(pat@.subrange(0, j as int) =~= pat@);
    true
}

/// The position of the first `c` in `s`, if any.
pub fn find_char(s: &Vec<char>, c: char) -> (r: Option<usize>)
    ensures
        match r {
            Some(i) => first_index_of(s@, c) == Some(i as int),
            None => first_index_of(s@, c) is None,
        },
{
    let mut i: usize = 0;
    assert(s@.subrange(0, s@.len() as int) =~= s@);
    while i < s.len()
        invariant
            i <= s@.len(),
            first_index_of(s@, c) == match first_index_of(s@.subrange(i as int, s@.len() as int), c) {
                Some(k) => Some(k + i),
                None => None,
            },
        decreases s@.len() - i,
    {
        let ghost t = s@.subrange(i as int, s@.len() as int);
        assert(t.drop_first() =~= s@.subrange(i + 1, s@.len() as int));
        if s[i] == c {
            return Some(i);
        }
        i = i + 1;
    }
    assert(s@.subrange(i as int, s@.len() as int).len() == 0);
    None
}

/// `s` with each occurrence of `from` replaced by `to`.
pub fn replace_str(s: &str, from: &str, to: &str) -> (r: String)
    ensures
        r@ == replace_all(s@, from@, to@),
{
    let sc = chars_of(s);
    let fc = chars_of(from);
    let n = sc.len();
    let m = fc.len();
    let mut out = String::new();
    let mut i: usize = 0;
    assert(s@.subrange(0, n as int) =~= s@);
    assert(out@ + replace_all(s@, from@, to@) =~= replace_all(s@, from@, to@));
    while i < n
        invariant
            sc@ == s@,
            fc@ == from@,
            n == s@.len(),
            m == from@.len(),
            i <= n,
            out@ + replace_all(s@.subrange(i as int, n as int), from@, to@) == replace_all(
                s@,
                from@,
                to@,
            ),
        decreases n - i,
    {
        let ghost t = s@.subrange(i as int, n as int);
        if m == 0 {
            assert(t.drop_first() =~= s@.subrange(i + 1, n as int));
            out.append(to);
            out.append(s.substring_char(i, i + 1));
            assert(s@.subrange(i as int, i + 1) =~= seq![t[0]]);
            i = i + 1;
            assert(out@ + replace_all(s@.subrange(i as int, n as int), from@, to@) =~= replace_all(
                s@,
                from@,
                to@,
            ));
        } else if m <= n - i && occurs_at(&sc, i, &fc) {
            assert(t.subrange(0, m as int) =~= s@.subrange(i as int, i + m));
            assert(t.subrange(m as int, t.len() as int) =~= s@.subrange(i + m, n as int));
            out.append(to);
            i = i + m;
            assert(out@ + replace_all(s@.subrange(i as int, n as int), from@, to@) =~= replace_all(
                s@,
                from@,
                to@,
            ));
        } else {
            if m <= n - i {
                assert(t.subrange(0, m as int) =~= s@.subrange(i as int, i + m));
            }
            assert(t.drop_first() =~= s@.subrange(i + 1, n as int));
            out.append(s.substring_char(i, i + 1));
            assert(s@.subrange(i as int, i + 1) =~= seq![t[0]]);
            i = i + 1;
            assert(out@ + replace_all(s@.subrange(i as int, n as int), from@, to@) =~= replace_all(
                s@,
                from@,
                to@,
            ));
        }
    }
    assert(s@.subrange(n as int, n as int) =~= Seq::<char>::empty());
    if m == 0 {
        out.append(to);
    }
    assert(out@ =~= replace_all(s@, from@, to@));
    out
}

} // verus!
