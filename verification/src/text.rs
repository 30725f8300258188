//! Verified text utilities for the identifier/path codec: substring
//! replacement with an exact specification, and the round-trip law that
//! re-encoding a decoded identifier restores it.

use vstd::prelude::*;

verus! {

/// The decimal digit character for a value below ten.
pub open spec fn dec_digit(d: nat) -> char {
    if d == 0 {
        '0'
    } else if d == 1 {
        '1'
    } else if d == 2 {
        '2'
    } else if d == 3 {
        '3'
    } else if d == 4 {
        '4'
    } else if d == 5 {
        '5'
    } else if d == 6 {
        '6'
    } else if d == 7 {
        '7'
    } else if d == 8 {
        '8'
    } else {
        '9'
    }
}

/// The decimal representation of a natural number, most significant digit first.
pub open spec fn dec_str(n: nat) -> Seq<char>
    decreases n,
{
    if n < 10 {
        seq![dec_digit(n)]
    } else {
        dec_str(n / 10) + seq![dec_digit(n % 10)]
    }
}

fn digit_str(d: usize) -> (r: &'static str)
    requires
        d < 10,
    ensures
        r@ == seq![dec_digit(d as nat)],
{
    let r: &'static str = match d {
        0 => "0",
        1 => "1",
        2 => "2",
        3 => "3",
        4 => "4",
        5 => "5",
        6 => "6",
        7 => "7",
        8 => "8",
        _ => "9",
    };
    proof {
        reveal_strlit("0");
        reveal_strlit("1");
        reveal_strlit("2");
        reveal_strlit("3");
        reveal_strlit("4");
        reveal_strlit("5");
        reveal_strlit("6");
        reveal_strlit("7");
        reveal_strlit("8");
        reveal_strlit("9");
        assert(r@ =~= seq![dec_digit(d as nat)]);
    }
    r
}

/// Renders an index as its decimal digits.
pub fn usize_to_string(n: usize) -> (s: String)
    ensures
        s@ == dec_str(n as nat),
    decreases n,
{
    if n < 10 {
        digit_str(n).to_owned()
    } else {
        let mut s = usize_to_string(n / 10);
        s.append(digit_str(n % 10));
        s
    }
}

/// Whether the character `c` occurs anywhere in `s`.
pub open spec fn contains_char(s: Seq<char>, c: char) -> bool {
    exists|i: int| 0 <= i < s.len() && s[i] == c
}

/// Left-to-right, non-overlapping replacement of every occurrence of the
/// nonempty pattern `from` in `s` by `to`.
pub open spec fn replace_str(s: Seq<char>, from: Seq<char>, to: Seq<char>) -> Seq<char>
    decreases s.len(),
{
    if s.len() == 0 {
        Seq::empty()
    } else if from.len() > 0 && from.len() <= s.len() && s.take(from.len() as int) == from {
        to + replace_str(s.skip(from.len() as int), from, to)
    } else {
        seq![s[0]] + replace_str(s.skip(1), from, to)
    }
}

/// Whether `pat` occurs in `s` starting at character position `i`.
fn starts_with_at(s: &str, i: usize, pat: &str) -> (b: bool)
    requires
        i <= s@.len(),
    ensures
        b == (i + pat@.len() <= s@.len() && s@.subrange(
            i as int,
            i + pat@.len(),
        ) == pat@),
{
    let n = s.unicode_len();
    let m = pat.unicode_len();
    if m > n - i {
        return false;
    }
    let mut j: usize = 0;
    while j < m
        invariant
            j <= m,
            i + m <= n,
            n == s@.len(),
            m == pat@.len(),
            forall|k: int| 0 <= k < j ==> s@[i + k] == pat@[k],
        decreases m - j,
    {
        if s.get_char(i + j) != pat.get_char(j) {
            proof {
                assert(s@.subrange(i as int, i + pat@.len())[j as int] != pat@[j as int]);
            }
            return false;
        }
        j = j + 1;
    }
    proof {
        assert(s@.subrange(i as int, i + pat@.len()) =~= pat@);
    }
    true
}

/// Replaces every occurrence of the nonempty `from` in `s` by `to`,
/// scanning left to right without overlap.
pub fn replace_str_all(s: &str, from: &str, to: &str) -> (r: String)
    requires
        from@.len() > 0,
    ensures
        r@ == replace_str(s@, from@, to@),
{
    let n = s.unicode_len();
    let m = from.unicode_len();
    let mut r = String::new();
    let mut i: usize = 0;
    proof {
        assert(s@.skip(0) =~= s@);
        assert(r@ + replace_str(s@, from@, to@) =~= replace_str(s@, from@, to@));
    }
    while i < n
        invariant
            i <= n,
            n == s@.len(),
            m == from@.len(),
            m > 0,
            replace_str(s@, from@, to@) == r@ + replace_str(s@.skip(i as int), from@, to@),
        decreases n - i,
    {
        let ghost rest = s@.skip(i as int);
        if starts_with_at(s, i, from) {
            r.append(to);
            proof {
                assert(rest.take(m as int) =~= s@.subrange(i as int, i + m));
                assert(rest.skip(m as int) =~= s@.skip(i + m));
                assert(replace_str(rest, from@, to@) == to@ + replace_str(
                    s@.skip(i + m),
                    from@,
                    to@,
                ));
            }
            i = i + m;
        } else {
            let c = s.substring_char(i, i + 1);
            r.append(c);
            proof {
                if m <= rest.len() {
                    assert(rest.take(m as int) =~= s@.subrange(i as int, i + m));
                }
                assert(seq![rest[0]] =~= c@);
                assert(rest.skip(1) =~= s@.skip(i + 1));
                assert(replace_str(rest, from@, to@) == c@ + replace_str(
                    s@.skip(i + 1),
                    from@,
                    to@,
                ));
            }
            i = i + 1;
        }
    }
    proof {
        assert(s@.skip(n as int) =~= Seq::<char>::empty());
        assert(r@ + Seq::<char>::empty() =~= r@);
    }
    r
}

/// If `c` occurs nowhere in `s`, it occurs nowhere in any tail of `s`.
proof fn lemma_not_contains_skip(s: Seq<char>, c: char, k: int)
    requires
        0 <= k <= s.len(),
        !contains_char(s, c),
    ensures
        !contains_char(s.skip(k), c),
{
    if contains_char(s.skip(k), c) {
        let i = choose|i: int| 0 <= i < s.skip(k).len() && s.skip(k)[i] == c;
        assert(s[k + i] == c);
    }
}

/// Holds when the left-to-right scan that `replace_str(s, from, _)` makes
/// passes over no `mark` character outside the pattern occurrences it
/// replaces: every `mark` in `s` lies inside a replaced occurrence of
/// `from`. Equivalently, no chunk of `s` between replaced occurrences — no
/// path segment, when `from` is the configured separator — contains `mark`.
pub open spec fn mark_free_scan(s: Seq<char>, from: Seq<char>, mark: char) -> bool
    decreases s.len(),
{
    if s.len() == 0 {
        true
    } else if from.len() > 0 && from.len() <= s.len() && s.take(from.len() as int) == from {
        mark_free_scan(s.skip(from.len() as int), from, mark)
    } else {
        s[0] != mark && mark_free_scan(s.skip(1), from, mark)
    }
}

/// A string in which `mark` does not occur at all satisfies the scan
/// condition for any pattern.
pub proof fn lemma_mark_free_scan_of_clean(s: Seq<char>, from: Seq<char>, mark: char)
    requires
        !contains_char(s, mark),
    ensures
        mark_free_scan(s, from, mark),
    decreases s.len(),
{
    if s.len() > 0 {
        if from.len() > 0 && from.len() <= s.len() && s.take(from.len() as int) == from {
            lemma_not_contains_skip(s, mark, from.len() as int);
            lemma_mark_free_scan_of_clean(s.skip(from.len() as int), from, mark);
        } else {
            assert(s[0] != mark) by {
                if s[0] == mark {
                    assert(contains_char(s, mark));
                }
            }
            lemma_not_contains_skip(s, mark, 1);
            lemma_mark_free_scan_of_clean(s.skip(1), from, mark);
        }
    }
}

/// Round-trip law of the codec: replacing the pattern `sep` by a one-char
/// marker and then the marker by `sep` restores the original, whenever
/// every marker character of the original lies inside a replaced
/// occurrence of `sep` — in particular, by `lemma_mark_free_scan_of_clean`,
/// for any original free of the marker. The pattern itself may contain the
/// marker.
pub proof fn lemma_replace_round_trip(id: Seq<char>, sep: Seq<char>, mark: Seq<char>)
    requires
        sep.len() > 0,
        mark.len() == 1,
        mark_free_scan(id, sep, mark[0]),
    ensures
        replace_str(replace_str(id, sep, mark), mark, sep) == id,
    decreases id.len(),
{
    if id.len() == 0 {
        assert(replace_str(replace_str(id, sep, mark), mark, sep) =~= id);
    } else if sep.len() <= id.len() && id.take(sep.len() as int) == sep {
        let tail = id.skip(sep.len() as int);
        let inner_tail = replace_str(tail, sep, mark);
        assert(replace_str(id, sep, mark) == mark + inner_tail);
        let outer = mark + inner_tail;
        assert(outer.len() > 0);
        assert(outer.take(1) =~= mark);
        assert(outer.skip(1) =~= inner_tail);
        assert(replace_str(outer, mark, sep) == sep + replace_str(inner_tail, mark, sep));
        lemma_replace_round_trip(tail, sep, mark);
        assert(sep + tail =~= id);
    } else {
        let c = id[0];
        assert(c != mark[0]);
        let tail = id.skip(1);
        let inner_tail = replace_str(tail, sep, mark);
        assert(replace_str(id, sep, mark) == seq![c] + inner_tail);
        let outer = seq![c] + inner_tail;
        assert(outer.len() > 0);
        assert(outer[0] == c);
        assert(outer.take(1) != mark) by {
            assert(outer.take(1)[0] == c);
        }
        assert(outer.skip(1) =~= inner_tail);
        assert(replace_str(outer, mark, sep) == seq![c] + replace_str(inner_tail, mark, sep));
        lemma_replace_round_trip(tail, sep, mark);
        assert(seq![c] + tail =~= id);
    }
}

} // verus!
