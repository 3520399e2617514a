//! Verified text utilities: character-exact equality, whitespace trimming,
//! separator splitting, line splitting, and decimal rendering of unsigned
//! integers. These carry the string-level reasoning for every provider.

use vstd::prelude::*;
use vstd::string::StrSliceExecFns;
use vstd::string::StringExecFns;

verus! {

/// Whether `c` is a whitespace character, following the Unicode
/// `White_Space` property (the set used by `str::trim`).
pub open spec fn is_space(c: char) -> bool {
    let u = c as u32;
    (9 <= u && u <= 13) || u == 0x20 || u == 0x85 || u == 0xA0 || u == 0x1680 || (0x2000 <= u
        && u <= 0x200A) || u == 0x2028 || u == 0x2029 || u == 0x202F || u == 0x205F || u == 0x3000
}

/// `s` without its leading whitespace.
pub open spec fn trim_start_spec(s: Seq<char>) -> Seq<char>
    decreases s.len(),
{
    if s.len() > 0 && is_space(s[0]) {
        trim_start_spec(s.drop_first())
    } else {
        s
    }
}

/// `s` without its trailing whitespace.
pub open spec fn trim_end_spec(s: Seq<char>) -> Seq<char>
    decreases s.len(),
{
    if s.len() > 0 && is_space(s.last()) {
        trim_end_spec(s.drop_last())
    } else {
        s
    }
}

/// `s` without leading or trailing whitespace.
pub open spec fn trim_spec(s: Seq<char>) -> Seq<char> {
    trim_end_spec(trim_start_spec(s))
}

/// The pieces of `s` between occurrences of the separator `sep`: always at
/// least one piece, one more piece per occurrence of `sep`, in order, with
/// the separators themselves removed. Defined by recursion on the last
/// character, which is how an exec scan extends the result.
pub open spec fn split_spec(s: Seq<char>, sep: char) -> Seq<Seq<char>>
    decreases s.len(),
{
    if s.len() == 0 {
        seq![Seq::<char>::empty()]
    } else if s.last() == sep {
        split_spec(s.drop_last(), sep).push(Seq::<char>::empty())
    } else {
        let p = split_spec(s.drop_last(), sep);
        p.update(p.len() - 1, p.last().push(s.last()))
    }
}

/// Splitting always yields at least one piece.
pub proof fn lemma_split_spec_len(s: Seq<char>, sep: char)
    ensures
        split_spec(s, sep).len() >= 1,
    decreases s.len(),
{
    if s.len() > 0 {
        lemma_split_spec_len(s.drop_last(), sep);
    }
}

/// `l` without one trailing carriage return, if it has one.
pub open spec fn strip_cr(l: Seq<char>) -> Seq<char> {
    if l.len() > 0 && l.last() == '\r' {
        l.drop_last()
    } else {
        l
    }
}

/// The lines of `s`: the pieces between newline characters, a final empty
/// piece dropped (so a trailing newline opens no extra line), and one
/// trailing carriage return removed from each line.
pub open spec fn lines_spec(s: Seq<char>) -> Seq<Seq<char>> {
    let p = split_spec(s, '\n');
    let q = if p.last().len() == 0 {
        p.drop_last()
    } else {
        p
    };
    q.map_values(|l: Seq<char>| strip_cr(l))
}

/// Whether `prefix` is a prefix of `s`.
pub open spec fn starts_with_spec(s: Seq<char>, prefix: Seq<char>) -> bool {
    s.len() >= prefix.len() && s.subrange(0, prefix.len() as int) == prefix
}

/// The decimal digit characters of `n`, most significant first, without
/// leading zeros (except for `n == 0` itself).
pub open spec fn dec_rep(n: nat) -> Seq<char>
    decreases n,
{
    if n < 10 {
        seq![digit_char(n)]
    } else {
        dec_rep(n / 10) + seq![digit_char(n % 10)]
    }
}

/// The character for a single decimal digit.
pub open spec fn digit_char(d: nat) -> char {
    if d == 0 {
        '0'
    } else if d == 1 {
        '1'
    } else if d == 2 {
        '2'
    } else if d == 3 {
        '3'
    } else if d == 4 {
        '4'
    } else if d == 5 {
        '5'
    } else if d == 6 {
        '6'
    } else if d == 7 {
        '7'
    } else if d == 8 {
        '8'
    } else {
        '9'
    }
}

/// The number a decimal digit character stands for (10 for a non-digit).
pub open spec fn digit_val(c: char) -> nat {
    if c == '0' {
        0
    } else if c == '1' {
        1
    } else if c == '2' {
        2
    } else if c == '3' {
        3
    } else if c == '4' {
        4
    } else if c == '5' {
        5
    } else if c == '6' {
        6
    } else if c == '7' {
        7
    } else if c == '8' {
        8
    } else if c == '9' {
        9
    } else {
        10
    }
}

/// The number that a sequence of decimal digit characters denotes, most
/// significant first.
pub open spec fn dec_val(s: Seq<char>) -> nat
    decreases s.len(),
{
    if s.len() == 0 {
        0
    } else {
        dec_val(s.drop_last()) * 10 + digit_val(s.last())
    }
}

/// Law: the decimal rendering of `n` denotes `n` again.
pub proof fn lemma_dec_rep_val(n: nat)
    ensures
        dec_val(dec_rep(n)) == n,
    decreases n,
{
    if n < 10 {
        let s = seq![digit_char(n)];
        assert(dec_rep(n) == s);
        assert(dec_val(s) == dec_val(s.drop_last()) * 10 + digit_val(s.last()));
        assert(s.drop_last() =~= Seq::<char>::empty());
        assert(dec_val(Seq::<char>::empty()) == 0);
        assert(digit_val(digit_char(n)) == n);
    } else {
        lemma_dec_rep_val(n / 10);
        let s = dec_rep(n / 10) + seq![digit_char(n % 10)];
        assert(dec_rep(n) == s);
        assert(dec_val(s) == dec_val(s.drop_last()) * 10 + digit_val(s.last()));
        assert(s.drop_last() =~= dec_rep(n / 10));
        assert(digit_val(digit_char(n % 10)) == n % 10);
        assert((n / 10) * 10 + n % 10 == n) by (nonlinear_arith);
    }
}

/// Law: the decimal rendering is never empty, holds digit characters only,
/// and has no leading zero except for the rendering of zero itself.
pub proof fn lemma_dec_rep_shape(n: nat)
    ensures
        dec_rep(n).len() >= 1,
        forall|i: int| 0 <= i < dec_rep(n).len() ==> digit_val(#[trigger] dec_rep(n)[i]) < 10,
        n >= 1 ==> dec_rep(n)[0] != '0',
    decreases n,
{
    if n >= 10 {
        lemma_dec_rep_shape(n / 10);
        let s = dec_rep(n / 10) + seq![digit_char(n % 10)];
        assert(dec_rep(n) == s);
        assert(s[0] == dec_rep(n / 10)[0]);
        assert forall|i: int| 0 <= i < s.len() implies digit_val(#[trigger] s[i]) < 10 by {
            if i < dec_rep(n / 10).len() {
                assert(s[i] == dec_rep(n / 10)[i]);
            } else {
                assert(s[i] == digit_char(n % 10));
            }
        }
    }
}

/// Character-exact equality of two string slices.
pub fn str_eq(a: &str, b: &str) -> (r: bool)
    ensures
        r == (a@ == b@),
{
    let na: usize = a.unicode_len();
    let nb: usize = b.unicode_len();
    if na != nb {
        return false;
    }
    let mut i: usize = 0;
    while i < na
        invariant
            na == a@.len(),
            na == b@.len(),
            0 <= i <= na,
            forall|j: int| 0 <= j < i ==> a@[j] == b@[j],
        decreases na - i,
    {
        if a.get_char(i) != b.get_char(i) {
            return false;
        }
        i = i + 1;
    }
    proof {
        assert(a@ =~= b@);
    }
    true
}

/// Whether `c` is a whitespace character (executable form of `is_space`).
pub fn is_space_char(c: char) -> (r: bool)
    ensures
        r == is_space(c),
{
    let u = c as u32;
    (9 <= u && u <= 13) || u == 0x20 || u == 0x85 || u == 0xA0 || u == 0x1680 || (0x2000 <= u
        && u <= 0x200A) || u == 0x2028 || u == 0x2029 || u == 0x202F || u == 0x205F || u == 0x3000
}

/// `s` without leading or trailing whitespace.
pub fn trim_str<'a>(s: &'a str) -> (r: &'a str)
    ensures
        r@ == trim_spec(s@),
{
    let n: usize = s.unicode_len();
    let mut lo: usize = 0;
    proof {
        assert(s@.subrange(0, n as int) =~= s@);
    }
    while lo < n && is_space_char(s.get_char(lo))
        invariant
            n == s@.len(),
            0 <= lo <= n,
            trim_start_spec(s@) == trim_start_spec(s@.subrange(lo as int, n as int)),
        decreases n - lo,
    {
        proof {
            let t = s@.subrange(lo as int, n as int);
            assert(t.drop_first() =~= s@.subrange(lo as int + 1, n as int));
        }
        lo = lo + 1;
    }
    proof {
        let t = s@.subrange(lo as int, n as int);
        assert(trim_start_spec(s@) == t);
    }
    let mut hi: usize = n;
    while hi > lo && is_space_char(s.get_char(hi - 1))
        invariant
            n == s@.len(),
            0 <= lo <= hi <= n,
            trim_start_spec(s@) == s@.subrange(lo as int, n as int),
            trim_end_spec(s@.subrange(lo as int, n as int)) == trim_end_spec(
                s@.subrange(lo as int, hi as int),
            ),
        decreases hi - lo,
    {
        proof {
            let t = s@.subrange(lo as int, hi as int);
            assert(t.drop_last() =~= s@.subrange(lo as int, hi as int - 1));
        }
        hi = hi - 1;
    }
    proof {
        let t = s@.subrange(lo as int, hi as int);
        assert(trim_end_spec(s@.subrange(lo as int, n as int)) == t);
    }
    s.substring_char(lo, hi)
}

/// The pieces of `s` between occurrences of `sep`, as owned strings.
pub fn split_str(s: &str, sep: char) -> (parts: Vec<String>)
    ensures
        parts.deep_view() == split_spec(s@, sep),
{
    let n: usize = s.unicode_len();
    let mut parts: Vec<String> = Vec::new();
    let mut start: usize = 0;
    let mut i: usize = 0;
    proof {
        assert(s@.subrange(0, 0) =~= Seq::<char>::empty());
    }
    while i < n
        invariant
            n == s@.len(),
            0 <= start <= i <= n,
            split_spec(s@.subrange(0, i as int), sep) == parts.deep_view().push(
                s@.subrange(start as int, i as int),
            ),
        decreases n - i,
    {
        let ghost prefix = s@.subrange(0, i as int);
        let ghost piece = s@.subrange(start as int, i as int);
        let c = s.get_char(i);
        proof {
            assert(s@.subrange(0, i as int + 1).drop_last() =~= prefix);
            assert(s@.subrange(0, i as int + 1).last() == s@[i as int]);
        }
        if c == sep {
            let piece_str = String::from_str(s.substring_char(start, i));
            parts.push(piece_str);
            proof {
                assert(s@.subrange(i as int + 1, i as int + 1) =~= Seq::<char>::empty());
                assert(split_spec(s@.subrange(0, i as int + 1), sep) =~~= parts.deep_view().push(
                    s@.subrange(i as int + 1, i as int + 1),
                ));
            }
            start = i + 1;
        } else {
            proof {
                let p = split_spec(prefix, sep);
                assert(p.last() == piece);
                assert(piece.push(s@[i as int]) =~= s@.subrange(start as int, i as int + 1));
                assert(p.update(p.len() - 1, piece.push(s@[i as int])) =~~= parts.deep_view().push(
                    s@.subrange(start as int, i as int + 1),
                ));
            }
        }
        i = i + 1;
    }
    let last_str = String::from_str(s.substring_char(start, n));
    parts.push(last_str);
    proof {
        assert(s@.subrange(0, n as int) =~= s@);
    }
    parts
}

/// The lines of `s`, following `lines_spec`.
pub fn split_lines(s: &str) -> (ls: Vec<String>)
    ensures
        ls.deep_view() == lines_spec(s@),
{
    let mut parts: Vec<String> = split_str(s, '\n');
    proof {
        lemma_split_spec_len(s@, '\n');
    }
    let last_len: usize = parts[parts.len() - 1].as_str().unicode_len();
    if last_len == 0 {
        parts.pop();
    }
    let ghost kept = parts.deep_view();
    let mut out: Vec<String> = Vec::new();
    let mut i: usize = 0;
    while i < parts.len()
        invariant
            kept == parts.deep_view(),
            0 <= i <= parts.len(),
            out.deep_view().len() == i,
            forall|j: int| 0 <= j < i ==> out.deep_view()[j] == strip_cr(kept[j]),
        decreases parts.len() - i,
    {
        let p = &parts[i];
        let m: usize = p.as_str().unicode_len();
        let ghost prev_deep = out.deep_view();
        let ghost prev = out@;
        proof {
            assert(p@ == kept[i as int]);
        }
        if m > 0 && p.as_str().get_char(m - 1) == '\r' {
            out.push(String::from_str(p.as_str().substring_char(0, m - 1)));
            proof {
                assert(kept[i as int].drop_last() =~= p@.subrange(0, m as int - 1));
                assert(out@[i as int]@ == strip_cr(kept[i as int]));
            }
        } else {
            out.push(p.clone());
            proof {
                assert(out@[i as int]@ == p@);
                assert(strip_cr(kept[i as int]) == kept[i as int]);
            }
        }
        proof {
            assert forall|j: int| 0 <= j < i + 1 implies out.deep_view()[j] == strip_cr(
                kept[j],
            ) by {
                assert(out.deep_view()[j] == out@[j].deep_view());
                if j < i {
                    assert(prev_deep[j] == strip_cr(kept[j]));
                    assert(prev_deep[j] == prev[j].deep_view());
                    assert(out@[j] == prev[j]);
                }
            }
        }
        i = i + 1;
    }
    proof {
        assert(out.deep_view() =~~= kept.map_values(|l: Seq<char>| strip_cr(l)));
    }
    out
}

/// The string for a single decimal digit.
fn digit_str(d: u64) -> (r: &'static str)
    requires
        d < 10,
    ensures
        r@ == seq![digit_char(d as nat)],
{
    if d == 0 {
        proof {
            reveal_strlit("0");
        }
        "0"
    } else if d == 1 {
        proof {
            reveal_strlit("1");
        }
        "1"
    } else if d == 2 {
        proof {
            reveal_strlit("2");
        }
        "2"
    } else if d == 3 {
        proof {
            reveal_strlit("3");
        }
        "3"
    } else if d == 4 {
        proof {
            reveal_strlit("4");
        }
        "4"
    } else if d == 5 {
        proof {
            reveal_strlit("5");
        }
        "5"
    } else if d == 6 {
        proof {
            reveal_strlit("6");
        }
        "6"
    } else if d == 7 {
        proof {
            reveal_strlit("7");
        }
        "7"
    } else if d == 8 {
        proof {
            reveal_strlit("8");
        }
        "8"
    } else {
        proof {
            reveal_strlit("9");
        }
        "9"
    }
}

/// Renders `n` as its decimal digits, most significant first.
pub fn u64_to_decimal(n: u64) -> (s: String)
    ensures
        s@ == dec_rep(n as nat),
    decreases n,
{
    if n < 10 {
        String::from_str(digit_str(n))
    } else {
        let q = u64_to_decimal(n / 10);
        q.concat(digit_str(n % 10))
    }
}

} // verus!
