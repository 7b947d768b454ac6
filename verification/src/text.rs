//! Verified text utilities: substring containment, case-insensitive
//! matching, leftmost non-overlapping replacement (for template
//! placeholders), and decimal rendering (for generated identifiers).
//!
//! Algorithms work on `Vec<char>`; conversions to and from `String`
//! are verified against the string views.

use vstd::prelude::*;
use vstd::string::StrSliceExecFns;

verus! {

/// The lowercase equivalent of a character sequence, as
/// `str::to_lowercase` computes it.
pub uninterp spec fn lower_of(s: Seq<char>) -> Seq<char>;

/// Relies on `str::to_lowercase`: the lowercase equivalent of the
/// string, a function of its characters alone; an empty string stays
/// empty.
#[verifier::external_body]
pub(crate) fn lowercase(s: &str) -> (r: String)
    ensures
        r@ == lower_of(s@),
        s@.len() == 0 ==> r@.len() == 0,
{
    s.to_lowercase()
}

/// Relies on `String::push`: appends the given character to the end of
/// the string.
#[verifier::external_body]
pub(crate) fn push_char(s: &mut String, c: char)
    ensures
        final(s)@ == old(s)@.push(c),
{
    s.push(c);
}

/// `needle` occurs contiguously somewhere in `hay`.
pub open spec fn contains_seq(hay: Seq<char>, needle: Seq<char>) -> bool {
    exists|k: int|
        0 <= k && k + needle.len() <= hay.len() && #[trigger] hay.subrange(
            k,
            k + needle.len() as int,
        ) == needle
}

/// The characters of `s`, in order.
pub fn str_chars(s: &str) -> (v: Vec<char>)
    ensures
        v@ == s@,
{
    let n: usize = s.unicode_len();
    let mut v: Vec<char> = Vec::new();
    let mut i: usize = 0;
    while i < n
        invariant
            n == s@.len(),
            i <= n,
            v@ == s@.subrange(0, i as int),
        decreases n - i,
    {
        let c: char = s.get_char(i);
        v.push(c);
        proof {
            assert(v@ =~= s@.subrange(0, i + 1));
        }
        i += 1;
    }
    proof {
        assert(v@ =~= s@);
    }
    v
}

/// The string holding exactly the characters of `v`.
pub fn chars_string(v: &Vec<char>) -> (s: String)
    ensures
        s@ == v@,
{
    let mut s: String = String::new();
    let mut i: usize = 0;
    while i < v.len()
        invariant
            i <= v@.len(),
            s@ == v@.subrange(0, i as int),
        decreases v@.len() - i,
    {
        push_char(&mut s, v[i]);
        proof {
            assert(s@ =~= v@.subrange(0, i + 1));
        }
        i += 1;
    }
    proof {
        assert(s@ =~= v@);
    }
    s
}

/// Appends every character of `src` to `r`, in order.
pub fn push_all(r: &mut Vec<char>, src: &Vec<char>)
    ensures
        final(r)@ == old(r)@ + src@,
{
    let mut j: usize = 0;
    while j < src.len()
        invariant
            j <= src@.len(),
            r@ == old(r)@ + src@.subrange(0, j as int),
        decreases src@.len() - j,
    {
        let c: char = src[j];
        r.push(c);
        proof {
            assert(r@ =~= old(r)@ + src@.subrange(0, j + 1));
        }
        j += 1;
    }
    proof {
        assert(old(r)@ + src@.subrange(0, src@.len() as int) =~= old(r)@ + src@);
    }
}

/// Whether `pat` occurs in `s` starting at position `i`.
pub fn match_at(s: &Vec<char>, pat: &Vec<char>, i: usize) -> (b: bool)
    requires
        i + pat@.len() <= s@.len(),
    ensures
        b == (s@.subrange(i as int, i + pat@.len() as int) == pat@),
{
    let ghost window: Seq<char> = s@.subrange(i as int, i + pat@.len() as int);
    let slen: usize = s.len();
    let mut j: usize = 0;
    while j < pat.len()
        invariant
            slen == s@.len(),
            i + pat@.len() <= s@.len(),
            j <= pat@.len(),
            window == s@.subrange(i as int, i + pat@.len() as int),
            forall|m: int| 0 <= m < j ==> window[m] == pat@[m],
        decreases pat@.len() - j,
    {
        if s[i + j] != pat[j] {
            proof {
                assert(window[j as int] == s@[i + j]);
            }
            return false;
        }
        proof {
            assert(window[j as int] == s@[i + j]);
        }
        j += 1;
    }
    proof {
        assert(window =~= pat@);
    }
    true
}

/// Whether `needle` occurs contiguously in `hay`.
pub fn contains_chars(hay: &Vec<char>, needle: &Vec<char>) -> (b: bool)
    ensures
        b == contains_seq(hay@, needle@),
{
    if needle.len() > hay.len() {
        return false;
    }
    let bound: usize = hay.len() - needle.len();
    let mut k: usize = 0;
    loop
        invariant
            needle@.len() <= hay@.len(),
            bound == hay@.len() - needle@.len(),
            k <= bound,
            forall|j: int|
                0 <= j < k ==> #[trigger] hay@.subrange(j, j + needle@.len() as int) != needle@,
        decreases bound - k,
    {
        if match_at(hay, needle, k) {
            return true;
        }
        if k == bound {
            proof {
                assert(forall|j: int|
                    0 <= j && j + needle@.len() <= hay@.len() ==> #[trigger] hay@.subrange(
                        j,
                        j + needle@.len() as int,
                    ) != needle@);
            }
            return false;
        }
        k += 1;
    }
}

/// Whether the lowercase form of `pattern` occurs in the lowercase
/// form of `text`: case-insensitive substring matching.
pub fn contains_ci(text: &str, pattern: &str) -> (b: bool)
    ensures
        b == contains_seq(lower_of(text@), lower_of(pattern@)),
{
    let lt: String = lowercase(text);
    let lp: String = lowercase(pattern);
    let vt: Vec<char> = str_chars(lt.as_str());
    let vp: Vec<char> = str_chars(lp.as_str());
    contains_chars(&vt, &vp)
}

/// Whether some element of `v` reads `s`.
pub open spec fn has_str(v: Seq<String>, s: Seq<char>) -> bool {
    exists|i: int| 0 <= i < v.len() && #[trigger] v[i]@ == s
}

/// Whether the elements of `v` are pairwise distinct as strings.
pub open spec fn distinct_strs(v: Seq<String>) -> bool {
    forall|p: int, q: int|
        #![trigger v[p], v[q]]
        0 <= p < q < v.len() ==> v[p]@ != v[q]@
}

/// Whether some element of `v` reads `s`.
pub fn contains_str(v: &Vec<String>, s: &String) -> (b: bool)
    ensures
        b == has_str(v@, s@),
{
    let mut i: usize = 0;
    while i < v.len()
        invariant
            i <= v@.len(),
            forall|j: int| 0 <= j < i ==> #[trigger] v@[j]@ != s@,
        decreases v@.len() - i,
    {
        if v[i] == *s {
            return true;
        }
        i += 1;
    }
    false
}

/// An element-wise copy of `v`.
pub fn clone_strings(v: &Vec<String>) -> (r: Vec<String>)
    ensures
        r@ == v@,
{
    let mut r: Vec<String> = Vec::new();
    let mut i: usize = 0;
    while i < v.len()
        invariant
            i <= v@.len(),
            r@ == v@.subrange(0, i as int),
        decreases v@.len() - i,
    {
        r.push(v[i].clone());
        proof {
            assert(r@ =~= v@.subrange(0, i + 1));
        }
        i += 1;
    }
    proof {
        assert(v@.subrange(0, v@.len() as int) =~= v@);
    }
    r
}

/// A copy of `o`, holding a copy of its string if there is one.
pub fn clone_opt_string(o: &Option<String>) -> (r: Option<String>)
    ensures
        r == *o,
{
    match o {
        Some(s) => Some(s.clone()),
        None => None,
    }
}

/// `s` with every leftmost, non-overlapping occurrence of `from`
/// replaced by `to`.
pub open spec fn replace_all(s: Seq<char>, from: Seq<char>, to: Seq<char>) -> Seq<char>
    decreases s.len(),
    when from.len() > 0
{
    if s.len() < from.len() {
        s
    } else if s.subrange(0, from.len() as int) == from {
        to + replace_all(s.skip(from.len() as int), from, to)
    } else {
        seq![s[0]] + replace_all(s.skip(1), from, to)
    }
}

/// Replaces every leftmost, non-overlapping occurrence of `from` in
/// `s` by `to`.
pub fn replace_chars(s: &Vec<char>, from: &Vec<char>, to: &Vec<char>) -> (r: Vec<char>)
    requires
        from@.len() > 0,
    ensures
        r@ == replace_all(s@, from@, to@),
{
    let mut r: Vec<char> = Vec::new();
    let mut i: usize = 0;
    proof {
        assert(s@.skip(0) =~= s@);
        assert(Seq::<char>::empty() + replace_all(s@, from@, to@) =~= replace_all(
            s@,
            from@,
            to@,
        ));
    }
    while i < s.len()
        invariant
            from@.len() > 0,
            i <= s@.len(),
            replace_all(s@, from@, to@) == r@ + replace_all(s@.skip(i as int), from@, to@),
        decreases s@.len() - i,
    {
        proof {
            assert(s@.skip(i as int).len() == s@.len() - i);
        }
        if from.len() <= s.len() - i && match_at(s, from, i) {
            proof {
                assert(s@.skip(i as int).subrange(0, from@.len() as int) =~= s@.subrange(
                    i as int,
                    i + from@.len() as int,
                ));
                assert(s@.skip(i as int).skip(from@.len() as int) =~= s@.skip(
                    i + from@.len() as int,
                ));
            }
            push_all(&mut r, to);
            i += from.len();
        } else {
            proof {
                if s@.skip(i as int).len() >= from@.len() {
                    assert(s@.skip(i as int).subrange(0, from@.len() as int) =~= s@.subrange(
                        i as int,
                        i + from@.len() as int,
                    ));
                }
                assert(s@.skip(i as int)[0] == s@[i as int]);
                assert(s@.skip(i as int).skip(1) =~= s@.skip(i as int + 1));
                assert(seq![s@[i as int]] + s@.skip(i as int + 1) =~= s@.skip(i as int));
            }
            let c: char = s[i];
            r.push(c);
            i += 1;
        }
    }
    proof {
        assert(s@.skip(s@.len() as int).len() == 0);
        assert(r@ + replace_all(s@.skip(s@.len() as int), from@, to@) =~= r@);
    }
    r
}

/// The digit character for `d`.
pub open spec fn spec_digit_char(d: int) -> char {
    if d == 0 {
        '0'
    } else if d == 1 {
        '1'
    } else if d == 2 {
        '2'
    } else if d == 3 {
        '3'
    } else if d == 4 {
        '4'
    } else if d == 5 {
        '5'
    } else if d == 6 {
        '6'
    } else if d == 7 {
        '7'
    } else if d == 8 {
        '8'
    } else {
        '9'
    }
}

/// The decimal rendering of `n`, without leading zeros (except for
/// `n == 0` itself).
pub open spec fn spec_decimal(n: int) -> Seq<char>
    recommends
        n >= 0,
    decreases n,
{
    if n <= 9 {
        seq![spec_digit_char(n)]
    } else {
        spec_decimal(n / 10).push(spec_digit_char(n % 10))
    }
}

/// The digit character for `d`.
fn digit_char(d: u64) -> (c: char)
    requires
        d < 10,
    ensures
        c == spec_digit_char(d as int),
{
    if d == 0 {
        '0'
    } else if d == 1 {
        '1'
    } else if d == 2 {
        '2'
    } else if d == 3 {
        '3'
    } else if d == 4 {
        '4'
    } else if d == 5 {
        '5'
    } else if d == 6 {
        '6'
    } else if d == 7 {
        '7'
    } else if d == 8 {
        '8'
    } else {
        '9'
    }
}

/// The decimal digits of `n`, most significant first.
pub fn u64_decimal(n: u64) -> (v: Vec<char>)
    ensures
        v@ == spec_decimal(n as int),
    decreases n,
{
    if n <= 9 {
        let mut v: Vec<char> = Vec::new();
        v.push(digit_char(n));
        proof {
            assert(v@ =~= seq![spec_digit_char(n as int)]);
        }
        v
    } else {
        let mut v: Vec<char> = u64_decimal(n / 10);
        v.push(digit_char(n % 10));
        v
    }
}

/// The decimal rendering of `n` as a string.
pub fn u64_string(n: u64) -> (s: String)
    ensures
        s@ == spec_decimal(n as int),
{
    let v: Vec<char> = u64_decimal(n);
    chars_string(&v)
}

} // verus!
