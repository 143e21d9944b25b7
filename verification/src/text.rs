//! Character and string helpers: ASCII case folding, case-insensitive
//! comparison and search, file-extension parsing, and decimal rendering of
//! integers.

use vstd::prelude::*;

verus! {

/// ASCII lower-casing of one character: an uppercase ASCII letter maps to
/// its lowercase counterpart, every other character is unchanged.
pub open spec fn lower_char(c: char) -> char {
    if 65 <= c as int && c as int <= 90 {
        (c as int + 32) as char
    } else {
        c
    }
}

/// ASCII lower-casing of a whole character sequence.
pub open spec fn lower_seq(s: Seq<char>) -> Seq<char> {
    s.map_values(|c: char| lower_char(c))
}

/// Lower-cases one character, ASCII only.
pub fn to_lower_char(c: char) -> (r: char)
    ensures
        r == lower_char(c),
{
    let u = c as u32;
    if 65 <= u && u <= 90 {
        ((u + 32) as u8) as char
    } else {
        c
    }
}

/// `pat` occurs in `hay` starting at position `i`.
pub open spec fn occurs_at(hay: Seq<char>, pat: Seq<char>, i: int) -> bool {
    &&& 0 <= i
    &&& i + pat.len() <= hay.len()
    &&& hay.subrange(i, i + pat.len() as int) == pat
}

/// `pat` occurs somewhere in `hay`.
pub open spec fn contains_seq(hay: Seq<char>, pat: Seq<char>) -> bool {
    exists|i: int| occurs_at(hay, pat, i)
}

/// `pat` occurs somewhere in `hay`, compared after ASCII lower-casing of
/// both sides.
pub open spec fn contains_ci(hay: Seq<char>, pat: Seq<char>) -> bool {
    contains_seq(lower_seq(hay), lower_seq(pat))
}

/// The two strings are equal after ASCII lower-casing.
pub fn eq_ci(a: &str, b: &str) -> (r: bool)
    ensures
        r == (lower_seq(a@) == lower_seq(b@)),
{
    let n = a.unicode_len();
    if n != b.unicode_len() {
        assert(lower_seq(a@).len() != lower_seq(b@).len());
        return false;
    }
    let mut i: usize = 0;
    while i < n
        invariant
            i <= n,
            n == a@.len() == b@.len(),
            forall|k: int| 0 <= k < i ==> lower_char(a@[k]) == lower_char(b@[k]),
        decreases n - i,
    {
        if to_lower_char(a.get_char(i)) != to_lower_char(b.get_char(i)) {
            assert(lower_seq(a@)[i as int] != lower_seq(b@)[i as int]);
            return false;
        }
        i += 1;
    }
    assert(lower_seq(a@) =~= lower_seq(b@));
    true
}

/// The two strings hold the same characters.
pub fn str_eq(a: &str, b: &str) -> (r: bool)
    ensures
        r == (a@ == b@),
{
    let n = a.unicode_len();
    if n != b.unicode_len() {
        return false;
    }
    let mut i: usize = 0;
    while i < n
        invariant
            i <= n,
            n == a@.len() == b@.len(),
            forall|k: int| 0 <= k < i ==> a@[k] == b@[k],
        decreases n - i,
    {
        if a.get_char(i) != b.get_char(i) {
            return false;
        }
        i += 1;
    }
    assert(a@ =~= b@);
    true
}

/// `pat` matches `hay` at position `i`, case-insensitively.
fn matches_at_ci(hay: &str, pat: &str, i: usize) -> (r: bool)
    requires
        i + pat@.len() <= hay@.len() <= usize::MAX,
    ensures
        r == occurs_at(lower_seq(hay@), lower_seq(pat@), i as int),
{
    let m = pat.unicode_len();
    let mut j: usize = 0;
    while j < m
        invariant
            j <= m,
            m == pat@.len(),
            i + m <= hay@.len() <= usize::MAX,
            forall|k: int| 0 <= k < j ==> lower_char(hay@[i + k]) == lower_char(pat@[k]),
        decreases m - j,
    {
        if to_lower_char(hay.get_char(i + j)) != to_lower_char(pat.get_char(j)) {
            assert(lower_seq(hay@).subrange(i as int, i + m) != lower_seq(pat@)) by {
                assert(lower_seq(hay@).subrange(i as int, i + m)[j as int] == lower_char(
                    hay@[i + j],
                ));
            }
            return false;
        }
        j += 1;
    }
    assert(lower_seq(hay@).subrange(i as int, i + m) =~= lower_seq(pat@));
    true
}

/// Whether `pat` occurs in `hay`, compared case-insensitively (ASCII).
pub fn contains_ci_str(hay: &str, pat: &str) -> (r: bool)
    ensures
        r == contains_ci(hay@, pat@),
{
    let n = hay.unicode_len();
    let m = pat.unicode_len();
    if m > n {
        assert(forall|i: int| !occurs_at(lower_seq(hay@), lower_seq(pat@), i));
        return false;
    }
    if m == 0 {
        assert(occurs_at(lower_seq(hay@), lower_seq(pat@), 0)) by {
            assert(lower_seq(hay@).subrange(0, 0) =~= lower_seq(pat@));
        }
        return true;
    }
    let mut i: usize = 0;
    while i <= n - m
        invariant
            1 <= m <= n,
            n == hay@.len(),
            m == pat@.len(),
            i <= n - m + 1,
            forall|k: int| 0 <= k < i ==> !occurs_at(lower_seq(hay@), lower_seq(pat@), k),
        decreases n - m + 1 - i,
    {
        if matches_at_ci(hay, pat, i) {
            return true;
        }
        i += 1;
    }
    assert(forall|k: int| occurs_at(lower_seq(hay@), lower_seq(pat@), k) ==> 0 <= k <= n - m);
    false
}

/// The decimal digit characters.
pub open spec fn digit_char(d: nat) -> char {
    if d == 0 {
        '0'
    } else if d == 1 {
        '1'
    } else if d == 2 {
        '2'
    } else if d == 3 {
        '3'
    } else if d == 4 {
        '4'
    } else if d == 5 {
        '5'
    } else if d == 6 {
        '6'
    } else if d == 7 {
        '7'
    } else if d == 8 {
        '8'
    } else {
        '9'
    }
}

/// The decimal rendering of a natural number, most significant digit first,
/// with no leading zeros (a single `'0'` for zero).
pub open spec fn dec_digits(n: nat) -> Seq<char>
    decreases n,
{
    if n < 10 {
        seq![digit_char(n)]
    } else {
        dec_digits(n / 10).push(digit_char(n % 10))
    }
}

/// One decimal digit as a string.
fn digit_str(d: u32) -> (r: &'static str)
    requires
        d < 10,
    ensures
        r@ == seq![digit_char(d as nat)],
{
    proof {
        reveal_strlit("0");
        reveal_strlit("1");
        reveal_strlit("2");
        reveal_strlit("3");
        reveal_strlit("4");
        reveal_strlit("5");
        reveal_strlit("6");
        reveal_strlit("7");
        reveal_strlit("8");
        reveal_strlit("9");
    }
    let r = match d {
        0 => "0",
        1 => "1",
        2 => "2",
        3 => "3",
        4 => "4",
        5 => "5",
        6 => "6",
        7 => "7",
        8 => "8",
        _ => "9",
    };
    proof {
        assert(r@ =~= seq![digit_char(d as nat)]);
    }
    r
}

/// Renders a number in decimal.
pub fn u32_string(n: u32) -> (r: String)
    ensures
        r@ == dec_digits(n as nat),
    decreases n,
{
    if n < 10 {
        digit_str(n).to_owned()
    } else {
        let mut s = u32_string(n / 10);
        s.append(digit_str(n % 10));
        proof {
            assert(s@ =~= dec_digits(n as nat));
        }
        s
    }
}

/// `s` with its run of trailing `'/'` characters removed: path inspection
/// ignores trailing separators.
pub open spec fn strip_trailing_slashes(s: Seq<char>) -> Seq<char>
    decreases s.len(),
{
    if s.len() > 0 && s.last() == '/' {
        strip_trailing_slashes(s.drop_last())
    } else {
        s
    }
}

/// The extension of a location with no trailing separators: the part after
/// the last `'.'`, provided that dot lies inside the final path component
/// (after the last `'/'`) and is not that component's first character;
/// otherwise empty.
pub open spec fn extension_within(t: Seq<char>) -> Seq<char> {
    match t.index_of_last('.') {
        None => Seq::empty(),
        Some(d) => match t.index_of_last('/') {
            None => if d > 0 {
                t.subrange(d + 1, t.len() as int)
            } else {
                Seq::empty()
            },
            Some(sl) => if d > sl + 1 {
                t.subrange(d + 1, t.len() as int)
            } else {
                Seq::empty()
            },
        },
    }
}

/// The extension of a location string, with trailing path separators
/// ignored.
pub open spec fn extension_of(s: Seq<char>) -> Seq<char> {
    extension_within(strip_trailing_slashes(s))
}

/// Where the trailing-separator run starts, as a prefix of `s`.
proof fn lemma_strip_point(s: Seq<char>, k: int)
    requires
        0 <= k <= s.len(),
        forall|j: int| k <= j < s.len() ==> s[j] == '/',
        k > 0 ==> s[k - 1] != '/',
    ensures
        strip_trailing_slashes(s) == s.subrange(0, k),
    decreases s.len(),
{
    if s.len() > 0 && s.last() == '/' {
        assert(k < s.len());
        lemma_strip_point(s.drop_last(), k);
        assert(s.drop_last().subrange(0, k) =~= s.subrange(0, k));
    } else {
        assert(k == s.len());
        assert(s.subrange(0, k) =~= s);
    }
}

/// Position of the last occurrence of `c` in the first `end` characters of
/// `s`.
fn find_last_char_before(s: &str, c: char, end: usize) -> (r: Option<usize>)
    requires
        end <= s@.len(),
    ensures
        match r {
            Some(i) => i < end && s@.subrange(0, end as int).index_of_last(c) == Some(i as int),
            None => s@.subrange(0, end as int).index_of_last(c) is None,
        },
{
    let mut i = end;
    while i > 0
        invariant
            i <= end <= s@.len(),
            forall|j: int| i <= j < end ==> s@[j] != c,
        decreases i,
    {
        i -= 1;
        if s.get_char(i) == c {
            proof {
                let t = s@.subrange(0, end as int);
                t.index_of_last_ensures(c);
                assert(t[i as int] == s@[i as int]);
                assert(forall|j: int| i < j < end ==> t[j] == s@[j]);
            }
            return Some(i);
        }
    }
    proof {
        let t = s@.subrange(0, end as int);
        t.index_of_last_ensures(c);
        assert(forall|j: int| 0 <= j < end ==> t[j] == s@[j]);
    }
    None
}

/// The extension of a location string, per `extension_of`.
pub fn extension_of_str(s: &str) -> (r: String)
    ensures
        r@ == extension_of(s@),
{
    let n = s.unicode_len();
    let mut end = n;
    while end > 0
        invariant_except_break
            end <= n,
            n == s@.len(),
            forall|j: int| end <= j < n ==> s@[j] == '/',
        ensures
            end <= n,
            n == s@.len(),
            forall|j: int| end <= j < n ==> s@[j] == '/',
            end > 0 ==> s@[end - 1] != '/',
        decreases end,
    {
        if s.get_char(end - 1) != '/' {
            break;
        }
        end -= 1;
    }
    proof {
        lemma_strip_point(s@, end as int);
    }
    let ghost t = s@.subrange(0, end as int);
    let dot = find_last_char_before(s, '.', end);
    let slash = find_last_char_before(s, '/', end);
    match dot {
        None => String::new(),
        Some(d) => {
            let in_name = match slash {
                None => d > 0,
                Some(sl) => d > sl + 1,
            };
            if in_name {
                let r = s.substring_char(d + 1, end).to_owned();
                proof {
                    assert(t.subrange(d + 1, t.len() as int) =~= s@.subrange(
                        d + 1 as int,
                        end as int,
                    ));
                }
                r
            } else {
                String::new()
            }
        },
    }
}

/// `s` ends with the suffix `suf`.
pub open spec fn ends_with(s: Seq<char>, suf: Seq<char>) -> bool {
    suf.len() <= s.len() && s.subrange(s.len() - suf.len(), s.len() as int) == suf
}

/// Whether `s` ends with `suf`.
pub fn ends_with_str(s: &str, suf: &str) -> (r: bool)
    ensures
        r == ends_with(s@, suf@),
{
    let n = s.unicode_len();
    let m = suf.unicode_len();
    if m > n {
        return false;
    }
    let mut j: usize = 0;
    while j < m
        invariant
            j <= m,
            m <= n,
            n == s@.len(),
            m == suf@.len(),
            forall|k: int| 0 <= k < j ==> s@[n - m + k] == suf@[k],
        decreases m - j,
    {
        if s.get_char(n - m + j) != suf.get_char(j) {
            assert(s@.subrange(n - m, n as int)[j as int] == s@[n - m + j]);
            return false;
        }
        j += 1;
    }
    assert(s@.subrange(n - m, n as int) =~= suf@);
    true
}

} // verus!
