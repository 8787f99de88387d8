//! Character-level helpers shared by the validators and renderers.

use vstd::prelude::*;
use vstd::string::*;
use vstd::utf8::*;
use vstd::std_specs::iter::IteratorSpec;

verus! {

/// Number of bytes of the UTF-8 encoding of a character sequence.
pub open spec fn utf8_len(s: Seq<char>) -> nat {
    encode_utf8(s).len()
}

/// Unicode `White_Space` property, the set that `char::is_whitespace` recognises.
pub open spec fn spec_is_whitespace(c: char) -> bool {
    let v = c as u32;
    ||| (0x09 <= v && v <= 0x0d)
    ||| v == 0x20
    ||| v == 0x85
    ||| v == 0xa0
    ||| v == 0x1680
    ||| (0x2000 <= v && v <= 0x200a)
    ||| v == 0x2028
    ||| v == 0x2029
    ||| v == 0x202f
    ||| v == 0x205f
    ||| v == 0x3000
}

/// Which characters a trim removes.
#[derive(Clone, Copy, Debug, PartialEq, Eq)]
pub enum TrimSet {
    /// Unicode white space, as `str::trim`.
    Whitespace,
    /// Unicode white space and NUL.
    WhitespaceOrNul,
}

pub open spec fn spec_trimmed_char(set: TrimSet, c: char) -> bool {
    match set {
        TrimSet::Whitespace => spec_is_whitespace(c),
        TrimSet::WhitespaceOrNul => spec_is_whitespace(c) || c == '\0',
    }
}

/// Drops leading characters of the set.
pub open spec fn trim_start(set: TrimSet, s: Seq<char>) -> Seq<char>
    decreases s.len(),
{
    if s.len() > 0 && spec_trimmed_char(set, s[0]) {
        trim_start(set, s.drop_first())
    } else {
        s
    }
}

/// Drops trailing characters of the set.
pub open spec fn trim_end(set: TrimSet, s: Seq<char>) -> Seq<char>
    decreases s.len(),
{
    if s.len() > 0 && spec_trimmed_char(set, s.last()) {
        trim_end(set, s.drop_last())
    } else {
        s
    }
}

/// Drops leading and trailing characters of the set.
pub open spec fn trim(set: TrimSet, s: Seq<char>) -> Seq<char> {
    trim_end(set, trim_start(set, s))
}

/// The white-space trim of `str::trim`.
pub open spec fn trim_ws(s: Seq<char>) -> Seq<char> {
    trim(TrimSet::Whitespace, s)
}

pub open spec fn all_whitespace(s: Seq<char>) -> bool {
    forall|i: int| 0 <= i < s.len() ==> spec_is_whitespace(#[trigger] s[i])
}

/// `char::is_whitespace`.
pub fn is_whitespace(c: char) -> (b: bool)
    ensures
        b == spec_is_whitespace(c),
{
    let v = c as u32;
    (0x09 <= v && v <= 0x0d) || v == 0x20 || v == 0x85 || v == 0xa0 || v == 0x1680 || (0x2000
        <= v && v <= 0x200a) || v == 0x2028 || v == 0x2029 || v == 0x202f || v == 0x205f || v
        == 0x3000
}

fn in_trim_set(set: TrimSet, c: char) -> (b: bool)
    ensures
        b == spec_trimmed_char(set, c),
{
    match set {
        TrimSet::Whitespace => is_whitespace(c),
        TrimSet::WhitespaceOrNul => is_whitespace(c) || c == '\0',
    }
}

/// The characters of a string, in order.
pub fn chars_of(s: &str) -> (v: Vec<char>)
    ensures
        v@ == s@,
{
    broadcast use vstd::string::group_string_axioms;

    let mut v: Vec<char> = Vec::new();
    let mut chars = s.chars();
    loop
        invariant
            v@ + chars.remaining() == s@,
            chars.decrease() is Some,
        ensures
            v@ == s@,
        decreases chars.decrease()->0,
    {
        match chars.next() {
            Some(c) => {
                v.push(c);
            },
            None => {
                assert(v@ =~= s@);
                break;
            },
        }
    }
    v
}

/// A string made of the given characters.
#[verifier::external_body]
pub(crate) fn string_of(v: &[char]) -> (s: String)
    ensures
        s@ == v@,
{
    v.iter().collect()
}

/// Whether two strings hold the same characters.
pub fn same_text(a: &str, b: &str) -> (r: bool)
    ensures
        r == (a@ == b@),
{
    let x = chars_of(a);
    let y = chars_of(b);
    if x.len() != y.len() {
        assert(x@.len() != y@.len());
        return false;
    }
    let mut i: usize = 0;
    while i < x.len()
        invariant
            i <= x@.len(),
            x@.len() == y@.len(),
            x@ == a@,
            y@ == b@,
            forall|j: int| 0 <= j < i ==> x@[j] == y@[j],
        decreases x@.len() - i,
    {
        if x[i] != y[i] {
            assert(x@[i as int] != y@[i as int]);
            return false;
        }
        i = i + 1;
    }
    assert(x@ =~= y@);
    true
}

/// `s` begins with `prefix`.
pub open spec fn has_prefix(s: Seq<char>, prefix: Seq<char>) -> bool {
    prefix.len() <= s.len() && s.take(prefix.len() as int) == prefix
}

/// What follows `prefix` in `s`, when `s` begins with it (`str::strip_prefix`).
pub fn strip_prefix(s: &str, prefix: &str) -> (r: Option<String>)
    ensures
        has_prefix(s@, prefix@) ==> r is Some && r->0@ == s@.skip(prefix@.len() as int),
        !has_prefix(s@, prefix@) ==> r is None,
{
    let x = chars_of(s);
    let p = chars_of(prefix);
    if p.len() > x.len() {
        return None;
    }
    let mut i: usize = 0;
    while i < p.len()
        invariant
            i <= p@.len() <= x@.len(),
            x@ == s@,
            p@ == prefix@,
            forall|j: int| 0 <= j < i ==> x@[j] == p@[j],
        decreases p@.len() - i,
    {
        if x[i] != p[i] {
            assert(s@.take(prefix@.len() as int)[i as int] != prefix@[i as int]);
            return None;
        }
        i = i + 1;
    }
    assert(s@.take(prefix@.len() as int) =~= prefix@);
    let mut rest: Vec<char> = Vec::new();
    let mut k: usize = p.len();
    while k < x.len()
        invariant
            p@.len() <= k <= x@.len(),
            x@ == s@,
            p@ == prefix@,
            rest@ == x@.subrange(p@.len() as int, k as int),
        decreases x@.len() - k,
    {
        rest.push(x[k]);
        k = k + 1;
        assert(rest@ =~= x@.subrange(p@.len() as int, k as int));
    }
    assert(rest@ =~= s@.skip(prefix@.len() as int));
    Some(string_of(rest.as_slice()))
}

proof fn lemma_trim_start_skip(set: TrimSet, s: Seq<char>, i: int)
    requires
        0 <= i < s.len(),
        spec_trimmed_char(set, s[i]),
    ensures
        trim_start(set, s.subrange(i, s.len() as int)) == trim_start(
            set,
            s.subrange(i + 1, s.len() as int),
        ),
{
    assert(s.subrange(i, s.len() as int).drop_first() =~= s.subrange(i + 1, s.len() as int));
}

proof fn lemma_trim_end_skip(set: TrimSet, s: Seq<char>, j: int)
    requires
        0 < j <= s.len(),
        spec_trimmed_char(set, s[j - 1]),
    ensures
        trim_end(set, s.subrange(0, j)) == trim_end(set, s.subrange(0, j - 1)),
{
    assert(s.subrange(0, j).drop_last() =~= s.subrange(0, j - 1));
}

/// Bounds of the trimmed part of `v`.
fn trim_bounds(set: TrimSet, v: &Vec<char>) -> (r: (usize, usize))
    ensures
        r.0 <= r.1 <= v@.len(),
        v@.subrange(r.0 as int, r.1 as int) == trim(set, v@),
{
    let n = v.len();
    let mut lo: usize = 0;
    assert(v@.subrange(0, n as int) =~= v@);
    while lo < n && in_trim_set(set, v[lo])
        invariant
            lo <= n,
            n == v@.len(),
            trim_start(set, v@) == trim_start(set, v@.subrange(lo as int, n as int)),
        decreases n - lo,
    {
        proof {
            lemma_trim_start_skip(set, v@, lo as int);
        }
        lo = lo + 1;
    }
    let ghost rest = v@.subrange(lo as int, n as int);
    assert(trim_start(set, rest) == rest);
    let mut hi: usize = n;
    assert(rest.subrange(0, (n - lo) as int) =~= rest);
    while hi > lo && in_trim_set(set, v[hi - 1])
        invariant
            lo <= hi <= n,
            n == v@.len(),
            rest == v@.subrange(lo as int, n as int),
            trim_end(set, rest) == trim_end(set, rest.subrange(0, (hi - lo) as int)),
        decreases hi,
    {
        proof {
            lemma_trim_end_skip(set, rest, (hi - lo) as int);
        }
        hi = hi - 1;
    }
    assert(rest.subrange(0, (hi - lo) as int) =~= v@.subrange(lo as int, hi as int));
    (lo, hi)
}

/// The string with characters of the set removed from both ends.
pub fn trim_text(set: TrimSet, s: &str) -> (r: String)
    ensures
        r@ == trim(set, s@),
{
    let v = chars_of(s);
    let (lo, hi) = trim_bounds(set, &v);
    let slice = vstd::slice::slice_subrange(v.as_slice(), lo, hi);
    string_of(slice)
}

/// `str::trim`.
pub fn trim_whitespace(s: &str) -> (r: String)
    ensures
        r@ == trim_ws(s@),
{
    trim_text(TrimSet::Whitespace, s)
}

proof fn lemma_trim_start_empty_iff(set: TrimSet, s: Seq<char>)
    ensures
        (trim_start(set, s).len() == 0) <==> (forall|i: int|
            0 <= i < s.len() ==> spec_trimmed_char(set, #[trigger] s[i])),
    decreases s.len(),
{
    if s.len() > 0 && spec_trimmed_char(set, s[0]) {
        lemma_trim_start_empty_iff(set, s.drop_first());
        if trim_start(set, s).len() == 0 {
            assert forall|i: int| 0 <= i < s.len() implies spec_trimmed_char(set, #[trigger] s[i]) by {
                if i > 0 {
                    assert(s[i] == s.drop_first()[i - 1]);
                }
            }
        }
        if forall|i: int| 0 <= i < s.len() ==> spec_trimmed_char(set, #[trigger] s[i]) {
            assert forall|i: int| 0 <= i < s.drop_first().len() implies spec_trimmed_char(set, #[trigger] s.drop_first()[i]) by {
                assert(s.drop_first()[i] == s[i + 1]);
            }
        }
    } else if s.len() > 0 {
        assert(!spec_trimmed_char(set, s[0]));
    }
}

proof fn lemma_trim_end_of_untrimmed_start(set: TrimSet, s: Seq<char>)
    requires
        s.len() > 0,
        !spec_trimmed_char(set, s[0]),
    ensures
        trim_end(set, s).len() > 0,
    decreases s.len(),
{
    if spec_trimmed_char(set, s.last()) {
        assert(s.len() > 1);
        assert(s.drop_last()[0] == s[0]);
        lemma_trim_end_of_untrimmed_start(set, s.drop_last());
    }
}

/// The trim of a sequence is empty exactly when every character lies in the set.
pub proof fn lemma_trim_empty_iff(set: TrimSet, s: Seq<char>)
    ensures
        (trim(set, s).len() == 0) <==> (forall|i: int|
            0 <= i < s.len() ==> spec_trimmed_char(set, #[trigger] s[i])),
{
    lemma_trim_start_empty_iff(set, s);
    let t = trim_start(set, s);
    if t.len() > 0 {
        lemma_trim_start_nonempty_head(set, s);
        lemma_trim_end_of_untrimmed_start(set, t);
    }
}

proof fn lemma_trim_start_nonempty_head(set: TrimSet, s: Seq<char>)
    requires
        trim_start(set, s).len() > 0,
    ensures
        !spec_trimmed_char(set, trim_start(set, s)[0]),
    decreases s.len(),
{
    if s.len() > 0 && spec_trimmed_char(set, s[0]) {
        lemma_trim_start_nonempty_head(set, s.drop_first());
    }
}

/// Whether every character of the string is white space (`value.trim().is_empty()`).
pub fn is_blank(s: &str) -> (r: bool)
    ensures
        r == (trim_ws(s@).len() == 0),
        r == all_whitespace(s@),
{
    let t = trim_whitespace(s);
    proof {
        lemma_trim_empty_iff(TrimSet::Whitespace, s@);
    }
    t.as_str().is_empty()
}

/// Number of characters (`chars().count()`).
pub fn char_count(s: &str) -> (n: usize)
    ensures
        n == s@.len(),
{
    s.unicode_len()
}

/// Byte length of a string (`str::len`): the length of its UTF-8 encoding.
pub(crate) fn byte_len(s: &str) -> (n: usize)
    ensures
        n == utf8_len(s@),
{
    s.as_bytes().len()
}

/// Appends `b` to `a`.
pub fn append(a: &mut String, b: &str)
    ensures
        final(a)@ == old(a)@ + b@,
{
    a.append(b);
}

/// Appends one character.
pub fn push_char(a: &mut String, c: char)
    ensures
        final(a)@ == old(a)@.push(c),
{
    let v: Vec<char> = vec![c];
    let s = string_of(v.as_slice());
    assert(v@ =~= seq![c]);
    a.append(s.as_str());
}

/// Decimal digits of a natural number.
pub open spec fn decimal(n: nat) -> Seq<char>
    decreases n,
{
    if n < 10 {
        seq![digit_char(n)]
    } else {
        decimal(n / 10).push(digit_char(n % 10))
    }
}

pub open spec fn digit_char(d: nat) -> char {
    if d == 0 {
        '0'
    } else if d == 1 {
        '1'
    } else if d == 2 {
        '2'
    } else if d == 3 {
        '3'
    } else if d == 4 {
        '4'
    } else if d == 5 {
        '5'
    } else if d == 6 {
        '6'
    } else if d == 7 {
        '7'
    } else if d == 8 {
        '8'
    } else {
        '9'
    }
}

/// Decimal text of a signed integer.
pub open spec fn signed_decimal(n: int) -> Seq<char> {
    if n < 0 {
        seq!['-'] + decimal((-n) as nat)
    } else {
        decimal(n as nat)
    }
}

fn digit(d: u64) -> (c: char)
    requires
        d < 10,
    ensures
        c == digit_char(d as nat),
{
    if d == 0 {
        '0'
    } else if d == 1 {
        '1'
    } else if d == 2 {
        '2'
    } else if d == 3 {
        '3'
    } else if d == 4 {
        '4'
    } else if d == 5 {
        '5'
    } else if d == 6 {
        '6'
    } else if d == 7 {
        '7'
    } else if d == 8 {
        '8'
    } else {
        '9'
    }
}

fn decimal_chars(n: u64) -> (v: Vec<char>)
    ensures
        v@ == decimal(n as nat),
    decreases n,
{
    if n < 10 {
        let v: Vec<char> = vec![digit(n)];
        assert(v@ =~= seq![digit_char(n as nat)]);
        v
    } else {
        let mut v = decimal_chars(n / 10);
        v.push(digit(n % 10));
        v
    }
}

/// Decimal text of an unsigned integer (`u64::to_string`).
pub fn u64_text(n: u64) -> (s: String)
    ensures
        s@ == decimal(n as nat),
{
    let v = decimal_chars(n);
    string_of(v.as_slice())
}

/// Decimal text of a signed integer (`i64::to_string`).
pub fn i64_text(n: i64) -> (s: String)
    ensures
        s@ == signed_decimal(n as int),
{
    if n < 0 {
        let magnitude: u64 = if n == i64::MIN {
            9_223_372_036_854_775_808u64
        } else {
            (-n) as u64
        };
        let mut s = String::from_str("-");
        proof {
            reveal_strlit("-");
        }
        let digits = u64_text(magnitude);
        s.append(digits.as_str());
        assert(s@ =~= seq!['-'] + decimal((-n) as nat));
        s
    } else {
        u64_text(n as u64)
    }
}

} // verus!
