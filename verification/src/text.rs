//! Character-sequence tools shared by the parsers and message builders.
//!
//! Text is modelled as `Seq<char>`. Executable code works on `Vec<char>` and
//! converts to and from strings at the edges.

use vstd::prelude::*;

verus! {

/// The characters of `s`, in order.
pub fn chars_of(s: &str) -> (out: Vec<char>)
    ensures
        out@ == s@,
{
    let mut out: Vec<char> = Vec::new();
    for c in it: s.chars()
        invariant
            it.seq() == s@,
            out@ == it.seq().take(it.index()),
    {
        out.push(c);
    }
    out
}

/// Collects characters into an owned string through `String::from_iter`,
/// which keeps every character in its place.
#[verifier::external_body]
pub(crate) fn string_of(chars: &Vec<char>) -> (out: String)
    ensures
        out@ == chars@,
{
    String::from_iter(chars)
}

/// Copy of `v[lo..hi]`.
pub fn slice_of(v: &Vec<char>, lo: usize, hi: usize) -> (out: Vec<char>)
    requires
        lo <= hi <= v.len(),
    ensures
        out@ == v@.subrange(lo as int, hi as int),
{
    let mut out: Vec<char> = Vec::new();
    let mut i: usize = lo;
    while i < hi
        invariant
            lo <= i <= hi <= v.len(),
            out@ == v@.subrange(lo as int, i as int),
        decreases hi - i,
    {
        out.push(v[i]);
        i = i + 1;
    }
    out
}

/// Appends `src` to `dst`.
pub fn push_all(dst: &mut Vec<char>, src: &Vec<char>)
    ensures
        final(dst)@ == old(dst)@ + src@,
{
    let mut i: usize = 0;
    while i < src.len()
        invariant
            i <= src.len(),
            dst@ == old(dst)@ + src@.subrange(0, i as int),
        decreases src.len() - i,
    {
        dst.push(src[i]);
        i = i + 1;
    }
    assert(src@.subrange(0, src.len() as int) == src@);
}

/// Appends the characters of `s` to `dst`.
pub fn push_text(dst: &mut Vec<char>, s: &str)
    ensures
        final(dst)@ == old(dst)@ + s@,
{
    let chars = chars_of(s);
    push_all(dst, &chars);
}

/// `true` when both hold the same characters.
pub fn same_chars(a: &Vec<char>, b: &Vec<char>) -> (r: bool)
    ensures
        r == (a@ == b@),
{
    if a.len() != b.len() {
        return false;
    }
    let mut i: usize = 0;
    while i < a.len()
        invariant
            i <= a.len(),
            a.len() == b.len(),
            forall|k: int| 0 <= k < i ==> a@[k] == b@[k],
        decreases a.len() - i,
    {
        if a[i] != b[i] {
            return false;
        }
        i = i + 1;
    }
    assert(a@ =~= b@);
    true
}

/// `true` when the two strings hold the same characters.
pub fn same_text(a: &str, b: &str) -> (r: bool)
    ensures
        r == (a@ == b@),
{
    let x = chars_of(a);
    let y = chars_of(b);
    same_chars(&x, &y)
}

/// Unicode white space: the code points with the `White_Space` property.
pub open spec fn is_space(c: char) -> bool {
    let u = c as u32;
    ||| 0x09 <= u <= 0x0D
    ||| u == 0x20
    ||| u == 0x85
    ||| u == 0xA0
    ||| u == 0x1680
    ||| 0x2000 <= u <= 0x200A
    ||| u == 0x2028
    ||| u == 0x2029
    ||| u == 0x202F
    ||| u == 0x205F
    ||| u == 0x3000
}

/// Whether `c` is white space.
pub fn is_space_char(c: char) -> (r: bool)
    ensures
        r == is_space(c),
{
    let u: u32 = c as u32;
    (0x09 <= u && u <= 0x0D) || u == 0x20 || u == 0x85 || u == 0xA0 || u == 0x1680 || (0x2000 <= u
        && u <= 0x200A) || u == 0x2028 || u == 0x2029 || u == 0x202F || u == 0x205F || u == 0x3000
}

/// Position of the first `c` in `s`, or `s.len()` when there is none.
pub open spec fn first_index(s: Seq<char>, c: char) -> int
    decreases s.len(),
{
    if s.len() == 0 {
        0
    } else if s[0] == c {
        0
    } else {
        1 + first_index(s.drop_first(), c)
    }
}

/// `c` occurs in `s`.
pub open spec fn contains_char(s: Seq<char>, c: char) -> bool {
    first_index(s, c) < s.len()
}

/// The first index lies within `s` or right behind it, nothing before it is
/// `c`, and what stands at it is.
pub proof fn lemma_first_index(s: Seq<char>, c: char)
    ensures
        0 <= first_index(s, c) <= s.len(),
        forall|i: int| 0 <= i < first_index(s, c) ==> s[i] != c,
        first_index(s, c) < s.len() ==> s[first_index(s, c)] == c,
    decreases s.len(),
{
    if s.len() > 0 && s[0] != c {
        let t = s.drop_first();
        lemma_first_index(t, c);
        assert forall|i: int| 0 <= i < first_index(s, c) implies s[i] != c by {
            if i > 0 {
                assert(s[i] == t[i - 1]);
            }
        }
    }
}

/// The first index is the only position that holds `c` with no `c` before it.
pub proof fn lemma_first_index_is(s: Seq<char>, c: char, k: int)
    requires
        0 <= k <= s.len(),
        forall|i: int| 0 <= i < k ==> s[i] != c,
        k < s.len() ==> s[k] == c,
    ensures
        first_index(s, c) == k,
{
    lemma_first_index(s, c);
    let f = first_index(s, c);
    if f < k {
        assert(s[f] == c);
    } else if k < f {
        assert(s[k] == c);
    }
}

/// First position at or after `from` that holds `c`, or `v.len()`.
pub fn find_from(v: &Vec<char>, from: usize, c: char) -> (at: usize)
    requires
        from <= v.len(),
    ensures
        from <= at <= v.len(),
        at - from == first_index(v@.subrange(from as int, v.len() as int), c),
{
    let mut i: usize = from;
    while i < v.len() && v[i] != c
        invariant
            from <= i <= v.len(),
            forall|k: int| from <= k < i ==> v@[k] != c,
        decreases v.len() - i,
    {
        i = i + 1;
    }
    proof {
        lemma_first_index_is(v@.subrange(from as int, v.len() as int), c, i - from);
    }
    i
}

/// Whether `c` occurs in `v`.
pub fn has_char(v: &Vec<char>, c: char) -> (r: bool)
    ensures
        r == contains_char(v@, c),
{
    let at = find_from(v, 0, c);
    assert(v@.subrange(0, v.len() as int) == v@);
    at < v.len()
}

/// The pieces of `s` between occurrences of `sep`: one more piece than there
/// are separators, empty pieces included.
pub open spec fn split_seq(s: Seq<char>, sep: char) -> Seq<Seq<char>>
    decreases s.len(),
{
    let i = first_index(s, sep);
    if 0 <= i < s.len() {
        seq![s.subrange(0, i)] + split_seq(s.subrange(i + 1, s.len() as int), sep)
    } else {
        seq![s]
    }
}

/// A split gives at least one piece, the first is what stands before the
/// first separator, and there are more exactly when there is a separator.
pub proof fn lemma_split_nonempty(s: Seq<char>, sep: char)
    ensures
        split_seq(s, sep).len() >= 1,
        split_seq(s, sep)[0] == s.subrange(0, first_index(s, sep)),
        split_seq(s, sep).len() >= 2 <==> contains_char(s, sep),
{
    lemma_first_index(s, sep);
    let i = first_index(s, sep);
    if i < s.len() {
        let rest = s.subrange(i + 1, s.len() as int);
        lemma_split_nonempty_len(rest, sep);
    } else {
        assert(s.subrange(0, s.len() as int) == s);
    }
}

proof fn lemma_split_nonempty_len(s: Seq<char>, sep: char)
    ensures
        split_seq(s, sep).len() >= 1,
{
    lemma_first_index(s, sep);
}

/// The character sequences that a vector of pieces holds.
pub open spec fn views_of(pieces: Seq<Vec<char>>) -> Seq<Seq<char>> {
    Seq::new(pieces.len(), |i: int| pieces[i]@)
}

/// The pieces of `v` between occurrences of `sep`.
pub fn split_chars(v: &Vec<char>, sep: char) -> (out: Vec<Vec<char>>)
    ensures
        views_of(out@) == split_seq(v@, sep),
{
    let mut out: Vec<Vec<char>> = Vec::new();
    let mut start: usize = 0;
    let n = v.len();
    assert(v@.subrange(0, n as int) == v@);
    assert(views_of(out@) =~= Seq::<Seq<char>>::empty());
    loop
        invariant_except_break
            start <= n,
            split_seq(v@, sep) == views_of(out@) + split_seq(
                v@.subrange(start as int, n as int),
                sep,
            ),
        invariant
            n == v.len(),
        ensures
            views_of(out@) == split_seq(v@, sep),
        decreases n - start,
    {
        let at = find_from(v, start, sep);
        let piece = slice_of(v, start, at);
        let ghost before = views_of(out@);
        let ghost rest = v@.subrange(start as int, n as int);
        proof {
            lemma_first_index(rest, sep);
            assert(rest.subrange(0, at - start) == piece@);
        }
        out.push(piece);
        assert(views_of(out@) =~= before + seq![piece@]);
        if at == n {
            assert(split_seq(rest, sep) == seq![rest]);
            assert(rest.subrange(0, at - start) == rest);
            break;
        }
        proof {
            assert(rest.subrange(at - start + 1, rest.len() as int) == v@.subrange(
                at + 1,
                n as int,
            ));
            assert(split_seq(rest, sep) == seq![piece@] + split_seq(
                v@.subrange(at + 1, n as int),
                sep,
            ));
            assert(before + (seq![piece@] + split_seq(v@.subrange(at + 1, n as int), sep))
                =~= (before + seq![piece@]) + split_seq(v@.subrange(at + 1, n as int), sep));
        }
        start = at + 1;
    }
    out
}

/// `s` without its leading white space.
pub open spec fn trim_start_seq(s: Seq<char>) -> Seq<char>
    decreases s.len(),
{
    if s.len() > 0 && is_space(s[0]) {
        trim_start_seq(s.drop_first())
    } else {
        s
    }
}

/// `s` without its trailing white space.
pub open spec fn trim_end_seq(s: Seq<char>) -> Seq<char>
    decreases s.len(),
{
    if s.len() > 0 && is_space(s.last()) {
        trim_end_seq(s.drop_last())
    } else {
        s
    }
}

/// `s` without its leading and trailing white space.
pub open spec fn trim_seq(s: Seq<char>) -> Seq<char> {
    trim_end_seq(trim_start_seq(s))
}

/// `v` without its leading and trailing white space.
pub fn trim_chars(v: &Vec<char>) -> (out: Vec<char>)
    ensures
        out@ == trim_seq(v@),
{
    let n = v.len();
    let mut lo: usize = 0;
    assert(v@.subrange(0, n as int) == v@);
    while lo < n && is_space_char(v[lo])
        invariant
            n == v.len(),
            lo <= n,
            trim_start_seq(v@) == trim_start_seq(v@.subrange(lo as int, n as int)),
        decreases n - lo,
    {
        assert(v@.subrange(lo as int, n as int).drop_first() == v@.subrange(lo + 1, n as int));
        lo = lo + 1;
    }
    assert(trim_start_seq(v@) == v@.subrange(lo as int, n as int));
    let mut hi: usize = n;
    while hi > lo && is_space_char(v[hi - 1])
        invariant
            n == v.len(),
            lo <= hi <= n,
            trim_seq(v@) == trim_end_seq(v@.subrange(lo as int, hi as int)),
        decreases hi - lo,
    {
        assert(v@.subrange(lo as int, hi as int).drop_last() == v@.subrange(
            lo as int,
            hi - 1,
        ));
        hi = hi - 1;
    }
    slice_of(v, lo, hi)
}

/// The decimal digit for `d`.
pub open spec fn digit_char(d: int) -> char {
    ((48 + d) as u8) as char
}

/// A decimal digit.
pub open spec fn is_digit(c: char) -> bool {
    48 <= c as u32 <= 57
}

/// The value of a decimal digit.
pub open spec fn digit_value(c: char) -> int {
    c as u32 - 48
}

/// Decimal digits of `n`, most significant first, without leading zeros.
pub open spec fn decimal_text(n: nat) -> Seq<char>
    decreases n,
{
    if n < 10 {
        seq![digit_char(n as int)]
    } else {
        decimal_text(n / 10).push(digit_char((n % 10) as int))
    }
}

/// Decimal form of an integer, with `-` before a negative one.
pub open spec fn signed_decimal_text(i: int) -> Seq<char> {
    if i < 0 {
        seq!['-'] + decimal_text((-i) as nat)
    } else {
        decimal_text(i as nat)
    }
}

/// The decimal digits of `n`.
pub fn decimal_chars(n: u64) -> (out: Vec<char>)
    ensures
        out@ == decimal_text(n as nat),
    decreases n,
{
    if n < 10 {
        let d: u8 = n as u8;
        let mut out: Vec<char> = Vec::new();
        out.push((48u8 + d) as char);
        assert(out@ =~= seq![digit_char(n as int)]);
        out
    } else {
        let mut out = decimal_chars(n / 10);
        let d: u8 = (n % 10) as u8;
        out.push((48u8 + d) as char);
        out
    }
}

/// Appends the decimal digits of `n` to `dst`.
pub fn push_number(dst: &mut Vec<char>, n: u64)
    ensures
        final(dst)@ == old(dst)@ + decimal_text(n as nat),
{
    let digits = decimal_chars(n);
    push_all(dst, &digits);
}

/// The decimal form of `i`.
pub fn signed_decimal_chars(i: i64) -> (out: Vec<char>)
    ensures
        out@ == signed_decimal_text(i as int),
{
    if i < 0 {
        let magnitude: u64 = ((-(i + 1)) as u64) + 1;
        let mut out: Vec<char> = Vec::new();
        out.push('-');
        let digits = decimal_chars(magnitude);
        push_all(&mut out, &digits);
        out
    } else {
        decimal_chars(i as u64)
    }
}

/// Every character is a decimal digit.
pub open spec fn all_digits(s: Seq<char>) -> bool {
    forall|i: int| 0 <= i < s.len() ==> is_digit(#[trigger] s[i])
}

/// Value of a run of decimal digits.
pub open spec fn digits_value(s: Seq<char>) -> nat
    decreases s.len(),
{
    if s.len() == 0 {
        0
    } else {
        (digits_value(s.drop_last()) * 10 + digit_value(s.last())) as nat
    }
}

/// A run of digits is worth no less than any of its beginnings.
pub proof fn lemma_digits_value_prefix(s: Seq<char>, k: int)
    requires
        0 <= k <= s.len(),
        all_digits(s),
    ensures
        digits_value(s.subrange(0, k)) <= digits_value(s),
    decreases s.len() - k,
{
    if k == s.len() {
        assert(s.subrange(0, k) == s);
    } else {
        let t = s.drop_last();
        assert(is_digit(s[s.len() - 1]));
        if k == s.len() - 1 {
            assert(s.subrange(0, k) == t);
        } else {
            assert(all_digits(t)) by {
                assert forall|i: int| 0 <= i < t.len() implies is_digit(#[trigger] t[i]) by {
                    assert(t[i] == s[i]);
                }
            }
            lemma_digits_value_prefix(t, k);
            assert(t.subrange(0, k) == s.subrange(0, k));
        }
    }
}

/// An unsigned decimal number as the standard library reads one: an optional
/// `+`, then one or more digits whose value fits.
pub open spec fn parse_u64_spec(s: Seq<char>) -> Option<u64> {
    let body = if s.len() > 0 && s[0] == '+' {
        s.drop_first()
    } else {
        s
    };
    if body.len() > 0 && all_digits(body) && digits_value(body) <= u64::MAX {
        Some(digits_value(body) as u64)
    } else {
        None
    }
}

/// A signed decimal number as the standard library reads one: an optional
/// `+` or `-`, then one or more digits whose signed value fits.
pub open spec fn parse_i64_spec(s: Seq<char>) -> Option<i64> {
    let negative = s.len() > 0 && s[0] == '-';
    let body = if s.len() > 0 && (s[0] == '+' || s[0] == '-') {
        s.drop_first()
    } else {
        s
    };
    let magnitude = digits_value(body) as int;
    let value = if negative {
        -magnitude
    } else {
        magnitude
    };
    if body.len() > 0 && all_digits(body) && i64::MIN <= value <= i64::MAX {
        Some(value as i64)
    } else {
        None
    }
}

/// Reads the digits `v[from..]`. `None` when there is none, when one of the
/// characters is no digit, or when the value passes `u64::MAX`.
pub fn read_digits(v: &Vec<char>, from: usize) -> (out: Option<u64>)
    requires
        from <= v.len(),
    ensures
        ({
            let body = v@.subrange(from as int, v.len() as int);
            out == if body.len() > 0 && all_digits(body) && digits_value(body) <= u64::MAX {
                Some(digits_value(body) as u64)
            } else {
                None
            }
        }),
{
    let n = v.len();
    let ghost body = v@.subrange(from as int, n as int);
    if from == n {
        return None;
    }
    let mut acc: u64 = 0;
    let mut i: usize = from;
    assert(body.subrange(0, 0) =~= Seq::<char>::empty());
    while i < n
        invariant
            n == v.len(),
            from <= i <= n,
            body == v@.subrange(from as int, n as int),
            all_digits(body.subrange(0, i - from)),
            acc == digits_value(body.subrange(0, i - from)),
        decreases n - i,
    {
        let c = v[i];
        let u: u32 = c as u32;
        assert(body[i - from] == c);
        if u < 48 || u > 57 {
            assert(!all_digits(body));
            return None;
        }
        let d: u64 = (u - 48) as u64;
        let ghost next = body.subrange(0, i - from + 1);
        proof {
            assert(next.drop_last() == body.subrange(0, i - from));
            assert(next.last() == c);
            assert(all_digits(next)) by {
                assert forall|k: int| 0 <= k < next.len() implies is_digit(#[trigger] next[k]) by {
                    if k < i - from {
                        assert(next[k] == body.subrange(0, i - from)[k]);
                    }
                }
            }
        }
        if acc > (u64::MAX - d) / 10 {
            proof {
                assert(digits_value(next) > u64::MAX);
                if all_digits(body) {
                    lemma_digits_value_prefix(body, i - from + 1);
                }
            }
            return None;
        }
        acc = acc * 10 + d;
        i = i + 1;
    }
    assert(body.subrange(0, n - from) == body);
    Some(acc)
}

/// Reads an unsigned decimal number.
pub fn parse_u64_chars(v: &Vec<char>) -> (out: Option<u64>)
    ensures
        out == parse_u64_spec(v@),
{
    assert(v@.subrange(0, v.len() as int) == v@);
    if v.len() > 0 && v[0] == '+' {
        assert(v@.drop_first() == v@.subrange(1, v.len() as int));
        read_digits(v, 1)
    } else {
        read_digits(v, 0)
    }
}

/// Reads a signed decimal number.
pub fn parse_i64_chars(v: &Vec<char>) -> (out: Option<i64>)
    ensures
        out == parse_i64_spec(v@),
{
    assert(v@.subrange(0, v.len() as int) == v@);
    let negative = v.len() > 0 && v[0] == '-';
    let signed = v.len() > 0 && (v[0] == '+' || v[0] == '-');
    let magnitude = if signed {
        assert(v@.drop_first() == v@.subrange(1, v.len() as int));
        read_digits(v, 1)
    } else {
        read_digits(v, 0)
    };
    match magnitude {
        None => None,
        Some(m) => {
            if negative {
                if m > 0x8000_0000_0000_0000u64 {
                    None
                } else if m == 0x8000_0000_0000_0000u64 {
                    Some(i64::MIN)
                } else {
                    Some(-(m as i64))
                }
            } else if m > 0x7fff_ffff_ffff_ffffu64 {
                None
            } else {
                Some(m as i64)
            }
        },
    }
}

} // verus!
