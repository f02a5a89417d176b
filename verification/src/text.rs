//! Text primitives the rest of the library is written in: searching,
//! splitting, trimming, joining and decimal conversion, each stated over
//! the character sequence of its arguments.
use vstd::prelude::*;
use vstd::string::StringExecFns;

verus! {

// ---------------------------------------------------------------------
// Specifications
// ---------------------------------------------------------------------

/// Index of the first `c` in `s`, or -1.
pub open spec fn index_char(s: Seq<char>, c: char) -> int
    decreases s.len(),
{
    if s.len() == 0 {
        -1
    } else if s[0] == c {
        0
    } else {
        let r = index_char(s.drop_first(), c);
        if r < 0 {
            -1
        } else {
            r + 1
        }
    }
}

/// Index of the last `c` in `s`, or -1.
pub open spec fn last_index_char(s: Seq<char>, c: char) -> int
    decreases s.len(),
{
    if s.len() == 0 {
        -1
    } else if s.last() == c {
        s.len() - 1
    } else {
        last_index_char(s.drop_last(), c)
    }
}

/// `sub` occurs in `s` starting at position `i`.
pub open spec fn occurs_at(s: Seq<char>, sub: Seq<char>, i: int) -> bool {
    0 <= i && i + sub.len() <= s.len() && s.subrange(i, i + sub.len()) =~= sub
}

/// Index of the first occurrence of `sub` in `s`, or -1.
pub open spec fn index_of(s: Seq<char>, sub: Seq<char>) -> int
    decreases s.len(),
{
    if sub.len() > s.len() {
        -1
    } else if s.subrange(0, sub.len() as int) =~= sub {
        0
    } else {
        let r = index_of(s.drop_first(), sub);
        if r < 0 {
            -1
        } else {
            r + 1
        }
    }
}

pub open spec fn contains(s: Seq<char>, sub: Seq<char>) -> bool {
    index_of(s, sub) >= 0
}

pub open spec fn has_prefix(s: Seq<char>, p: Seq<char>) -> bool {
    p.len() <= s.len() && s.subrange(0, p.len() as int) =~= p
}

pub open spec fn has_suffix(s: Seq<char>, p: Seq<char>) -> bool {
    p.len() <= s.len() && s.subrange(s.len() - p.len(), s.len() as int) =~= p
}

pub open spec fn trim_prefix(s: Seq<char>, p: Seq<char>) -> Seq<char> {
    if has_prefix(s, p) {
        s.subrange(p.len() as int, s.len() as int)
    } else {
        s
    }
}

/// The pieces of `s` between the occurrences of `c`.
pub open spec fn split_char(s: Seq<char>, c: char) -> Seq<Seq<char>>
    decreases s.len(),
{
    let i = index_char(s, c);
    if i < 0 || i >= s.len() {
        seq![s]
    } else {
        seq![s.take(i)] + split_char(s.skip(i + 1), c)
    }
}

/// At most `n` pieces: the first `n - 1` cuts at `c`, then the rest whole.
pub open spec fn splitn_char(s: Seq<char>, c: char, n: nat) -> Seq<Seq<char>>
    decreases n,
{
    if n == 0 {
        seq![]
    } else if n == 1 {
        seq![s]
    } else {
        let i = index_char(s, c);
        if i < 0 || i >= s.len() {
            seq![s]
        } else {
            seq![s.take(i)] + splitn_char(s.skip(i + 1), c, (n - 1) as nat)
        }
    }
}

/// Every `c` in `s` replaced by `with`.
pub open spec fn replace_char(s: Seq<char>, c: char, with: Seq<char>) -> Seq<char>
    decreases s.len(),
{
    if s.len() == 0 {
        s
    } else {
        let head = if s[0] == c {
            with
        } else {
            seq![s[0]]
        };
        head + replace_char(s.drop_first(), c, with)
    }
}

/// `parts` joined with `sep` between consecutive parts.
pub open spec fn join(parts: Seq<Seq<char>>, sep: Seq<char>) -> Seq<char>
    decreases parts.len(),
{
    if parts.len() == 0 {
        seq![]
    } else if parts.len() == 1 {
        parts[0]
    } else {
        join(parts.drop_last(), sep) + sep + parts.last()
    }
}

/// Every occurrence of `p` (leftmost first, not overlapping) replaced by
/// `w`, for a non-empty pattern.
pub open spec fn replace_all(s: Seq<char>, p: Seq<char>, w: Seq<char>) -> Seq<char>
    decreases s.len(),
{
    if p.len() == 0 {
        s
    } else {
        let i = index_of(s, p);
        if i < 0 {
            s
        } else {
            proof {
                lemma_index_of(s, p);
            }
            s.take(i) + w + replace_all(s.skip(i + p.len()), p, w)
        }
    }
}

/// White space as Unicode defines it (the `White_Space` property).
pub open spec fn is_space(c: char) -> bool {
    let u = c as u32;
    (9 <= u && u <= 13) || u == 32 || u == 0x85 || u == 0xa0 || u == 0x1680 || (0x2000 <= u
        && u <= 0x200a) || u == 0x2028 || u == 0x2029 || u == 0x202f || u == 0x205f || u
        == 0x3000
}

pub open spec fn trim_left(s: Seq<char>) -> Seq<char>
    decreases s.len(),
{
    if s.len() > 0 && is_space(s[0]) {
        trim_left(s.drop_first())
    } else {
        s
    }
}

pub open spec fn trim_right(s: Seq<char>) -> Seq<char>
    decreases s.len(),
{
    if s.len() > 0 && is_space(s.last()) {
        trim_right(s.drop_last())
    } else {
        s
    }
}

/// `s` without leading and trailing white space.
pub open spec fn trim_space(s: Seq<char>) -> Seq<char> {
    trim_right(trim_left(s))
}

/// Length of the run of non-space characters that starts `s`.
pub open spec fn word_len(s: Seq<char>) -> nat
    decreases s.len(),
{
    if s.len() == 0 || is_space(s[0]) {
        0
    } else {
        1 + word_len(s.drop_first())
    }
}

/// The maximal runs of non-space characters of `s`, in order.
pub open spec fn fields(s: Seq<char>) -> Seq<Seq<char>>
    decreases s.len(),
{
    if s.len() == 0 {
        seq![]
    } else if is_space(s[0]) {
        fields(s.drop_first())
    } else {
        let w = word_len(s);
        if w == 0 || w > s.len() {
            seq![]
        } else {
            seq![s.take(w as int)] + fields(s.skip(w as int))
        }
    }
}

pub open spec fn is_digit(c: char) -> bool {
    '0' <= c && c <= '9'
}

pub open spec fn digit_value(c: char) -> int {
    (c as u32) - ('0' as u32)
}

pub open spec fn all_digits(s: Seq<char>) -> bool {
    forall|i: int| 0 <= i < s.len() ==> is_digit(#[trigger] s[i])
}

/// The number a run of decimal digits denotes.
pub open spec fn digits_value(s: Seq<char>) -> int
    decreases s.len(),
{
    if s.len() == 0 {
        0
    } else {
        digits_value(s.drop_last()) * 10 + digit_value(s.last())
    }
}

/// What a decimal integer literal denotes: an optional sign, then at least
/// one digit, with the value in the range of a 64-bit integer.
pub open spec fn parse_int(s: Seq<char>) -> Option<int> {
    let neg = s.len() > 0 && s[0] == '-';
    let signed = s.len() > 0 && (s[0] == '-' || s[0] == '+');
    let body = if signed {
        s.drop_first()
    } else {
        s
    };
    let v = if neg {
        -digits_value(body)
    } else {
        digits_value(body)
    };
    if body.len() > 0 && all_digits(body) && i64::MIN <= v <= i64::MAX {
        Some(v)
    } else {
        None
    }
}

pub open spec fn digit_char(d: int) -> char {
    (('0' as u32) + d) as char
}

/// Decimal digits of a natural number, most significant first.
pub open spec fn nat_decimal(n: nat) -> Seq<char>
    decreases n,
{
    if n < 10 {
        seq![digit_char(n as int)]
    } else {
        nat_decimal(n / 10).push(digit_char((n % 10) as int))
    }
}

/// Decimal representation of an integer, with a leading '-' when negative.
pub open spec fn decimal(n: int) -> Seq<char> {
    if n < 0 {
        seq!['-'] + nat_decimal((-n) as nat)
    } else {
        nat_decimal(n as nat)
    }
}

/// Upper-cased text: the result of the goish `strings.ToUpper` call
/// (full Unicode case mapping).
pub uninterp spec fn upper(s: Seq<char>) -> Seq<char>;

// ---------------------------------------------------------------------
// Lemmas
// ---------------------------------------------------------------------

pub proof fn lemma_index_char(s: Seq<char>, c: char)
    ensures
        -1 <= index_char(s, c) < s.len(),
        index_char(s, c) >= 0 ==> s[index_char(s, c)] == c,
        forall|j: int|
            0 <= j < s.len() && (index_char(s, c) < 0 || j < index_char(s, c)) ==> s[j] != c,
    decreases s.len(),
{
    if s.len() > 0 && s[0] != c {
        lemma_index_char(s.drop_first(), c);
        assert forall|j: int|
            0 <= j < s.len() && (index_char(s, c) < 0 || j < index_char(s, c)) implies s[j]
            != c by {
            if j > 0 {
                assert(s[j] == s.drop_first()[j - 1]);
            }
        }
    }
}

pub proof fn lemma_index_char_at(s: Seq<char>, c: char, k: int)
    requires
        0 <= k < s.len(),
        s[k] == c,
        forall|j: int| 0 <= j < k ==> s[j] != c,
    ensures
        index_char(s, c) == k,
    decreases s.len(),
{
    if k > 0 {
        assert forall|j: int| 0 <= j < k - 1 implies s.drop_first()[j] != c by {
            assert(s.drop_first()[j] == s[j + 1]);
        }
        lemma_index_char_at(s.drop_first(), c, k - 1);
    }
}

pub proof fn lemma_index_char_none(s: Seq<char>, c: char)
    requires
        forall|j: int| 0 <= j < s.len() ==> s[j] != c,
    ensures
        index_char(s, c) == -1,
    decreases s.len(),
{
    if s.len() > 0 {
        assert forall|j: int| 0 <= j < s.len() - 1 implies s.drop_first()[j] != c by {
            assert(s.drop_first()[j] == s[j + 1]);
        }
        lemma_index_char_none(s.drop_first(), c);
    }
}

pub proof fn lemma_last_index_char(s: Seq<char>, c: char)
    ensures
        -1 <= last_index_char(s, c) < s.len(),
        last_index_char(s, c) >= 0 ==> s[last_index_char(s, c)] == c,
        forall|j: int| last_index_char(s, c) < j < s.len() ==> s[j] != c,
    decreases s.len(),
{
    if s.len() > 0 && s.last() != c {
        lemma_last_index_char(s.drop_last(), c);
        assert forall|j: int| last_index_char(s, c) < j < s.len() implies s[j] != c by {
            if j < s.len() - 1 {
                assert(s[j] == s.drop_last()[j]);
            }
        }
    }
}

pub proof fn lemma_last_index_char_at(s: Seq<char>, c: char, k: int)
    requires
        0 <= k < s.len(),
        s[k] == c,
        forall|j: int| k < j < s.len() ==> s[j] != c,
    ensures
        last_index_char(s, c) == k,
    decreases s.len(),
{
    if k < s.len() - 1 {
        assert forall|j: int| k < j < s.len() - 1 implies s.drop_last()[j] != c by {
            assert(s.drop_last()[j] == s[j]);
        }
        lemma_last_index_char_at(s.drop_last(), c, k);
    }
}

pub proof fn lemma_last_index_char_none(s: Seq<char>, c: char)
    requires
        forall|j: int| 0 <= j < s.len() ==> s[j] != c,
    ensures
        last_index_char(s, c) == -1,
    decreases s.len(),
{
    if s.len() > 0 {
        lemma_last_index_char_none(s.drop_last(), c);
    }
}

pub proof fn lemma_index_of(s: Seq<char>, sub: Seq<char>)
    ensures
        index_of(s, sub) >= 0 ==> occurs_at(s, sub, index_of(s, sub)),
        forall|j: int|
            0 <= j && (index_of(s, sub) < 0 || j < index_of(s, sub)) ==> !occurs_at(s, sub, j),
    decreases s.len(),
{
    if sub.len() <= s.len() && !(s.subrange(0, sub.len() as int) =~= sub) {
        lemma_index_of(s.drop_first(), sub);
        let r = index_of(s.drop_first(), sub);
        if r >= 0 {
            assert(s.drop_first().subrange(r, r + sub.len()) =~= s.subrange(
                r + 1,
                r + 1 + sub.len(),
            ));
        }
        assert forall|j: int|
            0 <= j && (index_of(s, sub) < 0 || j < index_of(s, sub)) implies !occurs_at(
            s,
            sub,
            j,
        ) by {
            if j > 0 && occurs_at(s, sub, j) {
                assert(s.drop_first().subrange(j - 1, j - 1 + sub.len()) =~= s.subrange(
                    j,
                    j + sub.len(),
                ));
                assert(occurs_at(s.drop_first(), sub, j - 1));
            }
        }
    }
}

pub proof fn lemma_index_of_at(s: Seq<char>, sub: Seq<char>, k: int)
    requires
        occurs_at(s, sub, k),
        forall|j: int| 0 <= j < k ==> !occurs_at(s, sub, j),
    ensures
        index_of(s, sub) == k,
    decreases s.len(),
{
    if k > 0 {
        assert(!occurs_at(s, sub, 0));
        assert(s.drop_first().subrange(k - 1, k - 1 + sub.len()) =~= s.subrange(k, k + sub.len()));
        assert forall|j: int| 0 <= j < k - 1 implies !occurs_at(s.drop_first(), sub, j) by {
            if occurs_at(s.drop_first(), sub, j) {
                assert(s.drop_first().subrange(j, j + sub.len()) =~= s.subrange(
                    j + 1,
                    j + 1 + sub.len(),
                ));
                assert(occurs_at(s, sub, j + 1));
            }
        }
        lemma_index_of_at(s.drop_first(), sub, k - 1);
    }
}

/// An occurrence makes `contains` true.
pub proof fn lemma_contains_at(s: Seq<char>, sub: Seq<char>, i: int)
    requires
        occurs_at(s, sub, i),
    ensures
        contains(s, sub),
{
    lemma_index_of(s, sub);
}

pub proof fn lemma_index_of_none(s: Seq<char>, sub: Seq<char>)
    requires
        forall|j: int| 0 <= j ==> !occurs_at(s, sub, j),
    ensures
        index_of(s, sub) == -1,
    decreases s.len(),
{
    if sub.len() <= s.len() {
        assert(!occurs_at(s, sub, 0));
        assert forall|j: int| 0 <= j implies !occurs_at(s.drop_first(), sub, j) by {
            if occurs_at(s.drop_first(), sub, j) {
                assert(s.drop_first().subrange(j, j + sub.len()) =~= s.subrange(
                    j + 1,
                    j + 1 + sub.len(),
                ));
                assert(occurs_at(s, sub, j + 1));
            }
        }
        lemma_index_of_none(s.drop_first(), sub);
    }
}


pub proof fn lemma_split_step(t: Seq<char>, c: char, k: int)
    requires
        0 <= k < t.len(),
        t[k] == c,
        forall|j: int| 0 <= j < k ==> t[j] != c,
    ensures
        split_char(t, c) == seq![t.take(k)] + split_char(t.skip(k + 1), c),
{
    lemma_index_char_at(t, c, k);
}

pub proof fn lemma_split_last(t: Seq<char>, c: char)
    requires
        forall|j: int| 0 <= j < t.len() ==> t[j] != c,
    ensures
        split_char(t, c) == seq![t],
{
    lemma_index_char_none(t, c);
}

pub proof fn lemma_splitn_step(t: Seq<char>, c: char, k: int, n: nat)
    requires
        n >= 2,
        0 <= k < t.len(),
        t[k] == c,
        forall|j: int| 0 <= j < k ==> t[j] != c,
    ensures
        splitn_char(t, c, n) == seq![t.take(k)] + splitn_char(t.skip(k + 1), c, (n - 1) as nat),
{
    lemma_index_char_at(t, c, k);
}

pub proof fn lemma_splitn_last(t: Seq<char>, c: char, n: nat)
    requires
        n >= 1,
        n == 1 || forall|j: int| 0 <= j < t.len() ==> t[j] != c,
    ensures
        splitn_char(t, c, n) == seq![t],
{
    if n > 1 {
        lemma_index_char_none(t, c);
    }
}

/// A split into at most `n >= 1` pieces has at least one piece.
pub proof fn lemma_splitn_len(s: Seq<char>, c: char, n: nat)
    requires
        n >= 1,
    ensures
        splitn_char(s, c, n).len() >= 1,
{
}

pub proof fn lemma_trim_left(s: Seq<char>, a: int)
    requires
        0 <= a <= s.len(),
        forall|j: int| 0 <= j < a ==> is_space(#[trigger] s[j]),
        a == s.len() || !is_space(s[a]),
    ensures
        trim_left(s) == s.skip(a),
    decreases a,
{
    if a > 0 {
        assert forall|j: int| 0 <= j < a - 1 implies is_space(#[trigger] s.drop_first()[j]) by {
            assert(s.drop_first()[j] == s[j + 1]);
        }
        lemma_trim_left(s.drop_first(), a - 1);
        assert(s.drop_first().skip(a - 1) =~= s.skip(a));
    } else {
        assert(s.skip(0) =~= s);
    }
}

pub proof fn lemma_trim_right(s: Seq<char>, b: int)
    requires
        0 <= b <= s.len(),
        forall|j: int| b <= j < s.len() ==> is_space(#[trigger] s[j]),
        b == 0 || !is_space(s[b - 1]),
    ensures
        trim_right(s) == s.take(b),
    decreases s.len() - b,
{
    if b < s.len() {
        assert forall|j: int| b <= j < s.len() - 1 implies is_space(#[trigger] s.drop_last()[j]) by {
            assert(s.drop_last()[j] == s[j]);
        }
        lemma_trim_right(s.drop_last(), b);
        assert(s.drop_last().take(b) =~= s.take(b));
    } else {
        assert(s.take(b) =~= s);
    }
}

pub proof fn lemma_word_len(s: Seq<char>, k: int)
    requires
        0 <= k <= s.len(),
        forall|j: int| 0 <= j < k ==> !is_space(#[trigger] s[j]),
        k == s.len() || is_space(s[k]),
    ensures
        word_len(s) == k,
    decreases k,
{
    if k > 0 {
        assert forall|j: int| 0 <= j < k - 1 implies !is_space(#[trigger] s.drop_first()[j]) by {
            assert(s.drop_first()[j] == s[j + 1]);
        }
        lemma_word_len(s.drop_first(), k - 1);
    }
}

pub proof fn lemma_digits_value_nonneg(s: Seq<char>)
    requires
        all_digits(s),
    ensures
        digits_value(s) >= 0,
    decreases s.len(),
{
    if s.len() > 0 {
        assert(is_digit(s[s.len() - 1]));
        lemma_digits_value_nonneg(s.drop_last());
    }
}


pub proof fn lemma_digits_monotone(s: Seq<char>, k: int)
    requires
        0 <= k <= s.len(),
        all_digits(s),
    ensures
        digits_value(s.take(k)) <= digits_value(s),
    decreases s.len() - k,
{
    if k < s.len() {
        lemma_digits_monotone(s.drop_last(), k);
        assert(s.drop_last().take(k) =~= s.take(k));
        lemma_digits_value_nonneg(s.drop_last());
        assert(is_digit(s[s.len() - 1]));
    } else {
        assert(s.take(k) =~= s);
    }
}

/// Once a prefix of the digits exceeds the 64-bit range, so does any
/// digit string extending it, and a string with a non-digit is no number
/// at all: either way the literal has no value.
pub proof fn lemma_digits_prefix_bound(body: Seq<char>, k: int)
    requires
        0 < k <= body.len(),
        all_digits(body.take(k)),
        digits_value(body.take(k)) > 9223372036854775808,
    ensures
        !(all_digits(body) && digits_value(body) <= 9223372036854775808),
{
    if all_digits(body) {
        lemma_digits_monotone(body, k);
    }
}

proof fn lemma_digit_char(d: int)
    requires
        0 <= d < 10,
    ensures
        is_digit(digit_char(d)),
        digit_value(digit_char(d)) == d,
{
    assert(digit_char(d) as u32 == 48 + d);
}

/// The decimal text of a natural number is a non-empty run of digits
/// that denotes the number.
pub proof fn lemma_nat_decimal(n: nat)
    ensures
        nat_decimal(n).len() > 0,
        all_digits(nat_decimal(n)),
        digits_value(nat_decimal(n)) == n,
    decreases n,
{
    if n < 10 {
        lemma_digit_char(n as int);
        let s = nat_decimal(n);
        assert(s.drop_last() =~= Seq::<char>::empty());
        assert(digits_value(s.drop_last()) == 0);
        assert(s.last() == digit_char(n as int));
    } else {
        lemma_nat_decimal(n / 10);
        lemma_digit_char((n % 10) as int);
        let s = nat_decimal(n);
        assert(s.drop_last() =~= nat_decimal(n / 10));
        assert(s.last() == digit_char((n % 10) as int));
        assert(digits_value(s) == digits_value(nat_decimal(n / 10)) * 10 + (n % 10));
        assert((n / 10) * 10 + n % 10 == n);
        assert forall|i: int| 0 <= i < s.len() implies is_digit(#[trigger] s[i]) by {
            if i < s.len() - 1 {
                assert(s[i] == nat_decimal(n / 10)[i]);
            }
        }
    }
}

/// Reading back the decimal text of any 64-bit integer gives the
/// integer: `parse_int` undoes `decimal`.
pub proof fn lemma_parse_decimal(n: int)
    requires
        i64::MIN <= n <= i64::MAX,
    ensures
        parse_int(decimal(n)) == Some(n),
{
    if n < 0 {
        let m = (-n) as nat;
        lemma_nat_decimal(m);
        let s = decimal(n);
        assert(s[0] == '-');
        assert(s.drop_first() =~= nat_decimal(m));
    } else {
        lemma_nat_decimal(n as nat);
        let s = decimal(n);
        assert(is_digit(s[0]));
    }
}

// ---------------------------------------------------------------------
// Executable primitives
// ---------------------------------------------------------------------

/// Every occurrence of `p` replaced by `w` (goish `strings::ReplaceAll`
/// with a non-empty pattern).
pub fn replace_all_exec(s: &str, p: &str, w: &str) -> (r: String)
    requires
        p@.len() > 0,
    ensures
        r@ == replace_all(s@, p@, w@),
{
    let mut out = String::new();
    let mut rest = owned(s);
    let plen = char_len(p);
    loop
        invariant
            p@.len() > 0,
            plen == p@.len(),
            out@ + replace_all(rest@, p@, w@) == replace_all(s@, p@, w@),
        decreases rest@.len(),
    {
        match index_of_exec(rest.as_str(), p) {
            None => {
                push_str(&mut out, rest.as_str());
                return out;
            },
            Some(i) => {
                proof {
                    lemma_index_of(rest@, p@);
                }
                let head = substring(rest.as_str(), 0, i);
                let len = char_len(rest.as_str());
                let tail = substring(rest.as_str(), i + plen, len);
                let ghost old_out = out@;
                push_str(&mut out, head.as_str());
                push_str(&mut out, w);
                assert(head@ == rest@.take(i as int));
                assert(tail@ == rest@.skip(i + p@.len()));
                assert(out@ + replace_all(tail@, p@, w@) =~= old_out + replace_all(rest@, p@, w@));
                rest = tail;
            },
        }
    }
}

/// Appends one character to a string with std's `String::push`; the
/// contract takes the documented effect on trust: the text afterwards is
/// the text before with `c` added at the end.
#[verifier::external_body]
pub(crate) fn push_char(s: &mut String, c: char)
    ensures
        final(s)@ == old(s)@.push(c),
{
    s.push(c);
}

/// Appends a string slice.
pub(crate) fn push_str(s: &mut String, t: &str)
    ensures
        final(s)@ == old(s)@ + t@,
{
    s.append(t);
}

/// Upper-cases a string with goish's `strings::ToUpper` (which calls
/// `str::to_uppercase`). The contract only names the result, `upper` of
/// the argument; nothing is stated of what `upper` maps a character to.
/// goish keeps a string's byte length in a `u32`, so the call is only
/// made on text of fewer than 2^28 characters: each character upper-cases
/// to at most three, of at most four bytes each, so the result stays
/// under 2^32 bytes.
#[verifier::external_body]
pub(crate) fn to_upper(s: &str) -> (r: String)
    requires
        s@.len() < 0x1000_0000,
    ensures
        r@ == upper(s@),
{
    goish::strings::ToUpper(s).as_str().to_owned()
}

/// An owned copy of a string slice.
pub fn owned(s: &str) -> (r: String)
    ensures
        r@ == s@,
{
    s.to_owned()
}

/// A copy of a string.
pub fn copy(s: &String) -> (r: String)
    ensures
        r@ == s@,
{
    s.clone()
}

/// The characters of a string slice, in order.
pub fn chars_of(s: &str) -> (v: Vec<char>)
    ensures
        v@ == s@,
{
    let mut v: Vec<char> = Vec::new();
    for c in it: s.chars()
        invariant
            v@ == it.seq().take(it.index() as int),
    {
        v.push(c);
    }
    v
}

/// The string made of the characters `v[from..to]`.
pub fn from_chars(v: &Vec<char>, from: usize, to: usize) -> (r: String)
    requires
        from <= to <= v.len(),
    ensures
        r@ == v@.subrange(from as int, to as int),
{
    let mut r = String::new();
    let mut i = from;
    while i < to
        invariant
            from <= i <= to <= v.len(),
            r@ == v@.subrange(from as int, i as int),
        decreases to - i,
    {
        push_char(&mut r, v[i]);
        i += 1;
        assert(r@ =~= v@.subrange(from as int, i as int));
    }
    r
}

/// String equality, character by character.
pub fn str_eq(a: &str, b: &str) -> (r: bool)
    ensures
        r == (a@ == b@),
{
    let va = chars_of(a);
    let vb = chars_of(b);
    if va.len() != vb.len() {
        return false;
    }
    let mut i: usize = 0;
    while i < va.len()
        invariant
            va@ == a@,
            vb@ == b@,
            va.len() == vb.len(),
            i <= va.len(),
            forall|j: int| 0 <= j < i ==> va@[j] == vb@[j],
        decreases va.len() - i,
    {
        if va[i] != vb[i] {
            return false;
        }
        i += 1;
    }
    assert(va@ =~= vb@);
    true
}

pub fn is_empty(s: &str) -> (r: bool)
    ensures
        r == (s@.len() == 0),
{
    s.is_empty()
}

/// `Some(i)` for a position `i >= 0`, `None` for -1.
pub open spec fn found(i: int) -> Option<usize> {
    if i < 0 {
        None
    } else {
        Some(i as usize)
    }
}

/// Position of the first `c` in `s`.
pub fn index_char_exec(s: &str, c: char) -> (r: Option<usize>)
    ensures
        r == found(index_char(s@, c)),
        r is Some ==> r.unwrap() as int == index_char(s@, c),
{
    let v = chars_of(s);
    let mut i: usize = 0;
    while i < v.len()
        invariant
            v@ == s@,
            i <= v.len(),
            forall|j: int| 0 <= j < i ==> v@[j] != c,
        decreases v.len() - i,
    {
        if v[i] == c {
            proof {
                lemma_index_char_at(s@, c, i as int);
            }
            return Some(i);
        }
        i += 1;
    }
    proof {
        lemma_index_char_none(s@, c);
    }
    None
}

/// Position of the last `c` in `s`.
pub fn last_index_char_exec(s: &str, c: char) -> (r: Option<usize>)
    ensures
        r == found(last_index_char(s@, c)),
        r is Some ==> r.unwrap() as int == last_index_char(s@, c),
{
    let v = chars_of(s);
    let mut i: usize = v.len();
    while i > 0
        invariant
            v@ == s@,
            i <= v.len(),
            forall|j: int| i <= j < v.len() ==> v@[j] != c,
        decreases i,
    {
        if v[i - 1] == c {
            proof {
                lemma_last_index_char_at(s@, c, i - 1);
            }
            return Some(i - 1);
        }
        i -= 1;
    }
    proof {
        lemma_last_index_char_none(s@, c);
    }
    None
}

fn matches_at(v: &Vec<char>, w: &Vec<char>, i: usize) -> (r: bool)
    requires
        i + w.len() <= v.len(),
    ensures
        r == (v@.subrange(i as int, i + w.len()) =~= w@),
{
    let mut k: usize = 0;
    while k < w.len()
        invariant
            i + w.len() <= v.len(),
            k <= w.len(),
            forall|j: int| 0 <= j < k ==> v@[i + j] == w@[j],
        decreases w.len() - k,
    {
        if v[i + k] != w[k] {
            assert(v@.subrange(i as int, i + w.len())[k as int] != w@[k as int]);
            return false;
        }
        k += 1;
    }
    true
}

/// Position of the first occurrence of `sub` in `s`.
pub fn index_of_exec(s: &str, sub: &str) -> (r: Option<usize>)
    ensures
        r == found(index_of(s@, sub@)),
        r is Some ==> r.unwrap() as int == index_of(s@, sub@),
{
    let v = chars_of(s);
    let w = chars_of(sub);
    if w.len() > v.len() {
        proof {
            lemma_index_of_none(s@, sub@);
        }
        return None;
    }
    let mut i: usize = 0;
    while i <= v.len() - w.len()
        invariant
            v@ == s@,
            w@ == sub@,
            w.len() <= v.len(),
            i <= v.len() - w.len() + 1,
            forall|j: int| 0 <= j < i ==> !occurs_at(s@, sub@, j),
        decreases v.len() - i,
    {
        if matches_at(&v, &w, i) {
            proof {
                lemma_index_of_at(s@, sub@, i as int);
            }
            return Some(i);
        }
        i += 1;
    }
    proof {
        lemma_index_of_none(s@, sub@);
    }
    None
}

pub fn contains_exec(s: &str, sub: &str) -> (r: bool)
    ensures
        r == contains(s@, sub@),
{
    index_of_exec(s, sub).is_some()
}

pub fn has_prefix_exec(s: &str, p: &str) -> (r: bool)
    ensures
        r == has_prefix(s@, p@),
{
    let v = chars_of(s);
    let w = chars_of(p);
    if w.len() > v.len() {
        return false;
    }
    matches_at(&v, &w, 0)
}

pub fn has_suffix_exec(s: &str, p: &str) -> (r: bool)
    ensures
        r == has_suffix(s@, p@),
{
    let v = chars_of(s);
    let w = chars_of(p);
    if w.len() > v.len() {
        return false;
    }
    matches_at(&v, &w, v.len() - w.len())
}

pub fn trim_prefix_exec(s: &str, p: &str) -> (r: String)
    ensures
        r@ == trim_prefix(s@, p@),
{
    let v = chars_of(s);
    let w = chars_of(p);
    if w.len() <= v.len() && matches_at(&v, &w, 0) {
        from_chars(&v, w.len(), v.len())
    } else {
        owned(s)
    }
}

/// The characters `s[from..to]`, counted in characters.
pub fn substring(s: &str, from: usize, to: usize) -> (r: String)
    requires
        from <= to <= s@.len(),
    ensures
        r@ == s@.subrange(from as int, to as int),
{
    let v = chars_of(s);
    from_chars(&v, from, to)
}

pub fn char_len(s: &str) -> (r: usize)
    ensures
        r == s@.len(),
{
    let v = chars_of(s);
    v.len()
}


/// The pieces of `s` between the occurrences of `c` (goish `strings::Split`
/// with a one-character separator).
pub fn split_char_exec(s: &str, c: char) -> (r: Vec<String>)
    ensures
        r.deep_view() == split_char(s@, c),
{
    let v = chars_of(s);
    let mut out: Vec<String> = Vec::new();
    let mut start: usize = 0;
    let mut i: usize = 0;
    assert(s@.skip(0) =~= s@);
    while i < v.len()
        invariant
            v@ == s@,
            start <= i <= v.len(),
            forall|j: int| start <= j < i ==> v@[j] != c,
            split_char(s@, c) == out.deep_view() + split_char(s@.skip(start as int), c),
        decreases v.len() - i,
    {
        if v[i] == c {
            let piece = from_chars(&v, start, i);
            proof {
                let t = s@.skip(start as int);
                assert forall|j: int| 0 <= j < i - start implies t[j] != c by {
                    assert(t[j] == s@[start + j]);
                }
                lemma_split_step(t, c, i - start);
                assert(t.take(i - start) =~= piece@);
                assert(t.skip(i - start + 1) =~= s@.skip(i + 1));
            }
            let ghost before = out.deep_view();
            out.push(piece);
            assert(out.deep_view() =~= before.push(piece@));
            start = i + 1;
        }
        i += 1;
    }
    let piece = from_chars(&v, start, v.len());
    proof {
        let t = s@.skip(start as int);
        assert forall|j: int| 0 <= j < t.len() implies t[j] != c by {
            assert(t[j] == s@[start + j]);
        }
        lemma_split_last(t, c);
        assert(t =~= piece@);
    }
    let ghost before = out.deep_view();
    out.push(piece);
    assert(out.deep_view() =~= before.push(piece@));
    out
}

/// At most `n` pieces of `s`, cut at the first `n - 1` occurrences of `c`
/// (goish `strings::SplitN` with a one-character separator and `n >= 1`).
pub fn splitn_char_exec(s: &str, c: char, n: usize) -> (r: Vec<String>)
    requires
        n >= 1,
    ensures
        r.deep_view() == splitn_char(s@, c, n as nat),
{
    let v = chars_of(s);
    let mut out: Vec<String> = Vec::new();
    let mut start: usize = 0;
    let mut i: usize = 0;
    assert(s@.skip(0) =~= s@);
    while i < v.len() && out.len() + 1 < n
        invariant
            v@ == s@,
            start <= i <= v.len(),
            out.len() < n,
            forall|j: int| start <= j < i ==> v@[j] != c,
            splitn_char(s@, c, n as nat) == out.deep_view() + splitn_char(
                s@.skip(start as int),
                c,
                (n - out.len()) as nat,
            ),
        decreases v.len() - i,
    {
        if v[i] == c {
            let piece = from_chars(&v, start, i);
            proof {
                let t = s@.skip(start as int);
                assert forall|j: int| 0 <= j < i - start implies t[j] != c by {
                    assert(t[j] == s@[start + j]);
                }
                lemma_splitn_step(t, c, i - start, (n - out.len()) as nat);
                assert(t.take(i - start) =~= piece@);
                assert(t.skip(i - start + 1) =~= s@.skip(i + 1));
            }
            let ghost before = out.deep_view();
            out.push(piece);
            assert(out.deep_view() =~= before.push(piece@));
            start = i + 1;
        }
        i += 1;
    }
    let piece = from_chars(&v, start, v.len());
    proof {
        let t = s@.skip(start as int);
        if out.len() + 1 < n {
            assert forall|j: int| 0 <= j < t.len() implies t[j] != c by {
                assert(t[j] == s@[start + j]);
            }
        }
        lemma_splitn_last(t, c, (n - out.len()) as nat);
        assert(t =~= piece@);
    }
    let ghost before = out.deep_view();
    out.push(piece);
    assert(out.deep_view() =~= before.push(piece@));
    out
}

/// `s` with every `c` replaced by `with`.
pub fn replace_char_exec(s: &str, c: char, with: &str) -> (r: String)
    ensures
        r@ == replace_char(s@, c, with@),
{
    let v = chars_of(s);
    let mut r = String::new();
    let mut i: usize = 0;
    assert(s@.skip(0) =~= s@);
    while i < v.len()
        invariant
            v@ == s@,
            i <= v.len(),
            replace_char(s@, c, with@) == r@ + replace_char(s@.skip(i as int), c, with@),
        decreases v.len() - i,
    {
        proof {
            let t = s@.skip(i as int);
            assert(t.drop_first() =~= s@.skip(i + 1));
            assert(t[0] == v@[i as int]);
        }
        if v[i] == c {
            push_str(&mut r, with);
        } else {
            push_char(&mut r, v[i]);
        }
        assert(r@ + replace_char(s@.skip(i + 1), c, with@) =~= replace_char(s@, c, with@));
        i += 1;
    }
    assert(replace_char(s@.skip(i as int), c, with@) =~= seq![]);
    assert(r@ + seq![] =~= r@);
    r
}

/// The strings of `parts` joined with `sep` between them.
pub fn join_exec(parts: &Vec<String>, sep: &str) -> (r: String)
    ensures
        r@ == join(parts.deep_view(), sep@),
{
    let mut r = String::new();
    let mut i: usize = 0;
    assert(parts.deep_view().take(0) =~= seq![]);
    while i < parts.len()
        invariant
            i <= parts.len(),
            r@ == join(parts.deep_view().take(i as int), sep@),
        decreases parts.len() - i,
    {
        let ghost pv = parts.deep_view();
        if i > 0 {
            push_str(&mut r, sep);
        }
        push_str(&mut r, parts[i].as_str());
        proof {
            let pre = pv.take(i + 1);
            assert(pre.drop_last() =~= pv.take(i as int));
            assert(pre.last() == parts[i as int]@);
            if i == 0 {
                assert(pre.len() == 1);
                assert(r@ =~= pre[0]);
            }
        }
        i += 1;
    }
    assert(parts.deep_view().take(parts.len() as int) =~= parts.deep_view());
    r
}

pub fn is_space_exec(c: char) -> (r: bool)
    ensures
        r == is_space(c),
{
    let u = c as u32;
    (9 <= u && u <= 13) || u == 32 || u == 0x85 || u == 0xa0 || u == 0x1680 || (0x2000 <= u
        && u <= 0x200a) || u == 0x2028 || u == 0x2029 || u == 0x202f || u == 0x205f || u
        == 0x3000
}

/// `s` without leading and trailing white space (goish `strings::TrimSpace`).
pub fn trim_space_exec(s: &str) -> (r: String)
    ensures
        r@ == trim_space(s@),
{
    let v = chars_of(s);
    let mut a: usize = 0;
    while a < v.len() && is_space_exec(v[a])
        invariant
            v@ == s@,
            a <= v.len(),
            forall|j: int| 0 <= j < a ==> is_space(#[trigger] v@[j]),
        decreases v.len() - a,
    {
        a += 1;
    }
    let mut b: usize = v.len();
    while b > a && is_space_exec(v[b - 1])
        invariant
            v@ == s@,
            a <= b <= v.len(),
            forall|j: int| b <= j < v.len() ==> is_space(#[trigger] v@[j]),
        decreases b,
    {
        b -= 1;
    }
    proof {
        lemma_trim_left(s@, a as int);
        let t = s@.skip(a as int);
        assert forall|j: int| b - a <= j < t.len() implies is_space(#[trigger] t[j]) by {
            assert(t[j] == s@[a + j]);
        }
        lemma_trim_right(t, b - a);
    }
    let r = from_chars(&v, a, b);
    assert(r@ =~= s@.skip(a as int).take(b - a));
    r
}

/// The white-space separated words of `s` (goish `strings::Fields`).
pub fn fields_exec(s: &str) -> (r: Vec<String>)
    ensures
        r.deep_view() == fields(s@),
{
    let v = chars_of(s);
    let mut out: Vec<String> = Vec::new();
    let mut i: usize = 0;
    assert(s@.skip(0) =~= s@);
    while i < v.len()
        invariant
            v@ == s@,
            i <= v.len(),
            fields(s@) == out.deep_view() + fields(s@.skip(i as int)),
        decreases v.len() - i,
    {
        let ghost t = s@.skip(i as int);
        if is_space_exec(v[i]) {
            assert(t.drop_first() =~= s@.skip(i + 1));
            i += 1;
        } else {
            let mut j = i;
            while j < v.len() && !is_space_exec(v[j])
                invariant
                    v@ == s@,
                    i <= j <= v.len(),
                    forall|k: int| i <= k < j ==> !is_space(#[trigger] v@[k]),
                decreases v.len() - j,
            {
                j += 1;
            }
            let word = from_chars(&v, i, j);
            proof {
                assert forall|k: int| 0 <= k < j - i implies !is_space(#[trigger] t[k]) by {
                    assert(t[k] == v@[i + k]);
                }
                if j < v.len() {
                    assert(t[j - i] == v@[j as int]);
                }
                lemma_word_len(t, j - i);
                assert(t.take(j - i) =~= word@);
                assert(t.skip(j - i) =~= s@.skip(j as int));
            }
            let ghost before = out.deep_view();
            out.push(word);
            assert(out.deep_view() =~= before.push(word@));
            i = j;
        }
    }
    out
}

/// The value of a decimal integer literal (goish `strconv::Atoi`);
/// `None` where Atoi reports an error.
pub fn parse_int_exec(s: &str) -> (r: Option<i64>)
    ensures
        r == (match parse_int(s@) {
            Some(v) => Some(v as i64),
            None => None,
        }),
{
    let v = chars_of(s);
    if v.len() == 0 {
        return None;
    }
    let neg = v[0] == '-';
    let start: usize = if v[0] == '-' || v[0] == '+' {
        1
    } else {
        0
    };
    let ghost body = if start == 1 {
        s@.drop_first()
    } else {
        s@
    };
    assert(body =~= s@.skip(start as int));
    if start >= v.len() {
        return None;
    }
    let mut acc: u64 = 0;
    let mut i = start;
    while i < v.len()
        invariant
            v@ == s@,
            v.len() > 0,
            start == (if s@[0] == '-' || s@[0] == '+' {
                1int
            } else {
                0int
            }),
            neg == (s@[0] == '-'),
            body =~= s@.skip(start as int),
            start <= i <= v.len(),
            all_digits(body.take(i - start)),
            acc == digits_value(body.take(i - start)),
            acc <= 9223372036854775808,
        decreases v.len() - i,
    {
        let c = v[i];
        assert(body[i - start] == c);
        if c < '0' || c > '9' {
            assert(!is_digit(body[i - start]));
            assert(!all_digits(body));
            return None;
        }
        let d = (c as u32 - '0' as u32) as u64;
        proof {
            let pre = body.take(i - start + 1);
            assert(pre.drop_last() =~= body.take(i - start));
            assert(pre.last() == c);
            assert(digit_value(c) == d);
            assert forall|j: int| 0 <= j < pre.len() implies is_digit(#[trigger] pre[j]) by {
                if j < pre.len() - 1 {
                    assert(pre[j] == body.take(i - start)[j]);
                }
            }
            assert(digits_value(pre) == digits_value(body.take(i - start)) * 10 + digit_value(c));
        }
        if acc > 922337203685477580 || (acc == 922337203685477580 && d > 8) {
            proof {
                let pre = body.take(i - start + 1);
                assert(digits_value(pre) == digits_value(body.take(i - start)) * 10 + digit_value(
                    c,
                ));
                assert(all_digits(pre));
                lemma_digits_prefix_bound(body, i - start + 1);
                assert(s@.drop_first() =~= s@.skip(1));
                assert(s@.skip(0) =~= s@);
            }
            return None;
        }
        acc = acc * 10 + d;
        i += 1;
    }
    assert(body.take(i - start) =~= body);
    if neg {
        if acc == 9223372036854775808 {
            Some(i64::MIN)
        } else {
            Some(-(acc as i64))
        }
    } else {
        if acc == 9223372036854775808 {
            None
        } else {
            Some(acc as i64)
        }
    }
}

/// Character of one decimal digit.
pub(crate) fn digit_char_exec(d: u64) -> (c: char)
    requires
        d < 10,
    ensures
        c == digit_char(d as int),
{
    match d {
        0 => '0',
        1 => '1',
        2 => '2',
        3 => '3',
        4 => '4',
        5 => '5',
        6 => '6',
        7 => '7',
        8 => '8',
        _ => '9',
    }
}

/// Decimal digits of a natural number.
pub fn nat_to_string(n: u64) -> (r: String)
    ensures
        r@ == nat_decimal(n as nat),
{
    let mut acc: Vec<char> = Vec::new();
    let mut m = n;
    while m >= 10
        invariant
            nat_decimal(n as nat) == nat_decimal(m as nat) + acc@,
        decreases m,
    {
        let d = m % 10;
        let ch = digit_char_exec(d);
        assert(nat_decimal(m as nat) == nat_decimal((m / 10) as nat).push(ch));
        acc.insert(0, ch);
        assert(nat_decimal(n as nat) =~= nat_decimal((m / 10) as nat) + acc@);
        m = m / 10;
    }
    let ch = digit_char_exec(m);
    acc.insert(0, ch);
    assert(nat_decimal(n as nat) =~= acc@);
    from_chars(&acc, 0, acc.len())
}

/// Decimal representation of an integer (goish `%d`, `strconv::Itoa`).
pub fn int_to_string(n: i64) -> (r: String)
    ensures
        r@ == decimal(n as int),
{
    if n < 0 {
        let m: u64 = if n == i64::MIN {
            9223372036854775808
        } else {
            (-n) as u64
        };
        let digits = nat_to_string(m);
        let mut r = String::new();
        push_char(&mut r, '-');
        push_str(&mut r, digits.as_str());
        assert(r@ =~= seq!['-'] + nat_decimal((-n) as nat));
        r
    } else {
        nat_to_string(n as u64)
    }
}

} // verus!
