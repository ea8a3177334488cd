//! Shared text machinery: collecting the characters of a string, decimal
//! formatting and parsing with exact contracts, splitting on a separator, and
//! trimming. The few std calls the library trusts are wrapped here.
use vstd::prelude::*;

verus! {

use vstd::string::StrSliceExecFns;

/// Relies on `String::push`: appends the given character to the string.
#[verifier::external_body]
pub(crate) fn push_char(s: &mut String, c: char)
    ensures
        final(s)@ == old(s)@.push(c),
{
    s.push(c);
}

/// The characters of a string as a vector, in order.
pub(crate) fn str_to_chars(s: &str) -> (v: Vec<char>)
    ensures
        v@ == s@,
{
    let n = s.unicode_len();
    let mut v: Vec<char> = Vec::new();
    let mut i: usize = 0;
    while i < n
        invariant
            n == s@.len(),
            i <= n,
            v@ == s@.subrange(0, i as int),
        decreases n - i,
    {
        let c = s.get_char(i);
        v.push(c);
        i = i + 1;
        proof {
            assert(v@ =~= s@.subrange(0, i as int));
        }
    }
    proof {
        assert(v@ =~= s@);
    }
    v
}

/// A string holding exactly the given characters, in order.
pub(crate) fn chars_to_string(v: &Vec<char>) -> (s: String)
    ensures
        s@ == v@,
{
    let mut s = String::new();
    let mut i: usize = 0;
    while i < v.len()
        invariant
            i <= v@.len(),
            s@ == v@.subrange(0, i as int),
        decreases v@.len() - i,
    {
        push_char(&mut s, v[i]);
        i = i + 1;
        proof {
            assert(s@ =~= v@.subrange(0, i as int));
        }
    }
    proof {
        assert(s@ =~= v@);
    }
    s
}

/// Whether the characters of `v` spell exactly the string `lit`.
pub(crate) fn chars_eq_str(v: &Vec<char>, lit: &str) -> (r: bool)
    ensures
        r == (v@ == lit@),
{
    let n = lit.unicode_len();
    if v.len() != n {
        proof {
            assert(v@ != lit@) by {
                assert(v@.len() != lit@.len());
            }
        }
        return false;
    }
    let mut i: usize = 0;
    while i < n
        invariant
            n == lit@.len(),
            v@.len() == n,
            i <= n,
            forall|j: int| 0 <= j < i ==> v@[j] == lit@[j],
        decreases n - i,
    {
        if v[i] != lit.get_char(i) {
            return false;
        }
        i = i + 1;
    }
    proof {
        assert(v@ =~= lit@);
    }
    true
}

/// Whether two strings hold the same characters.
pub(crate) fn str_eq(a: &str, b: &str) -> (r: bool)
    ensures
        r == (a@ == b@),
{
    let va = str_to_chars(a);
    chars_eq_str(&va, b)
}

pub open spec fn is_digit_char(c: char) -> bool {
    '0' <= c && c <= '9'
}

pub open spec fn digit_val(c: char) -> int {
    c as int - '0' as int
}

pub open spec fn all_digits(s: Seq<char>) -> bool {
    forall|i: int| 0 <= i < s.len() ==> is_digit_char(#[trigger] s[i])
}

/// The value of a sequence of decimal digits, most significant first.
pub open spec fn digits_val(s: Seq<char>) -> int
    decreases s.len(),
{
    if s.len() == 0 {
        0
    } else {
        digits_val(s.drop_last()) * 10 + digit_val(s.last())
    }
}

pub proof fn lemma_digits_val_nonneg(s: Seq<char>)
    requires
        all_digits(s),
    ensures
        digits_val(s) >= 0,
    decreases s.len(),
{
    if s.len() > 0 {
        assert(all_digits(s.drop_last()));
        lemma_digits_val_nonneg(s.drop_last());
    }
}

/// A longer digit prefix never has a smaller value.
pub proof fn lemma_digits_val_prefix_le(s: Seq<char>, i: int)
    requires
        all_digits(s),
        0 <= i <= s.len(),
    ensures
        digits_val(s.subrange(0, i)) <= digits_val(s),
    decreases s.len() - i,
{
    if i < s.len() {
        let t = s.subrange(0, i + 1);
        assert(t.drop_last() =~= s.subrange(0, i));
        assert(all_digits(s.subrange(0, i)));
        lemma_digits_val_nonneg(s.subrange(0, i));
        assert(digits_val(t) == digits_val(s.subrange(0, i)) * 10 + digit_val(s[i]));
        assert(digits_val(s.subrange(0, i)) * 10 >= digits_val(s.subrange(0, i))) by (nonlinear_arith)
            requires digits_val(s.subrange(0, i)) >= 0;
        lemma_digits_val_prefix_le(s, i + 1);
        assert(s.subrange(0, s.len() as int) =~= s);
    } else {
        assert(s.subrange(0, i) =~= s);
    }
}

pub open spec fn digit_char(d: int) -> char
    recommends
        0 <= d < 10,
{
    ((d + 48) as u8) as char
}

/// The decimal spelling of a non-negative integer, no sign, no leading zeros.
pub open spec fn dec_str(n: int) -> Seq<char>
    recommends
        n >= 0,
    decreases n,
{
    if n < 10 {
        seq![digit_char(n)]
    } else {
        dec_str(n / 10).push(digit_char(n % 10))
    }
}

/// The decimal spelling of an integer, with a leading minus sign if negative.
pub open spec fn int_str(n: int) -> Seq<char> {
    if n < 0 {
        seq!['-'] + dec_str(-n)
    } else {
        dec_str(n)
    }
}

fn digit_of(d: u64) -> (c: char)
    requires
        d < 10,
    ensures
        c == digit_char(d as int),
{
    ((d as u8) + 48) as char
}

pub(crate) fn u64_to_string(n: u64) -> (s: String)
    ensures
        s@ == dec_str(n as int),
    decreases n,
{
    if n < 10 {
        let mut s = String::new();
        push_char(&mut s, digit_of(n));
        proof {
            assert(s@ =~= dec_str(n as int));
        }
        s
    } else {
        let mut s = u64_to_string(n / 10);
        push_char(&mut s, digit_of(n % 10));
        s
    }
}

pub(crate) fn i64_to_string(n: i64) -> (s: String)
    ensures
        s@ == int_str(n as int),
{
    if n >= 0 {
        u64_to_string(n as u64)
    } else {
        let m: u64 = (-(n as i128)) as u64;
        let mut s = String::new();
        push_char(&mut s, '-');
        let d = u64_to_string(m);
        let v = str_to_chars(d.as_str());
        let mut i: usize = 0;
        while i < v.len()
            invariant
                i <= v@.len(),
                v@ == dec_str(m as int),
                s@ == seq!['-'] + v@.subrange(0, i as int),
            decreases v@.len() - i,
        {
            push_char(&mut s, v[i]);
            i = i + 1;
            proof {
                assert(s@ =~= seq!['-'] + v@.subrange(0, i as int));
            }
        }
        proof {
            assert(v@.subrange(0, v@.len() as int) =~= v@);
            assert(m as int == -(n as int));
        }
        s
    }
}

pub(crate) fn i32_to_string(n: i32) -> (s: String)
    ensures
        s@ == int_str(n as int),
{
    i64_to_string(n as i64)
}

/// Whether a string is an integer literal as `i32` reads one: an optional
/// sign, then one or more decimal digits, with the value in range.
pub open spec fn i32_str_ok(s: Seq<char>) -> bool {
    let body = if s.len() > 0 && (s[0] == '+' || s[0] == '-') {
        s.drop_first()
    } else {
        s
    };
    &&& body.len() > 0
    &&& all_digits(body)
    &&& if s.len() > 0 && s[0] == '-' {
        digits_val(body) <= 2147483648
    } else {
        digits_val(body) <= 2147483647
    }
}

/// The value of such a literal.
pub open spec fn i32_str_val(s: Seq<char>) -> int {
    let body = if s.len() > 0 && (s[0] == '+' || s[0] == '-') {
        s.drop_first()
    } else {
        s
    };
    if s.len() > 0 && s[0] == '-' {
        -digits_val(body)
    } else {
        digits_val(body)
    }
}

/// Parses a decimal integer exactly as `i32::from_str` does: an optional
/// `+` or `-`, then one or more ASCII digits, value within `i32` range.
#[verifier::rlimit(50)]
pub(crate) fn parse_i32_chars(v: &Vec<char>) -> (r: Result<i32, ()>)
    ensures
        r is Ok <==> i32_str_ok(v@),
        r matches Ok(x) ==> x as int == i32_str_val(v@),
{
    let ghost s = v@;
    let negative: bool = v.len() > 0 && v[0] == '-';
    let start: usize = if v.len() > 0 && (v[0] == '+' || v[0] == '-') {
        1
    } else {
        0
    };
    let ghost body = if s.len() > 0 && (s[0] == '+' || s[0] == '-') {
        s.drop_first()
    } else {
        s
    };
    proof {
        assert(body =~= s.subrange(start as int, s.len() as int));
        assert(body == s.subrange(start as int, s.len() as int));
    }
    if v.len() == start {
        return Err(());
    }
    let mut acc: u64 = 0;
    let mut i: usize = start;
    while i < v.len()
        invariant
            start <= i <= v@.len(),
            start < v@.len(),
            body == s.subrange(start as int, s.len() as int),
            body == (if s.len() > 0 && (s[0] == '+' || s[0] == '-') {
                s.drop_first()
            } else {
                s
            }),
            s == v@,
            start == 1 ==> s.len() > 0 && (s[0] == '+' || s[0] == '-'),
            start == 0 ==> !(s.len() > 0 && (s[0] == '+' || s[0] == '-')),
            all_digits(s.subrange(start as int, i as int)),
            acc == digits_val(s.subrange(start as int, i as int)),
            acc <= 2147483648,
        decreases v@.len() - i,
    {
        let c = v[i];
        if !('0' <= c && c <= '9') {
            proof {
                assert(body[i - start] == c);
                assert(!all_digits(body));
            }
            return Err(());
        }
        let d: u64 = (c as u32 as u64) - 48;
        proof {
            assert(s.subrange(start as int, (i + 1) as int).drop_last() =~= s.subrange(
                start as int,
                i as int,
            ));
            assert(d == digit_val(c));
        }
        let next: u64 = acc * 10 + d;
        let ghost prefix = s.subrange(start as int, (i + 1) as int);
        proof {
            assert(all_digits(prefix));
            assert(next == digits_val(prefix));
        }
        if next > 2147483648 {
            proof {
                if i32_str_ok(s) {
                    assert(all_digits(body));
                    assert(prefix =~= body.subrange(0, (i + 1 - start) as int));
                    lemma_digits_val_prefix_le(body, (i + 1 - start) as int);
                    assert(digits_val(prefix) <= digits_val(body));
                    assert(false);
                }
            }
            return Err(());
        }
        acc = next;
        i = i + 1;
    }
    proof {
        assert(s.subrange(start as int, i as int) =~= body);
    }
    if negative {
        let x: i64 = -(acc as i64);
        Ok(x as i32)
    } else {
        if acc > 2147483647 {
            return Err(());
        }
        Ok(acc as i32)
    }
}

/// The index of the first occurrence of `sep`, or the length if absent.
pub open spec fn find_char(s: Seq<char>, sep: char) -> nat
    decreases s.len(),
{
    if s.len() == 0 {
        0
    } else if s[0] == sep {
        0
    } else {
        1 + find_char(s.drop_first(), sep)
    }
}

pub proof fn lemma_find_char(s: Seq<char>, sep: char)
    ensures
        0 <= find_char(s, sep) <= s.len(),
        forall|j: int| 0 <= j < find_char(s, sep) ==> s[j] != sep,
        find_char(s, sep) < s.len() ==> s[find_char(s, sep) as int] == sep,
    decreases s.len(),
{
    if s.len() > 0 && s[0] != sep {
        lemma_find_char(s.drop_first(), sep);
        assert forall|j: int| 0 <= j < find_char(s, sep) implies s[j] != sep by {
            if j > 0 {
                assert(s.drop_first()[j - 1] == s[j]);
            }
        }
    }
}

/// The pieces of `s` between occurrences of `sep`, in order; `sep` itself
/// appears in no piece, and splitting the empty string gives one empty piece.
pub open spec fn split_seq(s: Seq<char>, sep: char) -> Seq<Seq<char>>
    decreases s.len(),
{
    let i = find_char(s, sep) as int;
    if i >= s.len() {
        seq![s]
    } else {
        seq![s.subrange(0, i)] + split_seq(s.subrange(i + 1, s.len() as int), sep)
    }
}

/// Splits on a separator character; the pieces, in order.
pub(crate) fn split_char(v: &Vec<char>, sep: char) -> (parts: Vec<Vec<char>>)
    ensures
        parts@.len() == split_seq(v@, sep).len(),
        forall|i: int|
            0 <= i < parts@.len() ==> #[trigger] parts@[i]@ == split_seq(v@, sep)[i],
{
    let mut parts: Vec<Vec<char>> = Vec::new();
    let mut p: usize = 0;
    let ghost whole = split_seq(v@, sep);
    proof {
        assert(v@.subrange(0, v@.len() as int) =~= v@);
        assert(parts@.map_values(|x: Vec<char>| x@) =~= Seq::<Seq<char>>::empty());
    }
    loop
        invariant
            p <= v@.len(),
            whole == split_seq(v@, sep),
            whole =~= parts@.map_values(|x: Vec<char>| x@) + split_seq(
                v@.subrange(p as int, v@.len() as int),
                sep,
            ),
            p > 0 ==> v@[p - 1] == sep,
            p == 0 ==> parts@.len() == 0,
        decreases v@.len() - p + 1,
    {
        let ghost rest = v@.subrange(p as int, v@.len() as int);
        proof {
            lemma_find_char(rest, sep);
        }
        // scan for the next separator
        let mut q: usize = p;
        while q < v.len() && v[q] != sep
            invariant
                p <= q <= v@.len(),
                rest == v@.subrange(p as int, v@.len() as int),
                forall|j: int| p <= j < q ==> v@[j] != sep,
            decreases v@.len() - q,
        {
            q = q + 1;
        }
        proof {
            if q < v@.len() {
                assert(rest[q - p] == sep);
                assert(forall|j: int| 0 <= j < q - p ==> rest[j] != sep);
                assert(find_char(rest, sep) == q - p) by {
                    lemma_find_char(rest, sep);
                    if find_char(rest, sep) < q - p {
                        assert(rest[find_char(rest, sep) as int] != sep);
                    }
                }
            } else {
                assert(forall|j: int| 0 <= j < rest.len() ==> rest[j] != sep);
                assert(find_char(rest, sep) == rest.len()) by {
                    lemma_find_char(rest, sep);
                    if find_char(rest, sep) < rest.len() {
                        assert(rest[find_char(rest, sep) as int] == sep);
                    }
                }
            }
        }
        // copy the piece
        let mut piece: Vec<char> = Vec::new();
        let mut k: usize = p;
        while k < q
            invariant
                p <= k <= q <= v@.len(),
                piece@ == v@.subrange(p as int, k as int),
            decreases q - k,
        {
            piece.push(v[k]);
            k = k + 1;
            proof {
                assert(piece@ =~= v@.subrange(p as int, k as int));
            }
        }
        proof {
            assert(piece@ =~= rest.subrange(0, (q - p) as int));
        }
        parts.push(piece);
        if q == v.len() {
            proof {
                assert(split_seq(rest, sep) =~= seq![rest]);
                assert(rest =~= piece@);
                assert(whole =~= parts@.map_values(|x: Vec<char>| x@));
                assert(forall|i: int|
                    0 <= i < parts@.len() ==> #[trigger] parts@[i]@ == whole[i]);
            }
            return parts;
        }
        proof {
            assert(rest.subrange((q - p + 1) as int, rest.len() as int) =~= v@.subrange(
                (q + 1) as int,
                v@.len() as int,
            ));
            assert(split_seq(rest, sep) =~= seq![piece@] + split_seq(
                v@.subrange((q + 1) as int, v@.len() as int),
                sep,
            ));
            assert(whole =~= parts@.map_values(|x: Vec<char>| x@) + split_seq(
                v@.subrange((q + 1) as int, v@.len() as int),
                sep,
            ));
        }
        p = q + 1;
    }
}


// ---------------------------------------------------------------------------
// Character classes and case folding the library takes from std.
// ---------------------------------------------------------------------------

/// What `char::is_alphanumeric` answers for a character.
pub uninterp spec fn is_alnum(c: char) -> bool;

/// Relies on `char::is_alphanumeric`: whether the character is alphanumeric;
/// the answer depends on the character alone.
#[verifier::external_body]
pub(crate) fn is_alphanumeric_char(c: char) -> (r: bool)
    ensures
        r == is_alnum(c),
{
    c.is_alphanumeric()
}

/// What `char::is_whitespace` answers for a character.
pub uninterp spec fn is_white(c: char) -> bool;

/// Relies on `char::is_whitespace`: whether the character is whitespace;
/// the answer depends on the character alone.
#[verifier::external_body]
pub(crate) fn is_whitespace_char(c: char) -> (r: bool)
    ensures
        r == is_white(c),
{
    c.is_whitespace()
}

/// What `str::to_lowercase` returns for a string.
pub uninterp spec fn lower_of(s: Seq<char>) -> Seq<char>;

/// Relies on `str::to_lowercase`: the lowercase form of the string; the
/// result depends on the characters alone, and an empty string stays empty.
#[verifier::external_body]
pub(crate) fn lowercase(s: &str) -> (r: String)
    ensures
        r@ == lower_of(s@),
        s@.len() == 0 ==> r@.len() == 0,
{
    s.to_lowercase()
}

/// A string with leading whitespace dropped.
pub open spec fn trim_front(s: Seq<char>) -> Seq<char>
    decreases s.len(),
{
    if s.len() > 0 && is_white(s[0]) {
        trim_front(s.drop_first())
    } else {
        s
    }
}

/// A string with trailing whitespace dropped.
pub open spec fn trim_back(s: Seq<char>) -> Seq<char>
    decreases s.len(),
{
    if s.len() > 0 && is_white(s.last()) {
        trim_back(s.drop_last())
    } else {
        s
    }
}

/// A string with whitespace dropped at both ends, as `str::trim` leaves it.
pub open spec fn trim_spec(s: Seq<char>) -> Seq<char> {
    trim_back(trim_front(s))
}

proof fn lemma_trim_front_is(s: Seq<char>, a: int)
    requires
        0 <= a <= s.len(),
        forall|k: int| 0 <= k < a ==> is_white(#[trigger] s[k]),
        a < s.len() ==> !is_white(s[a]),
    ensures
        trim_front(s) == s.subrange(a, s.len() as int),
    decreases a,
{
    if a == 0 {
        assert(s.subrange(0, s.len() as int) =~= s);
    } else {
        let t = s.drop_first();
        assert(forall|k: int| 0 <= k < a - 1 ==> is_white(#[trigger] t[k]));
        lemma_trim_front_is(t, a - 1);
        assert(t.subrange(a - 1, t.len() as int) =~= s.subrange(a, s.len() as int));
    }
}

proof fn lemma_trim_back_is(s: Seq<char>, b: int)
    requires
        0 <= b <= s.len(),
        forall|k: int| b <= k < s.len() ==> is_white(#[trigger] s[k]),
        b > 0 ==> !is_white(s[b - 1]),
    ensures
        trim_back(s) == s.subrange(0, b),
    decreases s.len() - b,
{
    if b == s.len() {
        assert(s.subrange(0, b) =~= s);
    } else {
        let t = s.drop_last();
        assert(forall|k: int| b <= k < t.len() ==> is_white(#[trigger] t[k]));
        lemma_trim_back_is(t, b);
        assert(t.subrange(0, b) =~= s.subrange(0, b));
    }
}

/// The characters of a string with whitespace dropped at both ends.
pub(crate) fn trim_chars(v: &Vec<char>) -> (out: Vec<char>)
    ensures
        out@ == trim_spec(v@),
{
    let n = v.len();
    let mut a: usize = 0;
    while a < n && is_whitespace_char(v[a])
        invariant
            a <= n,
            n == v@.len(),
            forall|k: int| 0 <= k < a ==> is_white(#[trigger] v@[k]),
        decreases n - a,
    {
        a = a + 1;
    }
    proof {
        lemma_trim_front_is(v@, a as int);
    }
    let ghost front = v@.subrange(a as int, v@.len() as int);
    let mut b: usize = n;
    while b > a && is_whitespace_char(v[b - 1])
        invariant
            a <= b <= n,
            n == v@.len(),
            forall|k: int| b <= k < n ==> is_white(#[trigger] v@[k]),
        decreases b,
    {
        b = b - 1;
    }
    proof {
        assert(forall|k: int|
            b - a <= k < front.len() ==> is_white(#[trigger] front[k]));
        lemma_trim_back_is(front, b - a);
    }
    let mut out: Vec<char> = Vec::new();
    let mut k: usize = a;
    while k < b
        invariant
            a <= k <= b <= n,
            n == v@.len(),
            out@ == v@.subrange(a as int, k as int),
        decreases b - k,
    {
        out.push(v[k]);
        k = k + 1;
        proof {
            assert(out@ =~= v@.subrange(a as int, k as int));
        }
    }
    proof {
        assert(front.subrange(0, b - a) =~= v@.subrange(a as int, b as int));
    }
    out
}

} // verus!
