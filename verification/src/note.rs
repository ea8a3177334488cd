//! The price-note grammar. A note prices an item when, anywhere in it, a
//! `~price ` or `~b/o ` tag is followed by a number — a decimal, or a
//! rational written `X/Y` — a space, and a currency token. The scanner here
//! finds the leftmost such occurrence, greedily, exactly as the pattern
//! `~(price|b/o) ([\d\.]+(?:/[\d\.]+)?) ([\w-]+)` reads; the number and
//! token classes are the ASCII ones.
use vstd::prelude::*;

verus! {

/// A character the number group may hold: an ASCII digit or a dot.
pub open spec fn is_num_char(c: char) -> bool {
    ('0' <= c && c <= '9') || c == '.'
}

/// A character the currency token may hold: ASCII alphanumeric, underscore
/// or hyphen.
pub open spec fn is_word_char(c: char) -> bool {
    ('0' <= c && c <= '9') || ('a' <= c && c <= 'z') || ('A' <= c && c <= 'Z') || c == '_' || c
        == '-'
}

/// How many consecutive number characters start at `i`.
pub open spec fn num_run_len(s: Seq<char>, i: int) -> nat
    decreases s.len() - i,
{
    if 0 <= i < s.len() && is_num_char(s[i]) {
        1 + num_run_len(s, i + 1)
    } else {
        0
    }
}

/// How many consecutive word characters start at `i`.
pub open spec fn word_run_len(s: Seq<char>, i: int) -> nat
    decreases s.len() - i,
{
    if 0 <= i < s.len() && is_word_char(s[i]) {
        1 + word_run_len(s, i + 1)
    } else {
        0
    }
}

pub proof fn lemma_num_run_len(s: Seq<char>, i: int, j: int)
    requires
        0 <= i <= j <= s.len(),
        forall|k: int| i <= k < j ==> is_num_char(#[trigger] s[k]),
        j == s.len() || !is_num_char(s[j]),
    ensures
        num_run_len(s, i) == j - i,
    decreases j - i,
{
    if i < j {
        lemma_num_run_len(s, i + 1, j);
    }
}

pub proof fn lemma_word_run_len(s: Seq<char>, i: int, j: int)
    requires
        0 <= i <= j <= s.len(),
        forall|k: int| i <= k < j ==> is_word_char(#[trigger] s[k]),
        j == s.len() || !is_word_char(s[j]),
    ensures
        word_run_len(s, i) == j - i,
    decreases j - i,
{
    if i < j {
        lemma_word_run_len(s, i + 1, j);
    }
}

/// The length of the tag starting at `i`: 7 for `~price `, 5 for `~b/o `,
/// none otherwise. The longer alternative is tried first, as the pattern
/// lists it first; the two cannot both match.
pub open spec fn tag_len_at(s: Seq<char>, i: int) -> Option<int> {
    if i + 7 <= s.len() && s[i] == '~' && s[i + 1] == 'p' && s[i + 2] == 'r' && s[i + 3] == 'i'
        && s[i + 4] == 'c' && s[i + 5] == 'e' && s[i + 6] == ' ' {
        Some(7)
    } else if i + 5 <= s.len() && s[i] == '~' && s[i + 1] == 'b' && s[i + 2] == '/' && s[i + 3]
        == 'o' && s[i + 4] == ' ' {
        Some(5)
    } else {
        None
    }
}

/// The three captured groups of one grammar occurrence: the number — split
/// into numerator and, for `X/Y` forms, denominator text — and the currency
/// token.
pub ghost struct PriceGroups {
    pub num: Seq<char>,
    pub den: Option<Seq<char>>,
    pub cur: Seq<char>,
}

/// The groups the grammar captures when it matches at position `i`, read
/// greedily: the number group takes the longest run of number characters,
/// takes a `/`-joined second run when one is followed by a space and a
/// token, and the currency group takes the longest run of word characters.
pub open spec fn match_at(s: Seq<char>, i: int) -> Option<PriceGroups> {
    match tag_len_at(s, i) {
        None => None,
        Some(tl) => {
            let j = i + tl;
            let a = num_run_len(s, j) as int;
            if a == 0 {
                None
            } else {
                let slash = j + a;
                if slash < s.len() && s[slash] == '/' && num_run_len(s, slash + 1) > 0 {
                    let b = num_run_len(s, slash + 1) as int;
                    let sp = slash + 1 + b;
                    if sp < s.len() && s[sp] == ' ' && word_run_len(s, sp + 1) > 0 {
                        let w = word_run_len(s, sp + 1) as int;
                        Some(
                            PriceGroups {
                                num: s.subrange(j, slash),
                                den: Some(s.subrange(slash + 1, sp)),
                                cur: s.subrange(sp + 1, sp + 1 + w),
                            },
                        )
                    } else {
                        None
                    }
                } else if slash < s.len() && s[slash] == ' ' && word_run_len(s, slash + 1) > 0 {
                    let w = word_run_len(s, slash + 1) as int;
                    Some(
                        PriceGroups {
                            num: s.subrange(j, slash),
                            den: None,
                            cur: s.subrange(slash + 1, slash + 1 + w),
                        },
                    )
                } else {
                    None
                }
            }
        },
    }
}

pub open spec fn price_match_from(s: Seq<char>, i: int) -> Option<PriceGroups>
    decreases s.len() - i,
{
    if !(0 <= i < s.len()) {
        None
    } else if match_at(s, i) is Some {
        match_at(s, i)
    } else {
        price_match_from(s, i + 1)
    }
}

/// The leftmost occurrence of the price grammar in a note, if any.
pub open spec fn price_match(s: Seq<char>) -> Option<PriceGroups> {
    price_match_from(s, 0)
}

/// The captured groups, as the scanner hands them out.
pub struct NoteCapture {
    pub num: Vec<char>,
    pub den: Option<Vec<char>>,
    pub cur: Vec<char>,
}

impl View for NoteCapture {
    type V = PriceGroups;

    open spec fn view(&self) -> PriceGroups {
        PriceGroups {
            num: self.num@,
            den: match self.den {
                Some(d) => Some(d@),
                None => None,
            },
            cur: self.cur@,
        }
    }
}

fn copy_range(chars: &Vec<char>, from: usize, to: usize) -> (out: Vec<char>)
    requires
        from <= to <= chars@.len(),
    ensures
        out@ == chars@.subrange(from as int, to as int),
{
    let mut out: Vec<char> = Vec::new();
    let mut k: usize = from;
    while k < to
        invariant
            from <= k <= to <= chars@.len(),
            out@ == chars@.subrange(from as int, k as int),
        decreases to - k,
    {
        out.push(chars[k]);
        k = k + 1;
        proof {
            assert(out@ =~= chars@.subrange(from as int, k as int));
        }
    }
    out
}

fn is_num_char_exec(c: char) -> (r: bool)
    ensures
        r == is_num_char(c),
{
    ('0' <= c && c <= '9') || c == '.'
}

fn is_word_char_exec(c: char) -> (r: bool)
    ensures
        r == is_word_char(c),
{
    ('0' <= c && c <= '9') || ('a' <= c && c <= 'z') || ('A' <= c && c <= 'Z') || c == '_' || c
        == '-'
}

fn num_run(chars: &Vec<char>, i: usize) -> (n: usize)
    requires
        i <= chars@.len(),
    ensures
        n == num_run_len(chars@, i as int),
        i + n <= chars@.len(),
{
    let mut j: usize = i;
    while j < chars.len() && is_num_char_exec(chars[j])
        invariant
            i <= j <= chars@.len(),
            forall|k: int| i <= k < j ==> is_num_char(#[trigger] chars@[k]),
        decreases chars@.len() - j,
    {
        j = j + 1;
    }
    proof {
        lemma_num_run_len(chars@, i as int, j as int);
    }
    j - i
}

fn word_run(chars: &Vec<char>, i: usize) -> (n: usize)
    requires
        i <= chars@.len(),
    ensures
        n == word_run_len(chars@, i as int),
        i + n <= chars@.len(),
{
    let mut j: usize = i;
    while j < chars.len() && is_word_char_exec(chars[j])
        invariant
            i <= j <= chars@.len(),
            forall|k: int| i <= k < j ==> is_word_char(#[trigger] chars@[k]),
        decreases chars@.len() - j,
    {
        j = j + 1;
    }
    proof {
        lemma_word_run_len(chars@, i as int, j as int);
    }
    j - i
}

fn tag_at(chars: &Vec<char>, i: usize) -> (t: Option<usize>)
    requires
        i < chars@.len(),
    ensures
        match t {
            Some(l) => tag_len_at(chars@, i as int) == Some(l as int) && i + l <= chars@.len(),
            None => tag_len_at(chars@, i as int) is None,
        },
{
    if chars.len() - i >= 7 && chars[i] == '~' && chars[i + 1] == 'p' && chars[i + 2] == 'r'
        && chars[i + 3] == 'i' && chars[i + 4] == 'c' && chars[i + 5] == 'e' && chars[i + 6]
        == ' ' {
        Some(7)
    } else if chars.len() - i >= 5 && chars[i] == '~' && chars[i + 1] == 'b' && chars[i + 2] == '/'
        && chars[i + 3] == 'o' && chars[i + 4] == ' ' {
        Some(5)
    } else {
        None
    }
}

fn match_note_at(chars: &Vec<char>, i: usize) -> (r: Option<NoteCapture>)
    requires
        i < chars@.len(),
    ensures
        match r {
            Some(c) => match_at(chars@, i as int) == Some(c@),
            None => match_at(chars@, i as int) is None,
        },
{
    let n = chars.len();
    let tl = match tag_at(chars, i) {
        Some(l) => l,
        None => {
            return None;
        },
    };
    let j = i + tl;
    let a = num_run(chars, j);
    if a == 0 {
        return None;
    }
    let slash = j + a;
    if slash < n && chars[slash] == '/' && num_run(chars, slash + 1) > 0 {
        let b = num_run(chars, slash + 1);
        let sp = slash + 1 + b;
        if sp < n && chars[sp] == ' ' && word_run(chars, sp + 1) > 0 {
            let w = word_run(chars, sp + 1);
            Some(
                NoteCapture {
                    num: copy_range(chars, j, slash),
                    den: Some(copy_range(chars, slash + 1, sp)),
                    cur: copy_range(chars, sp + 1, sp + 1 + w),
                },
            )
        } else {
            None
        }
    } else if slash < n && chars[slash] == ' ' && word_run(chars, slash + 1) > 0 {
        let w = word_run(chars, slash + 1);
        Some(
            NoteCapture {
                num: copy_range(chars, j, slash),
                den: None,
                cur: copy_range(chars, slash + 1, slash + 1 + w),
            },
        )
    } else {
        None
    }
}

/// Scans a note for the leftmost occurrence of the price grammar.
pub fn find_price_match(chars: &Vec<char>) -> (r: Option<NoteCapture>)
    ensures
        match r {
            Some(c) => price_match(chars@) == Some(c@),
            None => price_match(chars@) is None,
        },
{
    let mut i: usize = 0;
    while i < chars.len()
        invariant
            i <= chars@.len(),
            price_match(chars@) == price_match_from(chars@, i as int),
        decreases chars@.len() - i,
    {
        let m = match_note_at(chars, i);
        if let Some(c) = m {
            return Some(c);
        }
        i = i + 1;
    }
    None
}


// ---------------------------------------------------------------------------
// Reading the captured number groups as exact rationals.
// ---------------------------------------------------------------------------
use crate::text::{all_digits, digits_val, find_char, is_digit_char, lemma_digits_val_prefix_le};

/// Whether a number group is a decimal a float parser accepts: nonempty,
/// only digits and dots, at most one dot, at least one digit.
pub open spec fn dec_valid(d: Seq<char>) -> bool {
    &&& d.len() > 0
    &&& forall|k: int| 0 <= k < d.len() ==> is_num_char(#[trigger] d[k])
    &&& exists|k: int| 0 <= k < d.len() && is_digit_char(#[trigger] d[k])
    &&& forall|i: int, j: int| 0 <= i < j < d.len() ==> !(#[trigger] d[i] == '.' && #[trigger] d[j] == '.')
}

pub open spec fn pow10(n: nat) -> int
    decreases n,
{
    if n == 0 {
        1
    } else {
        10 * pow10((n - 1) as nat)
    }
}

pub proof fn lemma_pow10_pos(n: nat)
    ensures
        pow10(n) >= 1,
    decreases n,
{
    if n > 0 {
        lemma_pow10_pos((n - 1) as nat);
    }
}

pub proof fn lemma_pow10_monotone(a: nat, b: nat)
    requires
        a <= b,
    ensures
        pow10(a) <= pow10(b),
    decreases b,
{
    if a < b {
        lemma_pow10_monotone(a, (b - 1) as nat);
        lemma_pow10_pos((b - 1) as nat);
    }
}

/// The digits before the first dot.
pub open spec fn int_part(d: Seq<char>) -> Seq<char> {
    d.subrange(0, find_char(d, '.') as int)
}

/// The digits after the first dot; empty when there is no dot.
pub open spec fn frac_part(d: Seq<char>) -> Seq<char> {
    if find_char(d, '.') < d.len() {
        d.subrange(find_char(d, '.') as int + 1, d.len() as int)
    } else {
        Seq::empty()
    }
}

/// The numerator of a decimal read exactly: its digits with the dot removed.
pub open spec fn dec_num(d: Seq<char>) -> int {
    digits_val(int_part(d) + frac_part(d))
}

/// The denominator of a decimal read exactly: ten to the number of digits
/// after the dot.
pub open spec fn dec_den(d: Seq<char>) -> int {
    pow10(frac_part(d).len())
}

/// A decimal that fits: valid, and numerator and denominator in `u64`.
pub open spec fn dec_ok(d: Seq<char>) -> bool {
    &&& dec_valid(d)
    &&& dec_num(d) <= u64::MAX
    &&& dec_den(d) <= u64::MAX
}

/// Reads a decimal digit group exactly as a fraction `(numerator,
/// denominator)`: `"70"` is 70/1, `"0.8"` is 8/10. Fails on a group a float
/// parser would reject, and on one whose exact reading does not fit `u64`.
#[verifier::rlimit(100)]
fn parse_decimal(d: &Vec<char>) -> (r: Result<(u64, u64), ()>)
    ensures
        r is Ok <==> dec_ok(d@),
        r matches Ok(p) ==> p.0 as int == dec_num(d@) && p.1 as int == dec_den(d@) && p.1 >= 1,
{
    let ghost s = d@;
    let n = d.len();
    if n == 0 {
        return Err(());
    }
    // First pass: check the shape and find the dot.
    let mut dot: Option<usize> = None;
    let mut any_digit: bool = false;
    let mut i: usize = 0;
    while i < n
        invariant
            n == s.len(),
            i <= n,
            s == d@,
            forall|k: int| 0 <= k < i ==> is_num_char(#[trigger] s[k]),
            any_digit <==> exists|k: int| 0 <= k < i && is_digit_char(#[trigger] s[k]),
            dot matches Some(p) ==> 0 <= p < i && s[p as int] == '.' && (forall|k: int|
                0 <= k < i && k != p ==> #[trigger] s[k] != '.'),
            dot is None ==> forall|k: int| 0 <= k < i ==> #[trigger] s[k] != '.',
        decreases n - i,
    {
        let c = d[i];
        if c == '.' {
            if dot.is_some() {
                proof {
                    let p = dot.unwrap();
                    assert(s[p as int] == '.' && s[i as int] == '.');
                    assert(!dec_valid(s));
                }
                return Err(());
            }
            dot = Some(i);
        } else if '0' <= c && c <= '9' {
            any_digit = true;
        } else {
            proof {
                assert(!is_num_char(s[i as int]));
                assert(!dec_valid(s));
            }
            return Err(());
        }
        i = i + 1;
    }
    if !any_digit {
        proof {
            assert(!dec_valid(s));
        }
        return Err(());
    }
    proof {
        assert(dec_valid(s)) by {
            assert(forall|a: int, b: int|
                0 <= a < b < s.len() ==> !(#[trigger] s[a] == '.' && #[trigger] s[b] == '.'))
            by {
                if let Some(p) = dot {
                    assert(forall|k: int| 0 <= k < s.len() && k != p ==> #[trigger] s[k] != '.');
                }
            }
        }
    }
    // The dot found first is the one the value splits at.
    let ghost fc = find_char(s, '.') as int;
    proof {
        crate::text::lemma_find_char(s, '.');
        if let Some(p) = dot {
            assert(fc == p) by {
                if fc < p {
                    assert(s[fc] == '.');
                }
                if fc > p {
                    assert(s[p as int] == '.');
                }
            }
        } else {
            assert(fc == s.len()) by {
                if fc < s.len() {
                    assert(s[fc] == '.');
                }
            }
        }
    }
    let ghost whole = int_part(s) + frac_part(s);
    proof {
        assert(all_digits(whole)) by {
            assert(forall|k: int| 0 <= k < whole.len() ==> is_digit_char(#[trigger] whole[k]))
            by {
                assert forall|k: int| 0 <= k < whole.len() implies is_digit_char(
                    #[trigger] whole[k],
                ) by {
                    if k < int_part(s).len() {
                        assert(whole[k] == s[k]);
                        assert(k < fc ==> s[k] != '.');
                    } else {
                        assert(whole[k] == s[k + 1]);
                        assert(s[k + 1] != '.');
                    }
                }
            }
        }
    }
    // Second pass: accumulate the digits, scale per digit after the dot.
    let mut acc: u64 = 0;
    let mut den: u64 = 1;
    let mut past_dot: bool = false;
    let mut fl: usize = 0;
    i = 0;
    while i < n
        invariant
            n == s.len(),
            i <= n,
            s == d@,
            dec_valid(s),
            fc == find_char(s, '.') as int,
            0 <= fc <= s.len(),
            fc < s.len() ==> s[fc] == '.',
            forall|k: int| 0 <= k < s.len() && k != fc ==> #[trigger] s[k] != '.',
            whole == int_part(s) + frac_part(s),
            all_digits(whole),
            past_dot <==> fc < i,
            past_dot ==> fl == i - fc - 1 && fl <= frac_part(s).len(),
            !past_dot ==> fl == 0,
            frac_part(s).len() == (if fc < s.len() {
                s.len() - fc - 1
            } else {
                0
            }),
            acc as int == digits_val(whole.subrange(0, if fc < i {
                i as int - 1
            } else {
                i as int
            })),
            den as int == pow10(fl as nat),
        decreases n - i,
    {
        let c = d[i];
        let ghost done = if fc < i {
            i as int - 1
        } else {
            i as int
        };
        if c == '.' {
            proof {
                assert(i as int == fc);
                assert((if fc < i + 1 {
                    i + 1 - 1
                } else {
                    i + 1
                }) as int == done);
            }
            past_dot = true;
        } else {
            let dv: u64 = (c as u32 as u64) - 48;
            proof {
                assert(is_digit_char(s[i as int]));
                assert(dv == crate::text::digit_val(s[i as int]));
                // the next seen digit extends the prefix of `whole`
                assert(whole.subrange(0, done + 1).drop_last() =~= whole.subrange(0, done));
                assert(whole[done] == s[i as int]) by {
                    if i < fc {
                        assert(int_part(s)[done] == s[done]);
                    } else {
                        assert(done >= int_part(s).len());
                        assert(frac_part(s)[done - int_part(s).len()] == s[done + 1]);
                    }
                }
                assert(digits_val(whole.subrange(0, done + 1)) == acc as int * 10 + dv as int);
            }
            let next = match acc.checked_mul(10) {
                Some(x) => x.checked_add(dv),
                None => None,
            };
            match next {
                Some(x) => {
                    acc = x;
                },
                None => {
                    proof {
                        lemma_digits_val_prefix_le(whole, done + 1);
                        assert(whole.subrange(0, whole.len() as int) =~= whole);
                        assert(dec_num(s) > u64::MAX);
                    }
                    return Err(());
                },
            }
            if past_dot {
                match den.checked_mul(10) {
                    Some(x) => {
                        den = x;
                        fl = fl + 1;
                    },
                    None => {
                        proof {
                            lemma_pow10_monotone((fl + 1) as nat, frac_part(s).len());
                            assert(dec_den(s) > u64::MAX);
                        }
                        return Err(());
                    },
                }
            }
        }
        i = i + 1;
    }
    proof {
        if fc < s.len() {
            assert(fl == frac_part(s).len());
        } else {
            assert(frac_part(s).len() == 0);
        }
        assert(whole.subrange(0, if fc < n {
            n as int - 1
        } else {
            n as int
        }) =~= whole);
        lemma_pow10_pos(frac_part(s).len());
    }
    Ok((acc, den))
}

/// An exact non-negative rational; the denominator is always positive.
#[derive(Debug, Clone, Copy, PartialEq, Eq, Structural)]
pub struct Ratio {
    pub numer: u64,
    pub denom: u64,
}

/// Whether the number groups of a match can be read: each group a valid
/// decimal, every exact value within `u64`.
pub open spec fn groups_ok(g: PriceGroups) -> bool {
    &&& dec_ok(g.num)
    &&& (g.den matches Some(dn) ==> dec_ok(dn) && (dec_num(dn) > 0 ==> dec_num(g.num) * dec_den(
        dn,
    ) <= u64::MAX && dec_den(g.num) * dec_num(dn) <= u64::MAX))
}

/// The listed value of a match, as a fraction: a plain decimal reads as
/// itself, `X/Y` reads as X divided by Y when Y is positive, and as zero
/// when Y is zero.
pub open spec fn groups_value(g: PriceGroups) -> (int, int) {
    match g.den {
        None => (dec_num(g.num), dec_den(g.num)),
        Some(dn) => if dec_num(dn) > 0 {
            (dec_num(g.num) * dec_den(dn), dec_den(g.num) * dec_num(dn))
        } else {
            (0, 1)
        },
    }
}

/// Reads the captured number groups as one exact rational.
pub fn ratio_of_capture(cap: &NoteCapture) -> (r: Result<Ratio, ()>)
    ensures
        r is Ok <==> groups_ok(cap@),
        r matches Ok(rat) ==> (rat.numer as int, rat.denom as int) == groups_value(cap@)
            && rat.denom >= 1,
{
    let np = match parse_decimal(&cap.num) {
        Ok(p) => p,
        Err(_) => {
            return Err(());
        },
    };
    match &cap.den {
        None => Ok(Ratio { numer: np.0, denom: np.1 }),
        Some(dgroup) => {
            let dp = match parse_decimal(dgroup) {
                Ok(p) => p,
                Err(_) => {
                    return Err(());
                },
            };
            if dp.0 == 0 {
                Ok(Ratio { numer: 0, denom: 1 })
            } else {
                let numer = match np.0.checked_mul(dp.1) {
                    Some(x) => x,
                    None => {
                        return Err(());
                    },
                };
                let denom = match np.1.checked_mul(dp.0) {
                    Some(x) => x,
                    None => {
                        return Err(());
                    },
                };
                proof {
                    assert(denom >= 1) by (nonlinear_arith)
                        requires
                            np.1 >= 1,
                            dp.0 >= 1,
                            denom as int == np.1 as int * dp.0 as int,
                    ;
                }
                Ok(Ratio { numer, denom })
            }
        },
    }
}


/// Reads one decimal digit group as an exact fraction, if it is valid and
/// fits.
pub fn parse_dec_fraction(d: &Vec<char>) -> (r: Option<(u64, u64)>)
    ensures
        r is Some <==> dec_ok(d@),
        r matches Some(p) ==> p.0 as int == dec_num(d@) && p.1 as int == dec_den(d@) && p.1 >= 1,
{
    match parse_decimal(d) {
        Ok(p) => Some(p),
        Err(_) => None,
    }
}


// ---------------------------------------------------------------------------
// Laws of the grammar on notes built from their parts.
// ---------------------------------------------------------------------------

/// The tag and spacing of a plain-decimal price note: `~price `, the
/// number, a space, the token.
pub open spec fn decimal_note(d: Seq<char>, cur: Seq<char>) -> Seq<char> {
    seq!['~', 'p', 'r', 'i', 'c', 'e', ' '] + d + seq![' '] + cur
}

/// A rational price note: `~price `, numerator, `/`, denominator, a space,
/// the token.
pub open spec fn rational_note(x: Seq<char>, y: Seq<char>, cur: Seq<char>) -> Seq<char> {
    seq!['~', 'p', 'r', 'i', 'c', 'e', ' '] + x + seq!['/'] + y + seq![' '] + cur
}

/// A currency token: nonempty, all word characters.
pub open spec fn token_valid(cur: Seq<char>) -> bool {
    cur.len() > 0 && forall|k: int| 0 <= k < cur.len() ==> is_word_char(#[trigger] cur[k])
}

/// Law: a note carrying `~price N cur` for a valid decimal N and a token
/// cur matches the grammar with exactly N as the number group and cur as
/// the currency group.
pub proof fn lemma_decimal_note_match(d: Seq<char>, cur: Seq<char>)
    requires
        dec_valid(d),
        token_valid(cur),
    ensures
        price_match(decimal_note(d, cur)) == Some(
            PriceGroups { num: d, den: None, cur: cur },
        ),
{
    let note = decimal_note(d, cur);
    let dl = d.len() as int;
    let cl = cur.len() as int;
    assert(note.len() == 8 + dl + cl);
    assert(note[0] == '~' && note[1] == 'p' && note[2] == 'r' && note[3] == 'i' && note[4] == 'c'
        && note[5] == 'e' && note[6] == ' ');
    assert(tag_len_at(note, 0) == Some(7int));
    assert forall|k: int| 7 <= k < 7 + dl implies is_num_char(#[trigger] note[k]) by {
        assert(note[k] == d[k - 7]);
    }
    assert(note[7 + dl] == ' ');
    lemma_num_run_len(note, 7, 7 + dl);
    assert(num_run_len(note, 7) == dl);
    assert(dl > 0);
    let slash = 7 + dl;
    assert(note[slash] != '/');
    assert forall|k: int| slash + 1 <= k < slash + 1 + cl implies is_word_char(
        #[trigger] note[k],
    ) by {
        assert(note[k] == cur[k - (slash + 1)]);
    }
    lemma_word_run_len(note, slash + 1, slash + 1 + cl);
    assert(word_run_len(note, slash + 1) == cl);
    assert(note.subrange(7, slash) =~= d);
    assert(note.subrange(slash + 1, slash + 1 + cl) =~= cur);
    assert(match_at(note, 0) == Some(PriceGroups { num: d, den: None, cur: cur }));
}

/// Law: a note carrying `~price X/Y cur` for valid decimals X and Y and a
/// token cur matches the grammar with X as numerator group, Y as
/// denominator group, and cur as the currency group.
pub proof fn lemma_rational_note_match(x: Seq<char>, y: Seq<char>, cur: Seq<char>)
    requires
        dec_valid(x),
        dec_valid(y),
        token_valid(cur),
    ensures
        price_match(rational_note(x, y, cur)) == Some(
            PriceGroups { num: x, den: Some(y), cur: cur },
        ),
{
    let note = rational_note(x, y, cur);
    let xl = x.len() as int;
    let yl = y.len() as int;
    let cl = cur.len() as int;
    assert(note.len() == 9 + xl + yl + cl);
    assert(note[0] == '~' && note[1] == 'p' && note[2] == 'r' && note[3] == 'i' && note[4] == 'c'
        && note[5] == 'e' && note[6] == ' ');
    assert(tag_len_at(note, 0) == Some(7int));
    assert forall|k: int| 7 <= k < 7 + xl implies is_num_char(#[trigger] note[k]) by {
        assert(note[k] == x[k - 7]);
    }
    let slash = 7 + xl;
    assert(note[slash] == '/');
    lemma_num_run_len(note, 7, slash);
    assert(num_run_len(note, 7) == xl);
    assert(xl > 0);
    assert forall|k: int| slash + 1 <= k < slash + 1 + yl implies is_num_char(
        #[trigger] note[k],
    ) by {
        assert(note[k] == y[k - (slash + 1)]);
    }
    let sp = slash + 1 + yl;
    assert(note[sp] == ' ');
    lemma_num_run_len(note, slash + 1, sp);
    assert(num_run_len(note, slash + 1) == yl);
    assert(yl > 0);
    assert forall|k: int| sp + 1 <= k < sp + 1 + cl implies is_word_char(#[trigger] note[k]) by {
        assert(note[k] == cur[k - (sp + 1)]);
    }
    lemma_word_run_len(note, sp + 1, sp + 1 + cl);
    assert(word_run_len(note, sp + 1) == cl);
    assert(note.subrange(7, slash) =~= x);
    assert(note.subrange(slash + 1, sp) =~= y);
    assert(note.subrange(sp + 1, sp + 1 + cl) =~= cur);
    assert(match_at(note, 0) == Some(PriceGroups { num: x, den: Some(y), cur: cur }));
}

} // verus!
