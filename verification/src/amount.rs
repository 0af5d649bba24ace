use vstd::prelude::*;

use vstd::string::StrSliceExecFns;
use vstd::string::StringExecFns;

verus! {

// Human-readable decimal amounts.  An asset with `decimals` fractional
// digits stores `10^decimals` base units per whole token; these two
// functions translate between the display form ("1.5") and the internal
// base-unit amount (1500000 at six decimals), exactly.

/// Why a written amount cannot be read.
#[derive(Clone, Copy, Debug, PartialEq, Eq, Structural)]
pub enum AmountError {
    /// A part of the amount is empty or holds something besides digits.
    InvalidNumber,
    /// The fractional part is longer than the asset's decimals.
    TooManyDecimalPlaces,
    /// The amount does not fit in 64 bits, or the decimals admit no scale
    /// that fits.
    Overflow,
}

pub open spec fn spec_is_digit(c: char) -> bool {
    48 <= (c as u32) <= 57
}

pub open spec fn spec_digit(c: char) -> int {
    (c as u32) - 48
}

/// The character that writes one digit.
pub open spec fn spec_digit_char(d: int) -> char {
    if d == 0 {
        '0'
    } else if d == 1 {
        '1'
    } else if d == 2 {
        '2'
    } else if d == 3 {
        '3'
    } else if d == 4 {
        '4'
    } else if d == 5 {
        '5'
    } else if d == 6 {
        '6'
    } else if d == 7 {
        '7'
    } else if d == 8 {
        '8'
    } else {
        '9'
    }
}

pub open spec fn spec_all_digits(s: Seq<char>) -> bool {
    forall|i: int| 0 <= i < s.len() ==> spec_is_digit(s[i])
}

/// The number that a digit string writes.
pub open spec fn spec_digits_val(s: Seq<char>) -> int
    decreases s.len(),
{
    if s.len() == 0 {
        0
    } else {
        spec_digits_val(s.drop_last()) * 10 + spec_digit(s.last())
    }
}

/// The input with every underscore removed; thousands separators carry no
/// meaning.
pub open spec fn spec_sanitized(s: Seq<char>) -> Seq<char>
    decreases s.len(),
{
    if s.len() == 0 {
        Seq::empty()
    } else if s.last() == '_' {
        spec_sanitized(s.drop_last())
    } else {
        spec_sanitized(s.drop_last()).push(s.last())
    }
}

/// Split at the first occurrence of `sep`, or nothing when it does not
/// occur.
pub open spec fn spec_split_first(s: Seq<char>, sep: char) -> Option<(Seq<char>, Seq<char>)>
    decreases s.len(),
{
    if s.len() == 0 {
        None
    } else if s[0] == sep {
        Some((Seq::empty(), s.drop_first()))
    } else {
        match spec_split_first(s.drop_first(), sep) {
            Some(p) => Some((seq![s[0]] + p.0, p.1)),
            None => None,
        }
    }
}

pub open spec fn spec_pow10(e: int) -> int
    decreases e,
{
    if e <= 0 {
        1
    } else {
        10 * spec_pow10(e - 1)
    }
}

/// The base-unit amount that a written amount denotes at this many
/// decimals, or why it denotes none.  Underscores are dropped first; with
/// a decimal point, the whole and fractional parts are read separately and
/// the fraction is padded to exactly `decimals` digits.
pub open spec fn spec_parse_amount(s: Seq<char>, decimals: u8) -> Result<u64, AmountError> {
    let t = spec_sanitized(s);
    match spec_split_first(t, '.') {
        None => {
            if t.len() == 0 || !spec_all_digits(t) {
                Err(AmountError::InvalidNumber)
            } else if spec_digits_val(t) > u64::MAX {
                Err(AmountError::Overflow)
            } else {
                Ok(spec_digits_val(t) as u64)
            }
        },
        Some(parts) => {
            let whole = parts.0;
            let frac = parts.1;
            if whole.len() > 0 && !spec_all_digits(whole) {
                Err(AmountError::InvalidNumber)
            } else if whole.len() > 0 && spec_digits_val(whole) > u64::MAX {
                Err(AmountError::Overflow)
            } else if frac.len() > decimals {
                Err(AmountError::TooManyDecimalPlaces)
            } else {
                let padded = frac + Seq::new((decimals - frac.len()) as nat, |i: int| '0');
                if padded.len() > 0 && !spec_all_digits(padded) {
                    Err(AmountError::InvalidNumber)
                } else if spec_digits_val(padded) > u64::MAX {
                    Err(AmountError::Overflow)
                } else if spec_pow10(decimals as int) > u64::MAX {
                    Err(AmountError::Overflow)
                } else {
                    let whole_val = if whole.len() == 0 {
                        0
                    } else {
                        spec_digits_val(whole)
                    };
                    if whole_val * spec_pow10(decimals as int) + spec_digits_val(padded)
                        > u64::MAX {
                        Err(AmountError::Overflow)
                    } else {
                        Ok(
                            (whole_val * spec_pow10(decimals as int) + spec_digits_val(padded))
                                as u64,
                        )
                    }
                }
            }
        },
    }
}

/// Extending a digit string never shrinks its value.
proof fn lemma_digits_val_prefix(s: Seq<char>, i: int)
    requires
        spec_all_digits(s),
        0 <= i <= s.len(),
    ensures
        spec_digits_val(s) >= spec_digits_val(s.take(i)),
        spec_digits_val(s) >= 0,
    decreases s.len() - i,
{
    if i == s.len() {
        assert(s.take(i) =~= s);
        lemma_digits_val_nonneg(s);
    } else {
        assert(s.take(i + 1).drop_last() =~= s.take(i));
        lemma_digits_val_nonneg(s.take(i));
        lemma_digits_val_prefix(s, i + 1);
    }
}

proof fn lemma_digits_val_nonneg(s: Seq<char>)
    requires
        spec_all_digits(s),
    ensures
        spec_digits_val(s) >= 0,
    decreases s.len(),
{
    if s.len() > 0 {
        assert(spec_all_digits(s.drop_last()));
        lemma_digits_val_nonneg(s.drop_last());
    }
}

/// The scale grows with the exponent.
proof fn lemma_pow10_grows(a: int, b: int)
    requires
        0 <= a <= b,
    ensures
        spec_pow10(a) <= spec_pow10(b),
        spec_pow10(a) >= 1,
    decreases b - a,
{
    if a < b {
        lemma_pow10_grows(a, b - 1);
    } else {
        lemma_pow10_nonneg(a);
    }
}

proof fn lemma_pow10_nonneg(e: int)
    ensures
        spec_pow10(e) >= 1,
    decreases e,
{
    if e > 0 {
        lemma_pow10_nonneg(e - 1);
    }
}

/// Splitting at the first separator is taking the prefix before it.
proof fn lemma_split_first_at(s: Seq<char>, sep: char, i: int)
    requires
        0 <= i < s.len(),
        s[i] == sep,
        forall|j: int| 0 <= j < i ==> s[j] != sep,
    ensures
        spec_split_first(s, sep) == Some((s.take(i), s.skip(i + 1))),
    decreases i,
{
    if i == 0 {
        assert(s.take(0) =~= Seq::<char>::empty());
        assert(s.skip(1) =~= s.drop_first());
    } else {
        lemma_split_first_at(s.drop_first(), sep, i - 1);
        assert(seq![s[0]] + s.drop_first().take(i - 1) =~= s.take(i));
        assert(s.drop_first().skip(i) =~= s.skip(i + 1));
    }
}

/// A separator-free string does not split.
proof fn lemma_split_first_none(s: Seq<char>, sep: char)
    requires
        forall|j: int| 0 <= j < s.len() ==> s[j] != sep,
    ensures
        spec_split_first(s, sep) is None,
    decreases s.len(),
{
    if s.len() > 0 {
        lemma_split_first_none(s.drop_first(), sep);
    }
}

/// Drop every underscore from the written form.
fn sanitize(value: &str) -> (t: Vec<char>)
    ensures
        t@ == spec_sanitized(value@),
{
    let n = value.unicode_len();
    let mut t: Vec<char> = Vec::new();
    let mut i: usize = 0;
    while i < n
        invariant
            i <= n,
            n == value@.len(),
            t@ == spec_sanitized(value@.take(i as int)),
        decreases n - i,
    {
        let c = value.get_char(i);
        proof {
            assert(value@.take(i + 1).drop_last() =~= value@.take(i as int));
            assert(value@.take(i + 1).last() == value@[i as int]);
        }
        if c != '_' {
            t.push(c);
        }
        i = i + 1;
    }
    proof {
        assert(value@.take(n as int) =~= value@);
    }
    t
}

/// Read an all-digit slice of `t` as a number; `t[from..to]` must be
/// checked to hold digits only by the caller.
fn fold_digits(t: &Vec<char>, from: usize, to: usize) -> (r: Option<u64>)
    requires
        from <= to <= t@.len(),
        spec_all_digits(t@.subrange(from as int, to as int)),
    ensures
        match r {
            Some(v) => v == spec_digits_val(t@.subrange(from as int, to as int)),
            None => spec_digits_val(t@.subrange(from as int, to as int)) > u64::MAX,
        },
{
    let ghost s = t@.subrange(from as int, to as int);
    let mut value: u64 = 0;
    let mut i: usize = from;
    while i < to
        invariant
            from <= i <= to <= t@.len(),
            spec_all_digits(s),
            s == t@.subrange(from as int, to as int),
            value == spec_digits_val(s.take(i - from)),
        decreases to - i,
    {
        let c = t[i];
        proof {
            assert(s[i - from] == t@[i as int]);
            assert(s.take(i + 1 - from).drop_last() =~= s.take(i - from));
            assert(s.take(i + 1 - from).last() == s[i - from]);
            assert(spec_is_digit(s[i - from]));
        }
        let code: u32 = c as u32;
        let digit: u64 = (code - 48) as u64;
        let stepped = match value.checked_mul(10) {
            Some(v) => v.checked_add(digit),
            None => None,
        };
        match stepped {
            Some(v) => {
                value = v;
            },
            None => {
                proof {
                    assert(spec_digits_val(s.take(i + 1 - from)) > u64::MAX);
                    lemma_digits_val_prefix(s, i + 1 - from);
                }
                return None;
            },
        }
        i = i + 1;
    }
    proof {
        assert(s.take(to - from) =~= s);
    }
    Some(value)
}

/// Every character of `t[from..to]` is a digit, or the first that is not.
fn all_digits(t: &Vec<char>, from: usize, to: usize) -> (b: bool)
    requires
        from <= to <= t@.len(),
    ensures
        b == spec_all_digits(t@.subrange(from as int, to as int)),
{
    let ghost s = t@.subrange(from as int, to as int);
    let mut i: usize = from;
    while i < to
        invariant
            from <= i <= to <= t@.len(),
            s == t@.subrange(from as int, to as int),
            forall|j: int| 0 <= j < i - from ==> spec_is_digit(s[j]),
        decreases to - i,
    {
        let c = t[i];
        proof {
            assert(s[i - from] == t@[i as int]);
        }
        let code: u32 = c as u32;
        if code < 48 || code > 57 {
            proof {
                assert(!spec_is_digit(s[i - from]));
            }
            return false;
        }
        i = i + 1;
    }
    true
}

/// The position of the first decimal point, if any.
fn find_dot(t: &Vec<char>) -> (r: Option<usize>)
    ensures
        match r {
            Some(i) => {
                &&& i < t@.len()
                &&& t@[i as int] == '.'
                &&& forall|j: int| 0 <= j < i ==> t@[j] != '.'
                &&& spec_split_first(t@, '.') == Some(
                    (t@.take(i as int), t@.skip(i + 1)),
                )
            },
            None => spec_split_first(t@, '.') is None,
        },
{
    let mut i: usize = 0;
    while i < t.len()
        invariant
            i <= t@.len(),
            forall|j: int| 0 <= j < i ==> t@[j] != '.',
        decreases t@.len() - i,
    {
        if t[i] == '.' {
            proof {
                lemma_split_first_at(t@, '.', i as int);
            }
            return Some(i);
        }
        i = i + 1;
    }
    proof {
        lemma_split_first_none(t@, '.');
    }
    None
}

/// The scale of an asset with this many decimals: ten to their number, if
/// it fits.
fn pow10_checked(decimals: u8) -> (r: Option<u64>)
    ensures
        match r {
            Some(v) => v == spec_pow10(decimals as int) && spec_pow10(decimals as int)
                <= u64::MAX,
            None => spec_pow10(decimals as int) > u64::MAX,
        },
{
    let mut scale: u64 = 1;
    let mut k: u8 = 0;
    while k < decimals
        invariant
            k <= decimals,
            scale == spec_pow10(k as int),
        decreases decimals - k,
    {
        scale = match scale.checked_mul(10) {
            Some(v) => v,
            None => {
                proof {
                    lemma_pow10_grows(k as int + 1, decimals as int);
                }
                return None;
            },
        };
        k = k + 1;
    }
    Some(scale)
}

/// Read a written amount as base units of an asset with `decimals`
/// fractional digits.  Underscores are ignored; at most one decimal point;
/// the fraction may not be longer than `decimals`; the result must fit in
/// 64 bits.
pub fn parse_amount(value: &str, decimals: u8) -> (r: Result<u64, AmountError>)
    ensures
        r == spec_parse_amount(value@, decimals),
{
    let t = sanitize(value);
    match find_dot(&t) {
        None => {
            if t.len() == 0 || !all_digits(&t, 0, t.len()) {
                proof {
                    assert(t@.subrange(0, t@.len() as int) =~= t@);
                }
                return Err(AmountError::InvalidNumber);
            }
            proof {
                assert(t@.subrange(0, t@.len() as int) =~= t@);
            }
            match fold_digits(&t, 0, t.len()) {
                Some(v) => Ok(v),
                None => Err(AmountError::Overflow),
            }
        },
        Some(dot) => {
            let ghost whole_s = t@.take(dot as int);
            let ghost frac_s = t@.skip(dot as int + 1);
            proof {
                assert(t@.subrange(0, dot as int) =~= whole_s);
                assert(t@.subrange(dot as int + 1, t@.len() as int) =~= frac_s);
            }
            let whole_val: u64 = if dot == 0 {
                0
            } else {
                if !all_digits(&t, 0, dot) {
                    return Err(AmountError::InvalidNumber);
                }
                match fold_digits(&t, 0, dot) {
                    Some(v) => v,
                    None => {
                        return Err(AmountError::Overflow);
                    },
                }
            };
            let frac_len = t.len() - (dot + 1);
            if frac_len > decimals as usize {
                return Err(AmountError::TooManyDecimalPlaces);
            }
            // Pad the fraction with zeros up to exactly `decimals` digits.
            let mut padded: Vec<char> = Vec::new();
            let mut i: usize = dot + 1;
            while i < t.len()
                invariant
                    dot + 1 <= i <= t@.len(),
                    frac_s == t@.skip(dot as int + 1),
                    padded@ =~= frac_s.take(i - dot - 1),
                decreases t@.len() - i,
            {
                padded.push(t[i]);
                i = i + 1;
            }
            proof {
                assert(padded@ =~= frac_s);
            }
            let ghost padded_s = frac_s + Seq::new((decimals - frac_s.len()) as nat, |k: int| '0');
            let mut z: usize = frac_len;
            while z < decimals as usize
                invariant
                    frac_s.len() <= z <= decimals,
                    padded@ =~= frac_s + Seq::new((z - frac_s.len()) as nat, |k: int| '0'),
                decreases decimals - z,
            {
                padded.push('0');
                z = z + 1;
            }
            proof {
                assert(padded@ =~= padded_s);
            }
            if padded.len() > 0 && !all_digits(&padded, 0, padded.len()) {
                proof {
                    assert(padded@.subrange(0, padded@.len() as int) =~= padded@);
                }
                return Err(AmountError::InvalidNumber);
            }
            proof {
                assert(padded@.subrange(0, padded@.len() as int) =~= padded@);
                if padded@.len() == 0 {
                    assert(spec_all_digits(padded_s));
                }
            }
            let frac_val: u64 = match fold_digits(&padded, 0, padded.len()) {
                Some(v) => v,
                None => {
                    return Err(AmountError::Overflow);
                },
            };
            let scale: u64 = match pow10_checked(decimals) {
                Some(v) => v,
                None => {
                    return Err(AmountError::Overflow);
                },
            };
            let total = match whole_val.checked_mul(scale) {
                Some(v) => v.checked_add(frac_val),
                None => None,
            };
            match total {
                Some(v) => Ok(v),
                None => Err(AmountError::Overflow),
            }
        },
    }
}


/// The digit string that writes a number: most significant first, a lone
/// zero for zero.
pub open spec fn spec_digits_of(n: int) -> Seq<char>
    decreases n,
{
    if n < 10 {
        seq![spec_digit_char(if n < 0 { 0 } else { n % 10 })]
    } else {
        spec_digits_of(n / 10).push(spec_digit_char(n % 10))
    }
}

/// A digit string left-padded with zeros to the given width.
pub open spec fn spec_zero_pad(s: Seq<char>, width: int) -> Seq<char> {
    if s.len() >= width {
        s
    } else {
        Seq::new((width - s.len()) as nat, |i: int| '0') + s
    }
}

/// The display form of a base-unit amount at this many decimals: the
/// whole part and, when there are decimals, a point and exactly
/// `decimals` fractional digits.
pub open spec fn spec_format_amount(amount: u64, decimals: u8) -> Seq<char> {
    if decimals == 0 {
        spec_digits_of(amount as int)
    } else {
        spec_digits_of(amount as int / spec_pow10(decimals as int)) + seq!['.'] + spec_zero_pad(
            spec_digits_of(amount as int % spec_pow10(decimals as int)),
            decimals as int,
        )
    }
}

/// Write one digit at the end of the text.
fn push_digit(s: &mut String, d: u64)
    requires
        d < 10,
    ensures
        final(s)@ == old(s)@.push(spec_digit_char(d as int)),
{
    proof {
        reveal_strlit("0");
        reveal_strlit("1");
        reveal_strlit("2");
        reveal_strlit("3");
        reveal_strlit("4");
        reveal_strlit("5");
        reveal_strlit("6");
        reveal_strlit("7");
        reveal_strlit("8");
        reveal_strlit("9");
    }
    if d == 0 {
        s.append("0");
    } else if d == 1 {
        s.append("1");
    } else if d == 2 {
        s.append("2");
    } else if d == 3 {
        s.append("3");
    } else if d == 4 {
        s.append("4");
    } else if d == 5 {
        s.append("5");
    } else if d == 6 {
        s.append("6");
    } else if d == 7 {
        s.append("7");
    } else if d == 8 {
        s.append("8");
    } else {
        s.append("9");
    }
    proof {
        assert(s@ =~= old(s)@.push(spec_digit_char(d as int)));
    }
}

/// The characters of a digit stack read top to bottom: the digits were
/// collected least significant first.
pub open spec fn spec_rev_digit_chars(ds: Seq<u64>) -> Seq<char> {
    Seq::new(ds.len(), |i: int| spec_digit_char(ds[ds.len() - 1 - i] as int))
}

/// Collect the digits of `n`, least significant first.
fn rev_digits(n: u64) -> (ds: Vec<u64>)
    ensures
        ds@.len() >= 1,
        forall|k: int| 0 <= k < ds@.len() ==> ds@[k] < 10,
        spec_rev_digit_chars(ds@) == spec_digits_of(n as int),
{
    let mut ds: Vec<u64> = Vec::new();
    let mut v: u64 = n;
    ds.push(v % 10);
    v = v / 10;
    proof {
        if n < 10 {
            assert(spec_rev_digit_chars(ds@) =~= spec_digits_of(n as int));
        } else {
            assert(spec_rev_digit_chars(ds@) =~= seq![spec_digit_char(n as int % 10)]);
        }
    }
    while v > 0
        invariant
            ds@.len() >= 1,
            forall|k: int| 0 <= k < ds@.len() ==> ds@[k] < 10,
            (if v > 0 {
                spec_digits_of(v as int) + spec_rev_digit_chars(ds@)
            } else {
                spec_rev_digit_chars(ds@)
            }) =~= spec_digits_of(n as int),
        decreases v,
    {
        let ghost old_ds = ds@;
        let ghost old_v = v as int;
        ds.push(v % 10);
        v = v / 10;
        proof {
            assert(spec_rev_digit_chars(old_ds.push((old_v % 10) as u64)) =~= seq![
                spec_digit_char(old_v % 10),
            ] + spec_rev_digit_chars(old_ds));
            if old_v < 10 {
                assert(spec_digits_of(old_v) =~= seq![spec_digit_char(old_v % 10)]);
                assert(spec_rev_digit_chars(ds@) =~= spec_digits_of(n as int));
            } else {
                assert(spec_digits_of(old_v) =~= spec_digits_of(old_v / 10) + seq![
                    spec_digit_char(old_v % 10),
                ]);
                assert(spec_digits_of(old_v / 10) + spec_rev_digit_chars(ds@)
                    =~= spec_digits_of(n as int));
            }
        }
    }
    ds
}

/// Append the decimal writing of `n` to the text.
fn append_number(s: &mut String, n: u64)
    ensures
        final(s)@ == old(s)@ + spec_digits_of(n as int),
{
    let ds = rev_digits(n);
    let len = ds.len();
    let ghost start = s@;
    let mut j: usize = 0;
    while j < len
        invariant
            j <= len,
            len == ds@.len(),
            forall|k: int| 0 <= k < ds@.len() ==> ds@[k] < 10,
            spec_rev_digit_chars(ds@) == spec_digits_of(n as int),
            s@ =~= start + spec_rev_digit_chars(ds@).take(j as int),
        decreases len - j,
    {
        let d = ds[len - 1 - j];
        push_digit(s, d);
        proof {
            assert(s@ =~= start + spec_rev_digit_chars(ds@).take(j + 1));
        }
        j = j + 1;
    }
    proof {
        assert(spec_rev_digit_chars(ds@).take(len as int) =~= spec_digits_of(n as int));
        assert(s@ =~= start + spec_digits_of(n as int));
    }
}

/// Write a base-unit amount in display form: the whole part and, when the
/// asset has decimals, a point and exactly that many fractional digits,
/// zero-padded on the left.  The decimals must admit a scale that fits in
/// 64 bits.
pub fn format_amount(amount: u64, decimals: u8) -> (text: String)
    requires
        spec_pow10(decimals as int) <= u64::MAX,
    ensures
        text@ == spec_format_amount(amount, decimals),
{
    if decimals == 0 {
        let mut text = String::new();
        append_number(&mut text, amount);
        return text;
    }
    let scale: u64 = match pow10_checked(decimals) {
        Some(v) => v,
        None => {
            // Unreachable: the precondition says the scale fits.
            proof {
                assert(false);
            }
            1
        },
    };
    proof {
        lemma_pow10_nonneg(decimals as int);
    }
    let whole = amount / scale;
    let frac = amount % scale;
    let mut text = String::new();
    append_number(&mut text, whole);
    proof {
        reveal_strlit(".");
    }
    text.append(".");
    let ghost head = spec_digits_of(amount as int / spec_pow10(decimals as int)) + seq!['.'];
    proof {
        assert(text@ =~= head);
    }
    let ghost frac_digits = spec_digits_of(frac as int);
    let ds = rev_digits(frac);
    let count = ds.len();
    proof {
        assert(frac_digits.len() == ds@.len());
    }
    let mut z: usize = count;
    while z < decimals as usize
        invariant
            count <= z,
            z <= decimals as usize || z == count,
            count == frac_digits.len(),
            text@ =~= head + Seq::new((z - count) as nat, |i: int| '0'),
        decreases decimals as int - z,
    {
        proof {
            reveal_strlit("0");
        }
        text.append("0");
        proof {
            assert(text@ =~= head + Seq::new((z + 1 - count) as nat, |i: int| '0'));
        }
        z = z + 1;
    }
    append_number(&mut text, frac);
    proof {
        assert(text@ =~= spec_format_amount(amount, decimals));
    }
    text
}

} // verus!
