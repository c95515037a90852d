//! Plain-text rendering helpers: decimal numbers and literal pieces.
use vstd::prelude::*;
use vstd::string::*;

verus! {

/// The ASCII digit for `d` (0..=9).
pub open spec fn digit_char(d: nat) -> char {
    if d == 0 { '0' } else if d == 1 { '1' } else if d == 2 { '2' } else if d == 3 { '3' }
    else if d == 4 { '4' } else if d == 5 { '5' } else if d == 6 { '6' } else if d == 7 { '7' }
    else if d == 8 { '8' } else { '9' }
}

/// Decimal rendering of a natural number, most significant digit first.
pub open spec fn decimal(n: nat) -> Seq<char>
    decreases n,
{
    if n < 10 {
        seq![digit_char(n)]
    } else {
        decimal(n / 10).push(digit_char(n % 10))
    }
}

fn digit_str(d: u64) -> (s: &'static str)
    requires
        d < 10,
    ensures
        s@ == seq![digit_char(d as nat)],
{
    proof {
        reveal_strlit("0"); reveal_strlit("1"); reveal_strlit("2"); reveal_strlit("3");
        reveal_strlit("4"); reveal_strlit("5"); reveal_strlit("6"); reveal_strlit("7");
        reveal_strlit("8"); reveal_strlit("9");
    }
    if d == 0 { "0" } else if d == 1 { "1" } else if d == 2 { "2" } else if d == 3 { "3" }
    else if d == 4 { "4" } else if d == 5 { "5" } else if d == 6 { "6" } else if d == 7 { "7" }
    else if d == 8 { "8" } else { "9" }
}

/// Appends the decimal rendering of `n` to `out`.
pub fn push_decimal(out: &mut String, n: u64)
    ensures
        final(out)@ == old(out)@ + decimal(n as nat),
    decreases n,
{
    if n < 10 {
        out.append(digit_str(n));
    } else {
        push_decimal(out, n / 10);
        out.append(digit_str(n % 10));
        proof {
            assert(decimal(n as nat) == decimal((n / 10) as nat).push(digit_char((n % 10) as nat)));
        }
    }
}

/// The six fractional digits of `f` (< 10^6), zero-padded on the left.
pub open spec fn six_digits(f: nat) -> Seq<char> {
    seq![
        digit_char((f / 100000) % 10), digit_char((f / 10000) % 10), digit_char((f / 1000) % 10),
        digit_char((f / 100) % 10), digit_char((f / 10) % 10), digit_char(f % 10),
    ]
}

/// `s` with its trailing `'0'` characters removed.
pub open spec fn trim_trailing_zeros(s: Seq<char>) -> Seq<char>
    decreases s.len(),
{
    if s.len() > 0 && s.last() == '0' {
        trim_trailing_zeros(s.drop_last())
    } else {
        s
    }
}

/// Shortest decimal rendering of `micros / 10^6`: the integer part, then,
/// when the fraction is not zero, a point and the fraction without trailing zeros.
pub open spec fn seconds_text(micros: nat) -> Seq<char> {
    let whole = decimal(micros / 1_000_000);
    let frac = micros % 1_000_000;
    if frac == 0 {
        whole
    } else {
        whole + seq!['.'] + trim_trailing_zeros(six_digits(frac))
    }
}

/// Appends `seconds_text(micros)` to `out`.
pub fn push_seconds(out: &mut String, micros: u64)
    ensures
        final(out)@ == old(out)@ + seconds_text(micros as nat),
{
    push_decimal(out, micros / 1_000_000);
    let frac = micros % 1_000_000;
    if frac != 0 {
        proof { reveal_strlit("."); }
        out.append(".");
        let digits: [u64; 6] = [
            (frac / 100000) % 10, (frac / 10000) % 10, (frac / 1000) % 10,
            (frac / 100) % 10, (frac / 10) % 10, frac % 10,
        ];
        let ghost full = six_digits(frac as nat);
        // last position holding a non-zero digit
        let mut keep: usize = 6;
        assert(full.subrange(0, 6) == full);
        while keep > 0 && digits[keep - 1] == 0
            invariant
                0 <= keep <= 6,
                full == six_digits(frac as nat),
                forall|j: int| 0 <= j < 6 ==> full[j] == digit_char(digits[j] as nat) && digits[j] < 10,
                trim_trailing_zeros(full) == trim_trailing_zeros(full.subrange(0, keep as int)),
                forall|j: int| keep <= j < 6 ==> digits[j] == 0,
            decreases keep,
        {
            assert(full.subrange(0, keep - 1) == full.subrange(0, keep as int).drop_last());
            assert(full.subrange(0, keep as int).last() == '0');
            keep = keep - 1;
        }
        assert(keep > 0) by {
            if keep == 0 {
                assert(digits[0] == 0 && digits[1] == 0 && digits[2] == 0);
                assert(digits[3] == 0 && digits[4] == 0 && digits[5] == 0);
                assert(frac == 0) by (nonlinear_arith)
                    requires
                        frac < 1_000_000,
                        (frac / 100000) % 10 == 0, (frac / 10000) % 10 == 0, (frac / 1000) % 10 == 0,
                        (frac / 100) % 10 == 0, (frac / 10) % 10 == 0, frac % 10 == 0;
            }
        }
        assert(trim_trailing_zeros(full.subrange(0, keep as int)) == full.subrange(0, keep as int));
        let mut j: usize = 0;
        while j < keep
            invariant
                0 <= j <= keep <= 6,
                full == six_digits(frac as nat),
                forall|t: int| 0 <= t < 6 ==> full[t] == digit_char(digits[t] as nat) && digits[t] < 10,
                out@ == old(out)@ + decimal((micros / 1_000_000) as nat) + seq!['.'] + full.subrange(0, j as int),
            decreases keep - j,
        {
            out.append(digit_str(digits[j]));
            assert(full.subrange(0, j + 1) == full.subrange(0, j as int).push(full[j as int]));
            j = j + 1;
        }
    }
}

} // verus!
