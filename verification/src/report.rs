//! The size report: human-scaled byte counts and the percentage change of a
//! successful compression.
//!
//! A report is rendered only when both byte counts are known and the
//! original size is not zero; an unknown count, or a zero original that
//! would make the percentage undefined, yields no report. The percentage is
//! `(1 - compressed/original) * 100`, rendered with two fractional digits
//! as the nearest hundredth of a percent, ties rounded away from zero;
//! positive means the stream shrank, negative that it grew.

use vstd::prelude::*;
use vstd::string::StringExecFns;

verus! {

/// The rendering of a byte count with binary (1024-based) units and at most
/// two fractional digits.
pub uninterp spec fn human_size_of(n: u64) -> Seq<char>;

/// Relies on byte_unit::Byte::get_appropriate_unit with binary units and
/// the alternate two-decimal display of byte_unit::AdjustedByte: the
/// rendering depends on the byte count alone.
#[verifier::external_body]
fn human_size(n: u64) -> (r: String)
    ensures
        r@ == human_size_of(n),
{
    let adjusted = byte_unit::Byte::from(n).get_appropriate_unit(byte_unit::UnitType::Binary);
    format!("{adjusted:#.2}")
}

/// The nearest integer to `n / d`, ties rounded up.
pub open spec fn spec_div_round_nearest(n: nat, d: nat) -> nat
    recommends
        d > 0,
{
    (2 * n + d) / (2 * d)
}

/// The distance of the compressed size from the original, in hundredths of
/// a percent of the original: the magnitude of `(1 - compressed/original) * 100`,
/// rounded to the nearest hundredth.
pub open spec fn spec_percent_magnitude_centi(original: nat, compressed: nat) -> nat
    recommends
        original > 0,
{
    if compressed <= original {
        spec_div_round_nearest(((original - compressed) * 10000) as nat, original)
    } else {
        spec_div_round_nearest(((compressed - original) * 10000) as nat, original)
    }
}

/// The digit character for a value below ten.
pub open spec fn spec_digit_char(d: nat) -> char
    recommends
        d < 10,
{
    if d == 0 {
        '0'
    } else if d == 1 {
        '1'
    } else if d == 2 {
        '2'
    } else if d == 3 {
        '3'
    } else if d == 4 {
        '4'
    } else if d == 5 {
        '5'
    } else if d == 6 {
        '6'
    } else if d == 7 {
        '7'
    } else if d == 8 {
        '8'
    } else {
        '9'
    }
}

/// The decimal rendering of a number, most significant digit first, without
/// leading zeros (a single `0` for zero).
pub open spec fn spec_decimal(n: nat) -> Seq<char>
    decreases n,
{
    if n < 10 {
        seq![spec_digit_char(n)]
    } else {
        spec_decimal(n / 10) + seq![spec_digit_char(n % 10)]
    }
}

/// Returns the digit character for a value below ten.
fn digit_str(d: u8) -> (r: &'static str)
    requires
        d < 10,
    ensures
        r@ == seq![spec_digit_char(d as nat)],
{
    proof {
        reveal_strlit("0");
        reveal_strlit("1");
        reveal_strlit("2");
        reveal_strlit("3");
        reveal_strlit("4");
        reveal_strlit("5");
        reveal_strlit("6");
        reveal_strlit("7");
        reveal_strlit("8");
        reveal_strlit("9");
    }
    let r = match d {
        0 => "0",
        1 => "1",
        2 => "2",
        3 => "3",
        4 => "4",
        5 => "5",
        6 => "6",
        7 => "7",
        8 => "8",
        _ => "9",
    };
    proof {
        assert(r@ =~= seq![spec_digit_char(d as nat)]);
    }
    r
}

/// Appends the decimal rendering of `n` to `out`.
fn push_decimal(n: u128, out: &mut String)
    ensures
        final (out)@ == old(out)@ + spec_decimal(n as nat),
    decreases n,
{
    if n < 10 {
        out.append(digit_str(n as u8));
    } else {
        assert(n / 10 < n) by (nonlinear_arith)
            requires
                n >= 10,
        ;
        push_decimal(n / 10, out);
        out.append(digit_str((n % 10) as u8));
        assert(final (out)@ =~= old(out)@ + spec_decimal(n as nat));
    }
}

/// The rendering of the percentage change, two fractional digits, a leading
/// `-` when the stream grew.
pub open spec fn spec_percent_string(original: nat, compressed: nat) -> Seq<char>
    recommends
        original > 0,
{
    let mag = spec_percent_magnitude_centi(original, compressed);
    let sign: Seq<char> = if compressed > original {
        "-"@
    } else {
        Seq::<char>::empty()
    };
    sign + spec_decimal(mag / 100) + "."@ + seq![spec_digit_char((mag / 10) % 10)]
        + seq![spec_digit_char(mag % 10)]
}

/// Renders the percentage change of a job with two fractional digits.
fn percent_string(original: u64, compressed: u64) -> (r: String)
    requires
        original >= 1,
    ensures
        r@ == spec_percent_string(original as nat, compressed as nat),
{
    let grew = compressed > original;
    let diff: u64 = if grew {
        compressed - original
    } else {
        original - compressed
    };
    let num: u128 = (diff as u128) * 10000;
    let mag: u128 = (2 * num + original as u128) / (2 * original as u128);
    assert(mag == spec_percent_magnitude_centi(original as nat, compressed as nat));
    let mut out = String::new();
    if grew {
        out.append("-");
    }
    push_decimal(mag / 100, &mut out);
    out.append(".");
    out.append(digit_str(((mag / 10) % 10) as u8));
    out.append(digit_str((mag % 10) as u8));
    proof {
        assert(out@ =~= spec_percent_string(original as nat, compressed as nat));
    }
    out
}

/// The report line of a job whose byte counts are both known.
pub open spec fn spec_report_line(original: u64, compressed: u64) -> Seq<char>
    recommends
        original > 0,
{
    "Original Size: "@ + human_size_of(original) + ", Compressed: "@ + human_size_of(compressed)
        + ", Compression: "@ + spec_percent_string(original as nat, compressed as nat)
        + "% Removed"@
}

/// Renders the size report. A report is owed exactly when both byte counts
/// are known and the original size is not zero; a zero original would make
/// the percentage undefined and yields no report.
pub fn size_report(original: Option<u64>, compressed: Option<u64>) -> (r: Option<String>)
    ensures
        r is Some <==> (original matches Some(o) && o > 0 && compressed is Some),
        r matches Some(line) ==> line@ == spec_report_line(
            original.unwrap(),
            compressed.unwrap(),
        ),
{
    match (original, compressed) {
        (Some(o), Some(c)) => {
            if o == 0 {
                return None;
            }
            let mut line = String::from_str("Original Size: ");
            let original_human = human_size(o);
            line.append(original_human.as_str());
            line.append(", Compressed: ");
            let compressed_human = human_size(c);
            line.append(compressed_human.as_str());
            line.append(", Compression: ");
            let percent = percent_string(o, c);
            line.append(percent.as_str());
            line.append("% Removed");
            proof {
                assert(line@ =~= spec_report_line(o, c));
            }
            Some(line)
        },
        _ => None,
    }
}

} // verus!
