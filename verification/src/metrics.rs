//! Font-wide metrics: units per em and weight class.

use crate::engine::{head_units_per_em, stored_units_per_em, stored_weight_bits, weight_bits};
use crate::error::{
    all_load, first_load_failure, is_load_error, open_font, CoordinateError, FontFile,
};
use vstd::prelude::*;

verus! {

/// The units per em used where a font stores none that can be used.
pub const DEFAULT_UNITS_PER_EM: u16 = 1000;

/// The stored units per em, or the default where the header cannot be read.
pub open spec fn reported_units_per_em(stored: Option<u16>) -> u16 {
    match stored {
        Some(value) => value,
        None => DEFAULT_UNITS_PER_EM,
    }
}

/// The units per em to divide coordinates by: the stored value where it is
/// positive, the default otherwise.
pub open spec fn scaling_units_per_em(stored: Option<u16>) -> u16 {
    match stored {
        Some(value) => if value > 0 {
            value
        } else {
            DEFAULT_UNITS_PER_EM
        },
        None => DEFAULT_UNITS_PER_EM,
    }
}

/// Two to the power `n`.
pub open spec fn two_to(n: nat) -> nat
    decreases n,
{
    if n == 0 {
        1
    } else {
        2 * two_to((n - 1) as nat)
    }
}

/// The weight class of a single-precision value given by its bit pattern: the
/// value rounded to the nearest integer, halves away from zero, and clamped
/// to 1..=1000. A pattern that is not a number gives 1.
pub open spec fn weight_class_of(bits: u32) -> int {
    let exponent = (bits / 0x80_0000) % 256;
    let fraction = bits % 0x80_0000;
    if exponent == 255 && fraction != 0 {
        1
    } else if bits >= 0x8000_0000 || exponent < 126 {
        // negative, or below one half
        1
    } else if exponent >= 137 {
        // 1024 or more
        1000
    } else {
        // the value is (2^23 + fraction) / 2^(150 - exponent)
        let unit = two_to((150 - exponent) as nat) as int;
        let rounded = (2 * (0x80_0000 + fraction) + unit) / (2 * unit);
        if rounded > 1000 {
            1000
        } else {
            rounded
        }
    }
}

proof fn lemma_two_to_grows(a: nat, b: nat)
    requires
        a <= b,
    ensures
        two_to(a) <= two_to(b),
        two_to(a) >= 1,
    decreases b,
{
    if a < b {
        lemma_two_to_grows(a, (b - 1) as nat);
    } else if a > 0 {
        lemma_two_to_grows((a - 1) as nat, (b - 1) as nat);
    }
}

fn power_of_two(n: u32) -> (power: u32)
    requires
        n <= 24,
    ensures
        power == two_to(n as nat),
        1 <= power <= 0x100_0000,
{
    let mut power: u32 = 1;
    let mut k: u32 = 0;
    proof {
        reveal_with_fuel(two_to, 25);
        assert(two_to(24) == 0x100_0000);
    }
    while k < n
        invariant
            k <= n <= 24,
            power == two_to(k as nat),
            two_to(24) == 0x100_0000,
        decreases n - k,
    {
        proof {
            lemma_two_to_grows((k + 1) as nat, 24);
        }
        power = power * 2;
        k += 1;
    }
    proof {
        lemma_two_to_grows(n as nat, 24);
    }
    power
}

/// The stored units per em, or 1000 where the header could not be read.
pub fn resolve_units_per_em(stored: Option<u16>) -> (value: u16)
    ensures
        value == reported_units_per_em(stored),
{
    match stored {
        Some(value) => value,
        None => DEFAULT_UNITS_PER_EM,
    }
}

/// The units per em to scale by: never zero.
pub fn resolve_scaling_units_per_em(stored: Option<u16>) -> (value: u16)
    ensures
        value == scaling_units_per_em(stored),
        value > 0,
{
    match stored {
        Some(value) => if value > 0 {
            value
        } else {
            DEFAULT_UNITS_PER_EM
        },
        None => DEFAULT_UNITS_PER_EM,
    }
}

/// Rounds and clamps a weight, given as the bit pattern of a single-precision
/// value, to a weight class in 1..=1000.
pub fn weight_class_from_bits(bits: u32) -> (weight: u16)
    ensures
        weight == weight_class_of(bits),
        1 <= weight <= 1000,
{
    let exponent: u32 = (bits / 0x80_0000) % 256;
    let fraction: u32 = bits % 0x80_0000;
    if exponent == 255 && fraction != 0 {
        return 1;
    }
    if bits >= 0x8000_0000 || exponent < 126 {
        return 1;
    }
    if exponent >= 137 {
        return 1000;
    }
    let unit: u32 = power_of_two(150 - exponent);
    let doubled: u32 = 2 * (0x80_0000 + fraction) + unit;
    let rounded: u32 = doubled / (2 * unit);
    proof {
        // the value is at least one half, so it rounds to one or more
        assert(doubled >= 2 * unit);
        assert((doubled as int) / (2 * unit) >= 1) by (nonlinear_arith)
            requires
                doubled >= 2 * unit,
                unit >= 1,
        ;
    }
    if rounded > 1000 {
        1000
    } else {
        rounded as u16
    }
}

/// The units per em that `units_per_em` reports for one font.
pub open spec fn font_units_per_em(file: FontFile) -> u16 {
    reported_units_per_em(stored_units_per_em(file.data()))
}

/// The weight class that `weight_classes` reports for one font.
pub open spec fn font_weight_class(file: FontFile) -> int {
    weight_class_of(stored_weight_bits(file.data()))
}

/// Whether `values` is what `units_per_em` owes for a batch that loads.
pub open spec fn is_units_per_em_of(files: Seq<FontFile>, values: Seq<u16>) -> bool {
    &&& values.len() == files.len()
    &&& forall|i: int| 0 <= i < files.len() ==> values[i] == font_units_per_em(#[trigger] files[i])
}

/// Whether `values` is what `weight_classes` owes for a batch that loads.
pub open spec fn is_weight_classes_of(files: Seq<FontFile>, values: Seq<u16>) -> bool {
    &&& values.len() == files.len()
    &&& forall|i: int| 0 <= i < files.len() ==> values[i] == font_weight_class(#[trigger] files[i])
}

/// The metrics of a batch are fixed by its files: two results owed for the
/// same batch are equal, entry for entry.
pub proof fn lemma_metrics_determined(files: Seq<FontFile>, first: Seq<u16>, second: Seq<u16>)
    requires
        is_units_per_em_of(files, first) && is_units_per_em_of(files, second)
            || is_weight_classes_of(files, first) && is_weight_classes_of(files, second),
    ensures
        first == second,
{
    assert forall|i: int| 0 <= i < first.len() implies first[i] == second[i] by {
        let file = files[i];
    }
    assert(first =~= second);
}

/// Each entry of the metrics depends on its own file only: the metrics of a
/// batch made of two batches are those of the first followed by those of the
/// second.
pub proof fn lemma_metrics_follow_files(
    front: Seq<FontFile>,
    back: Seq<FontFile>,
    front_values: Seq<u16>,
    back_values: Seq<u16>,
)
    ensures
        is_units_per_em_of(front, front_values) && is_units_per_em_of(back, back_values)
            ==> is_units_per_em_of(front + back, front_values + back_values),
        is_weight_classes_of(front, front_values) && is_weight_classes_of(back, back_values)
            ==> is_weight_classes_of(front + back, front_values + back_values),
{
    let files = front + back;
    let values = front_values + back_values;
    if is_units_per_em_of(front, front_values) && is_units_per_em_of(back, back_values) {
        assert forall|i: int| 0 <= i < files.len() implies values[i] == font_units_per_em(
            #[trigger] files[i],
        ) by {
            if i < front.len() {
                assert(files[i] == front[i]);
            } else {
                assert(files[i] == back[i - front.len()]);
            }
        }
    }
    if is_weight_classes_of(front, front_values) && is_weight_classes_of(back, back_values) {
        assert forall|i: int| 0 <= i < files.len() implies values[i] == font_weight_class(
            #[trigger] files[i],
        ) by {
            if i < front.len() {
                assert(files[i] == front[i]);
            } else {
                assert(files[i] == back[i - front.len()]);
            }
        }
    }
}

/// Rounding is to the nearest integer, halves upward: for a positive value
/// of at least one half and below 1024, given as `significand / unit`, the
/// weight class before clamping is within one half of the value.
pub proof fn lemma_weight_class_is_nearest(bits: u32)
    requires
        bits < 0x8000_0000,
        126 <= bits / 0x80_0000 < 137,
        weight_class_of(bits) < 1000,
    ensures
        ({
            let significand = 0x80_0000 + bits % 0x80_0000;
            let unit = two_to((150 - bits / 0x80_0000) as nat) as int;
            let weight = weight_class_of(bits);
            2 * significand - unit < 2 * unit * weight <= 2 * significand + unit
        }),
{
    let significand = 0x80_0000 + bits % 0x80_0000;
    let unit = two_to((150 - bits / 0x80_0000) as nat) as int;
    lemma_two_to_grows((150 - bits / 0x80_0000) as nat, 24);
    let doubled = 2 * significand + unit;
    let rounded = doubled / (2 * unit);
    assert(2 * unit * rounded <= doubled < 2 * unit * rounded + 2 * unit) by (nonlinear_arith)
        requires
            unit >= 1,
            rounded == doubled / (2 * unit),
    ;
}

/// Every weight class lies in 1..=1000, whatever the bit pattern.
pub proof fn lemma_weight_class_in_range(bits: u32)
    ensures
        1 <= weight_class_of(bits) <= 1000,
{
    let exponent = (bits / 0x80_0000) % 256;
    let fraction = bits % 0x80_0000;
    if 126 <= exponent < 137 {
        let unit = two_to((150 - exponent) as nat) as int;
        lemma_two_to_grows((150 - exponent) as nat, 24);
        let doubled = 2 * (0x80_0000 + fraction) + unit;
        reveal_with_fuel(two_to, 25);
        assert(two_to(24) == 0x100_0000);
        assert(doubled / (2 * unit) >= 1) by (nonlinear_arith)
            requires
                doubled >= 2 * unit,
                unit >= 1,
        ;
    }
}

/// The units per em of each font, in the order given: the stored value, or
/// 1000 where the header cannot be read. Fails with the error of the first
/// file that cannot be loaded.
pub fn units_per_em(fonts: Vec<FontFile>) -> (result: Result<Vec<u16>, CoordinateError>)
    ensures
        match result {
            Ok(values) => {
                &&& all_load(fonts@)
                &&& is_units_per_em_of(fonts@, values@)
            },
            Err(error) => is_load_error(fonts@, error),
        },
{
    let mut values: Vec<u16> = Vec::with_capacity(fonts.len());
    let mut i: usize = 0;
    while i < fonts.len()
        invariant
            i <= fonts.len(),
            values@.len() == i,
            forall|j: int| 0 <= j < i ==> (#[trigger] fonts@[j]).load_failure() is None,
            forall|j: int| 0 <= j < i ==> values@[j] == font_units_per_em(#[trigger] fonts@[j]),
        decreases fonts.len() - i,
    {
        let font = match open_font(&fonts[i]) {
            Ok(font) => font,
            Err(error) => {
                assert(first_load_failure(fonts@, i as int));
                return Err(error);
            },
        };
        values.push(resolve_units_per_em(head_units_per_em(&font)));
        i += 1;
    }
    Ok(values)
}

/// The weight class of each font, in the order given, each in 1..=1000.
/// Fails with the error of the first file that cannot be loaded.
pub fn weight_classes(fonts: Vec<FontFile>) -> (result: Result<Vec<u16>, CoordinateError>)
    ensures
        match result {
            Ok(values) => {
                &&& all_load(fonts@)
                &&& is_weight_classes_of(fonts@, values@)
                &&& forall|i: int| 0 <= i < values@.len() ==> 1 <= #[trigger] values@[i] <= 1000
            },
            Err(error) => is_load_error(fonts@, error),
        },
{
    let mut values: Vec<u16> = Vec::with_capacity(fonts.len());
    let mut i: usize = 0;
    while i < fonts.len()
        invariant
            i <= fonts.len(),
            values@.len() == i,
            forall|j: int| 0 <= j < i ==> (#[trigger] fonts@[j]).load_failure() is None,
            forall|j: int| 0 <= j < i ==> values@[j] == font_weight_class(#[trigger] fonts@[j]),
            forall|j: int| 0 <= j < i ==> 1 <= #[trigger] values@[j] <= 1000,
        decreases fonts.len() - i,
    {
        let font = match open_font(&fonts[i]) {
            Ok(font) => font,
            Err(error) => {
                assert(first_load_failure(fonts@, i as int));
                return Err(error);
            },
        };
        values.push(weight_class_from_bits(weight_bits(&font)));
        i += 1;
    }
    Ok(values)
}

} // verus!
