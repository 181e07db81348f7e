//! Calibration: from raw counts to physical units.
//!
//! A reading of `raw` counts stands for `raw * scale_factor / counts_per_unit`
//! newtons (force) or newton-metres (torque). The library keeps that value as
//! an exact fraction and leaves the one rounding division to whoever wants a
//! floating-point number.

use vstd::prelude::*;

verus! {

/// A physical value as the exact fraction `numerator / denominator`.
///
/// Equality is that of the two fields, not of the fractions' values.
#[derive(Clone, Copy, Debug, PartialEq, Eq)]
pub struct Quantity {
    pub numerator: i64,
    pub denominator: u32,
}

/// The four calibration scalars of a transducer.
#[derive(Clone, Copy, Debug, PartialEq, Eq)]
pub struct Calibration {
    pub scale_factors_force: u32,
    pub scale_factors_torque: u32,
    pub counts_per_force: u32,
    pub counts_per_torque: u32,
}

/// Every integer of smaller magnitude than this, 2^53, is exactly a value of
/// IEEE-754 double precision.
pub open spec fn double_exact_bound() -> int {
    0x20_0000_0000_0000
}

impl Quantity {
    /// The fraction that `raw` counts stand for.
    pub open spec fn scaled(raw: i16, scale_factor: u32, counts_per_unit: u32) -> Quantity {
        Quantity { numerator: (raw * scale_factor) as i64, denominator: counts_per_unit }
    }

    /// Scales a raw reading: the result is `raw * scale_factor` over
    /// `counts_per_unit`, with the product computed exactly.
    pub fn scale(raw: i16, scale_factor: u32, counts_per_unit: u32) -> (quantity: Quantity)
        ensures
            quantity == Quantity::scaled(raw, scale_factor, counts_per_unit),
            quantity.numerator == raw * scale_factor,
            quantity.denominator == counts_per_unit,
    {
        proof {
            lemma_scaling_is_exact(raw, scale_factor, counts_per_unit);
        }
        Quantity { numerator: (raw as i64) * (scale_factor as i64), denominator: counts_per_unit }
    }
}

/// Scaling loses nothing, for every raw reading and every calibration: the
/// numerator is the product `raw * scale_factor` itself, and both it and the
/// denominator are integers that double precision represents exactly. The
/// only rounding on the way to a double is that of the final division.
pub proof fn lemma_scaling_is_exact(raw: i16, scale_factor: u32, counts_per_unit: u32)
    ensures
        Quantity::scaled(raw, scale_factor, counts_per_unit).numerator == raw * scale_factor,
        Quantity::scaled(raw, scale_factor, counts_per_unit).denominator == counts_per_unit,
        -double_exact_bound() < raw * scale_factor < double_exact_bound(),
        counts_per_unit < double_exact_bound(),
{
    assert(-32768 * 0x1_0000_0000 <= raw * scale_factor <= 32768 * 0x1_0000_0000)
        by (nonlinear_arith)
        requires
            -32768 <= raw <= 32767,
            0 <= scale_factor < 0x1_0000_0000,
    ;
}

impl Calibration {
    /// The calibration of the Nano25 as shipped: 15260 over a million counts
    /// per newton, 92 over a million counts per newton-metre.
    pub open spec fn standard() -> Calibration {
        Calibration {
            scale_factors_force: 15260,
            scale_factors_torque: 92,
            counts_per_force: 1_000_000,
            counts_per_torque: 1_000_000,
        }
    }

    /// A calibration is usable when neither counts-per-unit is zero, so that
    /// every fraction it yields has a value.
    pub open spec fn wf(self) -> bool {
        self.counts_per_force > 0 && self.counts_per_torque > 0
    }

    /// The force that `raw` counts stand for, in newtons.
    pub open spec fn force_spec(self, raw: i16) -> Quantity {
        Quantity::scaled(raw, self.scale_factors_force, self.counts_per_force)
    }

    /// The torque that `raw` counts stand for, in newton-metres.
    pub open spec fn torque_spec(self, raw: i16) -> Quantity {
        Quantity::scaled(raw, self.scale_factors_torque, self.counts_per_torque)
    }

    /// Tells whether the calibration is usable.
    pub fn is_valid(&self) -> (valid: bool)
        ensures
            valid == self.wf(),
    {
        self.counts_per_force > 0 && self.counts_per_torque > 0
    }

    /// Scales a raw force reading to newtons.
    pub fn force(&self, raw: i16) -> (quantity: Quantity)
        ensures
            quantity == self.force_spec(raw),
            quantity.numerator == raw * self.scale_factors_force,
            quantity.denominator == self.counts_per_force,
    {
        Quantity::scale(raw, self.scale_factors_force, self.counts_per_force)
    }

    /// Scales a raw torque reading to newton-metres.
    pub fn torque(&self, raw: i16) -> (quantity: Quantity)
        ensures
            quantity == self.torque_spec(raw),
            quantity.numerator == raw * self.scale_factors_torque,
            quantity.denominator == self.counts_per_torque,
    {
        Quantity::scale(raw, self.scale_factors_torque, self.counts_per_torque)
    }
}

impl Default for Calibration {
    /// The calibration of the Nano25 as shipped.
    fn default() -> (calibration: Calibration)
        ensures
            calibration == Calibration::standard(),
            calibration.wf(),
    {
        Calibration {
            scale_factors_force: 15260,
            scale_factors_torque: 92,
            counts_per_force: 1_000_000,
            counts_per_torque: 1_000_000,
        }
    }
}

} // verus!
