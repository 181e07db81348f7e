//! The transducer session, without its byte stream.
//!
//! [`AtiNano25`] holds the calibration and knows the protocol. For each
//! operation it plans the exchange that a transport then carries out, and it
//! turns the reply bytes into a sample in physical units.

use crate::calibration::{lemma_scaling_is_exact, Calibration, Quantity};
use crate::command::{Command, Exchange, Reply};
use crate::sample::{be_i16, be_u16, DecodeError, RawSample};
use vstd::prelude::*;

verus! {

/// Size in bytes of the buffer a transport receives replies into: room for
/// a sample frame and more.
pub const RECEIVE_BUFFER_LEN: usize = 32;

/// A force/torque sample in physical units: forces in newtons, torques in
/// newton-metres, each an exact fraction.
#[derive(Clone, Copy, Debug, PartialEq, Eq)]
pub struct DataFrame {
    pub header: u16,
    pub status: u16,
    pub force_x: Quantity,
    pub force_y: Quantity,
    pub force_z: Quantity,
    pub torque_x: Quantity,
    pub torque_y: Quantity,
    pub torque_z: Quantity,
}

impl DataFrame {
    /// The sample that `raw` stands for under `calibration`: header and
    /// status as they are, the three forces and the three torques scaled.
    pub open spec fn scaled(calibration: Calibration, raw: RawSample) -> DataFrame {
        DataFrame {
            header: raw.header,
            status: raw.status,
            force_x: calibration.force_spec(raw.force_x),
            force_y: calibration.force_spec(raw.force_y),
            force_z: calibration.force_spec(raw.force_z),
            torque_x: calibration.torque_spec(raw.torque_x),
            torque_y: calibration.torque_spec(raw.torque_y),
            torque_z: calibration.torque_spec(raw.torque_z),
        }
    }

    /// What a reply decodes to under `calibration`.
    pub open spec fn decode_spec(calibration: Calibration, bytes: Seq<u8>) -> Result<
        DataFrame,
        DecodeError,
    > {
        match RawSample::decode_spec(bytes) {
            Ok(raw) => Ok(DataFrame::scaled(calibration, raw)),
            Err(error) => Err(error),
        }
    }

    /// Scales a raw sample.
    pub fn scale(calibration: &Calibration, raw: &RawSample) -> (frame: DataFrame)
        ensures
            frame == DataFrame::scaled(*calibration, *raw),
    {
        DataFrame {
            header: raw.header,
            status: raw.status,
            force_x: calibration.force(raw.force_x),
            force_y: calibration.force(raw.force_y),
            force_z: calibration.force(raw.force_z),
            torque_x: calibration.torque(raw.torque_x),
            torque_y: calibration.torque(raw.torque_y),
            torque_z: calibration.torque(raw.torque_z),
        }
    }
}

/// Every value of a decoded sample is its channel's raw count times the
/// scale factor, over the counts per unit: forces by the force scalars,
/// torques by the torque scalars, for every calibration and every reply of
/// sixteen bytes or more. Header and status are the first two fields as they
/// came.
pub proof fn lemma_decoded_values_are_scaled_counts(calibration: Calibration, bytes: Seq<u8>)
    requires
        bytes.len() >= 16,
    ensures
        DataFrame::decode_spec(calibration, bytes) matches Ok(frame) && {
            &&& frame.header == be_u16(bytes[0], bytes[1])
            &&& frame.status == be_u16(bytes[2], bytes[3])
            &&& frame.force_x.numerator == be_i16(bytes[4], bytes[5])
                * calibration.scale_factors_force
            &&& frame.force_y.numerator == be_i16(bytes[6], bytes[7])
                * calibration.scale_factors_force
            &&& frame.force_z.numerator == be_i16(bytes[8], bytes[9])
                * calibration.scale_factors_force
            &&& frame.torque_x.numerator == be_i16(bytes[10], bytes[11])
                * calibration.scale_factors_torque
            &&& frame.torque_y.numerator == be_i16(bytes[12], bytes[13])
                * calibration.scale_factors_torque
            &&& frame.torque_z.numerator == be_i16(bytes[14], bytes[15])
                * calibration.scale_factors_torque
            &&& frame.force_x.denominator == calibration.counts_per_force
            &&& frame.force_y.denominator == calibration.counts_per_force
            &&& frame.force_z.denominator == calibration.counts_per_force
            &&& frame.torque_x.denominator == calibration.counts_per_torque
            &&& frame.torque_y.denominator == calibration.counts_per_torque
            &&& frame.torque_z.denominator == calibration.counts_per_torque
        },
{
    let raw = RawSample::of_bytes(bytes);
    lemma_scaling_is_exact(
        raw.force_x,
        calibration.scale_factors_force,
        calibration.counts_per_force,
    );
    lemma_scaling_is_exact(
        raw.force_y,
        calibration.scale_factors_force,
        calibration.counts_per_force,
    );
    lemma_scaling_is_exact(
        raw.force_z,
        calibration.scale_factors_force,
        calibration.counts_per_force,
    );
    lemma_scaling_is_exact(
        raw.torque_x,
        calibration.scale_factors_torque,
        calibration.counts_per_torque,
    );
    lemma_scaling_is_exact(
        raw.torque_y,
        calibration.scale_factors_torque,
        calibration.counts_per_torque,
    );
    lemma_scaling_is_exact(
        raw.torque_z,
        calibration.scale_factors_torque,
        calibration.counts_per_torque,
    );
}

/// The protocol side of a session with one transducer.
///
/// Its calibration is fixed when it is made and is always usable.
#[derive(Clone, Copy, Debug, PartialEq, Eq)]
pub struct AtiNano25 {
    calibration: Calibration,
}

impl View for AtiNano25 {
    type V = Calibration;

    closed spec fn view(&self) -> Calibration {
        self.calibration
    }
}

impl AtiNano25 {
    #[verifier::type_invariant]
    spec fn usable(self) -> bool {
        self.calibration.wf()
    }

    /// A session with the calibration of the Nano25 as shipped.
    pub fn new() -> (sensor: AtiNano25)
        ensures
            sensor@ == Calibration::standard(),
    {
        AtiNano25 { calibration: Calibration::default() }
    }

    /// A session with a calibration of the caller's; `None` where a
    /// counts-per-unit is zero.
    pub fn with_calibration(calibration: Calibration) -> (sensor: Option<AtiNano25>)
        ensures
            sensor is Some <==> calibration.wf(),
            sensor matches Some(made) ==> made@ == calibration,
    {
        if calibration.is_valid() {
            Some(AtiNano25 { calibration })
        } else {
            None
        }
    }

    /// The calibration in use.
    pub fn calibration(&self) -> (calibration: Calibration)
        ensures
            calibration == self@,
            calibration.wf(),
    {
        proof {
            use_type_invariant(self);
        }
        self.calibration
    }

    /// Plans zeroing the sensor: the reset frame is written and nothing is
    /// read back.
    pub fn set_zero(&self) -> (exchange: Exchange)
        ensures
            exchange.request@ == Command::ResetForce.frame(),
            exchange.reply == Reply::Nothing,
            !exchange.reply.is_read_spec(),
    {
        Command::ResetForce.exchange()
    }

    /// Plans reading a sample: the read-force frame is written, then a
    /// sample frame is read back, to be handed to [`Self::decode_force`].
    pub fn read_force(&self) -> (exchange: Exchange)
        ensures
            exchange.request@ == Command::ReadForce.frame(),
            exchange.reply == Reply::Sample,
            exchange.reply.is_read_spec(),
            exchange.reply.min_len() == 16,
    {
        Command::ReadForce.exchange()
    }

    /// Plans reading the calibration record: the frame is written, then
    /// whatever one read returns is the record, undecoded.
    pub fn read_calibration_info(&self) -> (exchange: Exchange)
        ensures
            exchange.request@ == Command::ReadCalibrationInfo.frame(),
            exchange.reply == Reply::Raw,
            exchange.reply.is_read_spec(),
    {
        Command::ReadCalibrationInfo.exchange()
    }

    /// Turns the reply to a read-force request into a sample. A reply of
    /// fewer than sixteen bytes is refused; bytes after the sixteenth are
    /// ignored.
    pub fn decode_force(&self, response: &[u8]) -> (result: Result<DataFrame, DecodeError>)
        ensures
            result == DataFrame::decode_spec(self@, response@),
            result is Err <==> response@.len() < 16,
            result matches Err(error) ==> error.received == response@.len(),
            result matches Ok(frame) ==> {
                &&& frame == DataFrame::scaled(self@, RawSample::of_bytes(response@))
                &&& frame.force_x.denominator > 0
                &&& frame.force_y.denominator > 0
                &&& frame.force_z.denominator > 0
                &&& frame.torque_x.denominator > 0
                &&& frame.torque_y.denominator > 0
                &&& frame.torque_z.denominator > 0
            },
    {
        proof {
            use_type_invariant(self);
        }
        match RawSample::decode(response) {
            Ok(raw) => Ok(DataFrame::scale(&self.calibration, &raw)),
            Err(error) => Err(error),
        }
    }
}

} // verus!
