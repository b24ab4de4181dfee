//! The factory calibration of the sensor and the conversion of raw readings.
//!
//! The sensor stores two reference points for each quantity: a raw output
//! and the physical value it stands for. A reading is converted by the
//! straight line through the two points. All values are integers: physical
//! values are in thousandths of their unit, and the conversion rounds down.

use crate::driver::sensor::hts221::register::{byte, byte_at, decode_word, word};
use vstd::arithmetic::div_mod::lemma_div_nonincreasing;
use vstd::arithmetic::div_mod::lemma_div_pos_is_pos;
use vstd::arithmetic::div_mod::lemma_fundamental_div_mod;
use vstd::arithmetic::div_mod::lemma_fundamental_div_mod_converse;
use vstd::arithmetic::div_mod::lemma_mod_bound;
use vstd::prelude::*;

verus! {

/// The value at `x` of the straight line through `(x0, y0)` and `(x1, y1)`,
/// rounded down to an integer. The two points differ in `x`.
pub open spec fn interpolate(x: int, x0: int, x1: int, y0: int, y1: int) -> int {
    if x1 > x0 {
        y0 + ((y1 - y0) * (x - x0)) / (x1 - x0)
    } else {
        y0 + ((y0 - y1) * (x - x0)) / (x0 - x1)
    }
}

/// `numerator / denominator` rounded down, for a positive denominator.
fn floor_div(numerator: i64, denominator: i64) -> (quotient: i64)
    requires
        0 < denominator <= 0x1_0000,
        -0x4_0000_0000_0000 <= numerator <= 0x4_0000_0000_0000,
    ensures
        quotient == numerator as int / denominator as int,
        -0x5_0000_0000_0000 <= quotient <= 0x5_0000_0000_0000,
{
    if numerator >= 0 {
        proof {
            lemma_div_nonincreasing(numerator as int, denominator as int);
            lemma_div_pos_is_pos(numerator as int, denominator as int);
        }
        numerator / denominator
    } else {
        let magnitude: i64 = -numerator;
        let up: i64 = (magnitude + (denominator - 1)) / denominator;
        proof {
            let n: int = numerator as int;
            let d: int = denominator as int;
            let s: int = magnitude as int + d - 1;
            lemma_div_nonincreasing(s, d);
            lemma_div_pos_is_pos(s, d);
            lemma_fundamental_div_mod(s, d);
            lemma_mod_bound(s, d);
            let r: int = d - 1 - (s % d);
            assert(d * (s / d) == s - s % d);
            assert(n == d * (-(s / d)) + r) by (nonlinear_arith)
                requires
                    d * (s / d) == s - s % d,
                    s == -n + d - 1,
                    r == d - 1 - (s % d),
            ;
            lemma_fundamental_div_mod_converse(n, d, -(s / d), r);
        }
        -up
    }
}

/// Interpolates between two reference points in sixteen-bit raw outputs.
fn interpolate_raw(x: i16, x0: i16, x1: i16, y0: i64, y1: i64) -> (y: i64)
    requires
        x0 != x1,
        0 <= y0 <= 1_000_000,
        0 <= y1 <= 1_000_000,
    ensures
        y == interpolate(x as int, x0 as int, x1 as int, y0 as int, y1 as int),
{
    let run: i64 = x as i64 - x0 as i64;
    if x1 > x0 {
        let span: i64 = x1 as i64 - x0 as i64;
        let rise: i64 = y1 - y0;
        assert(-0x4_0000_0000_0000 <= rise * run <= 0x4_0000_0000_0000) by (nonlinear_arith)
            requires
                -1_000_000 <= rise <= 1_000_000,
                -0x1_0000 <= run <= 0x1_0000,
        ;
        y0 + floor_div(rise * run, span)
    } else {
        let span: i64 = x0 as i64 - x1 as i64;
        let fall: i64 = y0 - y1;
        assert(-0x4_0000_0000_0000 <= fall * run <= 0x4_0000_0000_0000) by (nonlinear_arith)
            requires
                -1_000_000 <= fall <= 1_000_000,
                -0x1_0000 <= run <= 0x1_0000,
        ;
        y0 + floor_div(fall * run, span)
    }
}

/// The calibration that the factory stored in the sensor.
#[derive(Copy, Clone, Debug, PartialEq, Eq, Structural)]
pub struct Calibration {
    /// Relative humidity at the first reference point, in half percents.
    pub h0_rh_x2: u8,
    /// Relative humidity at the second reference point, in half percents.
    pub h1_rh_x2: u8,
    /// Temperature at the first reference point, in eighths of a degree
    /// Celsius; ten bits.
    pub t0_degc_x8: u16,
    /// Temperature at the second reference point, in eighths of a degree
    /// Celsius; ten bits.
    pub t1_degc_x8: u16,
    /// Raw humidity output at the first reference point.
    pub h0_t0_out: i16,
    /// Raw humidity output at the second reference point.
    pub h1_t0_out: i16,
    /// Raw temperature output at the first reference point.
    pub t0_out: i16,
    /// Raw temperature output at the second reference point.
    pub t1_out: i16,
}

impl Calibration {
    /// The calibration that the sixteen bytes of the calibration block stand
    /// for. The two highest bits of each temperature are packed into the
    /// sixth byte of the block.
    pub open spec fn decode(block: Seq<u8>) -> Calibration {
        Calibration {
            h0_rh_x2: byte_at(block, 0),
            h1_rh_x2: byte_at(block, 1),
            t0_degc_x8: (byte_at(block, 2) + 256 * (byte_at(block, 5) % 4)) as u16,
            t1_degc_x8: (byte_at(block, 3) + 256 * ((byte_at(block, 5) / 4) % 4)) as u16,
            h0_t0_out: word(byte_at(block, 6), byte_at(block, 7)) as i16,
            h1_t0_out: word(byte_at(block, 10), byte_at(block, 11)) as i16,
            t0_out: word(byte_at(block, 12), byte_at(block, 13)) as i16,
            t1_out: word(byte_at(block, 14), byte_at(block, 15)) as i16,
        }
    }

    /// Decodes the calibration block as read from the sensor, starting at
    /// its first register.
    pub fn from_block(block: &[u8]) -> (calibration: Self)
        ensures
            calibration == Self::decode(block@),
    {
        let packed: u8 = byte(block, 5);
        Calibration {
            h0_rh_x2: byte(block, 0),
            h1_rh_x2: byte(block, 1),
            t0_degc_x8: byte(block, 2) as u16 + 256 * ((packed % 4) as u16),
            t1_degc_x8: byte(block, 3) as u16 + 256 * (((packed / 4) % 4) as u16),
            h0_t0_out: decode_word(byte(block, 6), byte(block, 7)),
            h1_t0_out: decode_word(byte(block, 10), byte(block, 11)),
            t0_out: decode_word(byte(block, 12), byte(block, 13)),
            t1_out: decode_word(byte(block, 14), byte(block, 15)),
        }
    }

    /// The temperature, in thousandths of a degree Celsius, that the raw
    /// output `t_out` stands for; `None` where the two reference outputs
    /// coincide, so that no line runs through them.
    pub open spec fn temperature(self, t_out: i16) -> Option<int> {
        if self.t0_out == self.t1_out {
            None
        } else {
            Some(
                interpolate(
                    t_out as int,
                    self.t0_out as int,
                    self.t1_out as int,
                    125 * (self.t0_degc_x8 % 1024),
                    125 * (self.t1_degc_x8 % 1024),
                ),
            )
        }
    }

    /// The relative humidity, in thousandths of a percent, that the raw
    /// output `h_out` stands for; `None` where the two reference outputs
    /// coincide.
    pub open spec fn humidity(self, h_out: i16) -> Option<int> {
        if self.h0_t0_out == self.h1_t0_out {
            None
        } else {
            Some(
                interpolate(
                    h_out as int,
                    self.h0_t0_out as int,
                    self.h1_t0_out as int,
                    500 * self.h0_rh_x2,
                    500 * self.h1_rh_x2,
                ),
            )
        }
    }

    /// Converts a raw temperature output.
    pub fn calibrated_temperature(&self, t_out: i16) -> (temperature: Option<i64>)
        ensures
            match temperature {
                Some(value) => self.temperature(t_out) == Some(value as int),
                None => self.temperature(t_out) is None,
            },
    {
        if self.t0_out == self.t1_out {
            None
        } else {
            let y0: i64 = 125 * ((self.t0_degc_x8 % 1024) as i64);
            let y1: i64 = 125 * ((self.t1_degc_x8 % 1024) as i64);
            Some(interpolate_raw(t_out, self.t0_out, self.t1_out, y0, y1))
        }
    }

    /// Converts a raw humidity output.
    pub fn calibrated_humidity(&self, h_out: i16) -> (humidity: Option<i64>)
        ensures
            match humidity {
                Some(value) => self.humidity(h_out) == Some(value as int),
                None => self.humidity(h_out) is None,
            },
    {
        if self.h0_t0_out == self.h1_t0_out {
            None
        } else {
            let y0: i64 = 500 * (self.h0_rh_x2 as i64);
            let y1: i64 = 500 * (self.h1_rh_x2 as i64);
            Some(interpolate_raw(h_out, self.h0_t0_out, self.h1_t0_out, y0, y1))
        }
    }

    /// A reading at a reference point converts to the value stored for that
    /// point.
    pub proof fn lemma_reference_points(self)
        requires
            self.t0_out != self.t1_out,
            self.h0_t0_out != self.h1_t0_out,
        ensures
            self.temperature(self.t0_out) == Some(125 * (self.t0_degc_x8 % 1024)),
            self.temperature(self.t1_out) == Some(125 * (self.t1_degc_x8 % 1024)),
            self.humidity(self.h0_t0_out) == Some(500 * self.h0_rh_x2 as int),
            self.humidity(self.h1_t0_out) == Some(500 * self.h1_rh_x2 as int),
    {
        lemma_line_through_points(
            self.t0_out as int,
            self.t1_out as int,
            125 * (self.t0_degc_x8 % 1024),
            125 * (self.t1_degc_x8 % 1024),
        );
        lemma_line_through_points(
            self.h0_t0_out as int,
            self.h1_t0_out as int,
            500 * self.h0_rh_x2,
            500 * self.h1_rh_x2,
        );
    }
}

/// The line passes through both of its reference points.
pub proof fn lemma_line_through_points(x0: int, x1: int, y0: int, y1: int)
    requires
        x0 != x1,
    ensures
        interpolate(x0, x0, x1, y0, y1) == y0,
        interpolate(x1, x0, x1, y0, y1) == y1,
{
    if x1 > x0 {
        let d: int = x1 - x0;
        assert(((y1 - y0) * (x0 - x0)) == 0) by (nonlinear_arith);
        lemma_fundamental_div_mod_converse(0, d, 0, 0);
        assert((y1 - y0) * d == d * (y1 - y0) + 0) by (nonlinear_arith);
        lemma_fundamental_div_mod_converse((y1 - y0) * d, d, y1 - y0, 0);
    } else {
        let d: int = x0 - x1;
        assert(((y0 - y1) * (x0 - x0)) == 0) by (nonlinear_arith);
        lemma_fundamental_div_mod_converse(0, d, 0, 0);
        assert((y0 - y1) * (x1 - x0) == d * (y1 - y0) + 0) by (nonlinear_arith)
            requires
                d == x0 - x1,
        ;
        lemma_fundamental_div_mod_converse((y0 - y1) * (x1 - x0), d, y1 - y0, 0);
    }
}

} // verus!
