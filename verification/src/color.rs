//! Display-side colors with channels clamped to `[0, 1]`.

use vstd::prelude::*;
use crate::fx::{fclamp, fmul, fx_clamp, fx_mul, tdiv, SCALE};

verus! {

/// A color with fixed-point channels held in `[0, 1]` by construction.
#[derive(Clone, Copy, Debug, PartialEq, Eq, Structural)]
pub struct Color {
    pub r: i64,
    pub g: i64,
    pub b: i64,
}

/// One byte channel as a fixed-point fraction of 255.
pub open spec fn spec_u8_channel(v: int) -> int {
    tdiv(v * SCALE, 255)
}

impl Color {
    pub open spec fn wf(self) -> bool {
        &&& 0 <= self.r <= SCALE
        &&& 0 <= self.g <= SCALE
        &&& 0 <= self.b <= SCALE
    }

    pub open spec fn spec_new(r: int, g: int, b: int) -> Color {
        Color {
            r: fclamp(r, 0, SCALE as int) as i64,
            g: fclamp(g, 0, SCALE as int) as i64,
            b: fclamp(b, 0, SCALE as int) as i64,
        }
    }

    /// Channels outside `[0, 1]` are clamped.
    pub fn new(r: i64, g: i64, b: i64) -> (c: Color)
        ensures
            c == Color::spec_new(r as int, g as int, b as int),
            c.wf(),
    {
        Color {
            r: fx_clamp(r, 0, SCALE),
            g: fx_clamp(g, 0, SCALE),
            b: fx_clamp(b, 0, SCALE),
        }
    }

    pub fn from_u8(r: u8, g: u8, b: u8) -> (c: Color)
        ensures
            c == Color::spec_new(
                spec_u8_channel(r as int),
                spec_u8_channel(g as int),
                spec_u8_channel(b as int),
            ),
            c.wf(),
    {
        Color::new(
            (r as i64) * SCALE / 255,
            (g as i64) * SCALE / 255,
            (b as i64) * SCALE / 255,
        )
    }

    /// The color dimmed by an intensity clamped to `[0, 1]`.
    pub fn with_intensity(&self, intensity: i64) -> (c: Color)
        ensures
            ({
                let k = fclamp(intensity as int, 0, SCALE as int);
                c == Color::spec_new(
                    fmul(self.r as int, k),
                    fmul(self.g as int, k),
                    fmul(self.b as int, k),
                )
            }),
            c.wf(),
    {
        let k = fx_clamp(intensity, 0, SCALE);
        Color::new(fx_mul(self.r, k), fx_mul(self.g, k), fx_mul(self.b, k))
    }

    pub fn purple() -> (c: Color)
        ensures
            c == Color::spec_new(
                spec_u8_channel(128),
                spec_u8_channel(0),
                spec_u8_channel(128),
            ),
    {
        Color::from_u8(128, 0, 128)
    }

    pub fn light_purple() -> (c: Color)
        ensures
            c == Color::spec_new(
                spec_u8_channel(210),
                spec_u8_channel(170),
                spec_u8_channel(255),
            ),
    {
        Color::from_u8(210, 170, 255)
    }

    pub fn dark_purple() -> (c: Color)
        ensures
            c == Color::spec_new(
                spec_u8_channel(70),
                spec_u8_channel(40),
                spec_u8_channel(110),
            ),
    {
        Color::from_u8(70, 40, 110)
    }

    pub fn medium_purple() -> (c: Color)
        ensures
            c == Color::spec_new(
                spec_u8_channel(150),
                spec_u8_channel(90),
                spec_u8_channel(210),
            ),
    {
        Color::from_u8(150, 90, 210)
    }

    pub fn black() -> (c: Color)
        ensures
            c == (Color { r: 0, g: 0, b: 0 }),
    {
        Color::new(0, 0, 0)
    }

    pub fn white() -> (c: Color)
        ensures
            c == (Color { r: SCALE, g: SCALE, b: SCALE }),
    {
        Color::new(SCALE, SCALE, SCALE)
    }
}

} // verus!
