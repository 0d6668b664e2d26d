use vstd::prelude::*;

verus! {

/// One color sample with 8-bit channels, as the native pixel buffer delivers
/// it (red, green, blue).
#[derive(Clone, Copy, PartialEq, Eq, Structural, Debug)]
pub struct RGB {
    pub r: u8,
    pub g: u8,
    pub b: u8,
}

impl RGB {
    /// The largest of the three channels.
    pub open spec fn spec_max_channel(self) -> u8 {
        if self.r >= self.g && self.r >= self.b {
            self.r
        } else if self.g >= self.b {
            self.g
        } else {
            self.b
        }
    }

    /// The smallest of the three channels.
    pub open spec fn spec_min_channel(self) -> u8 {
        if self.r <= self.g && self.r <= self.b {
            self.r
        } else if self.g <= self.b {
            self.g
        } else {
            self.b
        }
    }

    /// The value channel of the HSV conversion is this maximum scaled by 255;
    /// its saturation is zero exactly when this maximum is zero.
    pub fn max_channel(&self) -> (m: u8)
        ensures
            m == self.spec_max_channel(),
            m >= self.r && m >= self.g && m >= self.b,
            m == self.r || m == self.g || m == self.b,
    {
        let mut m = self.r;
        if self.g > m {
            m = self.g;
        }
        if self.b > m {
            m = self.b;
        }
        m
    }

    /// The saturation of the HSV conversion is `1 - min/max` when the maximum
    /// channel is positive.
    pub fn min_channel(&self) -> (m: u8)
        ensures
            m == self.spec_min_channel(),
            m <= self.r && m <= self.g && m <= self.b,
            m == self.r || m == self.g || m == self.b,
    {
        let mut m = self.r;
        if self.g < m {
            m = self.g;
        }
        if self.b < m {
            m = self.b;
        }
        m
    }

    /// True exactly when the three channels are equal: the degenerate case of
    /// the hue formula, whose denominator is then zero and whose hue is fixed
    /// at zero by convention instead of evaluating the formula.
    pub fn is_achromatic(&self) -> (d: bool)
        ensures
            d <==> (self.r == self.g && self.g == self.b),
    {
        self.r == self.g && self.g == self.b
    }
}

} // verus!
