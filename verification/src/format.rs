//! The pixel layouts a picture can have.

use vstd::prelude::*;

verus! {

/// Channel layout and sample depth of a picture.
#[derive(Clone, Copy, Debug, PartialEq, Eq, Structural)]
pub enum ColorFormat {
    /// 8-bit luminance.
    L8,
    /// 8-bit luminance and alpha.
    La8,
    /// 8-bit red, green and blue.
    Rgb8,
    /// 8-bit red, green, blue and alpha.
    Rgba8,
    /// 16-bit luminance.
    L16,
    /// 16-bit luminance and alpha.
    La16,
    /// 16-bit red, green and blue.
    Rgb16,
    /// 16-bit red, green, blue and alpha.
    Rgba16,
    /// 32-bit float red, green and blue.
    Rgb32F,
    /// 32-bit float red, green, blue and alpha.
    Rgba32F,
}

impl ColorFormat {
    /// Whether a pixel of this layout holds one luminance sample in place
    /// of red, green and blue.
    pub open spec fn is_luminance(self) -> bool {
        self == ColorFormat::L8 || self == ColorFormat::La8 || self == ColorFormat::L16 || self
            == ColorFormat::La16
    }

    /// Whether a pixel of this layout holds an alpha sample of its own.
    pub open spec fn has_alpha(self) -> bool {
        self == ColorFormat::La8 || self == ColorFormat::Rgba8 || self == ColorFormat::La16 || self
            == ColorFormat::Rgba16 || self == ColorFormat::Rgba32F
    }

    /// Whether every sample of a pixel of this layout has eight bits.
    pub open spec fn has_8_bit_samples(self) -> bool {
        self == ColorFormat::L8 || self == ColorFormat::La8 || self == ColorFormat::Rgb8 || self
            == ColorFormat::Rgba8
    }

    /// Whether a pixel of this layout reads as opaque only if its alpha
    /// sample is at its maximum: the alpha has eight bits, or there is none.
    /// An alpha of 16 bits or a float alpha reads as opaque from a little
    /// below its maximum already.
    pub open spec fn alpha_reads_exactly(self) -> bool {
        !self.has_alpha() || self.has_8_bit_samples()
    }

    /// The layout of the intermediate picture that the grayscale rendering
    /// of a picture of this layout has before it is brought back to `self`:
    /// colour channels collapse into one luminance channel, except for float
    /// samples, which keep their layout.
    pub open spec fn luminance_layout(self) -> ColorFormat {
        match self {
            ColorFormat::L8 | ColorFormat::Rgb8 => ColorFormat::L8,
            ColorFormat::La8 | ColorFormat::Rgba8 => ColorFormat::La8,
            ColorFormat::L16 | ColorFormat::Rgb16 => ColorFormat::L16,
            ColorFormat::La16 | ColorFormat::Rgba16 => ColorFormat::La16,
            ColorFormat::Rgb32F => ColorFormat::Rgb32F,
            ColorFormat::Rgba32F => ColorFormat::Rgba32F,
        }
    }

    /// Whether the grayscale rendering of a picture of this layout has
    /// fewer channels than the picture, so that bringing it back to this
    /// layout takes a new buffer.
    pub open spec fn spec_collapses_in_gray(self) -> bool {
        self.luminance_layout() != self
    }

    /// Whether the grayscale rendering of a picture of this layout has
    /// fewer channels than the picture.
    #[verifier::when_used_as_spec(spec_collapses_in_gray)]
    pub fn collapses_in_gray(self) -> (r: bool)
        ensures
            r == self.spec_collapses_in_gray(),
    {
        match self {
            ColorFormat::Rgb8 | ColorFormat::Rgba8 => true,
            ColorFormat::Rgb16 | ColorFormat::Rgba16 => true,
            _ => false,
        }
    }

    /// The pixel that is read back from a picture of this layout after
    /// `pixel` was written into it. A luminance layout keeps the luminance
    /// in place of the colour, and a layout without alpha reads as opaque;
    /// the samples themselves come back as they went in, whatever their
    /// depth.
    pub open spec fn stored(self, pixel: Pixel) -> Pixel {
        let alpha = if self.has_alpha() {
            pixel.alpha
        } else {
            255u8
        };
        if self.is_luminance() {
            Pixel {
                red: pixel.luminance(),
                green: pixel.luminance(),
                blue: pixel.luminance(),
                alpha,
            }
        } else {
            Pixel { red: pixel.red, green: pixel.green, blue: pixel.blue, alpha }
        }
    }
}

/// One pixel as red, green, blue and alpha samples of eight bits each, the
/// form in which every picture hands out its pixels whatever its layout.
/// An alpha of 255 is fully opaque, an alpha of 0 fully transparent.
pub ghost struct Pixel {
    pub red: u8,
    pub green: u8,
    pub blue: u8,
    pub alpha: u8,
}

impl Pixel {
    /// The luminance of the pixel's colour: 0.2126 of its red, 0.7152 of
    /// its green and 0.0722 of its blue, fractions cut off.
    pub open spec fn luminance(self) -> u8 {
        ((2126 * self.red + 7152 * self.green + 722 * self.blue) / 10000) as u8
    }

    /// The pixel is a shade of gray: it has no colour of its own.
    pub open spec fn is_gray(self) -> bool {
        self.red == self.green && self.green == self.blue
    }

    /// Nothing under the pixel shows through.
    pub open spec fn is_opaque(self) -> bool {
        self.alpha == 255
    }

    /// The pixel itself does not show at all.
    pub open spec fn is_transparent(self) -> bool {
        self.alpha == 0
    }
}

} // verus!
