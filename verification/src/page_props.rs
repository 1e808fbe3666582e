//! Page layout of the rendered document: paper size and margins.

use vstd::prelude::*;

verus! {

/// Bit pattern of the IEEE 754 double-precision number `1.0`.
pub const ONE_INCH_BITS: u64 = 0x3FF0_0000_0000_0000;

/// Bit pattern of the IEEE 754 double-precision number `0.0`.
pub const ZERO_INCHES_BITS: u64 = 0;

/// A length in inches.
///
/// The crate never computes with lengths, it only carries them from the
/// caller to the rendering backend. A length is therefore held as the bit
/// pattern of an IEEE 754 double-precision number, which moves through the
/// crate unchanged.
#[derive(Clone, Copy, Debug, PartialEq, Eq, Structural)]
pub struct Inches {
    /// The bit pattern of the length.
    pub bits: u64,
}

impl Inches {
    /// The length with the given bit pattern.
    pub fn from_bits(bits: u64) -> (length: Inches)
        ensures
            length.bits == bits,
    {
        Inches { bits }
    }

    /// The bit pattern of the length.
    pub fn to_bits(&self) -> (bits: u64)
        ensures
            bits == self.bits,
    {
        self.bits
    }

    /// The length of one inch.
    pub fn one() -> (length: Inches)
        ensures
            length.bits == ONE_INCH_BITS,
    {
        Inches { bits: ONE_INCH_BITS }
    }

    /// The length of zero inches.
    pub fn zero() -> (length: Inches)
        ensures
            length.bits == ZERO_INCHES_BITS,
    {
        Inches { bits: ZERO_INCHES_BITS }
    }
}

/// The side of the page a margin belongs to.
#[derive(Clone, Copy, Debug, PartialEq, Eq, Structural)]
pub enum PageMargin {
    Top,
    Bottom,
    Left,
    Right,
}

/// The layout of a page, handed to the rendering backend with each job.
#[derive(Clone, Copy, Debug, PartialEq, Eq, Structural)]
pub struct PageProperties {
    /// Width of the paper.
    pub paper_width: Inches,
    /// Height of the paper.
    pub paper_height: Inches,
    /// Top margin.
    pub margin_top: Inches,
    /// Bottom margin.
    pub margin_bottom: Inches,
    /// Left margin.
    pub margin_left: Inches,
    /// Right margin.
    pub margin_right: Inches,
}

impl PageProperties {
    /// A builder that starts from a paper of one inch by one inch without
    /// margins.
    pub fn builder() -> (builder: PagePropertiesBuilder)
        ensures
            builder.properties() == PagePropertiesBuilder::initial(),
    {
        PagePropertiesBuilder::default()
    }

    /// The margin on the given side.
    pub open spec fn margin(self, direction: PageMargin) -> Inches {
        match direction {
            PageMargin::Top => self.margin_top,
            PageMargin::Bottom => self.margin_bottom,
            PageMargin::Left => self.margin_left,
            PageMargin::Right => self.margin_right,
        }
    }

    /// These properties with the margin on one side replaced.
    pub open spec fn with_margin(self, direction: PageMargin, margin: Inches) -> PageProperties {
        match direction {
            PageMargin::Top => PageProperties { margin_top: margin, ..self },
            PageMargin::Bottom => PageProperties { margin_bottom: margin, ..self },
            PageMargin::Left => PageProperties { margin_left: margin, ..self },
            PageMargin::Right => PageProperties { margin_right: margin, ..self },
        }
    }
}

/// Collects the layout of a page step by step.
pub struct PagePropertiesBuilder {
    paper_width: Inches,
    paper_height: Inches,
    margin_top: Inches,
    margin_bottom: Inches,
    margin_left: Inches,
    margin_right: Inches,
}

impl Default for PagePropertiesBuilder {
    fn default() -> (builder: Self)
        ensures
            builder.properties() == PagePropertiesBuilder::initial(),
    {
        PagePropertiesBuilder {
            paper_width: Inches::one(),
            paper_height: Inches::one(),
            margin_top: Inches::zero(),
            margin_bottom: Inches::zero(),
            margin_left: Inches::zero(),
            margin_right: Inches::zero(),
        }
    }
}

impl PagePropertiesBuilder {
    /// The layout collected so far: what [`build`](Self::build) would return.
    pub closed spec fn properties(&self) -> PageProperties {
        PageProperties {
            paper_width: self.paper_width,
            paper_height: self.paper_height,
            margin_top: self.margin_top,
            margin_bottom: self.margin_bottom,
            margin_left: self.margin_left,
            margin_right: self.margin_right,
        }
    }

    /// A paper of the given size without margins.
    pub open spec fn sized(width: Inches, height: Inches) -> PageProperties {
        PageProperties {
            paper_width: width,
            paper_height: height,
            margin_top: Inches { bits: ZERO_INCHES_BITS },
            margin_bottom: Inches { bits: ZERO_INCHES_BITS },
            margin_left: Inches { bits: ZERO_INCHES_BITS },
            margin_right: Inches { bits: ZERO_INCHES_BITS },
        }
    }

    /// The layout a fresh builder starts from: one inch by one inch, no
    /// margins.
    pub open spec fn initial() -> PageProperties {
        Self::sized(Inches { bits: ONE_INCH_BITS }, Inches { bits: ONE_INCH_BITS })
    }

    /// The collected layout; the builder is used up.
    pub fn build(self) -> (properties: PageProperties)
        ensures
            properties == self.properties(),
    {
        PageProperties {
            paper_width: self.paper_width,
            paper_height: self.paper_height,
            margin_top: self.margin_top,
            margin_bottom: self.margin_bottom,
            margin_left: self.margin_left,
            margin_right: self.margin_right,
        }
    }

    /// A builder for a paper of the given size without margins.
    pub fn from_size(width: Inches, height: Inches) -> (builder: Self)
        ensures
            builder.properties() == Self::sized(width, height),
    {
        PagePropertiesBuilder {
            paper_width: width,
            paper_height: height,
            margin_top: Inches::zero(),
            margin_bottom: Inches::zero(),
            margin_left: Inches::zero(),
            margin_right: Inches::zero(),
        }
    }

    /// Sets the width of the paper and leaves everything else as it was.
    pub fn set_paper_width(&mut self, width: Inches) -> (builder: &mut Self)
        ensures
            builder.properties() == (PageProperties {
                paper_width: width,
                ..old(self).properties()
            }),
            *final(self) == *final(builder),
    {
        self.paper_width = width;
        self
    }

    /// Sets the height of the paper and leaves everything else as it was.
    pub fn set_paper_height(&mut self, height: Inches) -> (builder: &mut Self)
        ensures
            builder.properties() == (PageProperties {
                paper_height: height,
                ..old(self).properties()
            }),
            *final(self) == *final(builder),
    {
        self.paper_height = height;
        self
    }

    /// Sets the margin on one side and leaves everything else as it was.
    pub fn set_margin(&mut self, direction: PageMargin, margin: Inches) -> (builder: &mut Self)
        ensures
            builder.properties() == old(self).properties().with_margin(direction, margin),
            *final(self) == *final(builder),
    {
        match direction {
            PageMargin::Top => self.margin_top = margin,
            PageMargin::Bottom => self.margin_bottom = margin,
            PageMargin::Left => self.margin_left = margin,
            PageMargin::Right => self.margin_right = margin,
        }
        self
    }
}

} // verus!
