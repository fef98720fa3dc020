use vstd::prelude::*;

verus! {

/// A two-level pixel: off or on.
#[derive(Clone, Copy, Debug, PartialEq, Eq, Structural)]
pub enum TwoBitPixel {
    Zero,
    One,
}

impl Default for TwoBitPixel {
    fn default() -> (r: Self)
        ensures
            r == TwoBitPixel::Zero,
    {
        TwoBitPixel::Zero
    }
}

impl From<bool> for TwoBitPixel {
    fn from(value: bool) -> (r: Self)
        ensures
            r == (if value {
                TwoBitPixel::One
            } else {
                TwoBitPixel::Zero
            }),
    {
        if value {
            TwoBitPixel::One
        } else {
            TwoBitPixel::Zero
        }
    }
}

impl vstd::std_specs::convert::FromSpecImpl<bool> for TwoBitPixel {
    open spec fn obeys_from_spec() -> bool {
        true
    }

    open spec fn from_spec(value: bool) -> Self {
        if value {
            TwoBitPixel::One
        } else {
            TwoBitPixel::Zero
        }
    }
}

/// A 24-bit color pixel.
#[derive(Clone, Copy, Debug, PartialEq, Eq, Structural)]
pub struct RGBPixel {
    r: u8,
    g: u8,
    b: u8,
}

impl RGBPixel {
    /// The red channel.
    pub closed spec fn spec_r(&self) -> u8 {
        self.r
    }

    /// The green channel.
    pub closed spec fn spec_g(&self) -> u8 {
        self.g
    }

    /// The blue channel.
    pub closed spec fn spec_b(&self) -> u8 {
        self.b
    }

    pub fn r(&self) -> (v: u8)
        ensures
            v == self.spec_r(),
    {
        self.r
    }

    pub fn g(&self) -> (v: u8)
        ensures
            v == self.spec_g(),
    {
        self.g
    }

    pub fn b(&self) -> (v: u8)
        ensures
            v == self.spec_b(),
    {
        self.b
    }

    /// A color from its channels.
    pub fn from_channels(r: u8, g: u8, b: u8) -> (p: Self)
        ensures
            p.spec_r() == r,
            p.spec_g() == g,
            p.spec_b() == b,
    {
        RGBPixel { r, g, b }
    }

    pub fn white() -> (p: Self)
        ensures
            p.spec_r() == 0xff && p.spec_g() == 0xfa && p.spec_b() == 0xf6,
    {
        RGBPixel { r: 0xff, g: 0xfa, b: 0xf6 }
    }

    pub fn black() -> (p: Self)
        ensures
            p.spec_r() == 0x4c && p.spec_g() == 0x4c && p.spec_b() == 0x73,
    {
        RGBPixel { r: 0x4c, g: 0x4c, b: 0x73 }
    }

    pub fn red() -> (p: Self)
        ensures
            p.spec_r() == 0xf0 && p.spec_g() == 0x65 && p.spec_b() == 0x19,
    {
        RGBPixel { r: 0xf0, g: 0x65, b: 0x19 }
    }

    pub fn green() -> (p: Self)
        ensures
            p.spec_r() == 0x66 && p.spec_g() == 0xae && p.spec_b() == 0x33,
    {
        RGBPixel { r: 0x66, g: 0xae, b: 0x33 }
    }

    pub fn blue() -> (p: Self)
        ensures
            p.spec_r() == 0x66 && p.spec_g() == 0x59 && p.spec_b() == 0xfa,
    {
        RGBPixel { r: 0x66, g: 0x59, b: 0xfa }
    }
}

impl Default for RGBPixel {
    /// The default color is the black of this palette.
    fn default() -> (r: Self)
        ensures
            r.spec_r() == 0x4c && r.spec_g() == 0x4c && r.spec_b() == 0x73,
    {
        Self::black()
    }
}

} // verus!
