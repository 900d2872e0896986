//! The geometry of the window's drawing area.
use vstd::prelude::*;

verus! {

/// The bit pattern of the binary64 number one: the scale factor of a screen
/// for which the window system has not reported another.
pub const UNIT_SCALE: u64 = 0x3FF0_0000_0000_0000;

/// What a [`Screen`] stands for.
pub struct ScreenView {
    /// Width in physical pixels.
    pub width: u32,
    /// Height in physical pixels.
    pub height: u32,
    /// The scale factor, as the bit pattern of a binary64 number.
    pub scale: u64,
}

/// A snapshot of the drawing area: its size in physical pixels and the
/// factor by which logical coordinates are scaled to reach them.
///
/// The logical size is the physical size divided by the scale factor. That
/// division is floating-point arithmetic and is left to the embedding
/// program; this type keeps the two operands exact.
#[derive(Debug, Clone, Copy, PartialEq, Eq)]
pub struct Screen {
    phy_width: u32,
    phy_height: u32,
    scale_factor: u64,
}

impl View for Screen {
    type V = ScreenView;

    closed spec fn view(&self) -> ScreenView {
        ScreenView { width: self.phy_width, height: self.phy_height, scale: self.scale_factor }
    }
}

impl Screen {
    /// The screen that stands for `v`.
    pub closed spec fn of(v: ScreenView) -> Screen {
        Screen { phy_width: v.width, phy_height: v.height, scale_factor: v.scale }
    }

    /// A screen of the given physical size with scale factor one.
    pub open spec fn spec_unscaled(width: u32, height: u32) -> Screen {
        Screen::of(ScreenView { width, height, scale: UNIT_SCALE })
    }

    /// This screen at another physical size, the scale factor kept.
    pub open spec fn spec_resized(self, width: u32, height: u32) -> Screen {
        Screen::of(ScreenView { width, height, scale: self@.scale })
    }

    /// Whether this screen has exactly the given physical size.
    pub open spec fn spec_has_size(self, width: u32, height: u32) -> bool {
        self@.width == width && self@.height == height
    }

    /// `of` and the view are inverse to each other, so a screen is known by
    /// its view.
    pub proof fn lemma_view(v: ScreenView, s: Screen)
        ensures
            Screen::of(v)@ == v,
            Screen::of(s@) == s,
    {
    }

    /// A screen from its physical size and the bit pattern of its scale
    /// factor.
    pub fn new(width: u32, height: u32, scale: u64) -> (r: Screen)
        ensures
            r == Screen::of(ScreenView { width, height, scale }),
    {
        Screen { phy_width: width, phy_height: height, scale_factor: scale }
    }

    /// A screen of the given physical size with scale factor one.
    pub fn unscaled(width: u32, height: u32) -> (r: Screen)
        ensures
            r == Screen::spec_unscaled(width, height),
    {
        Screen { phy_width: width, phy_height: height, scale_factor: UNIT_SCALE }
    }

    /// This screen at another physical size, the scale factor kept.
    pub fn resized(self, width: u32, height: u32) -> (r: Screen)
        ensures
            r == self.spec_resized(width, height),
    {
        Screen { phy_width: width, phy_height: height, scale_factor: self.scale_factor }
    }

    /// The size in physical pixels, width first.
    pub fn physical_size(&self) -> (r: (u32, u32))
        ensures
            r == (self@.width, self@.height),
    {
        (self.phy_width, self.phy_height)
    }

    /// Whether this screen has exactly the given physical size.
    pub fn has_size(&self, width: u32, height: u32) -> (r: bool)
        ensures
            r == self.spec_has_size(width, height),
    {
        self.phy_width == width && self.phy_height == height
    }

    /// The screen scale factor, as the bit pattern of a binary64 number
    /// (two on a typical high-density display).
    pub fn scale(&self) -> (r: u64)
        ensures
            r == self@.scale,
    {
        self.scale_factor
    }
}

} // verus!
