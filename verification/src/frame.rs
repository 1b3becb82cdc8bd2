//! One frame of a still image or an animation.
use vstd::prelude::*;

use crate::raster::RgbaImage;

verus! {

/// The shortest frame delay, in milliseconds, that a frame may carry.
pub const MIN_DELAY_MS: u32 = 10;

/// The delay a frame gets when asked for `delay_ms`: never below the minimum.
pub open spec fn clamped_delay(delay_ms: u32) -> u32 {
    if delay_ms < MIN_DELAY_MS {
        MIN_DELAY_MS
    } else {
        delay_ms
    }
}

/// A frame: an image and how long it is shown, in milliseconds.
pub struct Frame {
    pub image: RgbaImage,
    pub delay_ms: u32,
}

impl Frame {
    /// A frame showing `image` for `delay_ms`, raised to the minimum delay when shorter.
    pub fn new(image: RgbaImage, delay_ms: u32) -> (f: Frame)
        ensures
            f.image == image,
            f.delay_ms == clamped_delay(delay_ms),
            f.delay_ms >= MIN_DELAY_MS,
    {
        let delay_ms = if delay_ms < MIN_DELAY_MS {
            MIN_DELAY_MS
        } else {
            delay_ms
        };
        Frame { image, delay_ms }
    }

    /// Width and height of the frame's image.
    pub fn dimensions(&self) -> (d: (u32, u32))
        ensures
            d.0 == self.image.spec_width(),
            d.1 == self.image.spec_height(),
            self.image.well_formed(),
    {
        self.image.dimensions()
    }

    /// Width of the frame's image.
    pub fn width(&self) -> (w: u32)
        ensures
            w == self.image.spec_width(),
    {
        self.image.width()
    }

    /// Height of the frame's image.
    pub fn height(&self) -> (h: u32)
        ensures
            h == self.image.spec_height(),
    {
        self.image.height()
    }

    /// Replaces the image and keeps the delay.
    pub fn update_image(&mut self, new_image: RgbaImage)
        ensures
            final(self).image == new_image,
            final(self).delay_ms == old(self).delay_ms,
    {
        self.image = new_image;
    }

    /// An independent copy of the frame.
    pub fn duplicate(&self) -> (copy: Frame)
        ensures
            copy.delay_ms == self.delay_ms,
            copy.image.same_size(&self.image),
            copy.image.spec_pixels() == self.image.spec_pixels(),
            copy.image.well_formed(),
    {
        Frame { image: self.image.duplicate(), delay_ms: self.delay_ms }
    }
}

} // verus!
