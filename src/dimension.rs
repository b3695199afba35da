//! Target sizes: a bounding box to fit into, or a scale divisor.
use vstd::prelude::*;

verus! {

/// Image dimension with a width and a height.
#[derive(Clone, Copy, Debug, PartialEq, Eq, Structural)]
pub struct Dimension {
    width: u32,
    height: u32,
}

impl Dimension {
    pub closed spec fn spec_width(&self) -> u32 {
        self.width
    }

    pub closed spec fn spec_height(&self) -> u32 {
        self.height
    }

    /// Create a new dimension pair.
    pub fn new(width: u32, height: u32) -> (d: Self)
        ensures
            d.width() == width,
            d.height() == height,
    {
        Dimension { width, height }
    }

    /// Get the width value of this dimension.
    #[verifier::when_used_as_spec(spec_width)]
    pub fn width(&self) -> (w: u32)
        ensures
            w == self.spec_width(),
    {
        self.width
    }

    /// Get the height value of this dimension.
    #[verifier::when_used_as_spec(spec_height)]
    pub fn height(&self) -> (h: u32)
        ensures
            h == self.spec_height(),
    {
        self.height
    }
}

/// How an image is sized before it is rendered.
#[derive(Clone, Copy, Debug, PartialEq, Eq, Structural)]
pub enum Sizing {
    /// Resize to exactly this box, but only when the image exceeds it in
    /// width or in height.
    Fit(Dimension),
    /// Divide both sides by this divisor, rounding down; `None` stands for 1.
    Scale(Option<u32>),
}

impl Sizing {
    /// A divisor of zero divides nothing.
    pub open spec fn valid(&self) -> bool {
        match *self {
            Sizing::Scale(Some(d)) => d != 0,
            _ => true,
        }
    }
}

/// Size of a `width` x `height` image after fitting it into `target`.
pub open spec fn fit_target(width: u32, height: u32, target: Dimension) -> (u32, u32) {
    if width > target.width() || height > target.height() {
        (target.width(), target.height())
    } else {
        (width, height)
    }
}

/// Size of a `width` x `height` image after dividing its sides by `divisor`.
pub open spec fn scale_target(width: u32, height: u32, divisor: Option<u32>) -> (u32, u32) {
    match divisor {
        Some(d) => ((width / d) as u32, (height / d) as u32),
        None => (width, height),
    }
}

/// Size of a `width` x `height` image after `sizing`.
pub open spec fn target_of(width: u32, height: u32, sizing: Sizing) -> (u32, u32) {
    match sizing {
        Sizing::Fit(target) => fit_target(width, height, target),
        Sizing::Scale(divisor) => scale_target(width, height, divisor),
    }
}

/// The size that `sizing` gives a `width` x `height` image.
pub fn target_dimension(width: u32, height: u32, sizing: &Sizing) -> (d: Dimension)
    requires
        sizing.valid(),
    ensures
        (d.width(), d.height()) == target_of(width, height, *sizing),
{
    match sizing {
        Sizing::Fit(target) => {
            if width > target.width() || height > target.height() {
                Dimension::new(target.width(), target.height())
            } else {
                Dimension::new(width, height)
            }
        },
        Sizing::Scale(Some(divisor)) => Dimension::new(width / *divisor, height / *divisor),
        Sizing::Scale(None) => Dimension::new(width, height),
    }
}

} // verus!
