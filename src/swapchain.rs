//! Swapchain configuration derived from a window size.
use vstd::prelude::*;

verus! {

/// A window's drawable area in physical pixels.
#[derive(Clone, Copy, Debug, PartialEq, Eq, Structural)]
pub struct Size {
    pub width: u32,
    pub height: u32,
}

impl Size {
    /// A size with the given width and height.
    pub fn new(width: u32, height: u32) -> (r: Size)
        ensures
            r.width == width,
            r.height == height,
    {
        Size { width, height }
    }

    /// A size covers no pixel when either side is zero (a minimised window).
    pub open spec fn spec_is_zero_area(&self) -> bool {
        self.width == 0 || self.height == 0
    }

    /// Whether either side is zero.
    #[verifier::when_used_as_spec(spec_is_zero_area)]
    pub fn is_zero_area(&self) -> (r: bool)
        ensures
            r == self.spec_is_zero_area(),
    {
        self.width == 0 || self.height == 0
    }
}

/// Pixel format of the presented images.
#[derive(Clone, Copy, Debug, PartialEq, Eq, Structural)]
pub enum TextureFormat {
    Bgra8UnormSrgb,
}

/// How finished frames are handed to the display.
#[derive(Clone, Copy, Debug, PartialEq, Eq, Structural)]
pub enum PresentMode {
    /// Wait for the display's vertical blank (vsync).
    Fifo,
}

/// What the presented images are used for.
#[derive(Clone, Copy, Debug, PartialEq, Eq, Structural)]
pub enum TextureUsage {
    /// Written as a render pass's color attachment.
    OutputAttachment,
}

/// The format every swapchain and the pipeline's color target use.
pub const SWAPCHAIN_FORMAT: TextureFormat = TextureFormat::Bgra8UnormSrgb;

/// The settings a swapchain is created with.
#[derive(Clone, Copy, Debug, PartialEq, Eq, Structural)]
pub struct SwapchainConfig {
    pub usage: TextureUsage,
    pub format: TextureFormat,
    pub width: u32,
    pub height: u32,
    pub present_mode: PresentMode,
}

/// The swapchain configuration for a window of size `size`: its pixel size,
/// the fixed presentation format and vsync presentation.
pub open spec fn config_for(size: Size) -> SwapchainConfig {
    SwapchainConfig {
        usage: TextureUsage::OutputAttachment,
        format: SWAPCHAIN_FORMAT,
        width: size.width,
        height: size.height,
        present_mode: PresentMode::Fifo,
    }
}

/// Builds the swapchain configuration for a window of size `size`.
pub fn create_swapchain(size: Size) -> (r: SwapchainConfig)
    ensures
        r == config_for(size),
{
    SwapchainConfig {
        usage: TextureUsage::OutputAttachment,
        format: SWAPCHAIN_FORMAT,
        width: size.width,
        height: size.height,
        present_mode: PresentMode::Fifo,
    }
}

} // verus!
