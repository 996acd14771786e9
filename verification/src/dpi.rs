//! Sizes in pixels and the density of the screen.

use vstd::prelude::*;

verus! {

/// A size in physical pixels.
#[derive(Clone, Copy, Debug, PartialEq, Eq, Hash, Structural)]
pub struct PhysicalSize {
    pub width: u32,
    pub height: u32,
}

/// A position in physical pixels.
#[derive(Clone, Copy, Debug, PartialEq, Eq, Hash, Structural)]
pub struct PhysicalPosition {
    pub x: i32,
    pub y: i32,
}

/// What the native window reports of its size; a failed query is negative.
#[derive(Clone, Copy, Debug, PartialEq, Eq, Hash, Structural)]
pub struct NativeWindow {
    pub width: i32,
    pub height: i32,
}

/// The density at which one logical pixel is one physical pixel.
pub const BASE_DPI: u32 = 160;

/// The factor from logical to physical pixels, as `dpi / BASE_DPI`.
#[derive(Clone, Copy, Debug, PartialEq, Eq, Hash, Structural)]
pub struct ScaleFactor {
    pub dpi: u32,
}

/// A signed length read as an unsigned one of the same width: negative lengths
/// wrap around.
pub open spec fn wrapped_length(length: i32) -> int {
    if length >= 0 {
        length as int
    } else {
        length + 0x1_0000_0000
    }
}

/// The size of the native window, or nothing at all while there is none.
pub open spec fn size_of_window(native_window: Option<NativeWindow>) -> PhysicalSize {
    match native_window {
        Some(window) => PhysicalSize {
            width: wrapped_length(window.width) as u32,
            height: wrapped_length(window.height) as u32,
        },
        None => PhysicalSize { width: 0, height: 0 },
    }
}

/// The scale factor of a screen; a screen of unknown density is not scaled.
pub open spec fn scale_of_density(density: Option<u32>) -> ScaleFactor {
    match density {
        Some(dpi) => ScaleFactor { dpi },
        None => ScaleFactor { dpi: BASE_DPI },
    }
}

fn unsigned_length(length: i32) -> (unsigned: u32)
    ensures
        unsigned == wrapped_length(length),
{
    assert(length >= 0 ==> (length as u32) == length) by (bit_vector);
    assert(length < 0 ==> (length as u32) == length + 0x1_0000_0000) by (bit_vector);
    #[verifier::truncate]
    let unsigned: u32 = length as u32;
    unsigned
}

/// See [`size_of_window`].
pub fn window_size(native_window: Option<NativeWindow>) -> (size: PhysicalSize)
    ensures
        size == size_of_window(native_window),
        native_window is None ==> size.width == 0 && size.height == 0,
        native_window matches Some(window) ==> {
            &&& window.width >= 0 ==> size.width == window.width
            &&& window.height >= 0 ==> size.height == window.height
            &&& window.width < 0 ==> size.width == window.width + 0x1_0000_0000
            &&& window.height < 0 ==> size.height == window.height + 0x1_0000_0000
        },
{
    match native_window {
        Some(window) => PhysicalSize {
            width: unsigned_length(window.width),
            height: unsigned_length(window.height),
        },
        None => PhysicalSize { width: 0, height: 0 },
    }
}

/// See [`scale_of_density`].
pub fn scale_factor(density: Option<u32>) -> (scale: ScaleFactor)
    ensures
        scale == scale_of_density(density),
        density matches Some(dpi) ==> scale.dpi == dpi,
        density is None ==> scale.dpi == 160,
{
    match density {
        Some(dpi) => ScaleFactor { dpi },
        None => ScaleFactor { dpi: BASE_DPI },
    }
}

/// The reported size has the window's own width as its width and the window's own
/// height as its height, in whatever orientation; a negative length, which a
/// failed query gives, is read modulo the range of the unsigned number; and
/// without a window the size is empty.
pub proof fn law_size_is_that_of_the_window(window: NativeWindow)
    ensures
        window.width >= 0 ==> size_of_window(Some(window)).width == window.width,
        window.height >= 0 ==> size_of_window(Some(window)).height == window.height,
        window.width < 0 ==> size_of_window(Some(window)).width == window.width + 0x1_0000_0000,
        window.height < 0 ==> size_of_window(Some(window)).height == window.height
            + 0x1_0000_0000,
        size_of_window(None).width == 0 && size_of_window(None).height == 0,
{
}

/// A window that is turned has its sides exchanged, and so has its reported size.
pub proof fn law_turned_window_has_sides_exchanged(window: NativeWindow, turned: NativeWindow)
    requires
        turned.width == window.height,
        turned.height == window.width,
    ensures
        size_of_window(Some(turned)).width == size_of_window(Some(window)).height,
        size_of_window(Some(turned)).height == size_of_window(Some(window)).width,
{
}

/// Windows of different sizes are reported with different sizes.
pub proof fn law_sizes_are_told_apart(a: NativeWindow, b: NativeWindow)
    requires
        size_of_window(Some(a)) == size_of_window(Some(b)),
    ensures
        a == b,
{
}

/// The scale factor is that of the density, a logical pixel being one of 160 to
/// the inch; where the density is not known, logical and physical pixels agree.
pub proof fn law_scale_is_that_of_the_density(dpi: u32)
    ensures
        scale_of_density(Some(dpi)).dpi == dpi,
        scale_of_density(None).dpi == BASE_DPI,
        BASE_DPI == 160,
{
}

} // verus!
