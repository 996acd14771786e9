//! The screen of the device, which is the only monitor there is.

use vstd::prelude::*;

use crate::dpi;
use crate::dpi::{NativeWindow, PhysicalPosition, PhysicalSize, ScaleFactor};

verus! {

/// The screen of the device, as the application with the handle `app` sees it.
#[derive(Debug, PartialEq, Eq, Hash)]
pub struct MonitorHandle<A> {
    app: A,
}

impl<A: Clone> Clone for MonitorHandle<A> {
    fn clone(&self) -> (other: Self)
        ensures
            vstd::pervasive::strictly_cloned(self.app(), other.app()),
    {
        MonitorHandle { app: self.app.clone() }
    }
}

impl<A: PartialEq> PartialOrd for MonitorHandle<A> {
    fn partial_cmp(&self, other: &Self) -> (order: Option<core::cmp::Ordering>) {
        Some(core::cmp::Ordering::Equal)
    }
}

impl<A: PartialEq> vstd::std_specs::cmp::PartialOrdSpecImpl for MonitorHandle<A> {
    open spec fn obeys_partial_cmp_spec() -> bool {
        true
    }

    open spec fn partial_cmp_spec(&self, other: &Self) -> Option<core::cmp::Ordering> {
        Some(core::cmp::Ordering::Equal)
    }
}

/// The bits per pixel that every screen is taken to have.
pub const BIT_DEPTH: u16 = 32;

/// The refresh rate that every screen is taken to have, in thousandths of a hertz.
pub const REFRESH_RATE_MILLIHERTZ: u32 = 60000;

impl<A> MonitorHandle<A> {
    /// The handle to the application that the screen is seen by.
    pub closed spec fn app(&self) -> A {
        self.app
    }

    /// The screen that the application with the handle `app` is shown on.
    pub fn new(app: A) -> (monitor: Self)
        ensures
            monitor.app() == app,
    {
        MonitorHandle { app }
    }

    /// The handle to the application that the screen is seen by.
    pub fn android_app(&self) -> (app: &A)
        ensures
            *app == self.app(),
    {
        &self.app
    }

    /// A name for users to read.
    pub fn name(&self) -> (name: Option<String>)
        ensures
            name matches Some(text) && text@ == "Android Device"@,
    {
        Some("Android Device".to_owned())
    }

    /// The size of the screen, which is that of the native window.
    pub fn size(&self, native_window: Option<NativeWindow>) -> (size: PhysicalSize)
        ensures
            size == dpi::size_of_window(native_window),
    {
        dpi::window_size(native_window)
    }

    /// Where the screen is among all screens.
    pub fn position(&self) -> (position: PhysicalPosition)
        ensures
            position == (PhysicalPosition { x: 0, y: 0 }),
    {
        PhysicalPosition { x: 0, y: 0 }
    }

    /// The scale factor of the screen, by its density.
    pub fn scale_factor(&self, density: Option<u32>) -> (scale: ScaleFactor)
        ensures
            scale == dpi::scale_of_density(density),
    {
        dpi::scale_factor(density)
    }

    /// The refresh rate, which cannot be found out.
    pub fn refresh_rate_millihertz(&self) -> (rate: Option<u32>)
        ensures
            rate is None,
    {
        None
    }

    /// The modes that the screen can be in: the one that it is in.
    pub fn video_modes(&self, native_window: Option<NativeWindow>) -> (modes: Vec<VideoMode<A>>)
        where A: Clone
        ensures
            modes@.len() == 1,
            modes@[0] == VideoMode::of_window(native_window, modes@[0].screen()),
            vstd::pervasive::strictly_cloned(self.app(), modes@[0].screen().app()),
    {
        let size = dpi::window_size(native_window);
        let mut modes: Vec<VideoMode<A>> = Vec::new();
        modes.push(
            VideoMode {
                size: (size.width, size.height),
                bit_depth: BIT_DEPTH,
                refresh_rate_millihertz: REFRESH_RATE_MILLIHERTZ,
                monitor: self.clone(),
            },
        );
        modes
    }
}

/// A mode that a screen can be in.
#[derive(Debug, Eq, Hash, PartialEq)]
pub struct VideoMode<A> {
    size: (u32, u32),
    bit_depth: u16,
    refresh_rate_millihertz: u32,
    monitor: MonitorHandle<A>,
}

impl<A: Clone> Clone for VideoMode<A> {
    fn clone(&self) -> (other: Self)
        ensures
            other.dimensions() == self.dimensions(),
            other.depth() == self.depth(),
            other.rate() == self.rate(),
            vstd::pervasive::strictly_cloned(self.screen().app(), other.screen().app()),
    {
        VideoMode {
            size: self.size,
            bit_depth: self.bit_depth,
            refresh_rate_millihertz: self.refresh_rate_millihertz,
            monitor: self.monitor.clone(),
        }
    }
}

impl<A> VideoMode<A> {
    /// The mode of `screen`, which shows `native_window`.
    pub closed spec fn of_window(
        native_window: Option<NativeWindow>,
        screen: MonitorHandle<A>,
    ) -> Self {
        VideoMode {
            size: (
                dpi::size_of_window(native_window).width,
                dpi::size_of_window(native_window).height,
            ),
            bit_depth: BIT_DEPTH,
            refresh_rate_millihertz: REFRESH_RATE_MILLIHERTZ,
            monitor: screen,
        }
    }

    /// The size in pixels.
    pub closed spec fn dimensions(self) -> PhysicalSize {
        PhysicalSize { width: self.size.0, height: self.size.1 }
    }

    /// The bits per pixel.
    pub closed spec fn depth(self) -> u16 {
        self.bit_depth
    }

    /// The refresh rate, in thousandths of a hertz.
    pub closed spec fn rate(self) -> u32 {
        self.refresh_rate_millihertz
    }

    /// The screen that the mode is of.
    pub closed spec fn screen(self) -> MonitorHandle<A> {
        self.monitor
    }

    /// A mode of a screen has the size of the window, and the depth and the rate
    /// that every screen is taken to have.
    pub proof fn law_mode_of_window(
        native_window: Option<NativeWindow>,
        screen: MonitorHandle<A>,
    )
        ensures
            Self::of_window(native_window, screen).dimensions() == dpi::size_of_window(
                native_window,
            ),
            Self::of_window(native_window, screen).depth() == BIT_DEPTH,
            Self::of_window(native_window, screen).rate() == REFRESH_RATE_MILLIHERTZ,
            Self::of_window(native_window, screen).screen() == screen,
            BIT_DEPTH == 32 && REFRESH_RATE_MILLIHERTZ == 60000,
            native_window matches Some(window) ==> {
                &&& window.width >= 0 ==> Self::of_window(native_window, screen).dimensions().width
                    == window.width
                &&& window.height >= 0 ==> Self::of_window(
                    native_window,
                    screen,
                ).dimensions().height == window.height
            },
    {
    }

    /// The size in pixels.
    pub fn size(&self) -> (size: PhysicalSize)
        ensures
            size == self.dimensions(),
    {
        PhysicalSize { width: self.size.0, height: self.size.1 }
    }

    /// The bits per pixel.
    pub fn bit_depth(&self) -> (depth: u16)
        ensures
            depth == self.depth(),
    {
        self.bit_depth
    }

    /// The refresh rate, in thousandths of a hertz.
    pub fn refresh_rate_millihertz(&self) -> (rate: u32)
        ensures
            rate == self.rate(),
    {
        self.refresh_rate_millihertz
    }

    /// The screen that the mode is of.
    pub fn monitor(&self) -> (monitor: MonitorHandle<A>)
        where A: Clone
        ensures
            vstd::pervasive::strictly_cloned(self.screen().app(), monitor.app()),
    {
        self.monitor.clone()
    }
}

/// No screen comes before another.
pub proof fn law_screens_are_equal_in_order<A: PartialEq>(a: MonitorHandle<A>, b: MonitorHandle<A>)
    ensures
        vstd::std_specs::cmp::PartialOrdSpec::partial_cmp_spec(&a, &b) == Some(
            core::cmp::Ordering::Equal,
        ),
{
}

} // verus!
