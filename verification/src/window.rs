//! The application's window and the target that windows are made on.

use std::collections::VecDeque;
use std::marker::PhantomData;

use raw_window_handle::{AndroidDisplayHandle, RawDisplayHandle};
use vstd::prelude::*;

use crate::dpi;
use crate::dpi::{NativeWindow, PhysicalPosition, PhysicalSize, ScaleFactor};
use crate::error::{ExternalError, NotSupportedError, OsError};
use crate::event::WindowId;
use crate::flag;
use crate::flag::RedrawRequester;
use crate::monitor::{MonitorHandle, VideoMode};

verus! {

/// [`raw_window_handle::RawDisplayHandle`], carried as it is.
#[verifier::external_type_specification]
#[verifier::external_body]
pub struct ExRawDisplayHandle(raw_window_handle::RawDisplayHandle);

/// Makes the raw handle by `AndroidDisplayHandle::empty`, a value without
/// contents, as a `RawDisplayHandle`. Of the handle itself nothing is claimed.
#[verifier::external_body]
fn raw_handle() -> (handle: RawDisplayHandle) {
    RawDisplayHandle::Android(AndroidDisplayHandle::empty())
}

/// `handle` may come of making the raw handle of the display server.
pub closed spec fn is_display_handle(handle: RawDisplayHandle) -> bool {
    call_ensures(raw_handle, (), handle)
}

fn monitors<A: Clone>(app: &A) -> (monitors: VecDeque<MonitorHandle<A>>)
    ensures
        monitors@.len() == 1,
        vstd::pervasive::strictly_cloned(*app, monitors@[0].app()),
{
    let mut monitors: VecDeque<MonitorHandle<A>> = VecDeque::with_capacity(1);
    monitors.push_back(MonitorHandle::new(app.clone()));
    monitors
}

/// What the handler gets to see of the loop.
#[verifier::reject_recursive_types(T)]
pub struct EventLoopWindowTarget<T, A> {
    app: A,
    redraw_requester: RedrawRequester,
    _marker: PhantomData<T>,
}

impl<T, A> EventLoopWindowTarget<T, A> {
    /// The handle to the application of the loop.
    pub closed spec fn app(&self) -> A {
        self.app
    }

    /// The requester that windows of this target use.
    pub closed spec fn redraw_requester(&self) -> RedrawRequester {
        self.redraw_requester
    }

    /// A target of the application with the handle `app`, whose windows ask for
    /// redraws through `redraw_requester`.
    pub fn new(app: A, redraw_requester: RedrawRequester) -> (target: Self)
        ensures
            target.app() == app,
            target.redraw_requester() == redraw_requester,
    {
        EventLoopWindowTarget { app, redraw_requester, _marker: PhantomData }
    }

    /// The handle to the application of the loop.
    pub fn android_app(&self) -> (app: &A)
        ensures
            *app == self.app(),
    {
        &self.app
    }

    /// The screen of the device, as the application of this loop sees it.
    pub fn primary_monitor(&self) -> (monitor: Option<MonitorHandle<A>>)
        where A: Clone
        ensures
            monitor matches Some(monitor) && vstd::pervasive::strictly_cloned(
                self.app(),
                monitor.app(),
            ),
    {
        Some(MonitorHandle::new(self.app.clone()))
    }

    /// All screens: the one of the device.
    pub fn available_monitors(&self) -> (monitors: VecDeque<MonitorHandle<A>>)
        where A: Clone
        ensures
            monitors@.len() == 1,
            vstd::pervasive::strictly_cloned(self.app(), monitors@[0].app()),
    {
        monitors(&self.app)
    }

    /// The raw handle of the display server.
    pub fn raw_display_handle(&self) -> (handle: RawDisplayHandle)
        ensures
            is_display_handle(handle),
    {
        raw_handle()
    }
}

/// Attributes of windows that only this platform has: there are none.
#[derive(Clone, Copy, Debug, Eq, PartialEq, Structural)]
pub struct PlatformSpecificWindowBuilderAttributes;

impl Default for PlatformSpecificWindowBuilderAttributes {
    fn default() -> (attributes: Self)
        ensures
            attributes == PlatformSpecificWindowBuilderAttributes,
    {
        PlatformSpecificWindowBuilderAttributes
    }
}

/// A fullscreen mode.
#[derive(Clone, Debug, PartialEq, Eq)]
pub enum Fullscreen<A> {
    Exclusive(VideoMode<A>),
    Borderless(Option<MonitorHandle<A>>),
}

/// A theme of window decorations.
#[derive(Clone, Copy, Debug, PartialEq, Eq, Structural)]
pub enum Theme {
    Light,
    Dark,
}

/// The buttons of a window that can be used.
#[derive(Clone, Copy, Debug, PartialEq, Eq, Structural)]
pub struct WindowButtons {
    pub close: bool,
    pub minimize: bool,
    pub maximize: bool,
}

impl WindowButtons {
    /// Every button.
    pub fn all() -> (buttons: Self)
        ensures
            buttons.close && buttons.minimize && buttons.maximize,
    {
        WindowButtons { close: true, minimize: true, maximize: true }
    }
}

/// The application's one window. It is as large as the system makes it and
/// always in front, so most of what windows elsewhere can do has no effect here.
pub struct Window<A> {
    app: A,
    redraw_requester: RedrawRequester,
}

impl<A: Clone> Window<A> {
    /// The handle to the application that the window is of.
    pub closed spec fn app(&self) -> A {
        self.app
    }

    /// The requester that this window uses.
    pub closed spec fn redraw_requester(&self) -> RedrawRequester {
        self.redraw_requester
    }

    /// The window of the loop that `target` belongs to. Requested attributes are
    /// ignored.
    pub fn new<T, W>(
        target: &EventLoopWindowTarget<T, A>,
        _attributes: W,
        _platform_attributes: PlatformSpecificWindowBuilderAttributes,
    ) -> (res: Result<Self, OsError>)
        ensures
            res matches Ok(window) && vstd::pervasive::strictly_cloned(target.app(), window.app())
                && window.redraw_requester().cell() == target.redraw_requester().cell(),
    {
        Ok(
            Window {
                app: target.app.clone(),
                redraw_requester: target.redraw_requester.clone(),
            },
        )
    }

    /// The handle to the application that the window is of.
    pub fn android_app(&self) -> (app: &A)
        ensures
            *app == self.app(),
    {
        &self.app
    }

    /// Calls `f` with the window, on this thread.
    pub fn maybe_queue_on_main<F: FnOnce(&Self)>(&self, f: F)
        requires
            call_requires(f, (self,)),
        ensures
            call_ensures(f, (self,), ()),
    {
        f(self)
    }

    /// Calls `f` with the window, on this thread, and returns what it returns.
    pub fn maybe_wait_on_main<R, F: FnOnce(&Self) -> R>(&self, f: F) -> (res: R)
        requires
            call_requires(f, (self,)),
        ensures
            call_ensures(f, (self,), res),
    {
        f(self)
    }

    /// The identifier of the window.
    pub fn id(&self) -> (id: WindowId)
        ensures
            id == WindowId,
    {
        WindowId
    }

    /// The screen of the device, as the application of this window sees it.
    pub fn primary_monitor(&self) -> (monitor: Option<MonitorHandle<A>>)
        ensures
            monitor matches Some(monitor) && vstd::pervasive::strictly_cloned(
                self.app(),
                monitor.app(),
            ),
    {
        Some(MonitorHandle::new(self.app.clone()))
    }

    /// All screens: the one of the device.
    pub fn available_monitors(&self) -> (monitors: VecDeque<MonitorHandle<A>>)
        ensures
            monitors@.len() == 1,
            vstd::pervasive::strictly_cloned(self.app(), monitors@[0].app()),
    {
        monitors(&self.app)
    }

    /// The screen that shows the window, as the application of the window sees
    /// it.
    pub fn current_monitor(&self) -> (monitor: Option<MonitorHandle<A>>)
        ensures
            monitor matches Some(monitor) && vstd::pervasive::strictly_cloned(
                self.app(),
                monitor.app(),
            ),
    {
        Some(MonitorHandle::new(self.app.clone()))
    }

    /// The scale factor of the screen, by its density.
    pub fn scale_factor(&self, density: Option<u32>) -> (scale: ScaleFactor)
        ensures
            scale == dpi::scale_of_density(density),
    {
        MonitorHandle::new(self.app.clone()).scale_factor(density)
    }

    /// Asks for a redraw; returns whether the main loop has to be woken up for
    /// it (see [`RedrawRequester::request_redraw`]).
    pub fn request_redraw(&self) -> (wake: bool)
        ensures
            exists|outcome: Result<bool, bool>|
                #[trigger] self.redraw_requester().raises(outcome) && wake == flag::newly_raised(
                    outcome,
                ),
    {
        assert(self.redraw_requester() == self.redraw_requester);
        self.redraw_requester.request_redraw()
    }

    /// There is no notice to give before presenting.
    pub fn pre_present_notify(&self) {
    }

    /// Windows have no position.
    pub fn inner_position(&self) -> (res: Result<PhysicalPosition, NotSupportedError>)
        ensures
            res == Err::<PhysicalPosition, _>(NotSupportedError),
    {
        Err(NotSupportedError)
    }

    /// Windows have no position.
    pub fn outer_position(&self) -> (res: Result<PhysicalPosition, NotSupportedError>)
        ensures
            res == Err::<PhysicalPosition, _>(NotSupportedError),
    {
        Err(NotSupportedError)
    }

    /// No effect.
    pub fn set_outer_position<P>(&self, _position: P) {
    }

    /// The size of the window, which is that of the screen.
    pub fn inner_size(&self, native_window: Option<NativeWindow>) -> (size: PhysicalSize)
        ensures
            size == dpi::size_of_window(native_window),
    {
        self.outer_size(native_window)
    }

    /// The size cannot be changed: returns the one that the window has.
    pub fn request_inner_size<S>(&self, _size: S, native_window: Option<NativeWindow>) -> (size:
        Option<PhysicalSize>)
        ensures
            size == Some(dpi::size_of_window(native_window)),
    {
        Some(self.inner_size(native_window))
    }

    /// The size of the window, which is that of the screen.
    pub fn outer_size(&self, native_window: Option<NativeWindow>) -> (size: PhysicalSize)
        ensures
            size == dpi::size_of_window(native_window),
    {
        MonitorHandle::new(self.app.clone()).size(native_window)
    }

    /// No effect.
    pub fn set_min_inner_size<S>(&self, _size: Option<S>) {
    }

    /// No effect.
    pub fn set_max_inner_size<S>(&self, _size: Option<S>) {
    }

    /// There are none.
    pub fn resize_increments(&self) -> (increments: Option<PhysicalSize>)
        ensures
            increments is None,
    {
        None
    }

    /// No effect.
    pub fn set_resize_increments<S>(&self, _increments: Option<S>) {
    }

    /// No effect.
    pub fn set_title(&self, _title: &str) {
    }

    /// No effect.
    pub fn set_transparent(&self, _transparent: bool) {
    }

    /// No effect.
    pub fn set_visible(&self, _visibility: bool) {
    }

    /// Not known.
    pub fn is_visible(&self) -> (visible: Option<bool>)
        ensures
            visible is None,
    {
        None
    }

    /// No effect.
    pub fn set_resizable(&self, _resizeable: bool) {
    }

    /// Never.
    pub fn is_resizable(&self) -> (resizable: bool)
        ensures
            !resizable,
    {
        false
    }

    /// No effect.
    pub fn set_enabled_buttons(&self, _buttons: WindowButtons) {
    }

    /// All of them.
    pub fn enabled_buttons(&self) -> (buttons: WindowButtons)
        ensures
            buttons.close && buttons.minimize && buttons.maximize,
    {
        WindowButtons::all()
    }

    /// No effect.
    pub fn set_minimized(&self, _minimized: bool) {
    }

    /// Not known.
    pub fn is_minimized(&self) -> (minimized: Option<bool>)
        ensures
            minimized is None,
    {
        None
    }

    /// No effect.
    pub fn set_maximized(&self, _maximized: bool) {
    }

    /// Never.
    pub fn is_maximized(&self) -> (maximized: bool)
        ensures
            !maximized,
    {
        false
    }

    /// No effect.
    pub fn set_fullscreen(&self, _mode: Option<Fullscreen<A>>) {
    }

    /// Not in a fullscreen mode.
    pub fn fullscreen(&self) -> (mode: Option<Fullscreen<A>>)
        ensures
            mode is None,
    {
        None
    }

    /// No effect.
    pub fn set_decorations(&self, _decorations: bool) {
    }

    /// Always.
    pub fn is_decorated(&self) -> (decorated: bool)
        ensures
            decorated,
    {
        true
    }

    /// No effect.
    pub fn set_window_level<L>(&self, _level: L) {
    }

    /// No effect.
    pub fn set_window_icon<I>(&self, _window_icon: Option<I>) {
    }

    /// No effect.
    pub fn set_ime_cursor_area<P, S>(&self, _position: P, _size: S) {
    }

    /// No effect.
    pub fn set_ime_allowed(&self, _allowed: bool) {
    }

    /// No effect.
    pub fn set_ime_purpose<P>(&self, _purpose: P) {
    }

    /// No effect.
    pub fn focus_window(&self) {
    }

    /// No effect.
    pub fn request_user_attention<R>(&self, _request_type: Option<R>) {
    }

    /// No effect.
    pub fn set_cursor_icon<C>(&self, _icon: C) {
    }

    /// There is no cursor.
    pub fn set_cursor_position<P>(&self, _position: P) -> (res: Result<(), ExternalError>)
        ensures
            res == Err::<(), _>(ExternalError::NotSupported(NotSupportedError)),
    {
        Err(ExternalError::NotSupported(NotSupportedError))
    }

    /// There is no cursor.
    pub fn set_cursor_grab<M>(&self, _mode: M) -> (res: Result<(), ExternalError>)
        ensures
            res == Err::<(), _>(ExternalError::NotSupported(NotSupportedError)),
    {
        Err(ExternalError::NotSupported(NotSupportedError))
    }

    /// No effect.
    pub fn set_cursor_visible(&self, _visible: bool) {
    }

    /// Windows cannot be moved.
    pub fn drag_window(&self) -> (res: Result<(), ExternalError>)
        ensures
            res == Err::<(), _>(ExternalError::NotSupported(NotSupportedError)),
    {
        Err(ExternalError::NotSupported(NotSupportedError))
    }

    /// Windows cannot be resized.
    pub fn drag_resize_window<D>(&self, _direction: D) -> (res: Result<(), ExternalError>)
        ensures
            res == Err::<(), _>(ExternalError::NotSupported(NotSupportedError)),
    {
        Err(ExternalError::NotSupported(NotSupportedError))
    }

    /// There is no cursor.
    pub fn set_cursor_hittest(&self, _hittest: bool) -> (res: Result<(), ExternalError>)
        ensures
            res == Err::<(), _>(ExternalError::NotSupported(NotSupportedError)),
    {
        Err(ExternalError::NotSupported(NotSupportedError))
    }

    /// The raw handle of the display server.
    pub fn raw_display_handle(&self) -> (handle: RawDisplayHandle)
        ensures
            is_display_handle(handle),
    {
        raw_handle()
    }

    /// No effect.
    pub fn set_theme(&self, _theme: Option<Theme>) {
    }

    /// Not known.
    pub fn theme(&self) -> (theme: Option<Theme>)
        ensures
            theme is None,
    {
        None
    }

    /// Windows have no title.
    pub fn title(&self) -> (title: String)
        ensures
            title@ == Seq::<char>::empty(),
    {
        String::new()
    }

    /// No effect.
    pub fn reset_dead_keys(&self) {
    }
}

} // verus!
