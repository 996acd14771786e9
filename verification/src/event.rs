//! What the application's handler is told, and what it answers.

use vstd::prelude::*;

use crate::dpi::{PhysicalSize, ScaleFactor};
use crate::time::Instant;

verus! {

/// What the handler wants the loop to do once there is nothing left to dispatch.
#[derive(Clone, Copy, Debug, PartialEq, Eq, Structural)]
pub enum ControlFlow {
    /// Go on at once.
    Poll,
    /// Sleep until something happens.
    Wait,
    /// Sleep until something happens, but no longer than to this point.
    WaitUntil(Instant),
    /// End the loop with this code. There is no way back.
    ExitWithCode(i32),
}

impl Default for ControlFlow {
    fn default() -> (control_flow: Self)
        ensures
            control_flow == ControlFlow::Poll,
    {
        ControlFlow::Poll
    }
}

/// Why an iteration of the loop takes place.
#[derive(Clone, Copy, Debug, PartialEq, Eq, Structural)]
pub enum StartCause {
    /// The loop has just been started.
    Init,
    /// The handler asked for [`ControlFlow::Poll`].
    Poll,
    /// Something happened before the requested point in time.
    WaitCancelled { start: Instant, requested_resume: Option<Instant> },
    /// The requested point in time has come.
    ResumeTimeReached { start: Instant, requested_resume: Instant },
}

/// The one window of the application.
#[derive(Clone, Copy, Debug, Eq, Hash, Ord, PartialEq, PartialOrd, Structural)]
pub struct WindowId;

impl WindowId {
    /// An identifier for tests and placeholders.
    pub fn dummy() -> (id: Self)
        ensures
            id == WindowId,
    {
        WindowId
    }
}

impl From<WindowId> for u64 {
    fn from(id: WindowId) -> (number: Self) {
        0
    }
}

impl vstd::std_specs::convert::FromSpecImpl<WindowId> for u64 {
    open spec fn obeys_from_spec() -> bool {
        true
    }

    open spec fn from_spec(id: WindowId) -> u64 {
        0
    }
}

impl From<u64> for WindowId {
    fn from(number: u64) -> (id: Self) {
        WindowId
    }
}

impl vstd::std_specs::convert::FromSpecImpl<u64> for WindowId {
    open spec fn obeys_from_spec() -> bool {
        true
    }

    open spec fn from_spec(number: u64) -> WindowId {
        WindowId
    }
}

/// The one input device that events are attributed to.
#[derive(Clone, Copy, Debug, Eq, Hash, Ord, PartialEq, PartialOrd, Structural)]
pub struct DeviceId;

impl DeviceId {
    /// An identifier for tests and placeholders.
    pub fn dummy() -> (id: Self)
        ensures
            id == DeviceId,
    {
        DeviceId
    }
}

/// Platform specific data of a key event: there is none.
#[derive(Debug, Clone, Eq, PartialEq, Hash)]
pub struct KeyEventExtra {}

/// What is happening to a finger on the screen.
#[derive(Clone, Copy, Debug, PartialEq, Eq, Hash, Structural)]
pub enum TouchPhase {
    Started,
    Moved,
    Ended,
    Cancelled,
}

/// Where a pointer is, as the bits of the two single precision coordinates
/// that the system reports.
#[derive(Clone, Copy, Debug, PartialEq, Eq, Hash, Structural)]
pub struct Location {
    pub x_bits: u32,
    pub y_bits: u32,
}

/// A touch on the screen.
#[derive(Clone, Copy, Debug, PartialEq, Eq, Structural)]
pub struct Touch {
    pub device_id: DeviceId,
    pub phase: TouchPhase,
    pub location: Location,
    /// The finger, the same from [`TouchPhase::Started`] to [`TouchPhase::Ended`].
    pub id: u64,
    /// The pressure, as the bits of a double, where it is known.
    pub force: Option<u64>,
}

/// Whether a key went down or up.
#[derive(Clone, Copy, Debug, PartialEq, Eq, Hash, Structural)]
pub enum ElementState {
    Pressed,
    Released,
}

/// What the device's character map makes of a key.
#[derive(Clone, Copy, Debug, PartialEq, Eq, Hash, Structural)]
pub enum KeyMapChar {
    /// No printable character.
    Unprintable,
    /// A character.
    Unicode(char),
    /// A dead key, which combines with the next one.
    CombiningAccent(char),
}

/// A key press or release. The physical key, the logical key and the key's
/// location on the keyboard are functions of `keycode` and `key_char`.
#[derive(Clone, Debug, PartialEq, Eq)]
pub struct KeyEvent {
    pub state: ElementState,
    pub keycode: u32,
    pub key_char: Option<KeyMapChar>,
    pub repeat: bool,
    pub text: Option<String>,
    pub platform_specific: KeyEventExtra,
}

/// What happened to the window.
#[derive(Clone, Debug, PartialEq, Eq)]
pub enum WindowEvent {
    Resized(PhysicalSize),
    Focused(bool),
    ScaleFactorChanged { scale_factor: ScaleFactor, new_inner_size: PhysicalSize },
    RedrawRequested,
    Touch(Touch),
    KeyboardInput { device_id: DeviceId, event: KeyEvent, is_synthetic: bool },
}

/// What the handler is called with.
#[derive(Clone, Debug, PartialEq, Eq)]
pub enum Event<T> {
    /// An iteration begins.
    NewEvents(StartCause),
    /// Something happened to the window.
    WindowEvent { window_id: WindowId, event: WindowEvent },
    /// A value that the application sent to itself.
    UserEvent(T),
    /// The window went away.
    Suspended,
    /// The window is there.
    Resumed,
    /// The iteration has nothing left to dispatch.
    AboutToWait,
    /// The loop ends. Nothing follows.
    LoopExiting,
}

/// How a pump of the loop ended.
#[derive(Clone, Copy, Debug, PartialEq, Eq, Structural)]
pub enum PumpStatus {
    Continue,
    Exit(i32),
}

/// Why the loop could not run to a successful end.
#[derive(Clone, Copy, Debug, PartialEq, Eq, Structural)]
pub enum EventLoopError {
    /// The loop is running already.
    AlreadyRunning,
    /// The loop ended with this code, which is not zero.
    ExitFailure(i32),
}

/// The control flow after the handler was called with `before` and left
/// `returned`: an exit that was requested stays requested.
pub open spec fn sticky(before: ControlFlow, returned: ControlFlow) -> ControlFlow {
    if before is ExitWithCode {
        before
    } else {
        returned
    }
}

/// See [`sticky`].
pub fn sticky_exit(before: ControlFlow, returned: ControlFlow) -> (control_flow: ControlFlow)
    ensures
        control_flow == sticky(before, returned),
        before is ExitWithCode ==> control_flow == before,
        !(before is ExitWithCode) ==> control_flow == returned,
{
    match before {
        ControlFlow::ExitWithCode(_) => before,
        _ => returned,
    }
}

/// Calls the handler once, with `evt`, `target` and the control flow as it is.
/// [`ControlFlow::ExitWithCode`] is sticky: when it is already there, the
/// handler gets a control flow of its own to write to, which is then dropped.
pub fn sticky_exit_callback<T, W, F>(
    evt: Event<T>,
    target: &W,
    control_flow: &mut ControlFlow,
    callback: &mut F,
) where F: FnMut(Event<T>, &W, &mut ControlFlow)
    requires
        forall|given: &mut ControlFlow|
            call_requires(*old(callback), (evt, target, given)),
    ensures
        exists|given: &mut ControlFlow|
            #[trigger] call_ensures(*old(callback), (evt, target, given), ()) && *given == *old(control_flow)
                && *final(control_flow) == sticky(*old(control_flow), *final(given)),
{
    if let ControlFlow::ExitWithCode(code) = *control_flow {
        let mut dummy = ControlFlow::ExitWithCode(code);
        callback(evt, target, &mut dummy);
    } else {
        callback(evt, target, control_flow);
    }
}

/// Once the handler has asked for an exit, no later answer of it changes that:
/// whatever it leaves in two calls or in one, the first exit code stands.
pub proof fn law_exit_is_sticky(before: ControlFlow, first: ControlFlow, second: ControlFlow)
    requires
        sticky(before, first) is ExitWithCode,
    ensures
        sticky(sticky(before, first), second) == sticky(before, first),
{
}

/// What the handler leaves is what counts, unless an exit was requested before:
/// then that exit counts, with its code, whatever the handler leaves.
pub proof fn law_handler_decides_until_exit(before: ControlFlow, returned: ControlFlow)
    ensures
        before is ExitWithCode ==> sticky(before, returned) == before,
        !(before is ExitWithCode) ==> sticky(before, returned) == returned,
{
}

/// The one window has the number zero, and every number stands for it.
pub proof fn law_window_has_number_zero(id: WindowId, number: u64)
    ensures
        <u64 as vstd::std_specs::convert::FromSpec<WindowId>>::from_spec(id) == 0,
        <WindowId as vstd::std_specs::convert::FromSpec<u64>>::from_spec(number) == id,
{
}

} // verus!
