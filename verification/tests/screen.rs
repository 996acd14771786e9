use std::cmp::Ordering;

use android_event_loop::dpi::{
    scale_factor, window_size, NativeWindow, PhysicalPosition, PhysicalSize, ScaleFactor,
};
use android_event_loop::error::{ExternalError, NotSupportedError, OsError};
use android_event_loop::event::{DeviceId, KeyEventExtra, WindowId};
use android_event_loop::event_loop::{EventLoop, PlatformSpecificEventLoopAttributes};
use android_event_loop::monitor::MonitorHandle;
use android_event_loop::window::{
    PlatformSpecificWindowBuilderAttributes, Theme, Window, WindowButtons,
};
use raw_window_handle::{AndroidDisplayHandle, RawDisplayHandle};

const NATIVE: Option<NativeWindow> = Some(NativeWindow { width: 1080, height: 1920 });

/// The handle to the application.
const APP: u32 = 7;

fn event_loop() -> EventLoop<u8, u32> {
    EventLoop::new(&PlatformSpecificEventLoopAttributes {
        android_app: Some(APP),
        ignore_volume_keys: true,
    })
    .unwrap()
}

fn window() -> Window<u32> {
    let target = event_loop();
    let attributes = PlatformSpecificWindowBuilderAttributes::default();
    Window::new(target.window_target(), (), attributes).unwrap()
}

#[test]
fn size_of_the_native_window() {
    assert_eq!(window_size(NATIVE), PhysicalSize { width: 1080, height: 1920 });
    assert_eq!(window_size(None), PhysicalSize { width: 0, height: 0 });
}

#[test]
fn failed_size_query_wraps_around() {
    let failed = Some(NativeWindow { width: -1, height: i32::MIN });
    assert_eq!(window_size(failed), PhysicalSize { width: 4294967295, height: 2147483648 });
}

#[test]
fn scale_of_the_screen() {
    assert_eq!(scale_factor(Some(320)), ScaleFactor { dpi: 320 });
    assert_eq!(scale_factor(None), ScaleFactor { dpi: 160 });
    let doubled = scale_factor(Some(320));
    assert_eq!(doubled.dpi as f64 / 160.0, 2.0);
    assert_eq!(scale_factor(None).dpi as f64 / 160.0, 1.0);
}

#[test]
fn monitor_of_the_device() {
    let monitor = MonitorHandle::new(APP);
    assert_eq!(monitor.name(), Some("Android Device".to_string()));
    assert_eq!(monitor.size(NATIVE), PhysicalSize { width: 1080, height: 1920 });
    assert_eq!(monitor.size(None), PhysicalSize { width: 0, height: 0 });
    assert_eq!(monitor.position(), PhysicalPosition { x: 0, y: 0 });
    assert_eq!(monitor.scale_factor(Some(480)), ScaleFactor { dpi: 480 });
    assert_eq!(monitor.refresh_rate_millihertz(), None);
}

#[test]
fn all_monitors_are_equal_in_order() {
    let a = MonitorHandle::new(APP);
    let b = MonitorHandle::new(APP);
    assert_eq!(a, b);
    assert_eq!(a.partial_cmp(&b), Some(Ordering::Equal));
    let of_another = MonitorHandle::new(APP + 1);
    assert_ne!(a, of_another);
    assert_eq!(a.partial_cmp(&of_another), Some(Ordering::Equal));
    assert!(!(a < of_another) && !(of_another < a));
}

#[test]
fn monitors_are_of_the_application_of_the_loop() {
    let event_loop = event_loop();
    let target = event_loop.window_target();
    assert_eq!(*target.android_app(), APP);
    assert_eq!(*target.primary_monitor().unwrap().android_app(), APP);
    assert_eq!(*target.available_monitors()[0].android_app(), APP);
    let window = window();
    assert_eq!(*window.android_app(), APP);
    assert_eq!(*window.primary_monitor().unwrap().android_app(), APP);
    assert_eq!(*window.current_monitor().unwrap().android_app(), APP);
    assert_eq!(*window.available_monitors()[0].android_app(), APP);
    let mode = &MonitorHandle::new(9u32).video_modes(NATIVE)[0];
    assert_eq!(*mode.monitor().android_app(), 9);
    assert_eq!(*mode, mode.clone());
}

#[test]
fn one_video_mode() {
    let modes = MonitorHandle::new(APP).video_modes(NATIVE);
    assert_eq!(modes.len(), 1);
    assert_eq!(modes[0].size(), PhysicalSize { width: 1080, height: 1920 });
    assert_eq!(modes[0].bit_depth(), 32);
    assert_eq!(modes[0].refresh_rate_millihertz(), 60000);
    assert_eq!(modes[0].monitor(), MonitorHandle::new(APP));
}

#[test]
fn target_knows_one_monitor() {
    let event_loop = event_loop();
    let target = event_loop.window_target();
    assert_eq!(target.primary_monitor(), Some(MonitorHandle::new(APP)));
    assert_eq!(target.available_monitors().len(), 1);
    assert_eq!(target.available_monitors()[0], MonitorHandle::new(APP));
}

#[test]
fn raw_display_handle_is_that_of_android() {
    let expected = RawDisplayHandle::Android(AndroidDisplayHandle::empty());
    assert_eq!(event_loop().window_target().raw_display_handle(), expected);
    assert_eq!(window().raw_display_handle(), expected);
}

#[test]
fn window_is_where_and_what_the_system_makes_it() {
    let window = window();
    assert_eq!(window.id(), WindowId);
    assert_eq!(window.primary_monitor(), Some(MonitorHandle::new(APP)));
    assert_eq!(window.current_monitor(), Some(MonitorHandle::new(APP)));
    assert_eq!(window.available_monitors().len(), 1);
    assert_eq!(window.scale_factor(Some(240)), ScaleFactor { dpi: 240 });
    assert_eq!(window.inner_size(NATIVE), PhysicalSize { width: 1080, height: 1920 });
    assert_eq!(window.outer_size(NATIVE), PhysicalSize { width: 1080, height: 1920 });
    assert_eq!(
        window.request_inner_size((5, 5), NATIVE),
        Some(PhysicalSize { width: 1080, height: 1920 })
    );
    assert_eq!(window.inner_position(), Err(NotSupportedError));
    assert_eq!(window.outer_position(), Err(NotSupportedError));
    assert_eq!(window.resize_increments(), None);
    assert_eq!(window.is_visible(), None);
    assert!(!window.is_resizable());
    assert_eq!(window.enabled_buttons(), WindowButtons::all());
    assert!(window.enabled_buttons().minimize);
    assert_eq!(window.is_minimized(), None);
    assert!(!window.is_maximized());
    assert_eq!(window.fullscreen(), None);
    assert!(window.is_decorated());
    assert_eq!(window.theme(), None);
    assert_eq!(window.title(), "");
}

#[test]
fn cursor_and_dragging_are_not_supported() {
    let window = window();
    let unsupported = Err(ExternalError::NotSupported(NotSupportedError));
    assert_eq!(window.set_cursor_position((1, 2)), unsupported);
    assert_eq!(window.set_cursor_grab(()), unsupported);
    assert_eq!(window.drag_window(), unsupported);
    assert_eq!(window.drag_resize_window(()), unsupported);
    assert_eq!(window.set_cursor_hittest(true), unsupported);
}

#[test]
fn setters_have_no_effect() {
    let window = window();
    window.set_title("ignored");
    window.set_theme(Some(Theme::Dark));
    window.set_visible(false);
    window.set_resizable(true);
    window.set_maximized(true);
    window.set_minimized(true);
    window.set_decorations(false);
    window.set_fullscreen(None);
    assert_eq!(window.title(), "");
    assert_eq!(window.theme(), None);
    assert_eq!(window.is_visible(), None);
    assert!(!window.is_resizable());
    assert!(!window.is_maximized());
    assert_eq!(window.is_minimized(), None);
    assert!(window.is_decorated());
    assert_eq!(window.fullscreen(), None);
}

#[test]
fn work_for_the_main_thread_is_done_at_once() {
    let window = window();
    assert_eq!(window.maybe_wait_on_main(|window: &Window<u32>| window.is_decorated()), true);
    let (sender, receiver) = std::sync::mpsc::channel();
    window.maybe_queue_on_main(move |window: &Window<u32>| sender.send(window.id()).unwrap());
    assert_eq!(receiver.try_recv(), Ok(WindowId));
}

#[test]
fn windows_of_one_loop_share_the_redraw_flag() {
    let event_loop = event_loop();
    let make = || {
        let attributes = PlatformSpecificWindowBuilderAttributes::default();
        Window::new(event_loop.window_target(), (), attributes).unwrap()
    };
    let (first, second) = (make(), make());
    assert!(first.request_redraw());
    assert!(!second.request_redraw());
}

#[test]
fn identifiers_and_placeholders() {
    assert_eq!(WindowId::dummy(), WindowId);
    assert_eq!(DeviceId::dummy(), DeviceId);
    assert_eq!(u64::from(WindowId), 0);
    assert_eq!(WindowId::from(17), WindowId);
    assert_eq!(KeyEventExtra {}, KeyEventExtra {});
}

#[test]
fn system_error_in_words() {
    assert_eq!(OsError::default().message(), "Android OS Error");
}

#[test]
fn attributes_by_default() {
    let attributes = PlatformSpecificEventLoopAttributes::<u8>::default();
    assert!(attributes.android_app.is_none());
    assert!(attributes.ignore_volume_keys);
}
