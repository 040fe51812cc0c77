//! Input dispatch: the cursor-position cache, keyboard translation, IME,
//! page-level mouse dispatch and the scan-code adapter.

use std::cell::RefCell;
use std::rc::Rc;

use webview_core::keyboard::{
    get_capslock_state, EventFlags, KeyEventType as ScanKeyEventType, KeyboardScanCodeAdapter,
};
use webview_core::loops::SurfaceMode;
use webview_core::page::{
    page_ime_dispatch, page_keyboard_dispatch, page_mouse_dispatch, page_touch_dispatch,
    ActionState, ImeAction, Modifiers as PageModifiers, MouseAction as PageMouseAction,
    MouseButtons, PageImeDispatch, PageKeyDispatch, PageMouseDispatch, Position as PagePosition,
    TouchEventType, TouchPointerType,
};
use webview_core::webview::{
    IMEAction, ImeDispatch, KeyEvent, KeyEventType, KeyState, MouseAction, MouseButton,
    MouseDispatch, Position, Rect, WebView, WebViewAttributes, WebViewHandler, WebViewState,
    WindowHandle, WindowlessRenderWebViewHandler,
};

struct NopWindowlessHandler {
    frames: Rc<RefCell<Vec<(u32, u32)>>>,
}

impl NopWindowlessHandler {
    fn new() -> (Self, Rc<RefCell<Vec<(u32, u32)>>>) {
        let frames = Rc::new(RefCell::new(Vec::new()));
        (NopWindowlessHandler { frames: frames.clone() }, frames)
    }
}

impl WebViewHandler for NopWindowlessHandler {
    fn on_state_change(&self, _state: WebViewState) {}
    fn on_title_change(&self, _title: &Vec<u8>) {}
    fn on_fullscreen_change(&self, _fullscreen: bool) {}
    fn on_message(&self, _message: &Vec<u8>) {}
}

impl WindowlessRenderWebViewHandler for NopWindowlessHandler {
    fn on_ime_rect(&self, _rect: Rect) {}
    fn on_frame(&self, _texture: &Vec<u8>, width: u32, height: u32) {
        self.frames.borrow_mut().push((width, height));
    }
}

fn windowless_webview() -> WebView<NopWindowlessHandler> {
    let mut reg = webview_core::registry::RuntimeRegistry::new();
    let attrs =
        webview_core::runtime::RuntimeAttributesBuilder::new(webview_core::loops::LoopMode::MainThread)
            .build();
    let pending = webview_core::runtime::begin_runtime_construction(
        &mut reg,
        &attrs,
        true,
        NopRuntimeHandler,
    )
    .unwrap();
    let mut runtime = pending.finish(&mut reg, true).unwrap();
    let url: Vec<u8> = b"https://example.test".to_vec();
    let (handler, _) = NopWindowlessHandler::new();
    runtime
        .create_webview(
            SurfaceMode::Windowless,
            &url,
            &WebViewAttributes::default(),
            handler,
            true,
        )
        .unwrap()
}

struct NopRuntimeHandler;

impl webview_core::runtime::RuntimeHandler for NopRuntimeHandler {
    fn on_context_initialized(&self) {}
}

#[test]
fn click_without_position_reuses_the_cached_move() {
    let mut webview = windowless_webview();

    let moved = webview.mouse(MouseAction::Move(Position { x: 10, y: 20 }));
    assert_eq!(moved, MouseDispatch::MoveTo { x: 10, y: 20 });

    let clicked =
        webview.mouse(MouseAction::Click(MouseButton::Left, KeyState::Down, None));
    assert_eq!(
        clicked,
        MouseDispatch::ClickAt { button: MouseButton::Left, pressed: true, x: 10, y: 20 }
    );
}

#[test]
fn click_with_position_updates_the_cache() {
    let mut webview = windowless_webview();

    let clicked = webview.mouse(MouseAction::Click(
        MouseButton::Right,
        KeyState::Up,
        Some(Position { x: 7, y: 8 }),
    ));
    assert_eq!(
        clicked,
        MouseDispatch::ClickAt { button: MouseButton::Right, pressed: false, x: 7, y: 8 }
    );

    let followup =
        webview.mouse(MouseAction::Click(MouseButton::Middle, KeyState::Down, None));
    assert_eq!(
        followup,
        MouseDispatch::ClickAt { button: MouseButton::Middle, pressed: true, x: 7, y: 8 }
    );
}

#[test]
fn wheel_scrolls_at_the_cached_position() {
    let mut webview = windowless_webview();

    let _ = webview.mouse(MouseAction::Move(Position { x: 3, y: 4 }));
    let wheel = webview.mouse(MouseAction::Wheel(Position { x: 0, y: -120 }));
    assert_eq!(wheel, MouseDispatch::WheelAt { x: 3, y: 4, delta_x: 0, delta_y: -120 });

    // the wheel did not move the cache
    let clicked =
        webview.mouse(MouseAction::Click(MouseButton::Left, KeyState::Down, None));
    assert_eq!(
        clicked,
        MouseDispatch::ClickAt { button: MouseButton::Left, pressed: true, x: 3, y: 4 }
    );
}

#[test]
fn fresh_surface_clicks_at_origin() {
    let mut webview = windowless_webview();
    let clicked =
        webview.mouse(MouseAction::Click(MouseButton::Left, KeyState::Down, None));
    assert_eq!(
        clicked,
        MouseDispatch::ClickAt { button: MouseButton::Left, pressed: true, x: 0, y: 0 }
    );
}

#[test]
fn keyboard_event_translates_field_for_field() {
    let webview = windowless_webview();
    let event = KeyEvent {
        size: 80,
        ty: KeyEventType::KeyDown,
        modifiers: 2,
        windows_key_code: 65,
        native_key_code: 30,
        is_system_key: 0,
        character: 97,
        unmodified_character: 97,
        focus_on_editable_field: 1,
    };
    let native = webview.keyboard(event);
    assert_eq!(native.size, 80);
    assert_eq!(native.ty, KeyEventType::KeyDown);
    assert_eq!(native.modifiers, 2);
    assert_eq!(native.windows_key_code, 65);
    assert_eq!(native.native_key_code, 30);
    assert_eq!(native.is_system_key, 0);
    assert_eq!(native.character, 97);
    assert_eq!(native.unmodified_character, 97);
    assert_eq!(native.focus_on_editable_field, 1);
}

#[test]
fn ime_actions_translate_exactly() {
    let webview = windowless_webview();

    let commit = webview.ime(IMEAction::Composition(b"hello".to_vec()));
    assert_eq!(commit, ImeDispatch::Commit { text: b"hello".to_vec() });

    let pre = webview.ime(IMEAction::Pre(b"he".to_vec(), 5, 6));
    assert_eq!(pre, ImeDispatch::SetComposition { text: b"he".to_vec(), x: 5, y: 6 });
}

#[test]
fn resize_passes_the_new_size_through() {
    let webview = windowless_webview();
    assert_eq!(webview.resize(1024, 768), (1024, 768));
}

#[test]
fn frame_delivery_reaches_a_live_handler_only() {
    let mut reg = webview_core::registry::RuntimeRegistry::new();
    let attrs =
        webview_core::runtime::RuntimeAttributesBuilder::new(webview_core::loops::LoopMode::MainThread)
            .build();
    let pending = webview_core::runtime::begin_runtime_construction(
        &mut reg,
        &attrs,
        true,
        NopRuntimeHandler,
    )
    .unwrap();
    let mut runtime = pending.finish(&mut reg, true).unwrap();
    let url: Vec<u8> = b"https://example.test".to_vec();
    let (handler, frames) = NopWindowlessHandler::new();
    let mut webview = runtime
        .create_webview(
            SurfaceMode::Windowless,
            &url,
            &WebViewAttributes::default(),
            handler,
            true,
        )
        .unwrap();

    let texture = vec![0u8; 2 * 2 * 4];
    assert!(webview.deliver_frame(&texture, 2, 2));
    assert_eq!(*frames.borrow(), vec![(2, 2)]);

    let _ = webview.destroy();
    assert!(!webview.deliver_frame(&texture, 2, 2));
    assert_eq!(*frames.borrow(), vec![(2, 2)]);
}

#[test]
fn window_handle_round_trips_through_attributes() {
    let mut reg = webview_core::registry::RuntimeRegistry::new();
    let attrs =
        webview_core::runtime::RuntimeAttributesBuilder::new(webview_core::loops::LoopMode::MainThread)
            .build();
    let pending = webview_core::runtime::begin_runtime_construction(
        &mut reg,
        &attrs,
        true,
        NopRuntimeHandler,
    )
    .unwrap();
    let mut runtime = pending.finish(&mut reg, true).unwrap();

    let surface_attrs = webview_core::webview::WebViewAttributesBuilder::new()
        .with_window_handle(WindowHandle::Win32(42))
        .build();
    let url: Vec<u8> = b"https://example.test".to_vec();
    let (handler, _) = NopWindowlessHandler::new();
    let webview = runtime
        .create_webview(SurfaceMode::NativeWindow, &url, &surface_attrs, handler, true)
        .unwrap();

    assert!(webview.has_window_handle());
    assert_eq!(webview.parent_window_handle(), WindowHandle::Win32(42));

    // the engine's own answer may name a different window; its raw value
    // is decoded by platform
    assert_eq!(webview.window_handle(77, true), WindowHandle::Win32(77));
    assert_eq!(webview.window_handle(77, false), WindowHandle::AppKit(77));
}

#[test]
fn page_mouse_dispatch_keeps_explicit_positions() {
    let with_pos = page_mouse_dispatch(PageMouseAction::Click(
        MouseButtons::Left,
        ActionState::Down,
        Some(PagePosition { x: 1, y: 2 }),
    ));
    assert_eq!(
        with_pos,
        PageMouseDispatch::ClickWithPos { button: MouseButtons::Left, pressed: true, x: 1, y: 2 }
    );

    let without_pos =
        page_mouse_dispatch(PageMouseAction::Click(MouseButtons::Right, ActionState::Up, None));
    assert_eq!(
        without_pos,
        PageMouseDispatch::Click { button: MouseButtons::Right, pressed: false }
    );

    let moved = page_mouse_dispatch(PageMouseAction::Move(PagePosition { x: 9, y: 9 }));
    assert_eq!(moved, PageMouseDispatch::MoveTo { x: 9, y: 9 });

    let wheel = page_mouse_dispatch(PageMouseAction::Wheel(PagePosition { x: 0, y: 3 }));
    assert_eq!(wheel, PageMouseDispatch::WheelAt { x: 0, y: 3 });
}

#[test]
fn page_keyboard_dispatch_collapses_the_state() {
    let down = page_keyboard_dispatch(30, ActionState::Down, PageModifiers::Shift);
    assert_eq!(
        down,
        PageKeyDispatch { scan_code: 30, pressed: true, modifiers: PageModifiers::Shift }
    );

    let up = page_keyboard_dispatch(30, ActionState::Up, PageModifiers::Ctrl);
    assert_eq!(
        up,
        PageKeyDispatch { scan_code: 30, pressed: false, modifiers: PageModifiers::Ctrl }
    );
}

#[test]
fn page_ime_actions_translate_exactly() {
    let commit = page_ime_dispatch(ImeAction::Composition(b"hello".to_vec()));
    assert_eq!(commit, PageImeDispatch::Commit { text: b"hello".to_vec() });

    let pre = page_ime_dispatch(ImeAction::Pre(b"he".to_vec(), 5, 6));
    assert_eq!(pre, PageImeDispatch::SetComposition { text: b"he".to_vec(), x: 5, y: 6 });
}

#[test]
fn touch_dispatch_carries_every_field() {
    let d = page_touch_dispatch(3, 100, 200, TouchEventType::Pressed, TouchPointerType::Pen);
    assert_eq!(d.id, 3);
    assert_eq!(d.x, 100);
    assert_eq!(d.y, 200);
    assert_eq!(d.ty, TouchEventType::Pressed);
    assert_eq!(d.pointer_type, TouchPointerType::Pen);
}

#[test]
fn action_state_pressed_only_when_down() {
    assert!(ActionState::Down.is_pressed());
    assert!(!ActionState::Up.is_pressed());
}

#[test]
fn scan_code_adapter_fills_the_reused_record() {
    let mut adapter = KeyboardScanCodeAdapter::new(true, false);
    let event = adapter.get_key_event(30, ScanKeyEventType::KeyDown, EventFlags::ShiftDown);
    assert_eq!(event.native_key_code, 30);
    assert_eq!(event.windows_key_code, 30);
    assert_eq!(event.ty, ScanKeyEventType::KeyDown);
    assert_eq!(event.modifiers, EventFlags::ShiftDown);

    // off the windows-key-code platform the windows code is left alone
    let mut other = KeyboardScanCodeAdapter::new(false, true);
    let event2 = other.get_key_event(30, ScanKeyEventType::KeyUp, EventFlags::NoFlags);
    assert_eq!(event2.native_key_code, 30);
    assert_eq!(event2.windows_key_code, 0);
    assert!(get_capslock_state(&other));
}

#[test]
fn event_flag_bits_are_the_documented_powers_of_two() {
    assert_eq!(EventFlags::NoFlags.bits(), 0);
    assert_eq!(EventFlags::CapsLockOn.bits(), 1);
    assert_eq!(EventFlags::ShiftDown.bits(), 2);
    assert_eq!(EventFlags::ControlDown.bits(), 4);
    assert_eq!(EventFlags::AltDown.bits(), 8);
    assert_eq!(EventFlags::LeftMouseButton.bits(), 16);
    assert_eq!(EventFlags::MiddleMouseButton.bits(), 32);
    assert_eq!(EventFlags::RightMouseButton.bits(), 64);
    assert_eq!(EventFlags::CommandDown.bits(), 128);
    assert_eq!(EventFlags::NumLockOn.bits(), 256);
    assert_eq!(EventFlags::IsKeyPad.bits(), 512);
    assert_eq!(EventFlags::IsLeft.bits(), 1024);
    assert_eq!(EventFlags::IsRight.bits(), 2048);
    assert_eq!(EventFlags::AltGrDown.bits(), 4096);
    assert_eq!(EventFlags::IsRepeat.bits(), 8192);
    assert_eq!(EventFlags::PrecisionScrollingDelta.bits(), 16384);
    assert_eq!(EventFlags::ScrollByPage.bits(), 32768);
}
