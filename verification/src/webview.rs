//! One browser surface bound to a runtime.
//!
//! A surface owns a type-erased host handler that engine callbacks are
//! dispatched to, a cursor-position cache that fills in implicit mouse
//! coordinates, and its own teardown, independent of sibling surfaces. The
//! engine calls that a surface method induces are returned as dispatch
//! descriptors; the unverified glue performs them at the foreign-function
//! boundary.

use vstd::prelude::*;

use crate::args::has_nul;
use crate::errors::Error;
use crate::loops::SurfaceMode;

verus! {

/// A position in surface coordinates, used by mouse and touch events.
#[derive(Debug, Clone, Copy, PartialEq, Eq, Structural)]
pub struct Position {
    pub x: i32,
    pub y: i32,
}

/// Whether a key or button goes down or up.
#[derive(Debug, Clone, Copy, PartialEq, Eq, Structural)]
pub enum KeyState {
    Down,
    Up,
}

/// A mouse button.
#[derive(Debug, Clone, Copy, PartialEq, Eq, Structural)]
pub enum MouseButton {
    Left,
    Middle,
    Right,
}

/// A rectangular area, used by the IME composition callback.
#[derive(Debug, Clone, Copy, PartialEq, Eq, Structural)]
pub struct Rect {
    pub x: u32,
    pub y: u32,
    pub width: u32,
    pub height: u32,
}

/// A mouse event handed to the surface by the host.
///
/// A click may omit its position; the surface then reuses the last position
/// cached from earlier events.
#[derive(Debug, Clone, Copy, PartialEq, Eq)]
pub enum MouseAction {
    /// Press or release a button, optionally at an explicit position.
    Click(MouseButton, KeyState, Option<Position>),
    /// Move the cursor.
    Move(Position),
    /// Scroll by the given deltas at the cached position.
    Wheel(Position),
}

/// An input-method event handed to the surface by the host.
#[derive(Debug, Clone, PartialEq, Eq)]
pub enum IMEAction {
    /// Commit the composition text.
    Composition(Vec<u8>),
    /// Begin or update a composition, with the caret anchor.
    Pre(Vec<u8>, i32, i32),
}

/// A modifier key.
#[derive(Debug, Clone, Copy, PartialEq, Eq, Structural)]
pub enum Modifiers {
    Shift,
    Ctrl,
    Alt,
    Win,
}

/// The kind of a keyboard event.
#[derive(Debug, Clone, Copy, PartialEq, Eq, Structural)]
pub enum KeyEventType {
    RawKeyDown,
    KeyDown,
    KeyUp,
    Char,
}

/// A keyboard event in the shape the engine's key-event record uses.
#[derive(Debug, Clone, Copy, PartialEq, Eq, Structural)]
pub struct KeyEvent {
    pub size: usize,
    pub ty: KeyEventType,
    pub modifiers: u32,
    pub windows_key_code: u32,
    pub native_key_code: u32,
    pub is_system_key: u32,
    pub character: u16,
    pub unmodified_character: u16,
    pub focus_on_editable_field: u32,
}

/// The page lifecycle as observed through the state-change callback.
///
/// `Loaded` and `LoadError` are the two terminal outcomes of the initial
/// navigation.
#[derive(Debug, Clone, Copy, PartialEq, Eq, Structural)]
pub enum WebViewState {
    Loading,
    Loaded,
    LoadError,
}

/// A native window handle crossing the foreign-function boundary, reduced to
/// the value the binding actually reads. The payload is never zero for a
/// well-formed handle.
#[derive(Debug, Clone, Copy, PartialEq, Eq, Structural)]
pub enum WindowHandle {
    /// A Win32 window handle.
    Win32(i64),
    /// An AppKit view pointer.
    AppKit(i64),
}

impl WindowHandle {
    /// A handle is well-formed when its payload is non-null.
    pub open spec fn wf(&self) -> bool {
        match self {
            WindowHandle::Win32(h) => *h != 0,
            WindowHandle::AppKit(p) => *p != 0,
        }
    }
}

/// Callbacks every surface delivers to its host handler.
///
/// Delivery order is whatever order the engine fires events in; the only
/// ordering guarantee is that no callback fires before the surface's creation
/// call has returned successfully, and none after its destroy call returns.
pub trait WebViewHandler {
    /// The page lifecycle state changed.
    fn on_state_change(&self, state: WebViewState);

    /// The page title changed.
    fn on_title_change(&self, title: &Vec<u8>);

    /// The page toggled fullscreen mode.
    fn on_fullscreen_change(&self, fullscreen: bool);

    /// The page sent a string message to the host.
    fn on_message(&self, message: &Vec<u8>);
}

/// Additional callbacks an off-screen surface delivers to its host handler.
pub trait WindowlessRenderWebViewHandler: WebViewHandler {
    /// The IME composition rectangle changed.
    fn on_ime_rect(&self, rect: Rect);

    /// A rendered frame is available as a BGRA pixel buffer.
    fn on_frame(&self, texture: &Vec<u8>, width: u32, height: u32);
}

/// Per-surface configuration, finalized by [`WebViewAttributesBuilder`].
#[derive(Debug, Clone, Copy, PartialEq, Eq)]
pub struct WebViewAttributes {
    /// External native window handle, if the surface has one.
    pub window_handle: Option<WindowHandle>,
    /// The maximum off-screen frame rate, in frames per second.
    pub windowless_frame_rate: u32,
    /// Surface width in pixels.
    pub width: u32,
    /// Surface height in pixels.
    pub height: u32,
    /// Default page font size.
    pub default_font_size: u32,
    /// Default fixed-width page font size.
    pub default_fixed_font_size: u32,
    /// Whether the page may run JavaScript.
    pub javascript_enable: bool,
    /// Whether page script may access the clipboard.
    pub javascript_access_clipboard: bool,
    /// Whether the page may use local storage.
    pub local_storage: bool,
}

impl WebViewAttributes {
    /// Attributes are well-formed when the window handle, if any, is.
    pub open spec fn wf(&self) -> bool {
        self.window_handle matches Some(h) ==> h.wf()
    }
}

/// The default surface configuration: 800 by 600, no native window, 30
/// frames per second, font sizes 12, JavaScript and local storage on,
/// clipboard access off.
pub open spec fn default_webview_attributes() -> WebViewAttributes {
    WebViewAttributes {
        window_handle: Option::None,
        windowless_frame_rate: 30u32,
        width: 800u32,
        height: 600u32,
        default_font_size: 12u32,
        default_fixed_font_size: 12u32,
        javascript_enable: true,
        javascript_access_clipboard: false,
        local_storage: true,
    }
}

impl Default for WebViewAttributes {
    /// The default surface configuration, [`default_webview_attributes`].
    fn default() -> (r: Self)
        ensures
            r == default_webview_attributes(),
            r.wf(),
    {
        WebViewAttributes {
            window_handle: Option::None,
            windowless_frame_rate: 30,
            width: 800,
            height: 600,
            default_font_size: 12,
            default_fixed_font_size: 12,
            javascript_enable: true,
            javascript_access_clipboard: false,
            local_storage: true,
        }
    }
}

/// An accumulating builder for [`WebViewAttributes`].
pub struct WebViewAttributesBuilder {
    attrs: WebViewAttributes,
}

impl WebViewAttributesBuilder {
    /// The attributes accumulated so far.
    pub closed spec fn attrs(&self) -> WebViewAttributes {
        self.attrs
    }

    /// A builder starting from the default attributes.
    pub fn new() -> (r: Self)
        ensures
            r.attrs() == default_webview_attributes(),
            r.attrs().wf(),
    {
        WebViewAttributesBuilder { attrs: WebViewAttributes::default() }
    }

    /// Set the native window handle: in windowed mode the browser becomes a
    /// child view of it, in windowless mode it identifies the monitor and
    /// parents dialog boxes.
    pub fn with_window_handle(self, value: WindowHandle) -> (r: Self)
        requires
            value.wf(),
        ensures
            r.attrs() == (WebViewAttributes { window_handle: Some(value), ..self.attrs() }),
    {
        WebViewAttributesBuilder {
            attrs: WebViewAttributes { window_handle: Some(value), ..self.attrs },
        }
    }

    /// Set the maximum frame rate used in windowless rendering mode.
    pub fn with_windowless_frame_rate(self, value: u32) -> (r: Self)
        ensures
            r.attrs() == (WebViewAttributes { windowless_frame_rate: value, ..self.attrs() }),
    {
        WebViewAttributesBuilder {
            attrs: WebViewAttributes { windowless_frame_rate: value, ..self.attrs },
        }
    }

    /// Set the surface width.
    pub fn with_width(self, value: u32) -> (r: Self)
        ensures
            r.attrs() == (WebViewAttributes { width: value, ..self.attrs() }),
    {
        WebViewAttributesBuilder { attrs: WebViewAttributes { width: value, ..self.attrs } }
    }

    /// Set the surface height.
    pub fn with_height(self, value: u32) -> (r: Self)
        ensures
            r.attrs() == (WebViewAttributes { height: value, ..self.attrs() }),
    {
        WebViewAttributesBuilder { attrs: WebViewAttributes { height: value, ..self.attrs } }
    }

    /// Set the default page font size.
    pub fn with_default_font_size(self, value: u32) -> (r: Self)
        ensures
            r.attrs() == (WebViewAttributes { default_font_size: value, ..self.attrs() }),
    {
        WebViewAttributesBuilder {
            attrs: WebViewAttributes { default_font_size: value, ..self.attrs },
        }
    }

    /// Set the default fixed-width page font size.
    pub fn with_default_fixed_font_size(self, value: u32) -> (r: Self)
        ensures
            r.attrs() == (WebViewAttributes { default_fixed_font_size: value, ..self.attrs() }),
    {
        WebViewAttributesBuilder {
            attrs: WebViewAttributes { default_fixed_font_size: value, ..self.attrs },
        }
    }

    /// Set whether the page may run JavaScript.
    pub fn with_javascript_enable(self, value: bool) -> (r: Self)
        ensures
            r.attrs() == (WebViewAttributes { javascript_enable: value, ..self.attrs() }),
    {
        WebViewAttributesBuilder {
            attrs: WebViewAttributes { javascript_enable: value, ..self.attrs },
        }
    }

    /// Set whether page script may access the clipboard.
    pub fn with_javascript_access_clipboard(self, value: bool) -> (r: Self)
        ensures
            r.attrs() == (WebViewAttributes { javascript_access_clipboard: value, ..self.attrs() }),
    {
        WebViewAttributesBuilder {
            attrs: WebViewAttributes { javascript_access_clipboard: value, ..self.attrs },
        }
    }

    /// Set whether the page may use local storage.
    pub fn with_local_storage(self, value: bool) -> (r: Self)
        ensures
            r.attrs() == (WebViewAttributes { local_storage: value, ..self.attrs() }),
    {
        WebViewAttributesBuilder { attrs: WebViewAttributes { local_storage: value, ..self.attrs } }
    }

    /// Finalize the accumulated attributes.
    pub fn build(self) -> (r: WebViewAttributes)
        ensures
            r == self.attrs(),
    {
        self.attrs
    }
}

/// A mouse call to dispatch at the foreign-function boundary.
#[derive(Debug, Clone, Copy, PartialEq, Eq, Structural)]
pub enum MouseDispatch {
    /// Move the engine cursor.
    MoveTo { x: i32, y: i32 },
    /// Scroll by `(delta_x, delta_y)` with the cursor at `(x, y)`.
    WheelAt { x: i32, y: i32, delta_x: i32, delta_y: i32 },
    /// Press or release a button with the cursor at `(x, y)`.
    ClickAt { button: MouseButton, pressed: bool, x: i32, y: i32 },
}

/// The cursor cache after a mouse event: moves and explicitly positioned
/// clicks update it; wheels and implicit clicks leave it unchanged.
pub open spec fn cursor_after(cursor: Position, action: MouseAction) -> Position {
    match action {
        MouseAction::Move(p) => p,
        MouseAction::Wheel(_) => cursor,
        MouseAction::Click(_, _, pos) => match pos {
            Some(p) => p,
            Option::None => cursor,
        },
    }
}

/// The native mouse call a surface with the given cached cursor dispatches
/// for an event. A click without an explicit position is dispatched at the
/// cached position; a wheel event's position carries the scroll deltas and
/// is dispatched at the cached position.
pub open spec fn mouse_dispatch_spec(cursor: Position, action: MouseAction) -> MouseDispatch {
    match action {
        MouseAction::Move(p) => MouseDispatch::MoveTo { x: p.x, y: p.y },
        MouseAction::Wheel(d) => MouseDispatch::WheelAt {
            x: cursor.x,
            y: cursor.y,
            delta_x: d.x,
            delta_y: d.y,
        },
        MouseAction::Click(button, state, pos) => {
            let at = cursor_after(cursor, action);
            MouseDispatch::ClickAt { button, pressed: state is Down, x: at.x, y: at.y }
        },
    }
}

/// After a move to `(x, y)`, a click given without an explicit position is
/// dispatched at `(x, y)`.
pub proof fn lemma_click_position_fallback(
    start: Position,
    x: i32,
    y: i32,
    button: MouseButton,
    state: KeyState,
)
    ensures
        ({
            let moved = cursor_after(start, MouseAction::Move(Position { x, y }));
            mouse_dispatch_spec(moved, MouseAction::Click(button, state, Option::None))
                == (MouseDispatch::ClickAt { button, pressed: state is Down, x, y })
        }),
{
}

/// A keyboard call in the engine's record shape, ready for the
/// foreign-function boundary.
#[derive(Debug, Clone, Copy, PartialEq, Eq, Structural)]
pub struct KeyDispatch {
    pub size: usize,
    pub ty: KeyEventType,
    pub modifiers: u32,
    pub windows_key_code: i32,
    pub native_key_code: i32,
    pub is_system_key: i32,
    pub character: u16,
    pub unmodified_character: u16,
    pub focus_on_editable_field: i32,
}

/// An input-method call to dispatch at the foreign-function boundary.
#[derive(Debug, Clone, PartialEq, Eq)]
pub enum ImeDispatch {
    /// Commit the composition text.
    Commit { text: Vec<u8> },
    /// Begin or update a composition with the caret anchor.
    SetComposition { text: Vec<u8>, x: i32, y: i32 },
}

/// A string message to hand to the page's script context.
#[derive(Debug, Clone, PartialEq, Eq)]
pub struct OutboundMessage {
    pub payload: Vec<u8>,
}

/// One step of a surface's teardown, in the order the engine requires.
#[derive(Debug, Clone, Copy, PartialEq, Eq, Structural)]
pub enum SurfaceTeardownStep {
    /// Call the engine's close entry point for this surface; after it
    /// returns, no further callback arrives.
    CloseSurface,
    /// Free the boxed handler whose address was the trampoline context.
    FreeHandler,
}

/// The teardown steps of every surface: close first, free the handler only
/// once the close call has returned and no callback can arrive any more.
pub open spec fn surface_teardown_plan() -> Seq<SurfaceTeardownStep> {
    seq![SurfaceTeardownStep::CloseSurface, SurfaceTeardownStep::FreeHandler]
}

/// Whether a callback arriving from the engine for this surface reaches the
/// host handler: it does exactly while the surface is live, from the moment
/// its creation call returns successfully until destroy runs.
pub open spec fn callback_deliverable<H>(w: WebView<H>) -> bool {
    w.is_alive()
}

/// One browser surface bound to a live runtime.
pub struct WebView<H> {
    handler: H,
    surface: SurfaceMode,
    window: Option<WindowHandle>,
    cursor: Position,
    alive: bool,
}

impl<H> WebView<H> {
    /// The surface mode this view was created in.
    pub closed spec fn surface(&self) -> SurfaceMode {
        self.surface
    }

    /// The native window handle the surface was created with, if any.
    pub closed spec fn window(&self) -> Option<WindowHandle> {
        self.window
    }

    /// The cached cursor position used to fill in implicit mouse coordinates.
    pub closed spec fn cursor(&self) -> Position {
        self.cursor
    }

    /// The host handler owned by this surface.
    pub closed spec fn handler(&self) -> H {
        self.handler
    }

    /// Whether the surface is live: its trampoline context is owned and
    /// callbacks may be delivered. Cleared by destroy.
    pub closed spec fn is_alive(&self) -> bool {
        self.alive
    }

    /// Whether the surface is live.
    pub fn alive(&self) -> (r: bool)
        ensures
            r == self.is_alive(),
    {
        self.alive
    }

    /// Construct the binding-side surface after the engine's creation entry
    /// point returned. `native_created` records whether it returned a handle;
    /// a null return is the `FailedToCreateWebView` failure, and the handler
    /// is discarded with nothing registered.
    pub(crate) fn attach(
        surface: SurfaceMode,
        attrs: &WebViewAttributes,
        handler: H,
        native_created: bool,
    ) -> (r: Result<Self, Error>)
        requires
            attrs.wf(),
        ensures
            r is Ok <==> native_created,
            r matches Ok(w) ==> w.is_alive() && w.surface() == surface && w.window()
                == attrs.window_handle && w.cursor() == (Position { x: 0, y: 0 }) && w.handler()
                == handler,
            r is Err ==> r == Result::<Self, Error>::Err(Error::FailedToCreateWebView),
    {
        if native_created {
            Ok(
                WebView {
                    handler,
                    surface,
                    window: attrs.window_handle,
                    cursor: Position { x: 0, y: 0 },
                    alive: true,
                },
            )
        } else {
            Err(Error::FailedToCreateWebView)
        }
    }

    /// Whether the surface has an associated native window handle.
    pub fn has_window_handle(&self) -> (r: bool)
        ensures
            r == (self.window() is Some),
    {
        self.window.is_some()
    }

    /// The parent window handle the surface was created with.
    ///
    /// Reading it from a surface created without one is a precondition
    /// violation.
    pub fn parent_window_handle(&self) -> (r: WindowHandle)
        requires
            self.window() is Some,
        ensures
            Some(r) == self.window(),
    {
        match &self.window {
            Some(h) => *h,
            Option::None => unreached(),
        }
    }

    /// The surface's native window handle, decoded from the raw value the
    /// engine's query returned.
    ///
    /// The engine answers for any windowed surface — also one created
    /// without a parent handle, for which it made its own window — and its
    /// answer may differ from the creation-time parent handle. A null
    /// answer, which the engine gives only for a pure off-screen surface,
    /// is a precondition violation, not a recoverable error.
    pub fn window_handle(&self, raw: i64, windows_platform: bool) -> (r: WindowHandle)
        requires
            self.is_alive(),
            raw != 0,
        ensures
            r == (if windows_platform {
                WindowHandle::Win32(raw)
            } else {
                WindowHandle::AppKit(raw)
            }),
            r.wf(),
    {
        if windows_platform {
            WindowHandle::Win32(raw)
        } else {
            WindowHandle::AppKit(raw)
        }
    }

    /// Prepare a string message for the page's script context.
    ///
    /// The channel is bidirectional, asynchronous and unordered with respect
    /// to other calls; what the page sends back arrives through the
    /// handler's message callback.
    pub fn send_message(&self, message: Vec<u8>) -> (d: OutboundMessage)
        requires
            self.is_alive(),
            !has_nul(message@),
        ensures
            d.payload == message,
    {
        OutboundMessage { payload: message }
    }

    /// Whether a developer-tools toggle may be dispatched now, and the state
    /// to dispatch.
    pub fn devtools_enabled(&self, enable: bool) -> (r: bool)
        requires
            self.is_alive(),
        ensures
            r == enable,
    {
        enable
    }

    /// Tear the surface down: close it at the engine boundary, then free the
    /// boxed handler. After the returned steps are performed in order, no
    /// callback is delivered through this surface again.
    pub fn destroy(&mut self) -> (steps: Vec<SurfaceTeardownStep>)
        requires
            old(self).is_alive(),
        ensures
            steps@ == surface_teardown_plan(),
            !final(self).is_alive(),
            final(self).surface() == old(self).surface(),
            final(self).window() == old(self).window(),
    {
        self.alive = false;
        let mut steps: Vec<SurfaceTeardownStep> = Vec::new();
        steps.push(SurfaceTeardownStep::CloseSurface);
        steps.push(SurfaceTeardownStep::FreeHandler);
        proof {
            assert(steps@ =~= surface_teardown_plan());
        }
        steps
    }
}

impl<H: WebViewHandler> WebView<H> {
    /// Dispatch a state-change callback to the handler; delivered exactly
    /// when the surface is still live.
    pub fn deliver_state_change(&self, state: WebViewState) -> (delivered: bool)
        ensures
            delivered == callback_deliverable(*self),
    {
        if self.alive {
            self.handler.on_state_change(state);
            true
        } else {
            false
        }
    }

    /// Dispatch a title-change callback to the handler; delivered exactly
    /// when the surface is still live.
    pub fn deliver_title_change(&self, title: &Vec<u8>) -> (delivered: bool)
        ensures
            delivered == callback_deliverable(*self),
    {
        if self.alive {
            self.handler.on_title_change(title);
            true
        } else {
            false
        }
    }

    /// Dispatch a fullscreen-change callback to the handler; delivered
    /// exactly when the surface is still live.
    pub fn deliver_fullscreen_change(&self, fullscreen: bool) -> (delivered: bool)
        ensures
            delivered == callback_deliverable(*self),
    {
        if self.alive {
            self.handler.on_fullscreen_change(fullscreen);
            true
        } else {
            false
        }
    }

    /// Dispatch a page message to the handler; delivered exactly when the
    /// surface is still live.
    pub fn deliver_message(&self, message: &Vec<u8>) -> (delivered: bool)
        ensures
            delivered == callback_deliverable(*self),
    {
        if self.alive {
            self.handler.on_message(message);
            true
        } else {
            false
        }
    }
}

impl<H: WindowlessRenderWebViewHandler> WebView<H> {
    /// Dispatch an IME-rectangle callback to the handler; delivered exactly
    /// when the surface is still live.
    pub fn deliver_ime_rect(&self, rect: Rect) -> (delivered: bool)
        ensures
            delivered == callback_deliverable(*self),
    {
        if self.alive {
            self.handler.on_ime_rect(rect);
            true
        } else {
            false
        }
    }

    /// Dispatch a rendered frame to the handler; delivered exactly when the
    /// surface is still live.
    pub fn deliver_frame(&self, texture: &Vec<u8>, width: u32, height: u32) -> (delivered: bool)
        ensures
            delivered == callback_deliverable(*self),
    {
        if self.alive {
            self.handler.on_frame(texture, width, height);
            true
        } else {
            false
        }
    }

    /// Turn a host mouse event into the native call to dispatch, updating
    /// the cursor cache. Only meaningful for an off-screen surface, which is
    /// the one kind that receives synthesized input.
    pub fn mouse(&mut self, action: MouseAction) -> (d: MouseDispatch)
        requires
            old(self).is_alive(),
            old(self).surface() is Windowless,
        ensures
            d == mouse_dispatch_spec(old(self).cursor(), action),
            final(self).cursor() == cursor_after(old(self).cursor(), action),
            final(self).is_alive(),
            final(self).surface() == old(self).surface(),
            final(self).window() == old(self).window(),
            final(self).handler() == old(self).handler(),
    {
        match action {
            MouseAction::Move(p) => {
                self.cursor = p;
                MouseDispatch::MoveTo { x: p.x, y: p.y }
            },
            MouseAction::Wheel(d) => MouseDispatch::WheelAt {
                x: self.cursor.x,
                y: self.cursor.y,
                delta_x: d.x,
                delta_y: d.y,
            },
            MouseAction::Click(button, state, pos) => {
                if let Some(p) = pos {
                    self.cursor = p;
                }
                MouseDispatch::ClickAt {
                    button,
                    pressed: matches!(state, KeyState::Down),
                    x: self.cursor.x,
                    y: self.cursor.y,
                }
            },
        }
    }

    /// Translate a host keyboard event into the engine's record shape.
    pub fn keyboard(&self, event: KeyEvent) -> (d: KeyDispatch)
        requires
            self.is_alive(),
            self.surface() is Windowless,
        ensures
            d == (KeyDispatch {
                size: event.size,
                ty: event.ty,
                modifiers: event.modifiers,
                windows_key_code: event.windows_key_code as i32,
                native_key_code: event.native_key_code as i32,
                is_system_key: event.is_system_key as i32,
                character: event.character,
                unmodified_character: event.unmodified_character,
                focus_on_editable_field: event.focus_on_editable_field as i32,
            }),
    {
        KeyDispatch {
            size: event.size,
            ty: event.ty,
            modifiers: event.modifiers,
            windows_key_code: #[verifier::truncate] (event.windows_key_code as i32),
            native_key_code: #[verifier::truncate] (event.native_key_code as i32),
            is_system_key: #[verifier::truncate] (event.is_system_key as i32),
            character: event.character,
            unmodified_character: event.unmodified_character,
            focus_on_editable_field: #[verifier::truncate] (event.focus_on_editable_field as i32),
        }
    }

    /// Turn a host input-method event into the native call to dispatch.
    pub fn ime(&self, action: IMEAction) -> (d: ImeDispatch)
        requires
            self.is_alive(),
            self.surface() is Windowless,
            (action matches IMEAction::Composition(t) ==> !has_nul(t@)),
            (action matches IMEAction::Pre(t, _, _) ==> !has_nul(t@)),
        ensures
            (action matches IMEAction::Composition(t) ==> d == (ImeDispatch::Commit { text: t })),
            (action matches IMEAction::Pre(t, x, y) ==> d == (ImeDispatch::SetComposition {
                text: t,
                x,
                y,
            })),
    {
        match action {
            IMEAction::Composition(text) => ImeDispatch::Commit { text },
            IMEAction::Pre(text, x, y) => ImeDispatch::SetComposition { text, x, y },
        }
    }

    /// The new size to dispatch for an off-screen resize.
    pub fn resize(&self, width: u32, height: u32) -> (d: (u32, u32))
        requires
            self.is_alive(),
            self.surface() is Windowless,
        ensures
            d == (width, height),
    {
        (width, height)
    }
}

/// No callback is delivered through a surface once its destroy call has
/// returned: destroy leaves the surface not live, and every delivery is
/// gated on [`callback_deliverable`], which holds only of a live surface.
pub proof fn lemma_no_callback_after_destroy<H>(w: WebView<H>)
    requires
        !w.is_alive(),
    ensures
        !callback_deliverable(w),
{
}

} // verus!
