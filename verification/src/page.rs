//! The page-level surface API and its script bridge.
//!
//! This is the lower-level face of the binding: pages are created against a
//! running engine instance, input events are dispatched without a cursor
//! cache — a click either carries its position or is sent positionless — and
//! the script bridge exchanges serialized request/response strings with the
//! page, each failure mode mapped to a typed error.

use vstd::prelude::*;

use crate::args::has_nul;

verus! {

/// A position in page coordinates.
#[derive(Debug, Clone, Copy, PartialEq, Eq, Structural)]
pub struct Position {
    pub x: i32,
    pub y: i32,
}

/// Whether a key or button goes down or up.
#[derive(Debug, Clone, Copy, PartialEq, Eq, Structural)]
pub enum ActionState {
    Down,
    Up,
}

impl ActionState {
    /// Whether the state is the pressed one.
    pub fn is_pressed(self) -> (r: bool)
        ensures
            r == (self is Down),
    {
        matches!(self, ActionState::Down)
    }
}

/// A mouse button.
#[derive(Debug, Clone, Copy, PartialEq, Eq, Structural)]
pub enum MouseButtons {
    Left,
    Middle,
    Right,
}

/// A mouse event handed to a page by the host.
#[derive(Debug, Clone, Copy, PartialEq, Eq)]
pub enum MouseAction {
    /// Press or release a button, optionally at an explicit position.
    Click(MouseButtons, ActionState, Option<Position>),
    /// Move the cursor.
    Move(Position),
    /// Scroll the wheel.
    Wheel(Position),
}

/// An input-method event handed to a page by the host.
#[derive(Debug, Clone, PartialEq, Eq)]
pub enum ImeAction {
    /// Commit the composition text.
    Composition(Vec<u8>),
    /// Begin or update a composition, with the caret anchor.
    Pre(Vec<u8>, i32, i32),
}

/// A modifier key, handed through to the engine with a keyboard event.
#[derive(Debug, Clone, Copy, PartialEq, Eq, Structural)]
pub enum Modifiers {
    Shift,
    Ctrl,
    Alt,
    Win,
}

/// A page-level keyboard call in the engine's shape.
#[derive(Debug, Clone, Copy, PartialEq, Eq, Structural)]
pub struct PageKeyDispatch {
    /// The scan code, as the signed integer the engine reads.
    pub scan_code: i32,
    /// Whether the key went down.
    pub pressed: bool,
    /// The modifier held with the key.
    pub modifiers: Modifiers,
}

/// Shape a host keyboard event for the engine: the scan code crosses the
/// boundary as the engine's signed integer and the state collapses to
/// whether the key went down.
pub fn page_keyboard_dispatch(scan_code: u32, state: ActionState, modifiers: Modifiers) -> (d:
    PageKeyDispatch)
    ensures
        d == (PageKeyDispatch {
            scan_code: scan_code as i32,
            pressed: state is Down,
            modifiers,
        }),
{
    PageKeyDispatch {
        scan_code: #[verifier::truncate] (scan_code as i32),
        pressed: state.is_pressed(),
        modifiers,
    }
}

/// A page-level input-method call to dispatch at the foreign-function
/// boundary.
#[derive(Debug, Clone, PartialEq, Eq)]
pub enum PageImeDispatch {
    /// Commit the composition text.
    Commit { text: Vec<u8> },
    /// Begin or update a composition with the caret anchor.
    SetComposition { text: Vec<u8>, x: i32, y: i32 },
}

/// Turn a page-level input-method event into the native call to dispatch.
pub fn page_ime_dispatch(action: ImeAction) -> (d: PageImeDispatch)
    requires
        (action matches ImeAction::Composition(t) ==> !has_nul(t@)),
        (action matches ImeAction::Pre(t, _, _) ==> !has_nul(t@)),
    ensures
        (action matches ImeAction::Composition(t) ==> d == (PageImeDispatch::Commit { text: t })),
        (action matches ImeAction::Pre(t, x, y) ==> d == (PageImeDispatch::SetComposition {
            text: t,
            x,
            y,
        })),
{
    match action {
        ImeAction::Composition(text) => PageImeDispatch::Commit { text },
        ImeAction::Pre(text, x, y) => PageImeDispatch::SetComposition { text, x, y },
    }
}

/// The phase of a touch point's life.
#[derive(Debug, Clone, Copy, PartialEq, Eq, Structural)]
pub enum TouchEventType {
    Released,
    Pressed,
    Moved,
    Cancelled,
}

/// What kind of pointer produced a touch event.
#[derive(Debug, Clone, Copy, PartialEq, Eq, Structural)]
pub enum TouchPointerType {
    Touch,
    Mouse,
    Pen,
    Eraser,
    Unknown,
}

/// A touch call in the engine's record shape, ready for the
/// foreign-function boundary.
#[derive(Debug, Clone, Copy, PartialEq, Eq, Structural)]
pub struct TouchDispatch {
    pub id: i32,
    pub x: i32,
    pub y: i32,
    pub ty: TouchEventType,
    pub pointer_type: TouchPointerType,
}

/// Shape a host touch event for the engine: the identifier ties the events
/// of one touch point together across its phases.
pub fn page_touch_dispatch(
    id: i32,
    x: i32,
    y: i32,
    ty: TouchEventType,
    pointer_type: TouchPointerType,
) -> (d: TouchDispatch)
    ensures
        d == (TouchDispatch { id, x, y, ty, pointer_type }),
{
    TouchDispatch { id, x, y, ty, pointer_type }
}

/// Engine-instance configuration for the page-level API.
#[derive(Debug, Clone, PartialEq, Eq)]
pub struct WebviewOptions {
    /// Where the engine persists its browser cache on disk.
    pub cache_path: Option<Vec<u8>>,
    /// A separate executable to launch for engine subprocesses.
    pub browser_subprocess_path: Option<Vec<u8>>,
    /// The directory custom-scheme resources are served from.
    pub scheme_path: Option<Vec<u8>>,
}

impl WebviewOptions {
    /// Every present path is representable as a null-terminated copy.
    pub open spec fn wf(&self) -> bool {
        &&& (self.cache_path matches Some(p) ==> !has_nul(p@))
        &&& (self.browser_subprocess_path matches Some(p) ==> !has_nul(p@))
        &&& (self.scheme_path matches Some(p) ==> !has_nul(p@))
    }
}

/// A failure of engine-instance creation at the page-level API.
#[derive(Debug, Clone, Copy, PartialEq, Eq, Structural)]
pub enum WebviewError {
    /// The engine's creation entry point returned a null handle, or the
    /// engine exited before signalling startup.
    CreateAppFailed,
}

impl WebviewError {
    /// A short human-readable name for the failure.
    pub fn describe(&self) -> (r: &'static str)
        ensures
            r@ == "create app failed"@,
    {
        "create app failed"
    }
}

/// A failure at the page level: creation, or one call on the script bridge.
#[derive(Debug, Clone, Copy, PartialEq, Eq, Structural)]
pub enum PageError {
    /// The first terminal state of the initial navigation was an error, or
    /// the creation signal never arrived.
    CreateBrowserFailed,
    /// A bridge payload could not be serialized or parsed.
    BridgeSerdeError,
    /// The page did not answer a bridge call in time.
    BridgeTimeout,
    /// The bridge reply channel closed without a reply.
    BridgeCallError,
}

impl PageError {
    /// A short human-readable name for the failure.
    pub fn describe(&self) -> (r: &'static str)
        ensures
            r@ == match self {
                PageError::CreateBrowserFailed => "create browser failed"@,
                PageError::BridgeSerdeError => "bridge serde error"@,
                PageError::BridgeTimeout => "bridge timeout"@,
                PageError::BridgeCallError => "bridge call error"@,
            },
    {
        match self {
            PageError::CreateBrowserFailed => "create browser failed",
            PageError::BridgeSerdeError => "bridge serde error",
            PageError::BridgeTimeout => "bridge timeout",
            PageError::BridgeCallError => "bridge call error",
        }
    }
}

/// Resolve an engine-instance creation at the page-level API.
///
/// `native_created` records whether the engine's creation entry point
/// returned a handle; `started` whether the startup signal arrived before
/// its channel closed. Creation succeeds exactly when both held.
pub fn webview_creation_outcome(native_created: bool, started: Option<()>) -> (r: Result<
    (),
    WebviewError,
>)
    ensures
        r is Ok <==> (native_created && started is Some),
        r is Err ==> r == Result::<(), WebviewError>::Err(WebviewError::CreateAppFailed),
{
    if native_created {
        match started {
            Some(_) => Ok(()),
            Option::None => Err(WebviewError::CreateAppFailed),
        }
    } else {
        Err(WebviewError::CreateAppFailed)
    }
}

/// Resolve a page creation from the first terminal state of its initial
/// navigation: `Some(true)` for a successful load, `Some(false)` for a load
/// error, `None` when the state channel closed without a terminal state.
pub fn page_creation_outcome(first_terminal: Option<bool>) -> (r: Result<(), PageError>)
    ensures
        r is Ok <==> first_terminal == Some(true),
        r is Err ==> r == Result::<(), PageError>::Err(PageError::CreateBrowserFailed),
{
    match first_terminal {
        Some(true) => Ok(()),
        _ => Err(PageError::CreateBrowserFailed),
    }
}

/// Resolve one call on the script bridge.
///
/// The call serializes its request, waits for the page's reply under a
/// timeout, and parses the reply if one came with a payload. The failures
/// are checked in that order: a request that cannot be serialized never
/// leaves the host, a timeout outranks the channel closing, a reply without
/// payload is a successful empty answer, and a payload that cannot be
/// parsed is a serde failure.
pub fn bridge_call_outcome(
    serialized: bool,
    timed_out: bool,
    responded: bool,
    payload: Option<Vec<u8>>,
    parsed: bool,
) -> (r: Result<Option<Vec<u8>>, PageError>)
    ensures
        !serialized ==> r == Result::<Option<Vec<u8>>, PageError>::Err(PageError::BridgeSerdeError),
        serialized && timed_out ==> r == Result::<Option<Vec<u8>>, PageError>::Err(
            PageError::BridgeTimeout,
        ),
        serialized && !timed_out && !responded ==> r == Result::<Option<Vec<u8>>, PageError>::Err(
            PageError::BridgeCallError,
        ),
        serialized && !timed_out && responded && payload is None ==> r == Result::<
            Option<Vec<u8>>,
            PageError,
        >::Ok(Option::None),
        serialized && !timed_out && responded && parsed ==> (payload matches Some(p) ==> r
            == Result::<Option<Vec<u8>>, PageError>::Ok(Some(p))),
        serialized && !timed_out && responded && payload is Some && !parsed ==> r == Result::<
            Option<Vec<u8>>,
            PageError,
        >::Err(PageError::BridgeSerdeError),
{
    if !serialized {
        Err(PageError::BridgeSerdeError)
    } else if timed_out {
        Err(PageError::BridgeTimeout)
    } else if !responded {
        Err(PageError::BridgeCallError)
    } else {
        match payload {
            Option::None => Ok(Option::None),
            Some(p) => {
                if parsed {
                    Ok(Some(p))
                } else {
                    Err(PageError::BridgeSerdeError)
                }
            },
        }
    }
}

/// How the engine's blocking run call ended.
#[derive(Debug, Clone, Copy, PartialEq, Eq, Structural)]
pub enum RunLoopExit {
    /// The loop ended normally, after quit was issued.
    CleanExit,
    /// The engine reported a failure; the binding treats this as a bug and
    /// a fatal condition, not a recoverable error.
    UnexpectedExit,
}

/// Classify the exit code of the engine's blocking run call: zero is the
/// loop ending after quit, anything else is unexpected and fatal.
pub fn run_loop_exit(code: i32) -> (r: RunLoopExit)
    ensures
        r is CleanExit <==> code == 0,
{
    if code == 0 {
        RunLoopExit::CleanExit
    } else {
        RunLoopExit::UnexpectedExit
    }
}

/// The answer handed back over the bridge for one page request: exactly one
/// of the success and failure strings is set.
#[derive(Debug, Clone, PartialEq, Eq)]
pub enum BridgeReply {
    Success(Vec<u8>),
    Failure(Vec<u8>),
}

/// Shape a host-side result into the bridge's reply record.
pub fn bridge_reply(result: Result<Vec<u8>, Vec<u8>>) -> (r: BridgeReply)
    ensures
        (result matches Ok(s) ==> r == BridgeReply::Success(s)),
        (result matches Err(f) ==> r == BridgeReply::Failure(f)),
{
    match result {
        Ok(s) => BridgeReply::Success(s),
        Err(f) => BridgeReply::Failure(f),
    }
}

/// A page-level mouse call to dispatch at the foreign-function boundary.
///
/// Unlike the cursor-cached surface dispatch, a page-level click without an
/// explicit position is sent positionless and the engine uses its own
/// current cursor.
#[derive(Debug, Clone, Copy, PartialEq, Eq, Structural)]
pub enum PageMouseDispatch {
    /// Move the engine cursor.
    MoveTo { x: i32, y: i32 },
    /// Scroll the wheel.
    WheelAt { x: i32, y: i32 },
    /// Press or release a button at an explicit position.
    ClickWithPos { button: MouseButtons, pressed: bool, x: i32, y: i32 },
    /// Press or release a button at the engine's current cursor.
    Click { button: MouseButtons, pressed: bool },
}

/// The native call a page dispatches for a mouse event.
pub open spec fn page_mouse_dispatch_spec(action: MouseAction) -> PageMouseDispatch {
    match action {
        MouseAction::Move(p) => PageMouseDispatch::MoveTo { x: p.x, y: p.y },
        MouseAction::Wheel(p) => PageMouseDispatch::WheelAt { x: p.x, y: p.y },
        MouseAction::Click(button, state, pos) => match pos {
            Some(p) => PageMouseDispatch::ClickWithPos {
                button,
                pressed: state is Down,
                x: p.x,
                y: p.y,
            },
            Option::None => PageMouseDispatch::Click { button, pressed: state is Down },
        },
    }
}

/// Turn a page-level mouse event into the native call to dispatch.
pub fn page_mouse_dispatch(action: MouseAction) -> (d: PageMouseDispatch)
    ensures
        d == page_mouse_dispatch_spec(action),
{
    match action {
        MouseAction::Move(p) => PageMouseDispatch::MoveTo { x: p.x, y: p.y },
        MouseAction::Wheel(p) => PageMouseDispatch::WheelAt { x: p.x, y: p.y },
        MouseAction::Click(button, state, pos) => match pos {
            Some(p) => PageMouseDispatch::ClickWithPos {
                button,
                pressed: state.is_pressed(),
                x: p.x,
                y: p.y,
            },
            Option::None => PageMouseDispatch::Click { button, pressed: state.is_pressed() },
        },
    }
}

} // verus!
