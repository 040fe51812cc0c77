//! Message-loop strategies and surface modes.
//!
//! The engine's run loop must be driven for any asynchronous engine work —
//! callback delivery included — to happen. Three interchangeable strategies
//! exist, chosen at runtime construction and fixed for that runtime's life:
//! block the calling thread until quit, spawn a dedicated thread that blocks,
//! or let the host poll on the engine's schedule. One target platform cannot
//! host the loop on a dedicated secondary thread; there the externally-pumped
//! strategy is substituted silently.

use vstd::prelude::*;

use crate::registry::RuntimeRegistry;
use crate::runtime::{default_runtime_attributes, RuntimeAttributesBuilder};

verus! {

/// How the engine's message loop is driven.
#[derive(Debug, Clone, Copy, PartialEq, Eq, Structural)]
pub enum LoopMode {
    /// The blocking run call is issued by the host on the thread of its
    /// choice and returns only after quit.
    MainThread,
    /// The binding spawns a dedicated thread that issues the blocking run
    /// call; the constructing thread returns immediately.
    MultiThread,
    /// No blocking run call is ever issued; the host polls when the engine
    /// schedules pump work.
    ExternalPump,
}

/// The strategy actually installed when `requested` is asked for on a
/// platform that does or does not support a dedicated secondary loop thread.
///
/// A platform without that support cannot honour `MultiThread`; driving the
/// loop from a spawned thread there crashes the engine, so the
/// externally-pumped strategy is substituted. Every other request is honoured
/// as made.
pub open spec fn effective_mode_spec(requested: LoopMode, secondary_thread_supported: bool) -> LoopMode {
    if requested is MultiThread && !secondary_thread_supported {
        LoopMode::ExternalPump
    } else {
        requested
    }
}

/// Select the loop strategy to install for a request on the given platform.
pub fn effective_mode(requested: LoopMode, secondary_thread_supported: bool) -> (m: LoopMode)
    ensures
        m == effective_mode_spec(requested, secondary_thread_supported),
{
    match requested {
        LoopMode::MultiThread => {
            if secondary_thread_supported {
                LoopMode::MultiThread
            } else {
                LoopMode::ExternalPump
            }
        },
        other => other,
    }
}

/// The substitution never installs a dedicated-thread loop on a platform
/// that cannot host one, and it changes nothing else: any other request, and
/// any request on a supporting platform, is installed as made.
pub proof fn lemma_loop_strategy_substitution(requested: LoopMode, secondary_thread_supported: bool)
    ensures
        !secondary_thread_supported
            ==> effective_mode_spec(requested, secondary_thread_supported) !is MultiThread,
        requested is MultiThread && !secondary_thread_supported
            ==> effective_mode_spec(requested, secondary_thread_supported) is ExternalPump,
        secondary_thread_supported || !(requested is MultiThread)
            ==> effective_mode_spec(requested, secondary_thread_supported) == requested,
{
}

/// A message-loop strategy selector.
pub trait MessageLoopAbstract {
    /// The loop mode this strategy requests.
    spec fn mode_spec() -> LoopMode;

    /// The loop mode this strategy requests.
    fn requested_mode(&self) -> (m: LoopMode)
        ensures
            m == Self::mode_spec(),
    ;

    /// A runtime attributes builder for this strategy.
    fn create_runtime_attributes_builder(&self) -> (b: RuntimeAttributesBuilder)
        ensures
            b.attrs() == default_runtime_attributes(Self::mode_spec()),
            b.attrs().wf(),
    {
        RuntimeAttributesBuilder::new(self.requested_mode())
    }
}

/// The strategy that spawns a dedicated loop thread inside the runtime.
///
/// Not every platform supports it; where a dedicated secondary loop thread
/// cannot be hosted, construction substitutes the externally-pumped strategy.
#[derive(Debug, Default, Clone, Copy)]
pub struct MultiThreadMessageLoop;

impl MessageLoopAbstract for MultiThreadMessageLoop {
    open spec fn mode_spec() -> LoopMode {
        LoopMode::MultiThread
    }

    fn requested_mode(&self) -> (m: LoopMode) {
        LoopMode::MultiThread
    }
}

/// The strategy under which the host itself issues the blocking run call.
#[derive(Debug, Default, Clone, Copy)]
pub struct MainThreadMessageLoop;

impl MessageLoopAbstract for MainThreadMessageLoop {
    open spec fn mode_spec() -> LoopMode {
        LoopMode::MainThread
    }

    fn requested_mode(&self) -> (m: LoopMode) {
        LoopMode::MainThread
    }
}

/// The externally-pumped strategy: the host drives the loop by polling when
/// the engine schedules pump work.
#[derive(Debug, Default, Clone, Copy)]
pub struct MessagePumpLoop;

impl MessageLoopAbstract for MessagePumpLoop {
    open spec fn mode_spec() -> LoopMode {
        LoopMode::ExternalPump
    }

    fn requested_mode(&self) -> (m: LoopMode) {
        LoopMode::ExternalPump
    }
}

impl MessagePumpLoop {
    /// Whether a poll of the engine's loop should be issued now: polling while
    /// no runtime is live is a no-op, not an error.
    pub fn poll_decision(&self, registry: &RuntimeRegistry) -> (r: bool)
        ensures
            r == registry.is_running(),
    {
        registry.running()
    }
}

/// How a surface presents itself.
#[derive(Debug, Clone, Copy, PartialEq, Eq, Structural)]
pub enum SurfaceMode {
    /// Off-screen: frames are pushed to the host as pixel buffers and input
    /// is injected by the host.
    Windowless,
    /// A native window created and displayed by the engine.
    NativeWindow,
}

/// A surface-mode selector.
pub trait WebViewAbstract {
    /// The surface mode this selector stands for.
    spec fn surface_spec() -> SurfaceMode;

    /// The surface mode this selector stands for.
    fn surface_mode(&self) -> (m: SurfaceMode)
        ensures
            m == Self::surface_spec(),
    ;
}

/// Selector for off-screen rendering: frames arrive through the frame
/// callback and input events are injected by the host.
#[derive(Debug, Default, Clone, Copy)]
pub struct WindowlessRenderWebView;

impl WebViewAbstract for WindowlessRenderWebView {
    open spec fn surface_spec() -> SurfaceMode {
        SurfaceMode::Windowless
    }

    fn surface_mode(&self) -> (m: SurfaceMode) {
        SurfaceMode::Windowless
    }
}

/// Selector for a native window created and displayed by the engine.
#[derive(Debug, Default, Clone, Copy)]
pub struct NativeWindowWebView;

impl WebViewAbstract for NativeWindowWebView {
    open spec fn surface_spec() -> SurfaceMode {
        SurfaceMode::NativeWindow
    }

    fn surface_mode(&self) -> (m: SurfaceMode) {
        SurfaceMode::NativeWindow
    }
}

} // verus!
