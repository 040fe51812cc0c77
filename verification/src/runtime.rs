//! The runtime: owner of one engine instance for the process's lifetime.
//!
//! Construction claims the process-wide registry before touching the engine
//! and releases it again when the engine's creation entry point returns null,
//! so a failed construction never blocks a later one. A constructed runtime
//! starts initializing; the engine signals context-initialized asynchronously
//! once its loop is being driven. Teardown is ordered: a dedicated loop
//! thread is quit before the engine instance is closed, and the boxed handler
//! is freed only after the close returns, when no callback can arrive.

use vstd::prelude::*;

use crate::args::has_nul;
use crate::errors::Error;
use crate::loops::{effective_mode, effective_mode_spec, LoopMode, SurfaceMode};
use crate::registry::RuntimeRegistry;
use crate::webview::{Position, WebView, WebViewAttributes};

verus! {

/// Callbacks every runtime delivers to its host handler.
pub trait RuntimeHandler {
    /// The engine's context finished initializing; the runtime is usable.
    ///
    /// Initialization begins only once the message loop is being driven, so
    /// the loop must be driven promptly after construction for this to fire.
    fn on_context_initialized(&self);
}

/// Additional callback a runtime built with the externally-pumped loop
/// strategy delivers to its host handler.
pub trait MessagePumpRuntimeHandler: RuntimeHandler {
    /// The engine schedules pump work: the host must poll after `delay`
    /// milliseconds to advance the loop.
    fn on_schedule_message_pump_work(&self, delay: u64);
}

/// Registration of a custom URL scheme, handled host-side.
#[derive(Debug, Clone, PartialEq, Eq)]
pub struct CustomSchemeAttributes {
    /// The scheme name.
    pub name: Vec<u8>,
    /// The domain the scheme is registered for.
    pub domain: Vec<u8>,
}

impl CustomSchemeAttributes {
    /// Both strings must be representable as null-terminated copies.
    pub open spec fn wf(&self) -> bool {
        !has_nul(self.name@) && !has_nul(self.domain@)
    }
}

/// Runtime configuration, finalized by [`RuntimeAttributesBuilder`] and
/// consumed by construction.
///
/// Optional string fields are either absent — null at the foreign-function
/// boundary — or owned copies without embedded nulls, kept alive for the
/// duration of the native call that reads them.
#[derive(Debug, Clone, PartialEq, Eq)]
pub struct RuntimeAttributes {
    /// Registration of a custom URL scheme, if any.
    pub custom_scheme: Option<CustomSchemeAttributes>,
    /// Whether surfaces may render off-screen.
    pub windowless_rendering_enabled: bool,
    /// Where the engine persists its browser cache on disk.
    pub cache_dir_path: Option<Vec<u8>>,
    /// A separate executable to launch for engine subprocesses.
    pub browser_subprocess_path: Option<Vec<u8>>,
    /// The engine framework directory, for the platform that needs one.
    pub framework_dir_path: Option<Vec<u8>>,
    /// The main bundle path, for the platform that needs one.
    pub main_bundle_path: Option<Vec<u8>>,
    /// The message-loop strategy the host requested.
    pub requested_mode: LoopMode,
}

impl RuntimeAttributes {
    /// Every present string field is representable as a null-terminated
    /// copy.
    pub open spec fn wf(&self) -> bool {
        &&& (self.custom_scheme matches Some(s) ==> s.wf())
        &&& (self.cache_dir_path matches Some(p) ==> !has_nul(p@))
        &&& (self.browser_subprocess_path matches Some(p) ==> !has_nul(p@))
        &&& (self.framework_dir_path matches Some(p) ==> !has_nul(p@))
        &&& (self.main_bundle_path matches Some(p) ==> !has_nul(p@))
    }

    /// The flag handed to the engine's configuration record: the loop runs
    /// on a thread the engine spawns internally.
    pub open spec fn multi_threaded_message_loop(&self) -> bool {
        self.requested_mode is MultiThread
    }

    /// The flag handed to the engine's configuration record: the loop is
    /// advanced by host polling.
    pub open spec fn external_message_pump(&self) -> bool {
        self.requested_mode is ExternalPump
    }
}

/// The two loop flags of the engine's configuration record never hold
/// together: each strategy sets at most one of them.
pub proof fn lemma_loop_flags_exclusive(attrs: RuntimeAttributes)
    ensures
        !(attrs.multi_threaded_message_loop() && attrs.external_message_pump()),
{
}

/// The attributes a fresh builder for the given strategy starts from.
pub open spec fn default_runtime_attributes(mode: LoopMode) -> RuntimeAttributes {
    RuntimeAttributes {
        custom_scheme: Option::None,
        windowless_rendering_enabled: false,
        cache_dir_path: Option::None,
        browser_subprocess_path: Option::None,
        framework_dir_path: Option::None,
        main_bundle_path: Option::None,
        requested_mode: mode,
    }
}

/// An accumulating builder for [`RuntimeAttributes`].
pub struct RuntimeAttributesBuilder {
    attrs: RuntimeAttributes,
}

impl RuntimeAttributesBuilder {
    /// The attributes accumulated so far.
    pub closed spec fn attrs(&self) -> RuntimeAttributes {
        self.attrs
    }

    /// A builder for a runtime driven by the given loop strategy.
    pub fn new(mode: LoopMode) -> (r: Self)
        ensures
            r.attrs() == default_runtime_attributes(mode),
            r.attrs().wf(),
    {
        RuntimeAttributesBuilder {
            attrs: RuntimeAttributes {
                custom_scheme: Option::None,
                windowless_rendering_enabled: false,
                cache_dir_path: Option::None,
                browser_subprocess_path: Option::None,
                framework_dir_path: Option::None,
                main_bundle_path: Option::None,
                requested_mode: mode,
            },
        }
    }

    /// Register a custom URL scheme.
    pub fn with_custom_scheme(self, scheme: CustomSchemeAttributes) -> (r: Self)
        requires
            scheme.wf(),
        ensures
            r.attrs() == (RuntimeAttributes { custom_scheme: Some(scheme), ..self.attrs() }),
            self.attrs().wf() ==> r.attrs().wf(),
    {
        RuntimeAttributesBuilder {
            attrs: RuntimeAttributes { custom_scheme: Some(scheme), ..self.attrs },
        }
    }

    /// Set whether surfaces may render off-screen. Enabling it without using
    /// off-screen rendering can reduce rendering performance.
    pub fn with_windowless_rendering_enabled(self, value: bool) -> (r: Self)
        ensures
            r.attrs() == (RuntimeAttributes {
                windowless_rendering_enabled: value,
                ..self.attrs()
            }),
            self.attrs().wf() ==> r.attrs().wf(),
    {
        RuntimeAttributesBuilder {
            attrs: RuntimeAttributes { windowless_rendering_enabled: value, ..self.attrs },
        }
    }

    /// Set the directory the engine persists its browser cache in.
    pub fn with_cache_dir_path(self, value: Vec<u8>) -> (r: Self)
        requires
            !has_nul(value@),
        ensures
            r.attrs() == (RuntimeAttributes { cache_dir_path: Some(value), ..self.attrs() }),
            self.attrs().wf() ==> r.attrs().wf(),
    {
        RuntimeAttributesBuilder {
            attrs: RuntimeAttributes { cache_dir_path: Some(value), ..self.attrs },
        }
    }

    /// Set the separate executable launched for engine subprocesses.
    pub fn with_browser_subprocess_path(self, value: Vec<u8>) -> (r: Self)
        requires
            !has_nul(value@),
        ensures
            r.attrs() == (RuntimeAttributes {
                browser_subprocess_path: Some(value),
                ..self.attrs()
            }),
            self.attrs().wf() ==> r.attrs().wf(),
    {
        RuntimeAttributesBuilder {
            attrs: RuntimeAttributes { browser_subprocess_path: Some(value), ..self.attrs },
        }
    }

    /// Set the engine framework directory, on the platform that needs one.
    pub fn with_framework_dir_path(self, value: Vec<u8>) -> (r: Self)
        requires
            !has_nul(value@),
        ensures
            r.attrs() == (RuntimeAttributes { framework_dir_path: Some(value), ..self.attrs() }),
            self.attrs().wf() ==> r.attrs().wf(),
    {
        RuntimeAttributesBuilder {
            attrs: RuntimeAttributes { framework_dir_path: Some(value), ..self.attrs },
        }
    }

    /// Set the main bundle path, on the platform that needs one.
    pub fn with_main_bundle_path(self, value: Vec<u8>) -> (r: Self)
        requires
            !has_nul(value@),
        ensures
            r.attrs() == (RuntimeAttributes { main_bundle_path: Some(value), ..self.attrs() }),
            self.attrs().wf() ==> r.attrs().wf(),
    {
        RuntimeAttributesBuilder {
            attrs: RuntimeAttributes { main_bundle_path: Some(value), ..self.attrs },
        }
    }

    /// Finalize the accumulated attributes.
    pub fn build(self) -> (r: RuntimeAttributes)
        ensures
            r == self.attrs(),
    {
        self.attrs
    }
}

/// The runtime's place in its lifecycle.
#[derive(Debug, Clone, Copy, PartialEq, Eq, Structural)]
pub enum RuntimePhase {
    /// Constructed; the engine context has not signalled initialization yet.
    Initializing,
    /// The engine context is initialized and the runtime is usable.
    Ready,
    /// Torn down; the engine instance is closed and the handler freed.
    Destroyed,
}

/// Where the engine's execute entry point is invoked right after creation.
#[derive(Debug, Clone, Copy, PartialEq, Eq, Structural)]
pub enum ExecutePlacement {
    /// On a thread the binding spawns, which the blocking call then owns.
    SpawnedThread,
    /// Inline on the constructing thread.
    CallingThread,
}

/// Where the execute call belongs for each loop strategy: only the
/// dedicated-thread strategy spawns, every other strategy executes inline.
pub open spec fn execute_placement_spec(mode: LoopMode) -> ExecutePlacement {
    if mode is MultiThread {
        ExecutePlacement::SpawnedThread
    } else {
        ExecutePlacement::CallingThread
    }
}

/// One step of a runtime's teardown, in the order the engine requires.
#[derive(Debug, Clone, Copy, PartialEq, Eq, Structural)]
pub enum RuntimeTeardownStep {
    /// Quit the message loop, so a dedicated loop thread can leave the
    /// blocking run call before its backing object disappears.
    QuitMessageLoop,
    /// Call the engine's close entry point for the runtime instance.
    CloseRuntime,
    /// Free the boxed handler whose address was the trampoline context.
    FreeHandler,
}

/// The teardown steps for a runtime driven in the given mode: a dedicated
/// loop thread is quit first, the engine instance is closed next, and the
/// handler is freed last, when no callback can arrive any more.
pub open spec fn runtime_teardown_plan(mode: LoopMode) -> Seq<RuntimeTeardownStep> {
    if mode is MultiThread {
        seq![
            RuntimeTeardownStep::QuitMessageLoop,
            RuntimeTeardownStep::CloseRuntime,
            RuntimeTeardownStep::FreeHandler,
        ]
    } else {
        seq![RuntimeTeardownStep::CloseRuntime, RuntimeTeardownStep::FreeHandler]
    }
}

/// Teardown order is fixed: when the loop owns a dedicated thread it is quit
/// before anything else, the engine instance is always closed before the
/// handler is freed, and the handler free is always the last step.
pub proof fn lemma_teardown_order(mode: LoopMode)
    ensures
        mode is MultiThread ==> runtime_teardown_plan(mode) == seq![
            RuntimeTeardownStep::QuitMessageLoop,
            RuntimeTeardownStep::CloseRuntime,
            RuntimeTeardownStep::FreeHandler,
        ],
        !(mode is MultiThread) ==> runtime_teardown_plan(mode) == seq![
            RuntimeTeardownStep::CloseRuntime,
            RuntimeTeardownStep::FreeHandler,
        ],
        runtime_teardown_plan(mode).last() == RuntimeTeardownStep::FreeHandler,
        runtime_teardown_plan(mode)[runtime_teardown_plan(mode).len() - 2]
            == RuntimeTeardownStep::CloseRuntime,
{
}

/// The two loop flags of the engine's configuration record, as built for a
/// runtime installed with the given strategy: the dedicated-thread flag and
/// the external-pump flag, never both.
pub open spec fn engine_loop_flags_spec(mode: LoopMode) -> (bool, bool) {
    (mode is MultiThread, mode is ExternalPump)
}

/// A runtime construction in flight: the process-wide registry is claimed
/// and the engine's creation entry point is being called.
pub struct PendingRuntime<H> {
    handler: H,
    mode: LoopMode,
}

impl<H> PendingRuntime<H> {
    /// The loop strategy the runtime will be driven by.
    pub closed spec fn mode(&self) -> LoopMode {
        self.mode
    }

    /// The host handler the runtime will own.
    pub closed spec fn handler(&self) -> H {
        self.handler
    }

    /// The loop flags to write into the engine's configuration record.
    ///
    /// They are built from the installed strategy, not the requested one, so
    /// a platform substitution reaches the engine as the externally-pumped
    /// configuration it stands for.
    pub fn engine_loop_flags(&self) -> (r: (bool, bool))
        ensures
            r == engine_loop_flags_spec(self.mode()),
    {
        (
            matches!(self.mode, LoopMode::MultiThread),
            matches!(self.mode, LoopMode::ExternalPump),
        )
    }
}

/// The process-wide singleton owning one engine instance.
pub struct Runtime<H> {
    phase: RuntimePhase,
    mode: LoopMode,
    handler: H,
    live_surfaces: u64,
}

/// Begin constructing a runtime: claim the process-wide registry before the
/// engine is touched.
///
/// Fails with `RuntimeAlreadyExists`, leaving the registry unchanged, exactly
/// when a runtime is already live. On success the registry is claimed and the
/// loop strategy is fixed: the requested strategy, except that a platform
/// unable to host a dedicated secondary loop thread silently gets the
/// externally-pumped strategy instead.
pub fn begin_runtime_construction<H: RuntimeHandler>(
    registry: &mut RuntimeRegistry,
    attrs: &RuntimeAttributes,
    secondary_thread_supported: bool,
    handler: H,
) -> (r: Result<PendingRuntime<H>, Error>)
    requires
        attrs.wf(),
    ensures
        r is Ok <==> !old(registry).is_running(),
        r matches Ok(p) ==> final(registry).is_running() && p.mode() == effective_mode_spec(
            attrs.requested_mode,
            secondary_thread_supported,
        ) && p.handler() == handler,
        r is Err ==> r == Result::<PendingRuntime<H>, Error>::Err(Error::RuntimeAlreadyExists)
            && *final(registry) == *old(registry),
{
    match registry.try_acquire() {
        Ok(_) => {
            let mode = effective_mode(attrs.requested_mode, secondary_thread_supported);
            Ok(PendingRuntime { handler, mode })
        },
        Err(e) => Err(e),
    }
}

impl<H> PendingRuntime<H> {
    /// Finish the construction after the engine's creation entry point
    /// returned. `native_created` records whether it returned a handle.
    ///
    /// A null return is the `FailedToCreateRuntime` failure; the registry is
    /// released again, so a failed construction does not block a later one.
    /// On success the runtime starts in `Initializing` with no live surface,
    /// and the caller must invoke the engine's execute entry point at the
    /// placement [`Runtime::execute_placement`] gives.
    pub fn finish(self, registry: &mut RuntimeRegistry, native_created: bool) -> (r: Result<
        Runtime<H>,
        Error,
    >)
        requires
            old(registry).is_running(),
        ensures
            r is Ok <==> native_created,
            r matches Ok(rt) ==> final(registry).is_running() && rt.phase()
                is Initializing && rt.mode() == self.mode() && rt.live_surfaces() == 0
                && rt.handler() == self.handler(),
            r is Err ==> r == Result::<Runtime<H>, Error>::Err(Error::FailedToCreateRuntime)
                && !final(registry).is_running(),
    {
        if native_created {
            Ok(
                Runtime {
                    phase: RuntimePhase::Initializing,
                    mode: self.mode,
                    handler: self.handler,
                    live_surfaces: 0,
                },
            )
        } else {
            registry.release();
            Err(Error::FailedToCreateRuntime)
        }
    }
}

impl<H> Runtime<H> {
    /// The runtime's place in its lifecycle.
    pub closed spec fn phase(&self) -> RuntimePhase {
        self.phase
    }

    /// The loop strategy the runtime is driven by, fixed at construction.
    pub closed spec fn mode(&self) -> LoopMode {
        self.mode
    }

    /// The host handler the runtime owns.
    pub closed spec fn handler(&self) -> H {
        self.handler
    }

    /// How many surfaces created from this runtime are still live.
    pub closed spec fn live_surfaces(&self) -> int {
        self.live_surfaces as int
    }

    /// The runtime's place in its lifecycle.
    pub fn current_phase(&self) -> (r: RuntimePhase)
        ensures
            r == self.phase(),
    {
        self.phase
    }

    /// The loop strategy the runtime is driven by.
    pub fn loop_mode(&self) -> (r: LoopMode)
        ensures
            r == self.mode(),
    {
        self.mode
    }

    /// How many surfaces created from this runtime are still live.
    pub fn surface_count(&self) -> (r: u64)
        ensures
            r == self.live_surfaces(),
    {
        self.live_surfaces
    }

    /// Where the engine's execute entry point is to be invoked for this
    /// runtime: on a spawned thread for the dedicated-thread strategy, inline
    /// otherwise.
    pub fn execute_placement(&self) -> (p: ExecutePlacement)
        ensures
            p == execute_placement_spec(self.mode()),
    {
        match self.mode {
            LoopMode::MultiThread => ExecutePlacement::SpawnedThread,
            _ => ExecutePlacement::CallingThread,
        }
    }

    /// Tear the runtime down.
    ///
    /// Requires every surface created from this runtime to be destroyed
    /// first — runtime teardown invalidates their native handles, so
    /// destroying under live surfaces is a precondition violation. The
    /// returned steps are performed in order at the engine boundary; the
    /// registry is released, so a new runtime may be constructed.
    pub fn destroy(&mut self, registry: &mut RuntimeRegistry) -> (steps: Vec<RuntimeTeardownStep>)
        requires
            old(self).phase() !is Destroyed,
            old(self).live_surfaces() == 0,
        ensures
            steps@ == runtime_teardown_plan(old(self).mode()),
            final(self).phase() is Destroyed,
            final(self).mode() == old(self).mode(),
            final(self).live_surfaces() == 0,
            !final(registry).is_running(),
    {
        self.phase = RuntimePhase::Destroyed;
        let mut steps: Vec<RuntimeTeardownStep> = Vec::new();
        if matches!(self.mode, LoopMode::MultiThread) {
            steps.push(RuntimeTeardownStep::QuitMessageLoop);
        }
        steps.push(RuntimeTeardownStep::CloseRuntime);
        steps.push(RuntimeTeardownStep::FreeHandler);
        registry.release();
        proof {
            assert(steps@ =~= runtime_teardown_plan(self.mode));
        }
        steps
    }

    /// Record that a surface created from this runtime was destroyed.
    pub fn note_surface_destroyed(&mut self)
        requires
            old(self).live_surfaces() > 0,
        ensures
            final(self).live_surfaces() == old(self).live_surfaces() - 1,
            final(self).phase() == old(self).phase(),
            final(self).mode() == old(self).mode(),
            final(self).handler() == old(self).handler(),
    {
        self.live_surfaces = self.live_surfaces - 1;
    }
}

impl<H: RuntimeHandler> Runtime<H> {
    /// The engine signalled that its context finished initializing: move to
    /// `Ready` and dispatch the callback to the host handler.
    ///
    /// The engine fires this once, after the creation call returned and
    /// before teardown, so it arrives in the `Initializing` phase.
    pub fn mark_context_initialized(&mut self)
        requires
            old(self).phase() is Initializing,
        ensures
            final(self).phase() is Ready,
            final(self).mode() == old(self).mode(),
            final(self).live_surfaces() == old(self).live_surfaces(),
            final(self).handler() == old(self).handler(),
    {
        self.phase = RuntimePhase::Ready;
        self.handler.on_context_initialized();
    }

    /// Create a surface bound to this runtime.
    ///
    /// Valid while the runtime is not destroyed — the engine queues the work
    /// if its context is not initialized yet. `native_created` records
    /// whether the engine's surface creation entry point returned a handle;
    /// a null return is the `FailedToCreateWebView` failure.
    pub fn create_webview<W>(
        &mut self,
        surface: SurfaceMode,
        url: &Vec<u8>,
        attrs: &WebViewAttributes,
        handler: W,
        native_created: bool,
    ) -> (r: Result<WebView<W>, Error>)
        requires
            old(self).phase() !is Destroyed,
            old(self).live_surfaces() < u64::MAX,
            !has_nul(url@),
            attrs.wf(),
        ensures
            r is Ok <==> native_created,
            r matches Ok(w) ==> w.is_alive() && w.surface() == surface && w.window()
                == attrs.window_handle && w.cursor() == (Position { x: 0, y: 0 })
                && w.handler() == handler && final(self).live_surfaces() == old(
                self,
            ).live_surfaces() + 1,
            r is Err ==> r == Result::<WebView<W>, Error>::Err(Error::FailedToCreateWebView)
                && final(self).live_surfaces() == old(self).live_surfaces(),
            final(self).phase() == old(self).phase(),
            final(self).mode() == old(self).mode(),
            final(self).handler() == old(self).handler(),
    {
        let r = WebView::attach(surface, attrs, handler, native_created);
        if r.is_ok() {
            self.live_surfaces = self.live_surfaces + 1;
        }
        r
    }
}

impl<H: MessagePumpRuntimeHandler> Runtime<H> {
    /// Dispatch the engine's schedule-pump-work callback to the host
    /// handler; delivered exactly when the runtime's handler context is
    /// still owned, which it is until teardown.
    pub fn deliver_pump_schedule(&self, delay: u64) -> (delivered: bool)
        ensures
            delivered == (self.phase() !is Destroyed),
    {
        if matches!(self.phase, RuntimePhase::Destroyed) {
            false
        } else {
            self.handler.on_schedule_message_pump_work(delay);
            true
        }
    }
}

} // verus!
