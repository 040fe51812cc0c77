//! The async adaptation box, outcome mapping, argument marshalling and the
//! bridge error ladder.

use webview_core::args::{
    bytes_contain, guard_subprocess_execution, subprocess_decision, ArgSnapshot, MarshalError,
    SubprocessDecision,
};
use webview_core::errors::Error;
use webview_core::page::{
    bridge_call_outcome, bridge_reply, page_creation_outcome, run_loop_exit,
    webview_creation_outcome, BridgeReply, PageError, RunLoopExit, WebviewError,
};
use webview_core::promise::{
    forward_context_initialized, forward_terminal_state, runtime_ready_outcome,
    webview_load_outcome, PollOutcome, SignalSlot,
};
use webview_core::request_handler::{
    Request, RequestFilter, RequestHandler, ResourceHandler, ResourceResponse,
};
use webview_core::loops::LoopMode;
use webview_core::runtime::{CustomSchemeAttributes, RuntimeAttributesBuilder};
use webview_core::webview::{WebViewAttributes, WebViewAttributesBuilder, WebViewState};

#[test]
fn deposited_result_resolves_the_wait_once() {
    let mut slot: SignalSlot<bool> = SignalSlot::new();
    assert_eq!(slot.poll(), PollOutcome::Pending);
    slot.complete(true);
    assert_eq!(slot.poll(), PollOutcome::Ready(Some(true)));
    assert!(slot.resolved());
}

#[test]
fn dropped_producer_resolves_the_wait_to_failure() {
    let mut slot: SignalSlot<()> = SignalSlot::new();
    assert_eq!(slot.poll(), PollOutcome::Pending);
    slot.abandon();
    assert_eq!(slot.poll(), PollOutcome::Ready(None));
    assert!(slot.resolved());
}

#[test]
fn context_initialized_signal_fires_the_wait_once() {
    let mut slot: SignalSlot<()> = SignalSlot::new();
    forward_context_initialized(&mut slot);
    // a second signal finds the producer gone and changes nothing
    forward_context_initialized(&mut slot);
    assert_eq!(slot.poll(), PollOutcome::Ready(Some(())));
}

#[test]
fn only_terminal_states_resolve_a_creation_wait() {
    let mut slot: SignalSlot<bool> = SignalSlot::new();
    forward_terminal_state(&mut slot, WebViewState::Loading);
    assert_eq!(slot.poll(), PollOutcome::Pending);
    forward_terminal_state(&mut slot, WebViewState::Loaded);
    // a later terminal state cannot overwrite the first
    forward_terminal_state(&mut slot, WebViewState::LoadError);
    assert_eq!(slot.poll(), PollOutcome::Ready(Some(true)));
}

#[test]
fn load_error_resolves_a_creation_wait_to_failure() {
    let mut slot: SignalSlot<bool> = SignalSlot::new();
    forward_terminal_state(&mut slot, WebViewState::LoadError);
    assert_eq!(slot.poll(), PollOutcome::Ready(Some(false)));
    assert_eq!(webview_load_outcome(Some(false)), Err(Error::FailedToCreateWebView));
}

#[test]
fn async_outcomes_map_exactly() {
    assert_eq!(runtime_ready_outcome(Some(())), Ok(()));
    assert_eq!(runtime_ready_outcome(None), Err(Error::FailedToCreateRuntime));
    assert_eq!(webview_load_outcome(Some(true)), Ok(()));
    assert_eq!(webview_load_outcome(None), Err(Error::FailedToCreateWebView));
}

#[test]
fn error_descriptions_name_each_variant() {
    assert_eq!(Error::FailedToCreateRuntime.describe(), "failed to create runtime");
    assert_eq!(Error::RuntimeAlreadyExists.describe(), "runtime already exists");
    assert_eq!(Error::RuntimeNotInitialization.describe(), "runtime not initialized");
    assert_eq!(Error::FailedToCreateWebView.describe(), "failed to create webview");
    assert_eq!(WebviewError::CreateAppFailed.describe(), "create app failed");
    assert_eq!(PageError::CreateBrowserFailed.describe(), "create browser failed");
}

#[test]
fn argument_with_embedded_nul_fails_marshalling() {
    let bad: Vec<Vec<u8>> = vec![b"fine".to_vec(), vec![b'a', 0u8, b'b']];
    assert_eq!(
        ArgSnapshot::new(bad).err(),
        Some(MarshalError::EmbeddedNul)
    );

    let good: Vec<Vec<u8>> = vec![b"fine".to_vec(), b"also-fine".to_vec()];
    let snapshot = ArgSnapshot::new(good).unwrap();
    assert_eq!(snapshot.len(), 2);
}

#[test]
fn byte_search_finds_needles_at_every_offset() {
    assert!(bytes_contain(&b"--type".to_vec(), &b"--type".to_vec()));
    assert!(bytes_contain(&b"xx--type".to_vec(), &b"--type".to_vec()));
    assert!(bytes_contain(&b"--typexx".to_vec(), &b"--type".to_vec()));
    assert!(!bytes_contain(&b"--typ".to_vec(), &b"--type".to_vec()));
    assert!(!bytes_contain(&b"".to_vec(), &b"--type".to_vec()));
    assert!(bytes_contain(&b"anything".to_vec(), &b"".to_vec()));
}

#[test]
fn scheduler_guard_decides_per_probe() {
    assert_eq!(subprocess_decision(true), SubprocessDecision::RefuseScheduler);
    assert_eq!(subprocess_decision(false), SubprocessDecision::ExecuteEngine);
    // outside any scheduler the guard lets the executor run
    assert_eq!(guard_subprocess_execution(), SubprocessDecision::ExecuteEngine);
}

#[test]
fn page_level_creation_outcomes() {
    assert_eq!(webview_creation_outcome(true, Some(())), Ok(()));
    assert_eq!(webview_creation_outcome(false, Some(())), Err(WebviewError::CreateAppFailed));
    assert_eq!(webview_creation_outcome(true, None), Err(WebviewError::CreateAppFailed));

    assert_eq!(page_creation_outcome(Some(true)), Ok(()));
    assert_eq!(page_creation_outcome(Some(false)), Err(PageError::CreateBrowserFailed));
    assert_eq!(page_creation_outcome(None), Err(PageError::CreateBrowserFailed));
}

#[test]
fn bridge_ladder_orders_its_failures() {
    assert_eq!(
        bridge_call_outcome(false, true, false, None, false),
        Err(PageError::BridgeSerdeError)
    );
    assert_eq!(
        bridge_call_outcome(true, true, false, None, false),
        Err(PageError::BridgeTimeout)
    );
    assert_eq!(
        bridge_call_outcome(true, false, false, None, false),
        Err(PageError::BridgeCallError)
    );
    assert_eq!(bridge_call_outcome(true, false, true, None, false), Ok(None));
    assert_eq!(
        bridge_call_outcome(true, false, true, Some(b"{}".to_vec()), true),
        Ok(Some(b"{}".to_vec()))
    );
    assert_eq!(
        bridge_call_outcome(true, false, true, Some(b"nonsense".to_vec()), false),
        Err(PageError::BridgeSerdeError)
    );
}

#[test]
fn nonzero_run_loop_exit_is_a_binding_bug() {
    assert_eq!(run_loop_exit(0), RunLoopExit::CleanExit);
    assert_eq!(run_loop_exit(1), RunLoopExit::UnexpectedExit);
    assert_eq!(run_loop_exit(-1), RunLoopExit::UnexpectedExit);
}

#[test]
fn bridge_reply_keeps_exactly_one_side() {
    assert_eq!(bridge_reply(Ok(b"yes".to_vec())), BridgeReply::Success(b"yes".to_vec()));
    assert_eq!(bridge_reply(Err(b"no".to_vec())), BridgeReply::Failure(b"no".to_vec()));
}

struct StaticResource;

impl ResourceHandler for StaticResource {
    fn open(&self) -> bool {
        true
    }
    fn get_response(&self, response: &mut ResourceResponse) {
        response.status_code = 200;
        response.mime_type = b"text/plain".to_vec();
    }
    fn skip(&self, size: usize, skip_bytes: &mut usize) -> bool {
        *skip_bytes = size;
        true
    }
    fn read(&self, buffer: &mut Vec<u8>, read_bytes: &mut usize) -> bool {
        let body = b"hello";
        buffer.clear();
        buffer.extend_from_slice(body);
        *read_bytes = body.len();
        false
    }
    fn cancel(&self) {}
}

struct SchemeHandler;

impl RequestHandler for SchemeHandler {
    type Resource = StaticResource;

    fn on_request(&self, request: &Request) -> Option<StaticResource> {
        if request.url.starts_with(b"app://") {
            Some(StaticResource)
        } else {
            None
        }
    }
}

#[test]
fn request_filter_dispatches_while_alive_only() {
    let mut filter = RequestFilter::new(SchemeHandler);
    assert!(filter.context_alive());

    let request = Request {
        url: b"app://index.html".to_vec(),
        method: b"GET".to_vec(),
        referrer: b"".to_vec(),
    };
    let resource = filter.on_create_resource_handler(&request);
    assert!(resource.is_some());
    let resource = resource.unwrap();
    assert!(resource.open());
    let mut response = ResourceResponse { status_code: 0, mime_type: Vec::new() };
    resource.get_response(&mut response);
    assert_eq!(response.status_code, 200);

    let other = Request {
        url: b"https://elsewhere".to_vec(),
        method: b"GET".to_vec(),
        referrer: b"".to_vec(),
    };
    assert!(filter.on_create_resource_handler(&other).is_none());

    filter.destroy();
    assert!(filter.on_create_resource_handler(&request).is_none());
}

#[test]
fn webview_attribute_defaults_match_the_documented_values() {
    let attrs = WebViewAttributes::default();
    assert_eq!(attrs.width, 800);
    assert_eq!(attrs.height, 600);
    assert_eq!(attrs.windowless_frame_rate, 30);
    assert_eq!(attrs.default_font_size, 12);
    assert_eq!(attrs.default_fixed_font_size, 12);
    assert!(attrs.javascript_enable);
    assert!(attrs.local_storage);
    assert!(!attrs.javascript_access_clipboard);
    assert!(attrs.window_handle.is_none());
}

#[test]
fn builders_accumulate_their_fields() {
    let attrs = RuntimeAttributesBuilder::new(LoopMode::ExternalPump)
        .with_cache_dir_path(b"/tmp/cache".to_vec())
        .with_browser_subprocess_path(b"/bin/helper".to_vec())
        .with_custom_scheme(CustomSchemeAttributes {
            name: b"app".to_vec(),
            domain: b"local".to_vec(),
        })
        .build();
    assert_eq!(attrs.cache_dir_path, Some(b"/tmp/cache".to_vec()));
    assert_eq!(attrs.browser_subprocess_path, Some(b"/bin/helper".to_vec()));
    assert_eq!(attrs.requested_mode, LoopMode::ExternalPump);
    assert!(attrs.custom_scheme.is_some());

    let surface = WebViewAttributesBuilder::new()
        .with_width(320)
        .with_height(240)
        .with_windowless_frame_rate(60)
        .with_javascript_enable(false)
        .build();
    assert_eq!(surface.width, 320);
    assert_eq!(surface.height, 240);
    assert_eq!(surface.windowless_frame_rate, 60);
    assert!(!surface.javascript_enable);
}
