//! Loop-strategy selection and the platform substitution.

use webview_core::loops::{
    effective_mode, LoopMode, MainThreadMessageLoop, MessageLoopAbstract, MessagePumpLoop,
    MultiThreadMessageLoop,
};
use std::cell::RefCell;
use std::rc::Rc;

use webview_core::registry::RuntimeRegistry;
use webview_core::runtime::{
    begin_runtime_construction, ExecutePlacement, MessagePumpRuntimeHandler,
    RuntimeAttributesBuilder, RuntimeHandler,
};

struct NopHandler;

impl RuntimeHandler for NopHandler {
    fn on_context_initialized(&self) {}
}

struct PumpRecorder {
    delays: Rc<RefCell<Vec<u64>>>,
}

impl RuntimeHandler for PumpRecorder {
    fn on_context_initialized(&self) {}
}

impl MessagePumpRuntimeHandler for PumpRecorder {
    fn on_schedule_message_pump_work(&self, delay: u64) {
        self.delays.borrow_mut().push(delay);
    }
}

#[test]
fn each_strategy_requests_its_mode() {
    assert_eq!(MainThreadMessageLoop.requested_mode(), LoopMode::MainThread);
    assert_eq!(MultiThreadMessageLoop.requested_mode(), LoopMode::MultiThread);
    assert_eq!(MessagePumpLoop.requested_mode(), LoopMode::ExternalPump);
}

#[test]
fn unsupported_platform_substitutes_the_external_pump() {
    assert_eq!(effective_mode(LoopMode::MultiThread, false), LoopMode::ExternalPump);
    assert_eq!(effective_mode(LoopMode::MultiThread, true), LoopMode::MultiThread);
    assert_eq!(effective_mode(LoopMode::MainThread, false), LoopMode::MainThread);
    assert_eq!(effective_mode(LoopMode::ExternalPump, false), LoopMode::ExternalPump);
}

#[test]
fn substituted_runtime_behaves_like_an_external_pump() {
    let mut reg = RuntimeRegistry::new();
    let attrs = MultiThreadMessageLoop.create_runtime_attributes_builder().build();
    assert_eq!(attrs.requested_mode, LoopMode::MultiThread);

    // on the platform without secondary-thread loop support
    let pending = begin_runtime_construction(&mut reg, &attrs, false, NopHandler).unwrap();
    // the engine record carries the substituted strategy, not the request
    assert_eq!(pending.engine_loop_flags(), (false, true));
    let runtime = pending.finish(&mut reg, true).unwrap();

    // never blocks a thread in run: the execute call stays inline, and
    // progress needs polling
    assert_eq!(runtime.loop_mode(), LoopMode::ExternalPump);
    assert_eq!(runtime.execute_placement(), ExecutePlacement::CallingThread);
}

#[test]
fn polling_without_a_live_runtime_is_a_no_op() {
    let reg = RuntimeRegistry::new();
    assert!(!MessagePumpLoop.poll_decision(&reg));

    let mut live = RuntimeRegistry::new();
    let attrs = MessagePumpLoop.create_runtime_attributes_builder().build();
    let pending = begin_runtime_construction(&mut live, &attrs, true, NopHandler).unwrap();
    let _runtime = pending.finish(&mut live, true).unwrap();
    assert!(MessagePumpLoop.poll_decision(&live));
}

#[test]
fn pump_schedule_reaches_the_handler_until_teardown() {
    let mut reg = RuntimeRegistry::new();
    let attrs = MessagePumpLoop.create_runtime_attributes_builder().build();
    let delays = Rc::new(RefCell::new(Vec::new()));
    let pending = begin_runtime_construction(
        &mut reg,
        &attrs,
        true,
        PumpRecorder { delays: delays.clone() },
    )
    .unwrap();
    let mut runtime = pending.finish(&mut reg, true).unwrap();

    assert!(runtime.deliver_pump_schedule(16));
    assert_eq!(*delays.borrow(), vec![16]);

    let _ = runtime.destroy(&mut reg);
    assert!(!runtime.deliver_pump_schedule(16));
    assert_eq!(*delays.borrow(), vec![16]);
}

#[test]
fn loop_flags_in_the_engine_record_are_exclusive() {
    let multi = MultiThreadMessageLoop.create_runtime_attributes_builder().build();
    assert_eq!(multi.requested_mode, LoopMode::MultiThread);
    let pump = MessagePumpLoop.create_runtime_attributes_builder().build();
    assert_eq!(pump.requested_mode, LoopMode::ExternalPump);
    let main = MainThreadMessageLoop.create_runtime_attributes_builder().build();
    assert_eq!(main.requested_mode, LoopMode::MainThread);
}
