use arti_android::lifecycle::{
    bind_address, InitError, InitStep, Lifecycle, LifecycleState, StartError, STOP_GRACE_MS,
    SUCCESS,
};

type Manager = Lifecycle<&'static str, u32, u64>;

fn ready(client: u32) -> Manager {
    let mut manager = Manager::new();
    assert_eq!(manager.begin_initialize(), InitStep::CreateEngine);
    assert_eq!(manager.engine_created(Some("engine")), InitStep::Bootstrap);
    assert_eq!(manager.finish_initialize(Ok(client)), Ok(()));
    manager
}

fn running(client: u32, port: i32, task: u64) -> Manager {
    let mut manager = ready(client);
    let plan = manager.begin_start(port);
    assert_eq!(plan.cancel, None);
    assert!(plan.bind.is_ok());
    let done = manager.finish_start(Some(task));
    assert_eq!(done.result, Ok(()));
    assert_eq!(done.cancel, None);
    manager
}

#[test]
fn a_new_manager_owns_nothing() {
    let manager = Manager::new();
    assert_eq!(manager.state(), LifecycleState::Uninitialized);
    assert_eq!(manager.engine(), None);
    assert_eq!(manager.client(), None);
    assert!(!manager.has_listener());
}

#[test]
fn initialize_creates_the_engine_and_stores_the_client() {
    let mut manager = Manager::new();
    assert_eq!(manager.begin_initialize(), InitStep::CreateEngine);
    assert_eq!(manager.state(), LifecycleState::Uninitialized);
    assert_eq!(manager.engine_created(Some("engine")), InitStep::Bootstrap);
    assert_eq!(manager.engine(), Some(&"engine"));
    assert_eq!(manager.state(), LifecycleState::Uninitialized);
    assert_eq!(manager.finish_initialize(Ok(7)), Ok(()));
    assert_eq!(manager.state(), LifecycleState::Ready);
    assert_eq!(manager.client(), Some(&7));
    assert!(!manager.has_listener());
}

#[test]
fn initialize_twice_creates_the_engine_once() {
    let mut manager = ready(7);
    assert_eq!(manager.begin_initialize(), InitStep::Bootstrap);
    assert_eq!(manager.engine(), Some(&"engine"));
    assert_eq!(manager.finish_initialize(Ok(8)), Ok(()));
    assert_eq!(manager.state(), LifecycleState::Ready);
    assert_eq!(manager.client(), Some(&8));
    assert_eq!(manager.engine(), Some(&"engine"));
    for _ in 0..5 {
        assert_eq!(manager.begin_initialize(), InitStep::Bootstrap);
    }
}

#[test]
fn an_engine_that_is_there_is_never_replaced() {
    let mut manager = ready(7);
    assert_eq!(manager.engine_created(Some("other")), InitStep::Bootstrap);
    assert_eq!(manager.engine(), Some(&"engine"));
    assert_eq!(manager.engine_created(None), InitStep::Bootstrap);
    assert_eq!(manager.engine(), Some(&"engine"));
}

#[test]
fn failed_engine_creation_is_final() {
    let mut manager = Manager::new();
    assert_eq!(manager.begin_initialize(), InitStep::CreateEngine);
    assert_eq!(manager.engine_created(None), InitStep::Fail(InitError::EngineUnavailable));
    assert_eq!(manager.engine(), None);
    assert_eq!(manager.state(), LifecycleState::Uninitialized);
    assert_eq!(manager.begin_initialize(), InitStep::Fail(InitError::EngineUnavailable));
    assert_eq!(manager.begin_initialize(), InitStep::Fail(InitError::EngineUnavailable));
    assert_eq!(manager.finish_initialize(Ok(7)), Err(InitError::EngineUnavailable));
    assert_eq!(manager.client(), None);
    assert_eq!(manager.state(), LifecycleState::Uninitialized);
    let plan = manager.begin_start(9050);
    assert_eq!(plan.bind, Err(StartError::NotInitialized));
}

#[test]
fn failed_bootstrap_leaves_the_handle_unset() {
    let mut manager = Manager::new();
    manager.begin_initialize();
    manager.engine_created(Some("engine"));
    assert_eq!(
        manager.finish_initialize(Err(InitError::BootstrapFailed)),
        Err(InitError::BootstrapFailed)
    );
    assert_eq!(manager.client(), None);
    assert_eq!(manager.state(), LifecycleState::Uninitialized);
    assert_eq!(
        manager.finish_initialize(Err(InitError::ConfigBuildFailed)),
        Err(InitError::ConfigBuildFailed)
    );
    assert_eq!(manager.client(), None);
    assert_eq!(manager.begin_initialize(), InitStep::Bootstrap);
    assert_eq!(manager.finish_initialize(Ok(3)), Ok(()));
    assert_eq!(manager.client(), Some(&3));
    assert_eq!(manager.state(), LifecycleState::Ready);
}

#[test]
fn failed_second_bootstrap_keeps_the_first_client() {
    let mut manager = running(7, 9050, 100);
    assert_eq!(manager.begin_initialize(), InitStep::Bootstrap);
    assert_eq!(
        manager.finish_initialize(Err(InitError::BootstrapFailed)),
        Err(InitError::BootstrapFailed)
    );
    assert_eq!(manager.client(), Some(&7));
    assert_eq!(manager.state(), LifecycleState::ProxyRunning);
    assert!(manager.has_listener());
}

#[test]
fn start_without_initialize_is_refused() {
    let mut manager = Manager::new();
    let plan = manager.begin_start(9050);
    assert_eq!(plan.cancel, None);
    assert_eq!(plan.bind, Err(StartError::NotInitialized));
    assert_eq!(manager.state(), LifecycleState::Uninitialized);
    assert!(!manager.has_listener());
    let done = manager.finish_start(Some(100));
    assert_eq!(done.result, Err(StartError::NotInitialized));
    assert_eq!(done.cancel, Some(100));
    assert_eq!(manager.state(), LifecycleState::Uninitialized);
    assert!(!manager.has_listener());
}

#[test]
fn start_binds_the_loopback_address() {
    let mut manager = ready(7);
    let plan = manager.begin_start(9050);
    assert_eq!(plan.cancel, None);
    assert_eq!(plan.bind, Ok("127.0.0.1:9050".to_string()));
    assert_eq!(manager.state(), LifecycleState::Ready);
    let done = manager.finish_start(Some(100));
    assert_eq!(done.result, Ok(()));
    assert_eq!(done.cancel, None);
    assert_eq!(manager.state(), LifecycleState::ProxyRunning);
    assert!(manager.has_listener());
}

#[test]
fn failed_bind_changes_no_state() {
    let mut manager = ready(7);
    let plan = manager.begin_start(9050);
    assert!(plan.bind.is_ok());
    let done = manager.finish_start(None);
    assert_eq!(done.result, Err(StartError::BindFailed));
    assert_eq!(done.cancel, None);
    assert_eq!(manager.state(), LifecycleState::Ready);
    assert!(!manager.has_listener());
    assert_eq!(manager.client(), Some(&7));
}

#[test]
fn start_twice_cancels_the_first_listener() {
    let mut manager = running(7, 9050, 100);
    let plan = manager.begin_start(9050);
    assert_eq!(plan.cancel, Some(100));
    assert_eq!(plan.bind, Ok("127.0.0.1:9050".to_string()));
    assert!(!manager.has_listener());
    assert_eq!(manager.state(), LifecycleState::ProxyRunning);
    let done = manager.finish_start(Some(101));
    assert_eq!(done.result, Ok(()));
    assert_eq!(done.cancel, None);
    assert!(manager.has_listener());
    assert_eq!(manager.state(), LifecycleState::ProxyRunning);
    let plan = manager.begin_stop();
    assert_eq!(plan.cancel, Some(101));
}

#[test]
fn failed_rebind_leaves_the_slot_empty_and_the_state_alone() {
    let mut manager = running(7, 9050, 100);
    let plan = manager.begin_start(9051);
    assert_eq!(plan.cancel, Some(100));
    let done = manager.finish_start(None);
    assert_eq!(done.result, Err(StartError::BindFailed));
    assert_eq!(manager.state(), LifecycleState::ProxyRunning);
    assert!(!manager.has_listener());
}

#[test]
fn a_listener_stored_over_another_displaces_it() {
    let mut manager = running(7, 9050, 100);
    let done = manager.finish_start(Some(101));
    assert_eq!(done.result, Ok(()));
    assert_eq!(done.cancel, Some(100));
    assert_eq!(manager.begin_stop().cancel, Some(101));
}

#[test]
fn stop_cancels_the_listener_and_keeps_the_client() {
    let mut manager = running(7, 9050, 100);
    let plan = manager.begin_stop();
    assert_eq!(plan.cancel, Some(100));
    assert_eq!(plan.grace_ms, Some(100));
    assert_eq!(manager.state(), LifecycleState::Stopping);
    assert!(!manager.has_listener());
    assert_eq!(manager.finish_stop(), None);
    assert_eq!(manager.state(), LifecycleState::Stopped);
    assert_eq!(manager.client(), Some(&7));
    assert_eq!(manager.engine(), Some(&"engine"));
}

#[test]
fn stop_then_start_reuses_the_client() {
    let mut manager = running(7, 9050, 100);
    manager.begin_stop();
    manager.finish_stop();
    let plan = manager.begin_start(9050);
    assert_eq!(plan.cancel, None);
    assert_eq!(plan.bind, Ok("127.0.0.1:9050".to_string()));
    assert_eq!(manager.client(), Some(&7));
    let done = manager.finish_start(Some(101));
    assert_eq!(done.result, Ok(()));
    assert_eq!(manager.state(), LifecycleState::ProxyRunning);
    assert_eq!(manager.client(), Some(&7));
}

#[test]
fn start_and_stop_can_cycle() {
    let mut manager = ready(7);
    for round in 0..20u64 {
        let plan = manager.begin_start(9050);
        assert_eq!(plan.cancel, None);
        assert!(plan.bind.is_ok());
        assert_eq!(manager.finish_start(Some(round)).result, Ok(()));
        assert_eq!(manager.state(), LifecycleState::ProxyRunning);
        assert_eq!(manager.begin_stop().cancel, Some(round));
        assert_eq!(manager.finish_stop(), None);
        assert_eq!(manager.state(), LifecycleState::Stopped);
        assert_eq!(manager.client(), Some(&7));
    }
}

#[test]
fn stop_always_ends_in_stopped() {
    let mut manager = Manager::new();
    let plan = manager.begin_stop();
    assert_eq!(plan.cancel, None);
    assert_eq!(plan.grace_ms, None);
    assert_eq!(manager.state(), LifecycleState::Stopping);
    assert_eq!(manager.finish_stop(), None);
    assert_eq!(manager.state(), LifecycleState::Stopped);
    assert_eq!(manager.begin_start(9050).bind, Err(StartError::NotInitialized));
    assert_eq!(manager.state(), LifecycleState::Stopped);

    let mut manager = ready(7);
    let plan = manager.begin_stop();
    assert_eq!(plan.cancel, None);
    assert_eq!(plan.grace_ms, Some(STOP_GRACE_MS));
    manager.finish_stop();
    assert_eq!(manager.state(), LifecycleState::Stopped);
}

#[test]
fn finish_stop_hands_back_a_listener_that_slipped_in() {
    let mut manager = ready(7);
    manager.begin_stop();
    assert_eq!(manager.finish_start(Some(100)).result, Ok(()));
    assert_eq!(manager.state(), LifecycleState::ProxyRunning);
    assert_eq!(manager.finish_stop(), Some(100));
    assert_eq!(manager.state(), LifecycleState::Stopped);
    assert!(!manager.has_listener());
}

#[test]
fn initialize_while_running_goes_back_to_ready() {
    let mut manager = running(7, 9050, 100);
    assert_eq!(manager.begin_initialize(), InitStep::Bootstrap);
    assert_eq!(manager.finish_initialize(Ok(8)), Ok(()));
    assert_eq!(manager.state(), LifecycleState::Ready);
    assert_eq!(manager.client(), Some(&8));
    assert!(manager.has_listener());
    assert_eq!(manager.begin_start(9050).cancel, Some(100));
}

#[test]
fn initialize_after_stop_is_ready_again() {
    let mut manager = running(7, 9050, 100);
    manager.begin_stop();
    manager.finish_stop();
    assert_eq!(manager.begin_initialize(), InitStep::Bootstrap);
    assert_eq!(manager.finish_initialize(Ok(9)), Ok(()));
    assert_eq!(manager.state(), LifecycleState::Ready);
}

#[test]
fn result_codes() {
    assert_eq!(SUCCESS, 0);
    assert_eq!(InitError::InvalidDataDirectory.code(), -1);
    assert_eq!(InitError::EngineUnavailable.code(), -2);
    assert_eq!(InitError::BootstrapFailed.code(), -3);
    assert_eq!(InitError::ConfigBuildFailed.code(), -4);
    assert_eq!(StartError::NotInitialized.code(), -1);
    assert_eq!(StartError::EngineUnavailable.code(), -2);
    assert_eq!(StartError::BindFailed.code(), -3);
}

#[test]
fn grace_period_is_a_tenth_of_a_second() {
    assert_eq!(STOP_GRACE_MS, 100);
}

#[test]
fn bind_addresses() {
    assert_eq!(bind_address(9050), "127.0.0.1:9050");
    assert_eq!(bind_address(0), "127.0.0.1:0");
    assert_eq!(bind_address(7), "127.0.0.1:7");
    assert_eq!(bind_address(10), "127.0.0.1:10");
    assert_eq!(bind_address(65535), "127.0.0.1:65535");
    assert_eq!(bind_address(65536), "127.0.0.1:65536");
    assert_eq!(bind_address(-1), "127.0.0.1:-1");
    assert_eq!(bind_address(i32::MAX), "127.0.0.1:2147483647");
    assert_eq!(bind_address(i32::MIN), "127.0.0.1:-2147483648");
    for port in [1, 9, 99, 100, 101, 1000, 12345, 40000] {
        assert_eq!(bind_address(port), format!("127.0.0.1:{}", port));
    }
}
