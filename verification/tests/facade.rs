use system_control::greet;
use system_control::idle_outcome;
use system_control::plan_shutdown;
use system_control::query_idle_time;
use system_control::query_uptime;
use system_control::shutdown_outcome;
use system_control::uptime_since;
use system_control::Platform;
use system_control::ShutdownPlan;
use system_control::SystemControlError;

#[test]
fn greet_world_exact() {
    assert_eq!(greet("World"), "Hello, World! You've been greeted from Rust!");
}

#[test]
fn greet_contains_name_verbatim() {
    let name = "a quite unusual name, with punctuation!";
    let g = greet(name);
    assert!(g.contains(name));
}

#[test]
fn greet_empty_name() {
    assert_eq!(greet(""), "Hello, ! You've been greeted from Rust!");
}

#[test]
fn greet_is_deterministic() {
    assert_eq!(greet("World"), greet("World"));
}

#[test]
fn idle_success_passes_through() {
    assert_eq!(idle_outcome(Ok(42)), Ok(42));
}

#[test]
fn idle_failure_is_idle_query_failure() {
    let r = idle_outcome(Err(String::from("no display")));
    assert_eq!(
        r,
        Err(SystemControlError::IdleQueryFailure(String::from("no display")))
    );
    let e = r.unwrap_err();
    assert_eq!(e.message(), "no display");
}

#[test]
fn live_idle_query_never_panics() {
    match query_idle_time() {
        Ok(_secs) => {}
        Err(e) => {
            assert!(matches!(e, SystemControlError::IdleQueryFailure(_)));
        }
    }
}

#[test]
fn uptime_exact_difference() {
    assert_eq!(uptime_since(100, 40), Some(60));
    assert_eq!(uptime_since(40, 40), Some(0));
}

#[test]
fn uptime_clock_behind_reference_is_absent() {
    assert_eq!(uptime_since(39, 40), None);
}

#[test]
fn uptime_largest_reading() {
    assert_eq!(uptime_since(u64::MAX, 0), Some(u64::MAX));
    assert_eq!(uptime_since(u64::MAX, u64::MAX), Some(0));
}

#[test]
fn live_uptime_non_decreasing() {
    let first = query_uptime(0).expect("clock reads after the epoch");
    let second = query_uptime(0).expect("clock reads after the epoch");
    assert!(second >= first);
}

#[test]
fn shutdown_unsupported_refuses() {
    match plan_shutdown(Platform::Unsupported) {
        ShutdownPlan::Refuse(e) => {
            assert_eq!(e, SystemControlError::UnsupportedPlatform);
            assert_eq!(e.message(), "Shutdown is only supported on Windows");
        }
        ShutdownPlan::Spawn(_) => panic!("an unsupported platform must not plan a spawn"),
    }
}

#[test]
fn shutdown_unsupported_spawns_nothing() {
    let mut spawn_calls: u32 = 0;
    let outcome = match plan_shutdown(Platform::Unsupported) {
        ShutdownPlan::Spawn(_) => {
            spawn_calls += 1;
            shutdown_outcome(Ok(()))
        }
        ShutdownPlan::Refuse(e) => Err(e),
    };
    assert_eq!(spawn_calls, 0);
    assert_eq!(outcome, Err(SystemControlError::UnsupportedPlatform));
}

#[test]
fn shutdown_windows_plans_immediate_power_off() {
    match plan_shutdown(Platform::Windows) {
        ShutdownPlan::Spawn(c) => {
            assert_eq!(c.program, "shutdown");
            assert_eq!(
                c.args,
                vec![String::from("/s"), String::from("/t"), String::from("0")]
            );
        }
        ShutdownPlan::Refuse(_) => panic!("the supported platform must plan a spawn"),
    }
}

#[test]
fn shutdown_spawn_failure_keeps_message() {
    let r = shutdown_outcome(Err(String::from("permission denied")));
    match r {
        Err(SystemControlError::ShutdownSpawnFailure(m)) => {
            assert_eq!(m, "permission denied");
            assert!(!m.is_empty());
        }
        _ => panic!("a failed launch must be reported as a spawn failure"),
    }
}

#[test]
fn shutdown_successful_launch() {
    assert_eq!(shutdown_outcome(Ok(())), Ok(()));
}
