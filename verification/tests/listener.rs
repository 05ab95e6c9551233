use zanshin_launcher::listener::apply_status;
use zanshin_launcher::listener::handle_message;
use zanshin_launcher::listener::listener_endpoint;
use zanshin_launcher::listener::on_receive;
use zanshin_launcher::listener::same_text;
use zanshin_launcher::listener::start_zmq_listener;
use zanshin_launcher::listener::Inbound;
use zanshin_launcher::listener::ListenerPhase;
use zanshin_launcher::listener::REVEAL_DELAY_SECS;
use zanshin_launcher::state::AppState;
use zanshin_launcher::state::ZanshinStatus;

fn launched(first_run: bool) -> AppState<u32> {
    let mut state: AppState<u32> = AppState::new();
    state.record_setup("/s/Zanshin".to_string(), !first_run);
    state.begin_launch();
    state.track_process(7u32);
    state
}

#[test]
fn started_app_makes_running() {
    let mut state = launched(false);
    let effects = handle_message(&mut state, "{\"status\":\"started app\"}");
    assert_eq!(state.status, Some(ZanshinStatus::RUNNING));
    assert_eq!(effects.create_marker_in, None);
    assert_eq!(effects.reveal_ui_after, Some(5u64));
    assert_eq!(state.first_run, Some(false));
    assert_eq!(state.python_process, Some(7u32));
    assert_eq!(state.app_support, Some("/s/Zanshin".to_string()));
}

#[test]
fn started_app_on_first_run_asks_for_the_marker() {
    let mut state = launched(true);
    let effects = handle_message(&mut state, "{\"status\":\"started app\"}");
    assert_eq!(state.status, Some(ZanshinStatus::RUNNING));
    assert_eq!(effects.create_marker_in, Some("/s/Zanshin".to_string()));
    assert_eq!(effects.reveal_ui_after, Some(REVEAL_DELAY_SECS));
}

#[test]
fn started_app_twice_asks_twice() {
    let mut state = launched(true);
    let first = handle_message(&mut state, "{\"status\":\"started app\"}");
    let second = handle_message(&mut state, "{\"status\":\"started app\"}");
    assert_eq!(first.create_marker_in, second.create_marker_in);
    assert_eq!(second.reveal_ui_after, Some(5u64));
    assert_eq!(state.status, Some(ZanshinStatus::RUNNING));
}

#[test]
fn started_app_without_support_dir_asks_for_no_marker() {
    let mut state: AppState<u32> = AppState::new();
    state.first_run = Some(true);
    let effects = apply_status(&mut state, "started app");
    assert_eq!(state.status, Some(ZanshinStatus::RUNNING));
    assert_eq!(effects.create_marker_in, None);
}

#[test]
fn warmed_up_from_any_status() {
    let mut state = launched(true);
    let effects = handle_message(&mut state, "{\"status\":\"processor warmed up\"}");
    assert_eq!(state.status, Some(ZanshinStatus::PROCESSOR_WARMED_UP));
    assert_eq!(effects.create_marker_in, None);
    assert_eq!(effects.reveal_ui_after, None);
    let mut fresh: AppState<u32> = AppState::new();
    handle_message(&mut fresh, "{\"status\":\"processor warmed up\"}");
    assert_eq!(fresh.status, Some(ZanshinStatus::PROCESSOR_WARMED_UP));
}

#[test]
fn unrecognized_status_makes_unknown() {
    let mut state = launched(true);
    handle_message(&mut state, "{\"status\":\"started app\"}");
    let effects = handle_message(&mut state, "{\"status\":\"shutting down\"}");
    assert_eq!(state.status, Some(ZanshinStatus::UNKNOWN));
    assert_eq!(effects.create_marker_in, None);
    assert_eq!(effects.reveal_ui_after, None);
}

#[test]
fn empty_status_makes_unknown() {
    let mut state = launched(false);
    handle_message(&mut state, "{\"status\":\"\"}");
    assert_eq!(state.status, Some(ZanshinStatus::UNKNOWN));
}

#[test]
fn status_is_matched_exactly() {
    let mut state = launched(false);
    handle_message(&mut state, "{\"status\":\"Started App\"}");
    assert_eq!(state.status, Some(ZanshinStatus::UNKNOWN));
    handle_message(&mut state, "{\"status\":\"started app \"}");
    assert_eq!(state.status, Some(ZanshinStatus::UNKNOWN));
}

#[test]
fn extra_keys_are_ignored() {
    let mut state = launched(false);
    handle_message(&mut state, "{\"pid\": 12, \"status\": \"started app\", \"x\": [1, 2]}");
    assert_eq!(state.status, Some(ZanshinStatus::RUNNING));
}

#[test]
fn escaped_status_is_decoded() {
    let mut state = launched(false);
    handle_message(&mut state, "{\"status\":\"started\\u0020app\"}");
    assert_eq!(state.status, Some(ZanshinStatus::RUNNING));
}

#[test]
fn message_without_status_is_dropped() {
    let mut state = launched(true);
    let effects = handle_message(&mut state, "{\"state\":\"started app\"}");
    assert_eq!(state.status, Some(ZanshinStatus::LAUNCHING));
    assert_eq!(effects.create_marker_in, None);
    assert_eq!(effects.reveal_ui_after, None);
}

#[test]
fn status_that_is_no_string_is_dropped() {
    let mut state = launched(true);
    handle_message(&mut state, "{\"status\": 5}");
    assert_eq!(state.status, Some(ZanshinStatus::LAUNCHING));
    handle_message(&mut state, "{\"status\": null}");
    assert_eq!(state.status, Some(ZanshinStatus::LAUNCHING));
    handle_message(&mut state, "[\"status\"]");
    assert_eq!(state.status, Some(ZanshinStatus::LAUNCHING));
    handle_message(&mut state, "\"started app\"");
    assert_eq!(state.status, Some(ZanshinStatus::LAUNCHING));
}

#[test]
fn malformed_messages_change_nothing() {
    let bodies: Vec<&str> = vec![
        "",
        " ",
        "{",
        "{\"status\":",
        "{\"status\":\"started app\"",
        "{\"status\":\"started app\"}}",
        "status=started app",
        "started app",
        "\u{0}\u{1}\u{7f}",
        "{'status':'started app'}",
    ];
    for body in bodies {
        let mut state = launched(true);
        handle_message(&mut state, "{\"status\":\"processor warmed up\"}");
        let effects = handle_message(&mut state, body);
        assert_eq!(state.status, Some(ZanshinStatus::PROCESSOR_WARMED_UP));
        assert_eq!(state.first_run, Some(true));
        assert_eq!(state.python_process, Some(7u32));
        assert_eq!(state.app_support, Some("/s/Zanshin".to_string()));
        assert_eq!(effects.create_marker_in, None);
        assert_eq!(effects.reveal_ui_after, None);
    }
}

#[test]
fn receive_of_text_is_handled() {
    let mut state = launched(false);
    let inbound = Inbound::Text("{\"status\":\"started app\"}".to_string());
    let effects = on_receive(&mut state, &inbound);
    assert_eq!(state.status, Some(ZanshinStatus::RUNNING));
    assert_eq!(effects.reveal_ui_after, Some(5u64));
}

#[test]
fn receive_of_non_text_or_failure_changes_nothing() {
    let mut state = launched(true);
    let a = on_receive(&mut state, &Inbound::NotText);
    let b = on_receive(&mut state, &Inbound::Failed);
    assert_eq!(state.status, Some(ZanshinStatus::LAUNCHING));
    assert_eq!(a.create_marker_in, None);
    assert_eq!(a.reveal_ui_after, None);
    assert_eq!(b.create_marker_in, None);
    assert_eq!(b.reveal_ui_after, None);
}

#[test]
fn applying_a_status_text_directly() {
    let mut state = launched(false);
    apply_status(&mut state, "processor warmed up");
    assert_eq!(state.status, Some(ZanshinStatus::PROCESSOR_WARMED_UP));
    apply_status(&mut state, "{\"status\":\"started app\"}");
    assert_eq!(state.status, Some(ZanshinStatus::UNKNOWN));
}

#[test]
fn texts_compare_by_content() {
    assert!(same_text("started app", "started app"));
    assert!(!same_text("started app", "started ap"));
    assert!(same_text("", ""));
}

#[test]
fn listener_binds_the_local_endpoint() {
    assert_eq!(listener_endpoint(), "tcp://127.0.0.1:5555");
}

#[test]
fn listener_receives_only_when_bound() {
    assert_eq!(start_zmq_listener(true, true), ListenerPhase::Receiving);
    assert_eq!(start_zmq_listener(true, false), ListenerPhase::Stopped);
    assert_eq!(start_zmq_listener(false, false), ListenerPhase::Stopped);
    assert_eq!(start_zmq_listener(false, true), ListenerPhase::Stopped);
}
