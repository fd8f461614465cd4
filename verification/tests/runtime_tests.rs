use hiraku_engine::story::{ScriptRequestId, ScriptResponseMessage, ScriptRuntimeState};

#[test]
fn script_request_ids_are_stable_and_monotonic() {
    let mut runtime = ScriptRuntimeState::<u32>::default();
    assert_eq!(runtime.allocate_request(), ScriptRequestId(1));
    assert_eq!(runtime.allocate_request(), ScriptRequestId(2));
}

#[test]
fn taking_a_response_discards_older_ones_and_keeps_newer_ones() {
    let mut runtime = ScriptRuntimeState::<&'static str>::new();
    let first = runtime.allocate_request();
    let second = runtime.allocate_request();
    let third = runtime.allocate_request();
    runtime.accept_response(ScriptResponseMessage { request: first, response: "first" });
    runtime.accept_response(ScriptResponseMessage { request: third, response: "third" });
    runtime.accept_response(ScriptResponseMessage { request: second, response: "second" });
    assert_eq!(runtime.take_response(second), Some("second"));
    assert_eq!(runtime.take_response(first), None);
    assert_eq!(runtime.take_response(second), None);
    assert_eq!(runtime.take_response(third), Some("third"));
}

#[test]
fn a_later_response_to_the_same_request_replaces_the_earlier() {
    let mut runtime = ScriptRuntimeState::<u8>::new();
    let id = runtime.allocate_request();
    runtime.accept_response(ScriptResponseMessage { request: id, response: 1 });
    runtime.accept_response(ScriptResponseMessage { request: id, response: 2 });
    assert_eq!(runtime.take_response(id), Some(2));
}
