//! Hot-reload behavior of both interpreter dialects, end to end: real
//! interpreters run real script sources.

use nengine::native::NativeEvent;
use nengine::script::ReloadOutcome;

fn lua_with_script(source: &str) -> nengine::lua::LuaParser {
    let mut p = nengine::lua::LuaParser::setup();
    p.init_globals();
    p.add(String::from("examples/script/test.lua"));
    let r = p.load(&vec![Some(String::from(source))]);
    assert!(r.is_ok());
    p
}

fn pass<T>(r: Result<T, nengine::script::IoError>) -> T {
    match r {
        Ok(v) => v,
        Err(e) => panic!("fatal: could not read {}", e.path),
    }
}

#[test]
fn lua_clear_color_invoked_exactly_once() {
    let mut p = lua_with_script("clear_window_color(0, 1, 0.3, 1)");
    let events = p.take_events();
    assert_eq!(events.len(), 1);
    match &events[0] {
        NativeEvent::ClearColor { red_bits, green_bits, blue_bits, alpha_bits } => {
            assert_eq!(*red_bits, (0.0f64).to_bits());
            assert_eq!(*green_bits, (1.0f64).to_bits());
            assert_eq!(*blue_bits, (0.3f64).to_bits());
            assert_eq!(*alpha_bits, (1.0f64).to_bits());
        }
        other => panic!("unexpected event {:?}", other),
    }
}

#[test]
fn lua_unchanged_content_is_not_reexecuted() {
    let mut p = lua_with_script("clear_window_color(0, 1, 0.3, 1)");
    let r = pass(p.load(&vec![Some(String::from("clear_window_color(0, 1, 0.3, 1)"))]));
    assert_eq!(r.outcomes.len(), 1);
    assert_eq!(r.outcomes[0], ReloadOutcome::Skipped);
    // the side effect must not have happened a second time
    assert_eq!(p.take_events().len(), 1);
}

#[test]
fn lua_whitespace_only_change_is_ignored() {
    let mut p = lua_with_script("clear_window_color(0, 1, 0.3, 1)");
    let r = pass(p.load(&vec![Some(String::from("  clear_window_color(0, 1, 0.3, 1)\n\n"))]));
    assert_eq!(r.outcomes[0], ReloadOutcome::Skipped);
    assert_eq!(p.take_events().len(), 1);
}

#[test]
fn lua_changed_content_executes_exactly_once_and_updates_snapshot() {
    let mut p = lua_with_script("clear_window_color(0, 1, 0.3, 1)");
    let r = pass(p.load(&vec![Some(String::from("clear_window_color(1, 0, 0, 1)"))]));
    assert_eq!(r.outcomes[0], ReloadOutcome::Executed);
    // once for the first script, once for the changed one
    assert_eq!(p.take_events().len(), 2);
    // the snapshot now holds the new content: reloading it again is a skip
    let r = pass(p.load(&vec![Some(String::from("clear_window_color(1, 0, 0, 1)\n"))]));
    assert_eq!(r.outcomes[0], ReloadOutcome::Skipped);
    assert_eq!(p.take_events().len(), 0);
}

#[test]
fn lua_failing_script_is_reported_and_retried() {
    let mut p = nengine::lua::LuaParser::setup();
    p.init_globals();
    p.add(String::from("broken.lua"));
    let r = pass(p.load(&vec![Some(String::from("this is not lua"))]));
    assert!(matches!(r.outcomes[0], ReloadOutcome::Failed(_)));
    // the snapshot was not updated, so the same content runs again
    let r = pass(p.load(&vec![Some(String::from("this is not lua"))]));
    assert!(matches!(r.outcomes[0], ReloadOutcome::Failed(_)));
}

#[test]
fn lua_unreadable_file_is_fatal() {
    let mut p = lua_with_script("clear_window_color(0, 1, 0.3, 1)");
    // the file disappeared from disk before the second pass
    let r = p.load(&vec![None]);
    match r {
        Err(e) => assert_eq!(e.path, "examples/script/test.lua"),
        Ok(_) => panic!("a missing file must surface the fatal error"),
    }
}

#[test]
fn lua_unreadable_file_stops_the_pass_in_order() {
    let mut p = nengine::lua::LuaParser::setup();
    p.init_globals();
    p.add(String::from("a.lua"));
    p.add(String::from("b.lua"));
    let r = p.load(&vec![
        Some(String::from("clear_window_color(0, 0, 0, 0)")),
        None,
    ]);
    match r {
        Err(e) => assert_eq!(e.path, "b.lua"),
        Ok(_) => panic!("a missing file must surface the fatal error"),
    }
    // the readable file before it was still processed
    assert_eq!(p.take_events().len(), 1);
}

#[test]
fn lua_console_and_set_timeout_bindings_record_events() {
    let mut p = nengine::lua::LuaParser::setup();
    p.init_globals();
    p.add(String::from("c.lua"));
    let src = "console.log(\"hello\", 5)\nsetTimeout(\"x\", 250)";
    pass(p.load(&vec![Some(String::from(src))]));
    let events = p.take_events();
    assert_eq!(events.len(), 2);
    match &events[0] {
        NativeEvent::ConsoleLog { values } => {
            let line = nengine::native::render_log_line(values);
            assert_eq!(line, "hello 5 ");
        }
        other => panic!("unexpected event {:?}", other),
    }
    match &events[1] {
        NativeEvent::Schedule { callback, delay_ms } => {
            assert_eq!(callback, "x");
            assert_eq!(*delay_ms, 250);
        }
        other => panic!("unexpected event {:?}", other),
    }
}

#[test]
fn js_clear_color_invoked_with_bit_patterns() {
    let mut p = nengine::js::JSParser::setup();
    p.init_globals();
    p.add(String::from("test.js"));
    let r = pass(p.load(&vec![Some(String::from("clear_window_color(0, 1, 0.3, 1)"))]));
    assert_eq!(r.outcomes[0], ReloadOutcome::Executed);
    let events = p.take_events();
    assert_eq!(events.len(), 1);
    match &events[0] {
        NativeEvent::ClearColor { red_bits, green_bits, blue_bits, alpha_bits } => {
            assert_eq!(*red_bits, (0.0f64).to_bits());
            assert_eq!(*green_bits, (1.0f64).to_bits());
            assert_eq!(*blue_bits, (0.3f64).to_bits());
            assert_eq!(*alpha_bits, (1.0f64).to_bits());
        }
        other => panic!("unexpected event {:?}", other),
    }
}

#[test]
fn js_sees_the_my_global_marker() {
    let mut p = nengine::js::JSParser::setup();
    p.init_globals();
    p.add(String::from("marker.js"));
    let src = "if (myGlobal === 42) { clear_window_color(1, 1, 1, 1); }";
    pass(p.load(&vec![Some(String::from(src))]));
    assert_eq!(p.take_events().len(), 1);
}

#[test]
fn js_console_log_records_values() {
    let mut p = nengine::js::JSParser::setup();
    p.init_globals();
    p.add(String::from("log.js"));
    let src = "console.log(\"hello\", 5, [1, 2, \"x\"]);";
    pass(p.load(&vec![Some(String::from(src))]));
    let events = p.take_events();
    assert_eq!(events.len(), 1);
    match &events[0] {
        NativeEvent::ConsoleLog { values } => {
            let line = nengine::native::render_log_line(values);
            assert_eq!(line, "hello 5 [1, 2, x] ");
        }
        other => panic!("unexpected event {:?}", other),
    }
}

#[test]
fn js_failing_script_is_caught_and_snapshot_kept() {
    let mut p = nengine::js::JSParser::setup();
    p.init_globals();
    p.add(String::from("bad.js"));
    let r = pass(p.load(&vec![Some(String::from("throw new Error(\"boom\")"))]));
    assert!(matches!(r.outcomes[0], ReloadOutcome::Failed(_)));
    let r = pass(p.load(&vec![Some(String::from("throw new Error(\"boom\")"))]));
    assert!(matches!(r.outcomes[0], ReloadOutcome::Failed(_)));
}

#[test]
fn js_unreadable_file_is_fatal() {
    let mut p = nengine::js::JSParser::setup();
    p.init_globals();
    p.add(String::from("gone.js"));
    let r = p.load(&vec![None]);
    match r {
        Err(e) => assert_eq!(e.path, "gone.js"),
        Ok(_) => panic!("a missing file must surface the fatal error"),
    }
}

#[test]
fn trim_matches_str_trim() {
    assert_eq!(nengine::script::trim_str("  a b \n\t"), "a b");
    assert_eq!(nengine::script::trim_str(""), "");
    assert_eq!(nengine::script::trim_str(" \n "), "");
    assert_eq!(nengine::script::trim_str("x"), "x");
    assert_eq!(nengine::script::trim_str("\u{a0}mid\u{2028}"), "mid");
    assert_eq!(nengine::script::trim_str("a  b"), "a  b");
}
