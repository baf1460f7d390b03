use frostflake::session::{Inbound, Outbound, Session, SessionAction, ToolEvent, ToolStatus};
use frostflake::token::TokenAuthority;

fn open_session(auth: &mut TokenAuthority) -> Session {
    let t = auth.request_token(true).unwrap();
    let path = format!("/channel/{}", uuid::Uuid::from_u128(t));
    Session::open(auth, &path).unwrap()
}

fn tool_frame(id: &str, argv: Option<&str>) -> Inbound {
    Inbound::Api {
        id: id.to_string(),
        url: "/api/yas".to_string(),
        method: "get".to_string(),
        body: argv.map(|a| format!("\"{{\\\"argv\\\":\\\"{}\\\"}}\"", a)),
        argv: argv.map(|a| a.to_string()),
    }
}

fn is_exit(f: &Outbound) -> bool {
    matches!(f, Outbound::Tool { marker: ToolStatus::Exit })
}

#[test]
fn api_frames_are_forwarded_with_upper_case_method() {
    let mut auth = TokenAuthority::new();
    let mut s = open_session(&mut auth);
    let frame = Inbound::Api {
        id: "17".to_string(),
        url: "/api/windows".to_string(),
        method: "patch".to_string(),
        body: Some("{\"a\":1}".to_string()),
        argv: None,
    };
    match s.dispatch(frame) {
        SessionAction::Forward { id, method, url, body } => {
            assert_eq!(id, "17");
            assert_eq!(method, "PATCH");
            assert_eq!(url, "http://127.0.0.1:32333/api/windows");
            assert_eq!(body, "{\"a\":1}");
        },
        other => panic!("unexpected {:?}", other),
    }
    assert!(!s.tool_running());
}

#[test]
fn forwarded_request_without_body_sends_null() {
    let mut auth = TokenAuthority::new();
    let mut s = open_session(&mut auth);
    let frame = Inbound::Api {
        id: "null".to_string(),
        url: "/api/upgrade/yas".to_string(),
        method: "Post".to_string(),
        body: None,
        argv: None,
    };
    match s.dispatch(frame) {
        SessionAction::Forward { method, body, .. } => {
            assert_eq!(method, "POST");
            assert_eq!(body, "null");
        },
        other => panic!("unexpected {:?}", other),
    }
}

#[test]
fn unknown_frames_are_ignored() {
    let mut auth = TokenAuthority::new();
    let mut s = open_session(&mut auth);
    assert!(matches!(s.dispatch(Inbound::Other), SessionAction::Ignore));
    assert!(matches!(s.dispatch(tool_frame("1", None)), SessionAction::Ignore));
    assert!(!s.tool_running());
}

#[test]
fn scan_scenario_streams_lines_then_exit() {
    let mut auth = TokenAuthority::new();
    let mut s = open_session(&mut auth);
    let action = s.dispatch(tool_frame("1", Some("scan --mode fast")));
    match action {
        SessionAction::RunTool { args, argv, stdin } => {
            assert_eq!(args, vec!["scan".to_string(), "--mode".to_string(), "fast".to_string()]);
            assert_eq!(argv, "scan --mode fast");
            assert_eq!(stdin, b"114514".to_vec());
        },
        other => panic!("unexpected {:?}", other),
    }
    assert!(s.tool_running());
    let head = s.tool_started("C:\\yas_artifact.exe", "scan --mode fast");
    assert_eq!(head.len(), 2);
    assert!(matches!(&head[0], Outbound::ToolOutput { line } if line == "C:\\yas_artifact.exe scan --mode fast"));
    assert!(matches!(head[1], Outbound::Tool { marker: ToolStatus::Load }));
    let first = s.tool_event(ToolEvent::Line { line: "scanning 1/3".to_string() });
    assert!(matches!(first, Some(Outbound::ToolOutput { ref line }) if line == "scanning 1/3"));
    let end = s.tool_event(ToolEvent::Ended).unwrap();
    assert!(is_exit(&end));
    assert!(!s.tool_running());
}

#[test]
fn closing_mid_scan_leaves_nothing_to_relay() {
    let mut auth = TokenAuthority::new();
    let mut s = open_session(&mut auth);
    let _ = s.dispatch(tool_frame("1", Some("scan --mode fast")));
    let _ = s.tool_event(ToolEvent::Line { line: "scanning".to_string() });
    drop(s);
}

#[test]
fn lines_arrive_in_order_with_one_exit_last() {
    let mut auth = TokenAuthority::new();
    let mut s = open_session(&mut auth);
    let _ = s.dispatch(tool_frame("1", Some("scan")));
    let lines = ["a", "b", "c", "d"];
    let mut frames = Vec::new();
    for l in lines.iter() {
        frames.extend(s.tool_event(ToolEvent::Line { line: l.to_string() }));
    }
    frames.extend(s.tool_event(ToolEvent::Ended));
    frames.extend(s.tool_event(ToolEvent::Line { line: "late".to_string() }));
    frames.extend(s.tool_event(ToolEvent::Ended));
    assert_eq!(frames.len(), lines.len() + 1);
    for (i, l) in lines.iter().enumerate() {
        assert!(matches!(&frames[i], Outbound::ToolOutput { line } if line == l));
    }
    assert_eq!(frames.iter().filter(|f| is_exit(f)).count(), 1);
    assert!(is_exit(frames.last().unwrap()));
}

#[test]
fn second_tool_run_is_rejected_while_first_is_active() {
    let mut auth = TokenAuthority::new();
    let mut s = open_session(&mut auth);
    assert!(matches!(s.dispatch(tool_frame("1", Some("scan"))), SessionAction::RunTool { .. }));
    let _ = s.tool_event(ToolEvent::Line { line: "x".to_string() });
    match s.dispatch(tool_frame("2", Some("scan"))) {
        SessionAction::Reply { frame: Outbound::ApiReply { id, status, body } } => {
            assert_eq!(id, "2");
            assert_eq!(status, 409);
            assert_eq!(body, "{\"msg\":\"busy\"}");
        },
        other => panic!("unexpected {:?}", other),
    }
    assert!(s.tool_running());
    let _ = s.tool_event(ToolEvent::Ended);
    assert!(matches!(s.dispatch(tool_frame("3", Some("scan"))), SessionAction::RunTool { .. }));
}

#[test]
fn spawn_failure_ends_the_run_with_an_error_marker() {
    let mut auth = TokenAuthority::new();
    let mut s = open_session(&mut auth);
    let _ = s.dispatch(tool_frame("1", Some("scan")));
    let f = s.tool_event(ToolEvent::SpawnFailed).unwrap();
    assert!(matches!(f, Outbound::Tool { marker: ToolStatus::Failed }));
    assert!(!s.tool_running());
    assert_eq!(ToolStatus::Failed.as_str(), "error");
    assert_eq!(ToolStatus::Exit.as_str(), "exit");
    assert_eq!(ToolStatus::Load.as_str(), "load");
}

#[test]
fn events_without_a_run_send_nothing() {
    let mut auth = TokenAuthority::new();
    let mut s = open_session(&mut auth);
    assert!(s.tool_event(ToolEvent::Line { line: "x".to_string() }).is_none());
    assert!(s.tool_event(ToolEvent::Ended).is_none());
}

#[test]
fn read_failure_ends_the_run_with_an_error_marker() {
    let mut auth = TokenAuthority::new();
    let mut s = open_session(&mut auth);
    let _ = s.dispatch(tool_frame("1", Some("scan")));
    let first = s.tool_event(ToolEvent::Line { line: "a".to_string() });
    assert!(matches!(first, Some(Outbound::ToolOutput { ref line }) if line == "a"));
    let f = s.tool_event(ToolEvent::ReadFailed).unwrap();
    assert!(matches!(f, Outbound::Tool { marker: ToolStatus::Failed }));
    assert!(!s.tool_running());
    assert!(s.tool_event(ToolEvent::Ended).is_none());
}
