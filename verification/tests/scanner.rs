use nbtunnel::command::{access_url, tunnel_invocation};
use nbtunnel::scan::{run_discovery, find_node_capture, find_token_capture, DiscoveryError,
    DiscoveryState};
use nbtunnel::text::trim_line;

#[test]
fn unrelated_line_changes_nothing() {
    let mut st = DiscoveryState::new(None);
    let out = st.process_line("salloc: Pending job allocation 123\n");
    assert_eq!(st.node_identifier, None);
    assert_eq!(st.credential, None);
    assert_eq!(out.echo, Some("salloc: Pending job allocation 123".to_string()));
    assert_eq!(out.node_found, None);
    assert_eq!(out.credential_found, None);
}

#[test]
fn blank_line_is_not_echoed() {
    let mut st = DiscoveryState::new(None);
    let out = st.process_line("   \n");
    assert_eq!(out.echo, None);
    assert_eq!(st.node_identifier, None);
    assert_eq!(st.credential, None);
}

#[test]
fn node_pattern_captures_token() {
    assert_eq!(
        find_node_capture("salloc: Nodes node042 are ready for job\n"),
        Some("node042".to_string())
    );
    assert_eq!(find_node_capture("... Nodes node042 ..."), Some("node042".to_string()));
    assert_eq!(find_node_capture("salloc: Pending job\n"), None);
    assert_eq!(find_node_capture("Nodesnode042\n"), None);
    assert_eq!(find_node_capture("Nodes   \n"), None);
}

#[test]
fn node_write_once() {
    let mut st = DiscoveryState::new(None);
    let first = st.process_line("salloc: Nodes node042 are ready\n");
    assert_eq!(first.node_found, Some("node042".to_string()));
    assert_eq!(st.node_identifier, Some("node042".to_string()));
    let second = st.process_line("salloc: Nodes node043 are ready\n");
    assert_eq!(second.node_found, None);
    assert_eq!(st.node_identifier, Some("node042".to_string()));
}

#[test]
fn token_pattern_captures_token() {
    assert_eq!(find_token_capture("[NotebookApp] token=abc123 \n"), Some("abc123".to_string()));
    assert_eq!(find_token_capture("token=abc123"), Some("abc123".to_string()));
    assert_eq!(find_token_capture("no credential here\n"), None);
    assert_eq!(find_token_capture("token= nothing\n"), None);
}

#[test]
fn rightmost_match_wins() {
    assert_eq!(find_node_capture("Nodes a Nodes b\n"), Some("b".to_string()));
    assert_eq!(find_token_capture("token=a token=b\n"), Some("b".to_string()));
    assert_eq!(find_token_capture("token=x token= \n"), Some("x".to_string()));
}

#[test]
fn facts_arrive_in_either_order() {
    let node_line = "salloc: Nodes node001 ready".to_string();
    let token_line = "token=s3cret active".to_string();
    let r1 = run_discovery(None, &vec![node_line.clone(), token_line.clone()]).unwrap();
    let r2 = run_discovery(None, &vec![token_line, node_line]).unwrap();
    assert_eq!(r1.0, r2.0);
    assert_eq!(r1.0.node_identifier, Some("node001".to_string()));
    assert_eq!(r1.0.credential, Some("s3cret".to_string()));
}

#[test]
fn stream_end_before_discovery_fails() {
    let r = run_discovery(None, &vec!["salloc: Pending".to_string()]);
    assert_eq!(r, Err(DiscoveryError::StreamEnded));
    let empty = run_discovery(None, &Vec::new());
    assert_eq!(empty, Err(DiscoveryError::StreamEnded));
}

#[test]
fn full_session_bootstrap() {
    let lines = vec![
        "salloc: Pending job".to_string(),
        "salloc: Nodes node042 are ready".to_string(),
        "".to_string(),
        "NotebookApp] token=deadbeef is active".to_string(),
    ];
    let (st, used) = run_discovery(None, &lines).unwrap();
    assert_eq!(used, 4);
    assert_eq!(st.node_identifier, Some("node042".to_string()));
    assert_eq!(st.credential, Some("deadbeef".to_string()));
    let node = st.node_identifier.unwrap();
    let tunnel = tunnel_invocation(58889, 8889, node.as_str());
    let expected: Vec<String> = vec![
        "-N".to_string(),
        "-L".to_string(),
        "localhost:58889:localhost:8889".to_string(),
        "node042".to_string(),
    ];
    assert_eq!(tunnel, expected);
    let url = access_url(58889, st.credential.unwrap().as_str());
    assert_eq!(url, "http://localhost:58889/?token=deadbeef");
}

#[test]
fn pre_known_credential_is_kept() {
    let lines = vec![
        "salloc: Nodes node042 are ready".to_string(),
        "NotebookApp] token=deadbeef is active".to_string(),
    ];
    let (st, used) = run_discovery(Some("mytoken".to_string()), &lines).unwrap();
    assert_eq!(used, 1);
    assert_eq!(st.credential, Some("mytoken".to_string()));
    let mut st2 = DiscoveryState::new(Some("mytoken".to_string()));
    let out = st2.process_line("token=other\n");
    assert_eq!(st2.credential, Some("mytoken".to_string()));
    assert_eq!(out.credential_found, None);
}

#[test]
fn rerun_discovery_same_result() {
    let lines = vec![
        "salloc: Granted job allocation".to_string(),
        "token=aaa ready".to_string(),
        "salloc: Nodes node9 ready".to_string(),
    ];
    let a = run_discovery(None, &lines).unwrap();
    let b = run_discovery(None, &lines).unwrap();
    assert_eq!(a.0, b.0);
    assert_eq!(a.1, b.1);
}

#[test]
fn one_line_may_satisfy_both_patterns() {
    let mut st = DiscoveryState::new(None);
    let out = st.process_line("salloc: Nodes node7 token=tok99 up\n");
    assert_eq!(st.node_identifier, Some("node7".to_string()));
    assert_eq!(st.credential, Some("tok99".to_string()));
    assert_eq!(out.node_found, Some("node7".to_string()));
    assert_eq!(out.credential_found, Some("tok99".to_string()));
    assert!(st.is_complete());
}

#[test]
fn trim_line_strips_surrounding_blanks() {
    assert_eq!(trim_line("  a b \n"), "a b");
    assert_eq!(trim_line("\t\r\n"), "");
    assert_eq!(trim_line("plain"), "plain");
}
