use nbtunnel::command::{access_url, forward_spec, salloc_invocation, tunnel_invocation};
use nbtunnel::config::SallocArgs;

#[test]
fn salloc_invocation_layout() {
    let mut a = SallocArgs::empty();
    a.time = Some("2:00".to_string());
    let args = salloc_invocation(&a, "runb.sh", 8889, &None);
    let expected: Vec<String> = vec![
        "--time=2:00".to_string(),
        "-v".to_string(),
        "--preserve-env".to_string(),
        "runb.sh".to_string(),
        "--port=8889".to_string(),
        "--no-browser".to_string(),
        "--ip=127.0.0.1".to_string(),
    ];
    assert_eq!(args, expected);
}

#[test]
fn salloc_invocation_with_pre_known_credential() {
    let a = SallocArgs::empty();
    let args = salloc_invocation(&a, "runb.sh", 9000, &Some("abc".to_string()));
    let expected: Vec<String> = vec![
        "-v".to_string(),
        "--preserve-env".to_string(),
        "runb.sh".to_string(),
        "--port=9000".to_string(),
        "--no-browser".to_string(),
        "--ip=127.0.0.1".to_string(),
        "--NotebookApp.token=abc".to_string(),
    ];
    assert_eq!(args, expected);
}

#[test]
fn forward_spec_format() {
    assert_eq!(forward_spec(58889, 8889), "localhost:58889:localhost:8889");
    assert_eq!(forward_spec(65535, 1), "localhost:65535:localhost:1");
    assert_eq!(forward_spec(0, 10), "localhost:0:localhost:10");
}

#[test]
fn tunnel_invocation_layout() {
    let args = tunnel_invocation(58889, 8889, "node042");
    let expected: Vec<String> = vec![
        "-N".to_string(),
        "-L".to_string(),
        "localhost:58889:localhost:8889".to_string(),
        "node042".to_string(),
    ];
    assert_eq!(args, expected);
}

#[test]
fn access_url_format() {
    assert_eq!(access_url(58889, "deadbeef"), "http://localhost:58889/?token=deadbeef");
    assert_eq!(access_url(80, ""), "http://localhost:80/?token=");
}
