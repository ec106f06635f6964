use nbtunnel::config::{ConfigError, SallocArgs, SessionConfig, DEFAULT_LOCAL_PORT,
    DEFAULT_NOTEBOOK_PORT};

#[test]
fn cli_value_beats_file_value() {
    let c = SessionConfig::resolve(
        Some(9999),
        None,
        Some("cli-token".to_string()),
        Some(1111),
        Some(2222),
        Some("file-token".to_string()),
    );
    assert_eq!(c.notebook_port, 9999);
    assert_eq!(c.local_port, 2222);
    assert_eq!(c.token, Some("cli-token".to_string()));
}

#[test]
fn file_value_fills_missing_cli_value() {
    let c = SessionConfig::resolve(None, None, None, Some(1111), Some(2222),
        Some("file-token".to_string()));
    assert_eq!(c.notebook_port, 1111);
    assert_eq!(c.local_port, 2222);
    assert_eq!(c.token, Some("file-token".to_string()));
}

#[test]
fn builtin_defaults_apply_last() {
    let c = SessionConfig::resolve(None, None, None, None, None, None);
    assert_eq!(c.notebook_port, DEFAULT_NOTEBOOK_PORT);
    assert_eq!(c.notebook_port, 8889);
    assert_eq!(c.local_port, DEFAULT_LOCAL_PORT);
    assert_eq!(c.local_port, 58889);
    assert_eq!(c.token, None);
}

#[test]
fn merged_prefers_primary_per_parameter() {
    let mut cli = SallocArgs::empty();
    cli.time = Some("04:00:00".to_string());
    cli.mem = Some("8G".to_string());
    let mut file = SallocArgs::empty();
    file.time = Some("01:00:00".to_string());
    file.gres = Some("gpu:1".to_string());
    let m = SallocArgs::merged(cli, file);
    assert_eq!(m.time, Some("04:00:00".to_string()));
    assert_eq!(m.mem, Some("8G".to_string()));
    assert_eq!(m.gres, Some("gpu:1".to_string()));
    assert_eq!(m.nodes, None);
}

#[test]
fn missing_time_limit_is_rejected() {
    let mut a = SallocArgs::empty();
    a.mem = Some("4G".to_string());
    assert_eq!(a.validated(), Err(ConfigError::MissingTimeLimit));
}

#[test]
fn present_time_limit_is_accepted() {
    let mut a = SallocArgs::empty();
    a.time = Some("01:00:00".to_string());
    let ok = a.clone().validated().unwrap();
    assert_eq!(ok, a);
}

#[test]
fn get_args_skips_absent_parameters() {
    let mut a = SallocArgs::empty();
    a.time = Some("01:00:00".to_string());
    a.gres = Some("gpu:1".to_string());
    let expected: Vec<String> = vec!["--time=01:00:00".to_string(), "--gres=gpu:1".to_string()];
    assert_eq!(a.get_args(), expected);
}

#[test]
fn get_args_orders_all_parameters() {
    let a = SallocArgs {
        time: Some("2:00".to_string()),
        mem_per_cpu: Some("2G".to_string()),
        gres: Some("gpu:2".to_string()),
        nodes: Some("1".to_string()),
        cpus_per_task: Some("4".to_string()),
        mem: Some("16G".to_string()),
        constraint: Some("skylake".to_string()),
    };
    let expected: Vec<String> = vec![
        "--time=2:00".to_string(),
        "--mem-per-cpu=2G".to_string(),
        "--gres=gpu:2".to_string(),
        "--nodes=1".to_string(),
        "--cpus-per-task=4".to_string(),
        "--mem=16G".to_string(),
        "--constraint=skylake".to_string(),
    ];
    assert_eq!(a.get_args(), expected);
}

#[test]
fn get_args_of_empty_request_is_empty() {
    let a = SallocArgs::empty();
    assert_eq!(a.get_args(), Vec::<String>::new());
}
