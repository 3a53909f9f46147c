use kcap::cli::{Args, CaptureFormat, Protocol};
use kcap::k8s::Target;
use kcap::{exit_status_to_result, plan_capture, resolve_target, KcapError};

fn base_args() -> Args {
    Args {
        ssh_user: None,
        ssh_host: None,
        ssh_port: 22,
        jump_host: None,
        namespace: None,
        pod: None,
        container: None,
        port: None,
        protocol: Protocol::All,
        iface: "any".to_string(),
        output: "capture.pcap".to_string(),
        format: CaptureFormat::Pcap,
        duration: None,
        filter: None,
    }
}

#[test]
fn resolve_target_prefers_ssh_host() {
    let args = Args {
        ssh_user: None,
        ssh_host: Some("10.0.0.1".to_string()),
        ssh_port: 22,
        jump_host: None,
        namespace: None,
        pod: Some("p1".to_string()),
        container: None,
        port: None,
        protocol: Protocol::All,
        iface: "any".to_string(),
        output: "capture.pcap".to_string(),
        format: CaptureFormat::Pcap,
        duration: None,
        filter: None,
    };
    let target = resolve_target(&args).unwrap();
    match target {
        Target::Ssh { host } => assert_eq!(host, "10.0.0.1"),
        _ => panic!("expected ssh target"),
    }
}

#[test]
fn resolve_target_from_pod() {
    let args = Args {
        ssh_user: None,
        ssh_host: None,
        ssh_port: 22,
        jump_host: None,
        namespace: Some("prod".to_string()),
        pod: Some("orders".to_string()),
        container: None,
        port: None,
        protocol: Protocol::All,
        iface: "any".to_string(),
        output: "capture.pcap".to_string(),
        format: CaptureFormat::Pcap,
        duration: None,
        filter: None,
    };
    let target = resolve_target(&args).unwrap();
    match target {
        Target::KubernetesExec { namespace, pod, .. } => {
            assert_eq!(namespace, "prod");
            assert_eq!(pod, "orders");
        }
        _ => panic!("expected kubectl exec target"),
    }
}

#[test]
fn resolve_target_pod_with_container() {
    let args = Args {
        ssh_user: None,
        ssh_host: None,
        ssh_port: 22,
        jump_host: None,
        namespace: Some("prod".to_string()),
        pod: Some("orders".to_string()),
        container: Some("api".to_string()),
        port: None,
        protocol: Protocol::All,
        iface: "any".to_string(),
        output: "capture.pcap".to_string(),
        format: CaptureFormat::Pcap,
        duration: None,
        filter: None,
    };

    let target = resolve_target(&args).unwrap();
    match target {
        Target::KubernetesExec { namespace, pod, container } => {
            assert_eq!(namespace, "prod");
            assert_eq!(pod, "orders");
            assert_eq!(container.as_deref(), Some("api"));
        }
        _ => panic!("expected kubectl exec target"),
    }
}

#[test]
fn resolve_target_defaults_namespace() {
    let mut args = base_args();
    args.pod = Some("orders".to_string());
    let target = resolve_target(&args).unwrap();
    match target {
        Target::KubernetesExec { namespace, .. } => assert_eq!(namespace, "default"),
        _ => panic!("expected kubectl exec target"),
    }
}

#[test]
fn resolve_target_without_hints_fails() {
    let args = base_args();
    let err = resolve_target(&args).unwrap_err();
    assert_eq!(err, KcapError::NoTargetSpecified);
    assert_eq!(err.message(), "no target specified: set --ssh-host or --pod");
}

#[test]
fn plan_scenario_tcp_port_over_ssh() {
    let mut args = base_args();
    args.ssh_host = Some("10.0.0.1".to_string());
    args.port = Some(443);
    args.protocol = Protocol::Tcp;
    args.format = CaptureFormat::Pcap;
    let plan = plan_capture(&args).unwrap();

    assert!(matches!(plan.target, Target::Ssh { .. }));
    assert_eq!(plan.program, "ssh");
    assert_eq!(plan.remote_cmd, "tcpdump -i any -U -s 0 'tcp port 443' -w -");
    assert!(plan.remote_cmd.ends_with("-w -"));
    assert!(!plan.format_degraded);
    let n = plan.args.len();
    assert_eq!(plan.args[n - 3], "sh");
    assert_eq!(plan.args[n - 2], "-c");
    assert_eq!(plan.args[n - 1], plan.remote_cmd);
}

#[test]
fn plan_scenario_pcapng_selects_tshark() {
    let mut args = base_args();
    args.ssh_host = Some("10.0.0.1".to_string());
    args.format = CaptureFormat::Pcapng;
    let plan = plan_capture(&args).unwrap();

    assert_eq!(plan.remote_cmd, "tshark -i any -q -w - -F pcapng");
    assert!(plan.remote_cmd.contains("-F pcapng"));
    assert!(!plan.format_degraded);
}

#[test]
fn plan_scenario_host_wins_over_pod() {
    let mut args = base_args();
    args.ssh_host = Some("10.0.0.9".to_string());
    args.namespace = Some("prod".to_string());
    args.pod = Some("orders".to_string());
    args.container = Some("api".to_string());
    let plan = plan_capture(&args).unwrap();

    match plan.target {
        Target::Ssh { host } => assert_eq!(host, "10.0.0.9"),
        _ => panic!("expected ssh target"),
    }
    assert_eq!(plan.program, "ssh");
}

#[test]
fn plan_scenario_duration_carried_to_guard() {
    let mut args = base_args();
    args.ssh_host = Some("10.0.0.1".to_string());
    args.duration = Some(5);
    let plan = plan_capture(&args).unwrap();
    assert_eq!(plan.duration_secs, 5);

    args.duration = None;
    let plan = plan_capture(&args).unwrap();
    assert_eq!(plan.duration_secs, 0);
}

#[test]
fn plan_pod_target_builds_kubectl_invocation() {
    let mut args = base_args();
    args.namespace = Some("prod".to_string());
    args.pod = Some("orders".to_string());
    args.container = Some("api".to_string());
    args.port = Some(53);
    args.protocol = Protocol::Udp;
    let plan = plan_capture(&args).unwrap();

    assert_eq!(plan.program, "kubectl");
    assert_eq!(plan.args[0], "exec");
    assert_eq!(
        plan.args,
        vec![
            "exec",
            "-n",
            "prod",
            "orders",
            "-c",
            "api",
            "--",
            "sh",
            "-c",
            "tcpdump -i any -U -s 0 'udp port 53' -w -",
        ]
    );
}

#[test]
fn plan_combines_port_and_free_form_filter() {
    let mut args = base_args();
    args.ssh_host = Some("10.0.0.1".to_string());
    args.port = Some(443);
    args.protocol = Protocol::Tcp;
    args.filter = Some("host 10.0.0.1".to_string());
    let plan = plan_capture(&args).unwrap();
    assert_eq!(
        plan.remote_cmd,
        "tcpdump -i any -U -s 0 '(tcp port 443) and (host 10.0.0.1)' -w -"
    );
}

#[test]
fn plan_without_target_reports_error() {
    let args = base_args();
    let err = plan_capture(&args).unwrap_err();
    assert_eq!(err, KcapError::NoTargetSpecified);
}

#[test]
fn exit_status_maps_to_outcome() {
    assert!(exit_status_to_result(true, "exit status: 0".to_string()).is_ok());
    let err = exit_status_to_result(false, "exit status: 1".to_string()).unwrap_err();
    assert_eq!(err, KcapError::RemoteExit { detail: "exit status: 1".to_string() });
    assert_eq!(err.message(), "remote command failed with status exit status: 1");
}

#[test]
fn lookup_failure_message_carries_diagnostic() {
    let err = KcapError::LookupFailed {
        program: "kubectl".to_string(),
        detail: "pod not found".to_string(),
    };
    assert_eq!(err.message(), "kubectl failed: pod not found");
}
