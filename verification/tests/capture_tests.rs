use kcap::capture::{
    build_capture_command, kill_term_args, select_tool, shell_escape_single_quotes, taskkill_args,
    CaptureTool,
};
use kcap::cli::CaptureFormat;

#[test]
fn escape_single_quotes() {
    let s = "host 10.0.0.1 and tcp port 443";
    assert_eq!(shell_escape_single_quotes(s), "'host 10.0.0.1 and tcp port 443'");
    let s2 = "host 'bad'";
    assert_eq!(shell_escape_single_quotes(s2), "'host '\\''bad'\\'''".to_string());
}

#[test]
fn build_tcpdump_command() {
    let cmd = build_capture_command(
        CaptureTool::Tcpdump,
        "any",
        CaptureFormat::Pcap,
        Some("tcp port 443"),
    );
    assert!(cmd.contains("tcpdump -i any"));
    assert!(cmd.contains("'tcp port 443'"));
    assert!(cmd.ends_with("-w -"));
}

#[test]
fn build_tshark_command() {
    let cmd = build_capture_command(
        CaptureTool::Tshark,
        "eth0",
        CaptureFormat::Pcapng,
        Some("port 53"),
    );
    assert!(cmd.contains("tshark -i eth0"));
    assert!(cmd.contains("-F pcapng"));
    assert!(cmd.contains("-f 'port 53'"));
}

#[test]
fn escape_empty_input_renders_quoted_pair() {
    assert_eq!(shell_escape_single_quotes(""), "''");
}

#[test]
fn escape_round_trip_concrete() {
    for original in [
        "",
        "plain",
        "host 'bad'",
        "'",
        "''",
        "a'b'c",
        "'leading and trailing'",
    ] {
        let quoted = shell_escape_single_quotes(original);
        assert!(quoted.starts_with('\''));
        assert!(quoted.ends_with('\''));
        let body = &quoted[1..quoted.len() - 1];
        let unescaped = body.replace("'\\''", "'");
        assert_eq!(unescaped, original);
    }
}

#[test]
fn select_tool_is_total_over_formats() {
    assert_eq!(select_tool(CaptureFormat::Pcapng), CaptureTool::Tshark);
    assert_eq!(select_tool(CaptureFormat::Pcap), CaptureTool::Tcpdump);
}

#[test]
fn guard_kill_args_exact() {
    assert_eq!(kill_term_args(4711), vec!["-TERM", "4711"]);
    assert_eq!(taskkill_args(4711), vec!["/PID", "4711", "/T", "/F"]);
}

#[test]
fn tcpdump_command_without_filter() {
    let cmd = build_capture_command(CaptureTool::Tcpdump, "eth0", CaptureFormat::Pcap, None);
    assert_eq!(cmd, "tcpdump -i eth0 -U -s 0 -w -");
}

#[test]
fn tshark_command_without_filter() {
    let cmd = build_capture_command(CaptureTool::Tshark, "any", CaptureFormat::Pcapng, None);
    assert_eq!(cmd, "tshark -i any -q -w - -F pcapng");
}
