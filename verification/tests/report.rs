use portscope::collect::collect_records;
use portscope::directory::ProcessDirectory;
use portscope::record::{Payload, RawEntry, TcpState};
use portscope::render::render_report;
use portscope::socket_report;

fn tcp_entry(
    local_address: &str,
    local_port: u16,
    state: TcpState,
    remote_address: &str,
    remote_port: u16,
    pids: Vec<u32>,
) -> RawEntry {
    RawEntry {
        local_address: local_address.to_string(),
        local_port,
        payload: Payload::Tcp {
            state,
            remote_address: remote_address.to_string(),
            remote_port,
        },
        associated_pids: pids,
    }
}

fn udp_entry(local_address: &str, local_port: u16, pids: Vec<u32>) -> RawEntry {
    RawEntry {
        local_address: local_address.to_string(),
        local_port,
        payload: Payload::Udp,
        associated_pids: pids,
    }
}

#[test]
fn empty_input_still_prints_both_sections() {
    let dir = ProcessDirectory::new();
    let lines = socket_report(Vec::new(), Vec::new(), &dir);
    let divider = "-".repeat(30);
    assert_eq!(
        lines,
        vec![
            divider.clone(),
            "TCP socket information".to_string(),
            divider.clone(),
            String::new(),
            divider.clone(),
            "UDP socket information".to_string(),
            divider,
        ]
    );
}

#[test]
fn established_tcp_line_shows_both_endpoints() {
    let mut dir = ProcessDirectory::new();
    dir.record(100, "curl".to_string());
    let v4 = vec![tcp_entry(
        "127.0.0.1",
        8080,
        TcpState::Established,
        "127.0.0.1",
        443,
        vec![100],
    )];
    let lines = socket_report(v4, Vec::new(), &dir);
    let expected = format!(
        "TCP{:3}{:>30}:{:>5} -> {:>6}:{:<30}{:30}[{}]",
        "4", "127.0.0.1", 8080, 443, "127.0.0.1", "curl (100)", "ESTABLISHED"
    );
    assert_eq!(lines.len(), 8);
    assert_eq!(lines[3], expected);
}

#[test]
fn listen_tcp_line_leaves_remote_columns_blank() {
    let mut dir = ProcessDirectory::new();
    dir.record(7, "sshd".to_string());
    let v4 = vec![tcp_entry(
        "0.0.0.0",
        22,
        TcpState::Listen,
        "198.51.100.9",
        60000,
        vec![7],
    )];
    let lines = socket_report(v4, Vec::new(), &dir);
    let expected = format!(
        "TCP{:3}{:>30}:{:>5}    {:>6} {:<30}{:30}[{}]",
        "4", "0.0.0.0", 22, "", "", "sshd (7)", "LISTEN"
    );
    assert_eq!(lines[3], expected);
    assert!(!lines[3].contains("->"));
    assert!(!lines[3].contains("198.51.100.9"));
    assert!(!lines[3].contains("60000"));
}

#[test]
fn udp_line_carries_no_state_and_no_remote_endpoint() {
    let mut dir = ProcessDirectory::new();
    dir.record(55, "dnsmasq".to_string());
    let v4 = vec![udp_entry("0.0.0.0", 53, vec![55])];
    let lines = socket_report(v4, Vec::new(), &dir);
    let expected = format!(
        "UDP{:3}{:>30}:{:<8}{:30}",
        "4", "0.0.0.0", 53, "dnsmasq (55)"
    );
    assert_eq!(lines[7], expected);
    assert!(!lines[7].contains("["));
    assert!(!lines[7].contains("->"));
}

#[test]
fn records_are_sorted_ascending_by_local_port() {
    let dir = ProcessDirectory::new();
    let v4 = vec![
        tcp_entry("10.0.0.1", 443, TcpState::Established, "10.0.0.2", 50001, vec![]),
        tcp_entry("10.0.0.1", 80, TcpState::Established, "10.0.0.3", 50002, vec![]),
    ];
    let v6 = vec![tcp_entry("::1", 25, TcpState::Established, "::1", 50003, vec![])];
    let records = collect_records(v4, v6, &dir);
    let ports: Vec<u16> = records.iter().map(|r| r.local_port).collect();
    assert_eq!(ports, vec![25, 80, 443]);
}

#[test]
fn equal_ports_keep_discovery_order() {
    let mut dir = ProcessDirectory::new();
    dir.record(1, "first".to_string());
    dir.record(2, "second".to_string());
    let v4 = vec![
        tcp_entry("192.0.2.1", 22, TcpState::Established, "192.0.2.9", 40000, vec![1]),
        tcp_entry("192.0.2.2", 22, TcpState::Established, "192.0.2.9", 40001, vec![2]),
    ];
    let lines = socket_report(v4, Vec::new(), &dir);
    assert!(lines[3].contains("first (1)"));
    assert!(lines[3].contains("192.0.2.1"));
    assert!(lines[4].contains("second (2)"));
    assert!(lines[4].contains("192.0.2.2"));
}

#[test]
fn ipv4_entries_come_before_ipv6_entries_on_equal_ports() {
    let dir = ProcessDirectory::new();
    let v4 = vec![udp_entry("0.0.0.0", 5353, vec![])];
    let v6 = vec![udp_entry("::", 5353, vec![])];
    let records = collect_records(v4, v6, &dir);
    assert_eq!(records.len(), 2);
    assert_eq!(records[0].local_address, "0.0.0.0");
    assert_eq!(records[1].local_address, "::");
}

#[test]
fn family_tag_follows_the_enumeration_pass() {
    let dir = ProcessDirectory::new();
    // The address literal reads like IPv4, but the entry arrives in the IPv6
    // pass: the line must carry the pass's indicator.
    let v6 = vec![udp_entry("192.0.2.7", 9999, vec![])];
    let lines = socket_report(Vec::new(), v6, &dir);
    let expected = format!(
        "UDP{:3}{:>30}:{:<8}{:30}",
        "6", "192.0.2.7", 9999, "unknown (-)"
    );
    assert_eq!(lines[7], expected);
}

#[test]
fn process_lookup_miss_renders_empty_name() {
    let mut dir = ProcessDirectory::new();
    dir.record(10, "other".to_string());
    let v4 = vec![udp_entry("127.0.0.1", 68, vec![42])];
    let lines = socket_report(v4, Vec::new(), &dir);
    let expected = format!("UDP{:3}{:>30}:{:<8}{:30}", "4", "127.0.0.1", 68, " (42)");
    assert_eq!(lines[7], expected);
}

#[test]
fn empty_owner_list_renders_placeholder() {
    let dir = ProcessDirectory::new();
    let v4 = vec![tcp_entry(
        "127.0.0.1",
        631,
        TcpState::CloseWait,
        "127.0.0.1",
        40000,
        vec![],
    )];
    let lines = socket_report(v4, Vec::new(), &dir);
    let expected = format!(
        "TCP{:3}{:>30}:{:>5} -> {:>6}:{:<30}{:30}[{}]",
        "4", "127.0.0.1", 631, 40000, "127.0.0.1", "unknown (-)", "CLOSE_WAIT"
    );
    assert_eq!(lines[3], expected);
}

#[test]
fn first_of_several_owners_is_shown() {
    let mut dir = ProcessDirectory::new();
    dir.record(5, "parent".to_string());
    dir.record(6, "child".to_string());
    let v4 = vec![udp_entry("0.0.0.0", 123, vec![5, 6])];
    let lines = socket_report(v4, Vec::new(), &dir);
    assert!(lines[7].contains("parent (5)"));
    assert!(!lines[7].contains("child"));
}

#[test]
fn duplicate_directory_entries_resolve_to_first_recorded_name() {
    let mut dir = ProcessDirectory::new();
    dir.record(9, "old".to_string());
    dir.record(9, "new".to_string());
    let v4 = vec![udp_entry("0.0.0.0", 500, vec![9])];
    let lines = socket_report(v4, Vec::new(), &dir);
    assert!(lines[7].contains("old (9)"));
}

#[test]
fn non_ascii_process_name_pads_by_characters() {
    let mut dir = ProcessDirectory::new();
    dir.record(3, "héllo".to_string());
    let v4 = vec![udp_entry("0.0.0.0", 67, vec![3])];
    let lines = socket_report(v4, Vec::new(), &dir);
    let expected = format!("UDP{:3}{:>30}:{:<8}{:30}", "4", "0.0.0.0", 67, "héllo (3)");
    assert_eq!(lines[7], expected);
}

#[test]
fn overlong_fields_are_not_truncated() {
    let dir = ProcessDirectory::new();
    let long_addr = "2001:0db8:0000:0000:0000:0000:0000:0000:abcd";
    let v6 = vec![udp_entry(long_addr, 65535, vec![])];
    let lines = socket_report(Vec::new(), v6, &dir);
    let expected = format!("UDP{:3}{:>30}:{:<8}{:30}", "6", long_addr, 65535, "unknown (-)");
    assert_eq!(lines[7], expected);
}

#[test]
fn report_renders_tcp_section_before_udp_section() {
    let mut dir = ProcessDirectory::new();
    dir.record(1, "a".to_string());
    let v4 = vec![
        udp_entry("0.0.0.0", 1, vec![1]),
        tcp_entry("0.0.0.0", 2, TcpState::TimeWait, "10.0.0.9", 3, vec![1]),
    ];
    let records = collect_records(v4, Vec::new(), &dir);
    let lines = render_report(&records);
    // Sections: 3 header lines, 1 TCP line, 4 header lines, 1 UDP line.
    assert_eq!(lines.len(), 9);
    assert!(lines[3].starts_with("TCP"));
    assert!(lines[8].starts_with("UDP"));
}
