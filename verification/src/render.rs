//! The report renderer: two passes over the sorted collection, TCP first and
//! UDP second, each under a fixed divider-and-title header. A TCP line in the
//! LISTEN state shows the local endpoint only, with the remote-endpoint
//! columns left blank; every other TCP line shows both endpoints. A record
//! with no owning process renders a placeholder owner instead of failing.

use vstd::prelude::*;

use crate::record::{AddressFamily, Payload, PayloadV, ProcessRef, ProcessRefV, SocketRecord, SocketRecordV, TcpState};
use crate::textfmt::{dec_str, dec_text, pad_left, pad_left_text, pad_right, pad_right_text, spaces, spaces_text};

verus! {

/// The one-character IP version indicator derived from the address family.
pub open spec fn family_digit(f: AddressFamily) -> Seq<char> {
    match f {
        AddressFamily::V4 => "4"@,
        AddressFamily::V6 => "6"@,
    }
}

/// IP version indicator as a string.
pub fn family_text(f: AddressFamily) -> (r: String)
    ensures
        r@ == family_digit(f),
{
    match f {
        AddressFamily::V4 => String::from_str("4"),
        AddressFamily::V6 => String::from_str("6"),
    }
}

/// The conventional upper-case label of a TCP connection state.
pub open spec fn state_label(s: TcpState) -> Seq<char> {
    match s {
        TcpState::Closed => "CLOSED"@,
        TcpState::Listen => "LISTEN"@,
        TcpState::SynSent => "SYN_SENT"@,
        TcpState::SynReceived => "SYN_RCVD"@,
        TcpState::Established => "ESTABLISHED"@,
        TcpState::FinWait1 => "FIN_WAIT_1"@,
        TcpState::FinWait2 => "FIN_WAIT_2"@,
        TcpState::CloseWait => "CLOSE_WAIT"@,
        TcpState::Closing => "CLOSING"@,
        TcpState::LastAck => "LAST_ACK"@,
        TcpState::TimeWait => "TIME_WAIT"@,
        TcpState::DeleteTcb => "DELETE_TCB"@,
        TcpState::Unknown => "__UNKNOWN"@,
    }
}

/// TCP connection state label as a string.
pub fn state_text(s: TcpState) -> (r: String)
    ensures
        r@ == state_label(s),
{
    match s {
        TcpState::Closed => String::from_str("CLOSED"),
        TcpState::Listen => String::from_str("LISTEN"),
        TcpState::SynSent => String::from_str("SYN_SENT"),
        TcpState::SynReceived => String::from_str("SYN_RCVD"),
        TcpState::Established => String::from_str("ESTABLISHED"),
        TcpState::FinWait1 => String::from_str("FIN_WAIT_1"),
        TcpState::FinWait2 => String::from_str("FIN_WAIT_2"),
        TcpState::CloseWait => String::from_str("CLOSE_WAIT"),
        TcpState::Closing => String::from_str("CLOSING"),
        TcpState::LastAck => String::from_str("LAST_ACK"),
        TcpState::TimeWait => String::from_str("TIME_WAIT"),
        TcpState::DeleteTcb => String::from_str("DELETE_TCB"),
        TcpState::Unknown => String::from_str("__UNKNOWN"),
    }
}

/// The owner note of a line: the first owning process's name with its
/// identifier in parentheses, or a placeholder when the OS associated no
/// process with the socket.
pub open spec fn owner_note(owners: Seq<ProcessRefV>) -> Seq<char> {
    if owners.len() == 0 {
        "unknown (-)"@
    } else {
        owners[0].name + " ("@ + dec_str(owners[0].pid as nat) + ")"@
    }
}

/// Owner note as a string.
pub fn owner_note_text(owners: &Vec<ProcessRef>) -> (r: String)
    ensures
        r@ == owner_note(owners.deep_view()),
{
    if owners.len() == 0 {
        String::from_str("unknown (-)")
    } else {
        let mut r = owners[0].name.clone();
        r.append(" (");
        let pid_text = dec_text(owners[0].pid as u64);
        r.append(pid_text.as_str());
        r.append(")");
        proof {
            assert(owners.deep_view()[0] == owners@[0]@);
        }
        r
    }
}

/// One rendered TCP line. In the LISTEN state the remote-endpoint columns
/// stay blank; in every other state the remote port and address follow the
/// local endpoint. The line ends with the owner note and the bracketed state.
pub open spec fn tcp_line(r: SocketRecordV) -> Seq<char> {
    match r.payload {
        PayloadV::Tcp { state, remote_address, remote_port } => {
            let head = "TCP"@ + pad_right(family_digit(r.family), 3) + pad_left(
                r.local_address,
                30,
            ) + ":"@ + pad_left(dec_str(r.local_port as nat), 5);
            let tail = pad_right(owner_note(r.owners), 30) + "["@ + state_label(state) + "]"@;
            if state == TcpState::Listen {
                head + "    "@ + spaces(6) + " "@ + spaces(30) + tail
            } else {
                head + " -> "@ + pad_left(dec_str(remote_port as nat), 6) + ":"@ + pad_right(
                    remote_address,
                    30,
                ) + tail
            }
        },
        PayloadV::Udp => Seq::empty(),
    }
}

/// One rendered UDP line: local endpoint and owner note only. A UDP record
/// has no state and no remote endpoint to show.
pub open spec fn udp_line(r: SocketRecordV) -> Seq<char> {
    match r.payload {
        PayloadV::Udp => "UDP"@ + pad_right(family_digit(r.family), 3) + pad_left(
            r.local_address,
            30,
        ) + ":"@ + pad_right(dec_str(r.local_port as nat), 8) + pad_right(
            owner_note(r.owners),
            30,
        ),
        PayloadV::Tcp { .. } => Seq::empty(),
    }
}

/// Render one TCP record as a line.
pub fn render_tcp_line(r: &SocketRecord) -> (line: String)
    requires
        r@.payload is Tcp,
    ensures
        line@ == tcp_line(r@),
{
    match &r.payload {
        Payload::Tcp { state, remote_address, remote_port } => {
            let mut line = String::from_str("TCP");
            let fam = family_text(r.family);
            let fam_pad = pad_right_text(fam.as_str(), 3);
            line.append(fam_pad.as_str());
            let addr_pad = pad_left_text(r.local_address.as_str(), 30);
            line.append(addr_pad.as_str());
            line.append(":");
            let port_text = dec_text(r.local_port as u64);
            let port_pad = pad_left_text(port_text.as_str(), 5);
            line.append(port_pad.as_str());
            if *state == TcpState::Listen {
                line.append("    ");
                let blank_port = spaces_text(6);
                line.append(blank_port.as_str());
                line.append(" ");
                let blank_addr = spaces_text(30);
                line.append(blank_addr.as_str());
            } else {
                line.append(" -> ");
                let rport_text = dec_text(*remote_port as u64);
                let rport_pad = pad_left_text(rport_text.as_str(), 6);
                line.append(rport_pad.as_str());
                line.append(":");
                let raddr_pad = pad_right_text(remote_address.as_str(), 30);
                line.append(raddr_pad.as_str());
            }
            let owner = owner_note_text(&r.owners);
            let owner_pad = pad_right_text(owner.as_str(), 30);
            line.append(owner_pad.as_str());
            line.append("[");
            let label = state_text(*state);
            line.append(label.as_str());
            line.append("]");
            proof {
                assert(line@ =~= tcp_line(r@));
            }
            line
        },
        Payload::Udp => {
            proof {
                assert(false);
            }
            String::new()
        },
    }
}

/// Render one UDP record as a line.
pub fn render_udp_line(r: &SocketRecord) -> (line: String)
    requires
        r@.payload is Udp,
    ensures
        line@ == udp_line(r@),
{
    let mut line = String::from_str("UDP");
    let fam = family_text(r.family);
    let fam_pad = pad_right_text(fam.as_str(), 3);
    line.append(fam_pad.as_str());
    let addr_pad = pad_left_text(r.local_address.as_str(), 30);
    line.append(addr_pad.as_str());
    line.append(":");
    let port_text = dec_text(r.local_port as u64);
    let port_pad = pad_right_text(port_text.as_str(), 8);
    line.append(port_pad.as_str());
    let owner = owner_note_text(&r.owners);
    let owner_pad = pad_right_text(owner.as_str(), 30);
    line.append(owner_pad.as_str());
    proof {
        assert(line@ =~= udp_line(r@));
    }
    line
}

/// A LISTEN line shows no remote endpoint: two LISTEN records that agree on
/// everything but their remote fields render as the same line.
pub proof fn lemma_listen_hides_remote(a: SocketRecordV, b: SocketRecordV)
    requires
        a.payload matches PayloadV::Tcp { state: TcpState::Listen, .. },
        b.payload matches PayloadV::Tcp { state: TcpState::Listen, .. },
        a.family == b.family,
        a.local_address == b.local_address,
        a.local_port == b.local_port,
        a.owners == b.owners,
    ensures
        tcp_line(a) == tcp_line(b),
{
}

/// The divider above and below each section title.
pub open spec fn divider() -> Seq<char> {
    "------------------------------"@
}

/// The lines of the TCP pass: one line per TCP-tagged record, in collection
/// order; UDP records contribute nothing.
pub open spec fn tcp_lines(s: Seq<SocketRecordV>) -> Seq<Seq<char>>
    decreases s.len(),
{
    if s.len() == 0 {
        Seq::empty()
    } else {
        tcp_lines(s.drop_last()) + (if s.last().payload is Tcp {
            seq![tcp_line(s.last())]
        } else {
            Seq::empty()
        })
    }
}

/// The lines of the UDP pass: one line per UDP-tagged record, in collection
/// order; TCP records contribute nothing.
pub open spec fn udp_lines(s: Seq<SocketRecordV>) -> Seq<Seq<char>>
    decreases s.len(),
{
    if s.len() == 0 {
        Seq::empty()
    } else {
        udp_lines(s.drop_last()) + (if s.last().payload is Udp {
            seq![udp_line(s.last())]
        } else {
            Seq::empty()
        })
    }
}

/// The whole report: the TCP section header, the TCP lines, a blank line,
/// the UDP section header, and the UDP lines. Both headers appear even when
/// no record contributes a line.
pub open spec fn report_lines(s: Seq<SocketRecordV>) -> Seq<Seq<char>> {
    seq![divider(), "TCP socket information"@, divider()] + tcp_lines(s) + seq![
        Seq::<char>::empty(),
        divider(),
        "UDP socket information"@,
        divider(),
    ] + udp_lines(s)
}

fn divider_text() -> (r: String)
    ensures
        r@ == divider(),
{
    String::from_str("------------------------------")
}

/// Render the whole report for a collection of records, in collection order:
/// the TCP section first, then the UDP section, each under its header.
pub fn render_report(records: &Vec<SocketRecord>) -> (lines: Vec<String>)
    ensures
        lines.deep_view() == report_lines(records.deep_view()),
{
    let ghost s = records.deep_view();
    let ghost tcp_head = seq![divider(), "TCP socket information"@, divider()];
    let mut lines: Vec<String> = Vec::new();
    push_line(&mut lines, divider_text());
    push_line(&mut lines, String::from_str("TCP socket information"));
    push_line(&mut lines, divider_text());
    proof {
        assert(lines.deep_view() =~= tcp_head + tcp_lines(s.take(0)));
    }
    let mut i: usize = 0;
    while i < records.len()
        invariant
            i <= records.len(),
            records.deep_view() == s,
            lines.deep_view() == tcp_head + tcp_lines(s.take(i as int)),
        decreases records.len() - i,
    {
        proof {
            assert(s.take(i + 1).drop_last() =~= s.take(i as int));
            assert(s.take(i + 1).last() == s[i as int]);
        }
        let is_tcp = match &records[i].payload {
            Payload::Tcp { .. } => true,
            Payload::Udp => false,
        };
        if is_tcp {
            let line = render_tcp_line(&records[i]);
            push_line(&mut lines, line);
            proof {
                assert(lines.deep_view() =~= tcp_head + tcp_lines(s.take(i + 1)));
            }
        } else {
            proof {
                assert(tcp_lines(s.take(i + 1)) =~= tcp_lines(s.take(i as int)));
            }
        }
        i = i + 1;
    }
    let ghost udp_head = tcp_head + tcp_lines(s) + seq![
        Seq::<char>::empty(),
        divider(),
        "UDP socket information"@,
        divider(),
    ];
    proof {
        assert(s.take(i as int) =~= s);
    }
    push_line(&mut lines, String::new());
    push_line(&mut lines, divider_text());
    push_line(&mut lines, String::from_str("UDP socket information"));
    push_line(&mut lines, divider_text());
    proof {
        assert(lines.deep_view() =~= udp_head + udp_lines(s.take(0)));
    }
    let mut j: usize = 0;
    while j < records.len()
        invariant
            j <= records.len(),
            records.deep_view() == s,
            lines.deep_view() == udp_head + udp_lines(s.take(j as int)),
        decreases records.len() - j,
    {
        proof {
            assert(s.take(j + 1).drop_last() =~= s.take(j as int));
            assert(s.take(j + 1).last() == s[j as int]);
        }
        let is_udp = match &records[j].payload {
            Payload::Udp => true,
            Payload::Tcp { .. } => false,
        };
        if is_udp {
            let line = render_udp_line(&records[j]);
            push_line(&mut lines, line);
            proof {
                assert(lines.deep_view() =~= udp_head + udp_lines(s.take(j + 1)));
            }
        } else {
            proof {
                assert(udp_lines(s.take(j + 1)) =~= udp_lines(s.take(j as int)));
            }
        }
        j = j + 1;
    }
    proof {
        assert(s.take(j as int) =~= s);
        assert(lines.deep_view() =~= report_lines(s));
    }
    lines
}

/// Append one line to the report.
fn push_line(lines: &mut Vec<String>, line: String)
    ensures
        final(lines).deep_view() == old(lines).deep_view().push(line@),
{
    let ghost before = lines.deep_view();
    let ghost l = line@;
    lines.push(line);
    proof {
        assert(lines.deep_view() =~= before.push(l));
    }
}

} // verus!
