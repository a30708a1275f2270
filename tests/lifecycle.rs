use wsproxy::bridge::{
    downstream_step, read_buffer, upstream_step, ClientEvent, DownAction, DownEvent, DownState, UpAction,
    READ_CHUNK,
};
use wsproxy::config::{load, ListenMode, OptArgs, PortMapType, DEFAULT_TIMEOUT};
use wsproxy::gate::{gate_step, GateAction, GateEvent, GateState};
use wsproxy::route::StreamType;

fn no_args() -> OptArgs {
    OptArgs {
        listen: None,
        dst: None,
        tcp_port: None,
        ssl_port: None,
        ssl_cert: None,
        ssl_key: None,
        port_map_type: None,
        port_restrict_min: None,
        port_restrict_max: None,
        timeout: None,
    }
}

#[test]
fn defaults_fill_absent_settings() {
    let opt = load(no_args());
    assert_eq!(opt.listen, "0.0.0.0");
    assert_eq!(opt.dst, "127.0.0.1");
    assert_eq!(opt.tcp_port, 0);
    assert_eq!(opt.ssl_port, 0);
    assert_eq!(opt.ssl_cert, "");
    assert_eq!(opt.port_map_type, PortMapType::Prefix);
    assert_eq!(opt.timeout, DEFAULT_TIMEOUT);
    assert_eq!(opt.timeout, 10);
    let mut a = no_args();
    a.dst = Some("/tmp/sock".to_string());
    a.timeout = Some(3);
    let opt = load(a);
    assert_eq!(opt.dst, "/tmp/sock");
    assert_eq!(opt.timeout, 3);
}

#[test]
fn plain_port_wins_over_tls_port() {
    let mut a = no_args();
    a.tcp_port = Some(8080);
    a.ssl_port = Some(8443);
    assert_eq!(load(a).listen_mode(), ListenMode::Plain);
    let mut b = no_args();
    b.ssl_port = Some(8443);
    assert_eq!(load(b).listen_mode(), ListenMode::Secure);
    assert_eq!(load(no_args()).listen_mode(), ListenMode::Unset);
}

#[test]
fn client_data_messages_are_written_upstream() {
    assert!(matches!(upstream_step(ClientEvent::Binary(vec![1, 2, 3])), UpAction::Write(d) if d == vec![1, 2, 3]));
    assert!(matches!(upstream_step(ClientEvent::Text(b"hi".to_vec())), UpAction::Write(d) if d == b"hi".to_vec()));
    assert!(matches!(upstream_step(ClientEvent::Control), UpAction::Skip));
}

#[test]
fn client_close_shuts_upstream_down() {
    assert!(matches!(upstream_step(ClientEvent::Ended), UpAction::Shutdown));
    assert!(matches!(upstream_step(ClientEvent::Failed), UpAction::Shutdown));
    assert!(matches!(upstream_step(ClientEvent::WriteFailed), UpAction::Shutdown));
}

#[test]
fn data_messages_arrive_concatenated() {
    let events = vec![
        ClientEvent::Binary(vec![1, 2]),
        ClientEvent::Control,
        ClientEvent::Binary(vec![]),
        ClientEvent::Binary(vec![3, 4, 5]),
        ClientEvent::Text(b"ok".to_vec()),
        ClientEvent::Ended,
        ClientEvent::Binary(vec![9]),
    ];
    let mut upstream: Vec<u8> = Vec::new();
    let mut shut = false;
    for ev in events {
        match upstream_step(ev) {
            UpAction::Write(d) => upstream.extend_from_slice(&d),
            UpAction::Skip => {}
            UpAction::Shutdown => {
                shut = true;
                break;
            }
        }
    }
    assert!(shut);
    assert_eq!(upstream, vec![1, 2, 3, 4, 5, b'o', b'k']);
}

#[test]
fn read_buffer_holds_one_chunk() {
    let b = read_buffer();
    assert_eq!(b.len(), READ_CHUNK);
    assert_eq!(b.len(), 1024);
    assert!(b.iter().all(|x| *x == 0));
}

#[test]
fn each_read_becomes_one_message_of_exactly_its_bytes() {
    let mut buf = read_buffer();
    buf[0] = 7;
    buf[1] = 8;
    buf[2] = 9;
    let (s, a) = downstream_step(DownState::Forwarding, &buf, DownEvent::Read(3));
    assert_eq!(s, DownState::Forwarding);
    assert!(matches!(a, DownAction::SendBinary(v) if v == vec![7, 8, 9]));
    let (s, a) = downstream_step(DownState::Forwarding, &buf, DownEvent::Read(1024));
    assert_eq!(s, DownState::Forwarding);
    assert!(matches!(a, DownAction::SendBinary(v) if v.len() == 1024 && v[..3] == [7, 8, 9]));
}

#[test]
fn upstream_end_sends_close_then_nothing() {
    let buf = read_buffer();
    let (s, a) = downstream_step(DownState::Forwarding, &buf, DownEvent::Read(0));
    assert_eq!(s, DownState::Closed);
    assert!(matches!(a, DownAction::SendClose));
    let (s, a) = downstream_step(s, &buf, DownEvent::Read(5));
    assert_eq!(s, DownState::Closed);
    assert!(matches!(a, DownAction::Nothing));
}

#[test]
fn read_error_sends_close_and_send_error_stops() {
    let buf = read_buffer();
    let (s, a) = downstream_step(DownState::Forwarding, &buf, DownEvent::ReadFailed);
    assert_eq!(s, DownState::Closed);
    assert!(matches!(a, DownAction::SendClose));
    let (s, a) = downstream_step(DownState::Forwarding, &buf, DownEvent::SendFailed);
    assert_eq!(s, DownState::Closed);
    assert!(matches!(a, DownAction::Nothing));
}

#[test]
fn accepted_handshake_dials_received_target() {
    let (s, a) = gate_step(GateState::Handshaking, GateEvent::HandshakeAccepted);
    assert_eq!(s, GateState::AwaitingTarget);
    assert!(matches!(a, GateAction::Wait));
    let target = StreamType::TcpSocket("127.0.0.1:5900".to_string());
    let (s, a) = gate_step(s, GateEvent::TargetReceived(target));
    assert_eq!(s, GateState::Bridging);
    assert!(matches!(a, GateAction::Dial(StreamType::TcpSocket(t)) if t == "127.0.0.1:5900"));
}

#[test]
fn deadline_drops_connection_without_dial() {
    let (s, a) = gate_step(GateState::Handshaking, GateEvent::DeadlineElapsed);
    assert_eq!(s, GateState::TimedOut);
    assert!(matches!(a, GateAction::Drop));
    let late = StreamType::TcpSocket("127.0.0.1:5900".to_string());
    let (s, a) = gate_step(s, GateEvent::TargetReceived(late));
    assert_eq!(s, GateState::TimedOut);
    assert!(matches!(a, GateAction::Wait));
    let (s, a) = gate_step(GateState::AwaitingTarget, GateEvent::DeadlineElapsed);
    assert_eq!(s, GateState::TimedOut);
    assert!(matches!(a, GateAction::Drop));
}

#[test]
fn rejected_handshake_and_closed_handoff_drop() {
    let (s, a) = gate_step(GateState::Handshaking, GateEvent::HandshakeFailed);
    assert_eq!(s, GateState::Rejected);
    assert!(matches!(a, GateAction::Drop));
    let (s, a) = gate_step(GateState::AwaitingTarget, GateEvent::ChannelClosed);
    assert_eq!(s, GateState::Dropped);
    assert!(matches!(a, GateAction::Drop));
    let t = StreamType::UnixDomainSocket("/tmp/sock/a".to_string());
    let (s, a) = gate_step(GateState::Handshaking, GateEvent::TargetReceived(t));
    assert_eq!(s, GateState::Handshaking);
    assert!(matches!(a, GateAction::Wait));
}

#[test]
fn bind_address_follows_selected_port() {
    let mut a = no_args();
    a.tcp_port = Some(8080);
    a.ssl_port = Some(8443);
    assert_eq!(load(a).bind_address(), Some("0.0.0.0:8080".to_string()));
    let mut b = no_args();
    b.listen = Some("127.0.0.1".to_string());
    b.ssl_port = Some(443);
    assert_eq!(load(b).bind_address(), Some("127.0.0.1:443".to_string()));
    assert_eq!(load(no_args()).bind_address(), None);
}
