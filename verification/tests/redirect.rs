use connect_redirect::endpoint::Endpoint;
use connect_redirect::endpoint::is_trigger_port;
use connect_redirect::policy::forward_endpoint;
use connect_redirect::policy::on_connect;

fn endpoint_with(port: u16, addr: [u8; 4]) -> Endpoint {
    let mut data = vec![0u8; 14];
    data[0] = (port / 256) as u8;
    data[1] = (port % 256) as u8;
    data[2] = addr[0];
    data[3] = addr[1];
    data[4] = addr[2];
    data[5] = addr[3];
    Endpoint { family: 2, data }
}

#[test]
fn port_parse_is_network_byte_order() {
    let ep = endpoint_with(443, [10, 0, 0, 5]);
    assert_eq!(ep.data[0], 1);
    assert_eq!(ep.data[1], 187);
    assert_eq!(ep.port(), 443);
}

#[test]
fn trigger_set_is_exactly_443_and_5555() {
    assert!(is_trigger_port(443));
    assert!(is_trigger_port(5555));
    assert!(!is_trigger_port(80));
    assert!(!is_trigger_port(442));
    assert!(!is_trigger_port(444));
    assert!(!is_trigger_port(5554));
    assert!(!is_trigger_port(5556));
}

#[test]
fn tls_port_is_rewritten_to_redirect_target() {
    let ep = endpoint_with(443, [10, 0, 0, 5]);
    let fwd = forward_endpoint(&ep);
    assert_eq!(fwd.family, 2);
    assert_eq!(fwd.data.len(), 14);
    assert_eq!(fwd.port(), 5555);
    assert_eq!(&fwd.data[0..6], &[21, 179, 127, 0, 0, 1]);
}

#[test]
fn redirect_port_itself_is_rewritten_to_loopback() {
    let ep = endpoint_with(5555, [192, 168, 1, 9]);
    let fwd = forward_endpoint(&ep);
    assert_eq!(fwd.port(), 5555);
    assert_eq!(&fwd.data[2..6], &[127, 0, 0, 1]);
}

#[test]
fn other_port_passes_through_byte_identical() {
    let mut ep = endpoint_with(80, [10, 0, 0, 5]);
    ep.data[13] = 0xAB;
    let fwd = forward_endpoint(&ep);
    assert_eq!(fwd.family, ep.family);
    assert_eq!(fwd.data, ep.data);
}

#[test]
fn rewrite_touches_only_port_and_address_bytes() {
    let mut ep = endpoint_with(443, [10, 0, 0, 5]);
    for i in 6..14 {
        ep.data[i] = 0x40 + i as u8;
    }
    let fwd = forward_endpoint(&ep);
    assert_eq!(fwd.family, ep.family);
    assert_eq!(fwd.data.len(), ep.data.len());
    assert_eq!(&fwd.data[6..14], &ep.data[6..14]);
}

#[test]
fn connect_with_tls_port_forwards_redirect_target() {
    let ep = endpoint_with(443, [10, 0, 0, 5]);
    let code = on_connect(
        |_socket: usize, fwd: Endpoint, _len: i32| fwd.port() as i32,
        7,
        &ep,
        16,
    );
    assert_eq!(code, 5555);
}

#[test]
fn connect_with_tls_port_forwards_loopback_address() {
    let ep = endpoint_with(443, [10, 0, 0, 5]);
    let code = on_connect(
        |_socket: usize, fwd: Endpoint, _len: i32| {
            i32::from_be_bytes([fwd.data[2], fwd.data[3], fwd.data[4], fwd.data[5]])
        },
        7,
        &ep,
        16,
    );
    assert_eq!(code, i32::from_be_bytes([127, 0, 0, 1]));
}

#[test]
fn connect_with_other_port_forwards_input_unchanged() {
    let ep = endpoint_with(80, [10, 0, 0, 5]);
    let expected = ep.data.clone();
    let code = on_connect(
        |_socket: usize, fwd: Endpoint, _len: i32| {
            assert_eq!(fwd.data, expected);
            fwd.port() as i32
        },
        7,
        &ep,
        16,
    );
    assert_eq!(code, 80);
}

#[test]
fn connect_returns_exact_callthrough_code() {
    let ep = endpoint_with(443, [10, 0, 0, 5]);
    let code = on_connect(|_socket: usize, _fwd: Endpoint, _len: i32| -7, 7, &ep, 16);
    assert_eq!(code, -7);
}

#[test]
fn connect_passes_socket_and_length_unchanged() {
    let ep = endpoint_with(80, [10, 0, 0, 5]);
    let code = on_connect(
        |socket: usize, _fwd: Endpoint, len: i32| socket as i32 * 1000 + len,
        42,
        &ep,
        16,
    );
    assert_eq!(code, 42016);
}
