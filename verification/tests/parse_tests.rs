use base64::Engine;
use kscope::ip::{get_destination_ip, get_ip_protocol, get_source_ip, is_ipv4, is_ipv6};
use kscope::keyfile::parse_key_file;
use kscope::network::EchoHandler;
use kscope::tun::{build_tun_frame, parse_cidr, parse_tun_frame, TunConfig, TunPacket};
use kscope::KScopeError;

fn b64(data: &[u8]) -> String {
    base64::engine::general_purpose::STANDARD.encode(data)
}

fn key_file(private: &[u8], peer: &[u8], psk: &[u8]) -> String {
    format!(
        "PRIVATE={}\nPEER_PUBLIC={}\nPSK={}\n",
        b64(private),
        b64(peer),
        b64(psk)
    )
}

#[test]
fn key_file_parses_three_values() {
    let text = key_file(&[1; 32], &[2; 32], &[3; 32]);
    let keys = parse_key_file(text.as_bytes()).expect("well-formed file parses");
    assert_eq!(keys.private, vec![1; 32]);
    assert_eq!(keys.peer_public, vec![2; 32]);
    assert_eq!(keys.psk, vec![3; 32]);
}

#[test]
fn key_file_order_does_not_matter_and_unknown_keys_are_ignored() {
    let text = format!(
        "PSK={}\nCOMMENT=anything at all\nPEER_PUBLIC={}\nPRIVATE={}",
        b64(&[3; 32]),
        b64(&[2; 32]),
        b64(&[1; 32])
    );
    let keys = parse_key_file(text.as_bytes()).expect("reordered file parses");
    assert_eq!(keys.private, vec![1; 32]);
    assert_eq!(keys.peer_public, vec![2; 32]);
    assert_eq!(keys.psk, vec![3; 32]);
}

#[test]
fn key_file_last_occurrence_wins() {
    let text = format!(
        "PRIVATE={}\nPEER_PUBLIC={}\nPSK={}\nPRIVATE={}\n",
        b64(&[1; 32]),
        b64(&[2; 32]),
        b64(&[3; 32]),
        b64(&[9; 32])
    );
    let keys = parse_key_file(text.as_bytes()).unwrap();
    assert_eq!(keys.private, vec![9; 32]);
}

#[test]
fn key_file_accepts_carriage_returns() {
    let text = format!(
        "PRIVATE={}\r\nPEER_PUBLIC={}\r\nPSK={}\r\n",
        b64(&[1; 32]),
        b64(&[2; 32]),
        b64(&[3; 32])
    );
    let keys = parse_key_file(text.as_bytes()).expect("windows line endings parse");
    assert_eq!(keys.psk, vec![3; 32]);
}

#[test]
fn key_file_missing_key_is_refused() {
    let text = format!("PRIVATE={}\nPSK={}\n", b64(&[1; 32]), b64(&[3; 32]));
    assert_eq!(parse_key_file(text.as_bytes()), Err(KScopeError::ConfigError));
}

#[test]
fn key_file_bad_base64_is_refused() {
    let text = format!(
        "PRIVATE=!!!not base64!!!\nPEER_PUBLIC={}\nPSK={}\n",
        b64(&[2; 32]),
        b64(&[3; 32])
    );
    assert_eq!(parse_key_file(text.as_bytes()), Err(KScopeError::ConfigError));
}

#[test]
fn key_file_wrong_length_value_is_refused() {
    let text = key_file(&[1; 31], &[2; 32], &[3; 32]);
    assert_eq!(parse_key_file(text.as_bytes()), Err(KScopeError::ConfigError));
}

#[test]
fn key_file_line_without_equals_is_refused() {
    let text = format!("PRIVATE={}\ngarbage\nPSK={}\n", b64(&[1; 32]), b64(&[3; 32]));
    assert_eq!(parse_key_file(text.as_bytes()), Err(KScopeError::ConfigError));
}

#[test]
fn cidr_parses_address_and_prefix() {
    assert_eq!(parse_cidr(b"10.0.0.1/24"), Ok((vec![10, 0, 0, 1], 24)));
    assert_eq!(parse_cidr(b"0.0.0.0/0"), Ok((vec![0, 0, 0, 0], 0)));
    assert_eq!(parse_cidr(b"255.255.255.255/32"), Ok((vec![255, 255, 255, 255], 32)));
}

#[test]
fn cidr_rejects_malformed_text() {
    assert_eq!(parse_cidr(b"10.0.0.1"), Err(KScopeError::ConfigError));
    assert_eq!(parse_cidr(b"10.0.0.1/33"), Err(KScopeError::ConfigError));
    assert_eq!(parse_cidr(b"256.0.0.1/24"), Err(KScopeError::ConfigError));
    assert_eq!(parse_cidr(b"10.0.1/24"), Err(KScopeError::ConfigError));
    assert_eq!(parse_cidr(b"10.0.0.0.1/24"), Err(KScopeError::ConfigError));
    assert_eq!(parse_cidr(b"a.b.c.d/8"), Err(KScopeError::ConfigError));
    assert_eq!(parse_cidr(b"10.0.0.1/"), Err(KScopeError::ConfigError));
    assert_eq!(parse_cidr(b"/24"), Err(KScopeError::ConfigError));
}

#[test]
fn tun_frame_round_trip() {
    let packet = TunPacket::new(vec![0x45, 0, 0, 20], 0x0800);
    let framed = build_tun_frame(&packet);
    assert_eq!(framed, vec![0, 0, 0x08, 0x00, 0x45, 0, 0, 20]);
    let back = parse_tun_frame(&framed).expect("framed packet parses");
    assert_eq!(back, packet);
}

#[test]
fn tun_frame_too_short_is_refused() {
    assert_eq!(parse_tun_frame(&[0, 0, 8]), Err(KScopeError::MalformedFrame));
}

#[test]
fn tun_packet_protocol_tests() {
    assert!(TunPacket::new(vec![], 0x0800).is_ipv4());
    assert!(!TunPacket::new(vec![], 0x0800).is_ipv6());
    assert!(TunPacket::new(vec![], 0x86DD).is_ipv6());
}

#[test]
fn tun_config_default_values() {
    let c = TunConfig::default();
    assert_eq!(c.name, "kscope0");
    assert_eq!(c.address, "10.0.0.1/24");
    assert_eq!(c.mtu, 1420);
    assert!(!c.persistent);
}

#[test]
fn ip_version_nibble() {
    assert!(is_ipv4(&[0x45]));
    assert!(!is_ipv4(&[0x60]));
    assert!(is_ipv6(&[0x60]));
    assert!(!is_ipv6(&[]));
}

#[test]
fn ip_protocol_field() {
    let mut v4 = vec![0x45u8; 20];
    v4[9] = 6;
    assert_eq!(get_ip_protocol(&v4), Some(6));
    let mut v6 = vec![0x60u8; 40];
    v6[6] = 17;
    assert_eq!(get_ip_protocol(&v6), Some(17));
    assert_eq!(get_ip_protocol(&[0x45; 9]), None);
    assert_eq!(get_ip_protocol(&[0x50; 20]), None);
    assert_eq!(get_ip_protocol(&[]), None);
}

#[test]
fn ipv4_addresses_render_dotted_decimal() {
    let mut v4 = vec![0x45u8; 20];
    v4[12..16].copy_from_slice(&[192, 168, 1, 10]);
    v4[16..20].copy_from_slice(&[10, 0, 0, 255]);
    assert_eq!(get_source_ip(&v4), Some("192.168.1.10".to_string()));
    assert_eq!(get_destination_ip(&v4), Some("10.0.0.255".to_string()));
    assert_eq!(get_source_ip(&v4[..19]), None);
}

fn v6_packet(source: [u8; 16], destination: [u8; 16]) -> Vec<u8> {
    let mut v6 = vec![0u8; 40];
    v6[0] = 0x60;
    v6[8..24].copy_from_slice(&source);
    v6[24..40].copy_from_slice(&destination);
    v6
}

#[test]
fn ipv6_addresses_render_compressed() {
    let mut src = [0u8; 16];
    src[0] = 0x20;
    src[1] = 0x01;
    src[2] = 0x0d;
    src[3] = 0xb8;
    src[15] = 0x01;
    let mut dst = [0u8; 16];
    dst[15] = 0x02;
    let v6 = v6_packet(src, dst);
    assert_eq!(get_source_ip(&v6), Some("2001:db8::1".to_string()));
    assert_eq!(get_destination_ip(&v6), Some("::2".to_string()));
    assert_eq!(get_source_ip(&v6[..39]), None);
}

#[test]
fn ipv6_all_zero_and_loopback_render_compressed() {
    let mut dst = [0u8; 16];
    dst[15] = 0x01;
    let v6 = v6_packet([0u8; 16], dst);
    assert_eq!(get_source_ip(&v6), Some("::".to_string()));
    assert_eq!(get_destination_ip(&v6), Some("::1".to_string()));
}

#[test]
fn ipv6_mapped_address_renders_dotted_quad() {
    let mut src = [0u8; 16];
    src[10] = 0xff;
    src[11] = 0xff;
    src[12..16].copy_from_slice(&[192, 168, 1, 10]);
    let v6 = v6_packet(src, [0u8; 16]);
    assert_eq!(get_source_ip(&v6), Some("::ffff:192.168.1.10".to_string()));
}

#[test]
fn ipv6_single_zero_group_is_not_compressed() {
    // groups 1,0,1,1,1,1,1,1: a lone zero group keeps its digit
    let mut src = [0u8; 16];
    for g in 0..8 {
        src[2 * g + 1] = 1;
    }
    src[3] = 0;
    let v6 = v6_packet(src, [0u8; 16]);
    assert_eq!(get_source_ip(&v6), Some("1:0:1:1:1:1:1:1".to_string()));
}

#[test]
fn ipv6_leftmost_longest_zero_run_wins() {
    // groups 1,0,0,1,0,0,1,1: two equal runs; the leftmost is folded
    let mut src = [0u8; 16];
    src[1] = 1;
    src[7] = 1;
    src[13] = 1;
    src[15] = 1;
    let v6 = v6_packet(src, [0u8; 16]);
    assert_eq!(get_source_ip(&v6), Some("1::1:0:0:1:1".to_string()));
}

#[test]
fn ipv6_longer_zero_run_wins_over_earlier_shorter() {
    // groups fe80,0,0,0,0,0,0,1
    let mut src = [0u8; 16];
    src[0] = 0xfe;
    src[1] = 0x80;
    src[15] = 0x01;
    let v6 = v6_packet(src, [0u8; 16]);
    assert_eq!(get_source_ip(&v6), Some("fe80::1".to_string()));
}

#[test]
fn echo_handler_returns_the_same_bytes() {
    let mut h = EchoHandler::new();
    assert_eq!(h.handle_packet(b"ping"), Some(b"ping".to_vec()));
    assert_eq!(h.handle_packet(&[]), Some(vec![]));
}

#[test]
fn advanced_setting_defaults() {
    assert_eq!(kscope::config::default_congestion_control(), "bbr");
    assert_eq!(kscope::config::default_init_cwnd(), 10);
    assert_eq!(kscope::config::default_max_packet_size(), 1500);
    assert!(kscope::config::default_enable_buffering());
    assert_eq!(kscope::config::default_buffer_size(), 1024);
    assert!(kscope::config::default_enable_pmtud());
    assert_eq!(kscope::config::default_compression_level(), 6);
}
