use sniffer::packet::Packet;
use sniffer::packet::PacketDirection;
use sniffer::packet::Protocol;
use sniffer::render::dec_string;
use sniffer::render::direction_label;
use sniffer::render::ip_to_string;
use sniffer::render::pad_left;
use sniffer::render::protocol_label;

#[test]
fn decimal_rendering() {
    assert_eq!(dec_string(0), "0");
    assert_eq!(dec_string(7), "7");
    assert_eq!(dec_string(80), "80");
    assert_eq!(dec_string(443), "443");
    assert_eq!(dec_string(65535), "65535");
    assert_eq!(dec_string(1000000), "1000000");
}

#[test]
fn dotted_decimal_rendering() {
    assert_eq!(ip_to_string(&[0, 0, 0, 0]), "0.0.0.0");
    assert_eq!(ip_to_string(&[192, 168, 1, 1]), "192.168.1.1");
    assert_eq!(ip_to_string(&[255, 255, 255, 255]), "255.255.255.255");
    assert_eq!(ip_to_string(&[10, 0, 0, 1]), "10.0.0.1");
}

#[test]
fn left_padding() {
    assert_eq!(pad_left(String::from("ab"), 5), "   ab");
    assert_eq!(pad_left(String::from("abcde"), 5), "abcde");
    assert_eq!(pad_left(String::from("abcdef"), 5), "abcdef");
    assert_eq!(pad_left(String::new(), 3), "   ");
}

#[test]
fn tag_labels() {
    assert_eq!(direction_label(PacketDirection::Send), "Send");
    assert_eq!(direction_label(PacketDirection::Receive), "Receive");
    assert_eq!(direction_label(PacketDirection::Both), "Both");
    assert_eq!(protocol_label(Protocol::TCP), "TCP");
    assert_eq!(protocol_label(Protocol::UDP), "UDP");
    assert_eq!(protocol_label(Protocol::Unknown), "Unknown");
}

fn receive_udp_packet() -> Packet {
    let mut raw = vec![0u8; 56];
    raw[0] = 0x01;
    raw[14] = 192;
    raw[15] = 168;
    raw[16] = 1;
    raw[17] = 1;
    raw[18] = 10;
    raw[19] = 0;
    raw[20] = 0;
    raw[21] = 1;
    raw[34] = 0x00;
    raw[35] = 0x50;
    raw[36] = 0x01;
    raw[37] = 0xBB;
    raw[54] = 0xAA;
    raw[55] = 0xBB;
    Packet::decode(&raw).unwrap()
}

#[test]
fn line_with_plain_tags_is_exact() {
    let p = receive_udp_packet();
    let line = p.render_with_tags("Receive", "UDP");
    assert_eq!(
        line,
        "|      192.168.1.1:   80  |  ------->|         10.0.0.1:  443  \
         | Direction: Receive |  Protocol: UDP |        2 bytes"
    );
}

#[test]
fn decorated_line_keeps_the_plain_fields() {
    let p = receive_udp_packet();
    let line = p.render();
    assert!(line.contains("192.168.1.1"));
    assert!(line.contains("10.0.0.1"));
    assert!(line.contains("   80"));
    assert!(line.contains("  443"));
    assert!(line.contains("Receive"));
    assert!(line.contains("UDP"));
    assert!(line.contains("------->"));
    assert!(line.contains("    2 bytes"));
}

#[test]
fn send_tcp_decorated_line() {
    let raw = vec![0u8; 54];
    let p = Packet::decode(&raw).unwrap();
    let line = p.render();
    assert!(line.contains("0.0.0.0"));
    assert!(line.contains("Send"));
    assert!(line.contains("TCP"));
    assert!(line.contains("    0 bytes"));
}

#[test]
fn both_unknown_decorated_line() {
    let mut raw = vec![0u8; 54];
    raw[0] = 0x42;
    let p = Packet::decode(&raw).unwrap();
    let line = p.render();
    assert!(line.contains("Both"));
    assert!(line.contains("Unknown"));
}
