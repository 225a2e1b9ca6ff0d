use drone::log::swo::{Expect, Parser};
use drone::log::{capture, Decoder, LogError, LogOutput, OutputMap, Record, Step};

fn outputs() -> OutputMap {
    OutputMap::new(&vec![
        LogOutput { ports: Vec::new(), path: String::new() },
        LogOutput { ports: vec![3], path: "three.log".to_string() },
    ])
}

fn steps(parser: &mut Parser, bytes: &[u8]) -> Vec<Step> {
    bytes.iter().map(|byte| parser.step(*byte)).collect()
}

#[test]
fn a_software_packet_of_one_byte_is_one_record() {
    let mut parser = Parser::new();
    assert_eq!(
        steps(&mut parser, &[0x19, b'h']),
        vec![Step::Pending, Step::Records(vec![Record { port: 3, payload: vec![b'h'] }])]
    );
    assert_eq!(parser.expect, Expect::Header);
}

#[test]
fn software_packets_of_two_and_four_bytes_keep_their_order() {
    let mut parser = Parser::new();
    assert_eq!(
        steps(&mut parser, &[0x02, 1, 2]),
        vec![Step::Pending, Step::Pending, Step::Records(vec![Record { port: 0, payload: vec![1, 2] }])]
    );
    assert_eq!(
        steps(&mut parser, &[0xfb, 1, 2, 3, 4]),
        vec![
            Step::Pending,
            Step::Pending,
            Step::Pending,
            Step::Pending,
            Step::Records(vec![Record { port: 31, payload: vec![1, 2, 3, 4] }]),
        ]
    );
    assert_eq!(parser.expect, Expect::Header);
}

#[test]
fn hardware_packets_carry_no_log() {
    let mut parser = Parser::new();
    assert_eq!(steps(&mut parser, &[0x15, 9]), vec![Step::Pending, Step::Pending]);
    assert_eq!(steps(&mut parser, &[0x17, 9, 9, 9, 9]).iter().filter(|step| **step != Step::Pending).count(), 0);
    assert_eq!(parser.expect, Expect::Header);
}

#[test]
fn packets_without_log_are_passed_over() {
    let mut parser = Parser::new();
    let stream = [
        0x00, 0x00, 0x00, 0x00, 0x00, 0x80, // synchronisation
        0x70, // overflow
        0x20, // timestamp in one byte
        0xc0, 0x85, 0x01, // timestamp with payload
        0x94, 0x81, 0x02, // global timestamp
        0x88, 0x00, // extension with payload
        0x08, // extension in one byte
    ];
    for step in steps(&mut parser, &stream) {
        assert_eq!(step, Step::Pending);
    }
    assert_eq!(parser.expect, Expect::Header);
    assert_eq!(
        steps(&mut parser, &[0x09, b'!']),
        vec![Step::Pending, Step::Records(vec![Record { port: 1, payload: vec![b'!'] }])]
    );
}

#[test]
fn a_reserved_header_is_a_fault() {
    let mut parser = Parser::new();
    assert_eq!(parser.step(0x04), Step::Fault("reserved packet header".to_string()));
    assert_eq!(parser.step(0x24), Step::Fault("reserved packet header".to_string()));
    assert_eq!(parser.step(0xb4), Step::Pending);
}

#[test]
fn a_broken_synchronisation_is_a_fault() {
    let mut parser = Parser::new();
    assert_eq!(
        steps(&mut parser, &[0x00, 0x00, 0x19]),
        vec![Step::Pending, Step::Pending, Step::Fault("broken synchronisation packet".to_string())]
    );
}

#[test]
fn an_swo_stream_is_captured_into_the_outputs() {
    let mut parser = Parser::new();
    let mut map = outputs();
    let stream = [0x00, 0x80, 0x19, b'a', 0x70, 0x0a, b'b', b'c', 0x15, b'x', 0x19, b'd'];
    assert_eq!(capture(&mut parser, &mut map, &stream), Ok(()));
    assert_eq!(map.take(0), b"abcd");
    assert_eq!(map.take(1), b"ad");
}

#[test]
fn an_swo_capture_stops_at_a_fault() {
    let mut parser = Parser::new();
    let mut map = outputs();
    let stream = [0x19, b'a', 0x04, 0x19, b'b'];
    assert_eq!(
        capture(&mut parser, &mut map, &stream),
        Err(LogError::DecoderFault("reserved packet header".to_string()))
    );
    assert_eq!(map.take(0), b"a");
    assert_eq!(map.take(1), b"a");
}
