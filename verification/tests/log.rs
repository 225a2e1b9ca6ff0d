use drone::log::output::extend;
use drone::log::{
    capture, deliver, feed, Decoder, LogError, LogOutput, Output, OutputMap, OutputStream, Record,
    Step, PORTS_COUNT,
};

fn request(ports: &[u32], path: &str) -> LogOutput {
    LogOutput { ports: ports.to_vec(), path: path.to_string() }
}

/// A toy wire format: a port byte, a length byte, then the payload. The
/// byte 0xff in place of a port is a fault.
struct Framed {
    port: Option<u8>,
    left: Option<usize>,
    payload: Vec<u8>,
}

impl Framed {
    fn new() -> Framed {
        Framed { port: None, left: None, payload: Vec::new() }
    }
}

impl Decoder for Framed {
    fn step(&mut self, byte: u8) -> Step {
        match (self.port, self.left) {
            (None, _) => {
                if byte == 0xff {
                    return Step::Fault("bad header".to_string());
                }
                self.port = Some(byte);
                Step::Pending
            }
            (Some(port), None) => {
                if byte == 0 {
                    self.port = None;
                    return Step::Records(vec![Record { port, payload: Vec::new() }]);
                }
                self.left = Some(byte as usize);
                Step::Pending
            }
            (Some(port), Some(left)) => {
                self.payload.push(byte);
                if left == 1 {
                    self.port = None;
                    self.left = None;
                    let payload = std::mem::take(&mut self.payload);
                    Step::Records(vec![Record { port, payload }])
                } else {
                    self.left = Some(left - 1);
                    Step::Pending
                }
            }
        }
    }
}

#[test]
fn a_record_goes_to_every_output_that_listens_on_its_port() {
    let mut map = OutputMap::new(&vec![
        request(&[], ""),
        request(&[3], "three.log"),
        request(&[1, 3, 5], "odd.log"),
        request(&[5], "five.log"),
    ]);
    assert_eq!(map.write(3, b"abc"), Ok(()));
    assert_eq!(map.take(0), b"abc");
    assert_eq!(map.take(1), b"abc");
    assert_eq!(map.take(2), b"abc");
    assert_eq!(map.take(3), b"");
}

#[test]
fn port_zero_reaches_only_the_output_for_all_ports() {
    let mut map = OutputMap::new(&vec![request(&[], ""), request(&[5], "five.log")]);
    assert_eq!(map.write(0, b"boot"), Ok(()));
    assert_eq!(map.take(0), b"boot");
    assert_eq!(map.take(1), b"");
}

#[test]
fn outputs_keep_their_destinations() {
    let map = OutputMap::new(&vec![request(&[], ""), request(&[5], "five.log")]);
    assert_eq!(map.len(), 2);
    assert_eq!(map.path(0), None);
    assert_eq!(map.path(1), Some("five.log"));
}

#[test]
fn writes_to_one_output_follow_each_other() {
    let mut map = OutputMap::new(&vec![request(&[2], "")]);
    assert_eq!(map.write(2, b"one "), Ok(()));
    assert_eq!(map.write(7, b"skipped"), Ok(()));
    assert_eq!(map.write(2, b"two"), Ok(()));
    assert_eq!(map.take(0), b"one two");
    assert_eq!(map.take(0), b"");
}

#[test]
fn a_port_that_does_not_exist_is_refused() {
    let mut map = OutputMap::new(&vec![request(&[], "")]);
    assert_eq!(map.write(31, b"last"), Ok(()));
    assert_eq!(map.write(32, b"none"), Err(LogError::PortOutOfRange(32)));
    assert_eq!(map.write(255, b"none"), Err(LogError::PortOutOfRange(255)));
    assert_eq!(map.take(0), b"last");
}

#[test]
fn delivery_acts_on_each_kind_of_answer() {
    let mut map = OutputMap::new(&vec![request(&[], ""), request(&[1], "one.log")]);
    assert_eq!(deliver(&mut map, Step::Pending), Ok(()));
    assert_eq!(map.take(0), b"");
    let records = vec![
        Record { port: 1, payload: b"a".to_vec() },
        Record { port: 2, payload: b"b".to_vec() },
        Record { port: 1, payload: b"c".to_vec() },
    ];
    assert_eq!(deliver(&mut map, Step::Records(records)), Ok(()));
    assert_eq!(map.take(0), b"abc");
    assert_eq!(map.take(1), b"ac");
    assert_eq!(
        deliver(&mut map, Step::Fault("torn packet".to_string())),
        Err(LogError::DecoderFault("torn packet".to_string()))
    );
    assert_eq!(map.take(0), b"");
}

#[test]
fn delivery_stops_at_the_first_bad_port() {
    let mut map = OutputMap::new(&vec![request(&[], "")]);
    let records = vec![
        Record { port: 0, payload: b"kept".to_vec() },
        Record { port: 40, payload: b"bad".to_vec() },
        Record { port: 0, payload: b"late".to_vec() },
    ];
    assert_eq!(deliver(&mut map, Step::Records(records)), Err(LogError::PortOutOfRange(40)));
    assert_eq!(map.take(0), b"kept");
}

#[test]
fn capture_decodes_and_routes_a_stream() {
    let mut decoder = Framed::new();
    let mut map = OutputMap::new(&vec![request(&[], ""), request(&[3], "three.log")]);
    let stream = [3, 2, b'h', b'i', 0, 1, b'!', 3, 0, 3, 1, b'?'];
    assert_eq!(capture(&mut decoder, &mut map, &stream), Ok(()));
    assert_eq!(map.take(0), b"hi!?");
    assert_eq!(map.take(1), b"hi?");
}

#[test]
fn capture_takes_one_byte_at_a_time() {
    let mut decoder = Framed::new();
    let mut map = OutputMap::new(&vec![request(&[], "")]);
    assert_eq!(feed(&mut decoder, &mut map, 4), Ok(()));
    assert_eq!(feed(&mut decoder, &mut map, 1), Ok(()));
    assert_eq!(map.take(0), b"");
    assert_eq!(feed(&mut decoder, &mut map, b'x'), Ok(()));
    assert_eq!(map.take(0), b"x");
}

#[test]
fn capture_stops_at_a_fault() {
    let mut decoder = Framed::new();
    let mut map = OutputMap::new(&vec![request(&[], "")]);
    let stream = [1, 1, b'a', 0xff, 1, 1, b'b'];
    assert_eq!(
        capture(&mut decoder, &mut map, &stream),
        Err(LogError::DecoderFault("bad header".to_string()))
    );
    assert_eq!(map.take(0), b"a");
}

#[test]
fn log_errors_become_protocol_failures() {
    let failure = LogError::PortOutOfRange(40).into_failure();
    assert_eq!(failure.message(), "log parser failure: port 40 is out of range");
    let failure = LogError::DecoderFault("torn packet".to_string()).into_failure();
    assert_eq!(failure.message(), "log parser failure: torn packet");
}

#[test]
fn an_output_listens_on_its_ports_or_on_all() {
    let all = Output::new(&request(&[], ""));
    let some = Output::new(&request(&[1, 31, 300], "some.log"));
    assert_eq!(all.path(), None);
    assert_eq!(some.path(), Some("some.log"));
    for port in 0..=255u8 {
        assert!(all.listens(port));
        assert_eq!(some.listens(port), port == 1 || port == 31);
    }
}

#[test]
fn an_output_hands_over_what_was_written_once() {
    let mut output = Output::new(&request(&[], "x.log"));
    output.write(b"ab");
    output.write(b"");
    output.write(b"c");
    assert_eq!(output.take(), b"abc");
    assert_eq!(output.take(), b"");
    assert_eq!(output.path(), Some("x.log"));
}

#[test]
fn a_stream_collects_what_is_written() {
    let mut stream = OutputStream::File("x.log".to_string(), b"old".to_vec());
    stream.write(b" new");
    assert_eq!(stream.take(), b"old new");
    assert!(matches!(&stream, OutputStream::File(path, rest) if path == "x.log" && rest.is_empty()));
    let mut stream = OutputStream::Stdout(Vec::new());
    stream.write(b"out");
    assert_eq!(stream.take(), b"out");
    let mut bytes = vec![1u8];
    extend(&mut bytes, &[2, 3]);
    assert_eq!(bytes, vec![1, 2, 3]);
}

#[test]
fn there_are_thirty_two_ports() {
    assert_eq!(PORTS_COUNT, 32);
}
