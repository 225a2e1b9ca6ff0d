//! The SWO wire format: the packets of the ARM instrumentation trace, of
//! which the ones written by software carry the log.
//!
//! A packet begins with a header byte. A source packet has one, two or four
//! bytes of payload and names its port in the header; the timestamp and
//! extension packets go on for as long as their bytes have the top bit set;
//! a synchronisation packet is a run of zero bytes ended by `0x80`.

use vstd::prelude::*;

verus! {

/// What the parser is in the middle of.
#[derive(Clone, Copy, Debug, PartialEq, Eq, Structural)]
pub enum Expect {
    /// The header of a packet.
    Header,
    /// The end of a synchronisation packet.
    Sync,
    /// The rest of a packet that carries no log.
    Rest,
    /// The payload of a source packet.
    Payload,
}

/// The parser of the SWO stream.
#[derive(Clone, Copy, Debug, PartialEq, Eq, Structural)]
pub struct Parser {
    /// What the next byte belongs to.
    pub expect: Expect,
    /// Whether the source packet at hand was written by software.
    pub software: bool,
    /// The port of the source packet at hand.
    pub port: u8,
    /// The number of payload bytes of the source packet at hand.
    pub size: u8,
    /// The number of payload bytes taken so far.
    pub got: u8,
    /// The first payload byte, once taken.
    pub first: u8,
    /// The second payload byte, once taken.
    pub second: u8,
    /// The third payload byte, once taken.
    pub third: u8,
}

/// The header of the packet that reports lost packets.
pub const OVERFLOW: u8 = 0x70;

/// The byte that ends a synchronisation packet.
pub const SYNC_END: u8 = 0x80;

/// The payload size that the header of a source packet announces.
pub open spec fn size_of(header: u8) -> u8 {
    if header & 3 == 1 {
        1
    } else if header & 3 == 2 {
        2
    } else {
        4
    }
}

/// The parser after a header byte.
pub open spec fn after_header(parser: Parser, header: u8) -> Parser {
    if header == 0 {
        Parser { expect: Expect::Sync, ..parser }
    } else if header == OVERFLOW {
        parser
    } else if header & 3 != 0 {
        Parser {
            expect: Expect::Payload,
            software: header & 4 == 0,
            port: header >> 3,
            size: size_of(header),
            got: 0,
            ..parser
        }
    } else if header & 8 != 0 {
        if header & 0x80 != 0 {
            Parser { expect: Expect::Rest, ..parser }
        } else {
            parser
        }
    } else if header & 4 != 0 {
        if header & 0xdf == 0x94 {
            Parser { expect: Expect::Rest, ..parser }
        } else {
            parser
        }
    } else if header & 0x80 != 0 {
        Parser { expect: Expect::Rest, ..parser }
    } else {
        parser
    }
}

/// Whether a byte in the place of a header is none.
pub open spec fn is_reserved(header: u8) -> bool {
    header & 3 == 0 && header & 8 == 0 && header & 4 != 0 && header & 0xdf != 0x94
}

/// The payload of the source packet at hand, once its last byte is there.
pub open spec fn payload_of(parser: Parser, last: u8) -> Seq<u8> {
    if parser.got == 0 {
        seq![last]
    } else if parser.got == 1 {
        seq![parser.first, last]
    } else if parser.got == 2 {
        seq![parser.first, parser.second, last]
    } else {
        seq![parser.first, parser.second, parser.third, last]
    }
}

/// Whether the next byte is the last payload byte of the source packet at
/// hand.
pub open spec fn completes(parser: Parser) -> bool {
    parser.expect == Expect::Payload && (parser.got >= 3 || parser.got + 1 >= parser.size)
}

impl Parser {
    /// The parser at the beginning of a stream: it expects a header and
    /// holds nothing.
    pub open spec fn fresh() -> Parser {
        Parser {
            expect: Expect::Header,
            software: false,
            port: 0,
            size: 0,
            got: 0,
            first: 0,
            second: 0,
            third: 0,
        }
    }

    /// Returns the parser at the beginning of a stream.
    pub fn new() -> (parser: Parser)
        ensures
            parser == Parser::fresh(),
    {
        Parser {
            expect: Expect::Header,
            software: false,
            port: 0,
            size: 0,
            got: 0,
            first: 0,
            second: 0,
            third: 0,
        }
    }
}

impl crate::log::Decoder for Parser {
    open spec fn answer(&self, byte: u8) -> crate::log::Answer {
        match self.expect {
            Expect::Header => if is_reserved(byte) {
                crate::log::Answer::Fault("reserved packet header"@)
            } else {
                crate::log::Answer::Pending
            },
            Expect::Sync => if byte == 0 || byte == SYNC_END {
                crate::log::Answer::Pending
            } else {
                crate::log::Answer::Fault("broken synchronisation packet"@)
            },
            Expect::Rest => crate::log::Answer::Pending,
            Expect::Payload => if completes(*self) && self.software {
                crate::log::Answer::Records(seq![(self.port, payload_of(*self, byte))])
            } else {
                crate::log::Answer::Pending
            },
        }
    }

    open spec fn advanced(&self, byte: u8) -> Parser {
        match self.expect {
            Expect::Header => after_header(*self, byte),
            Expect::Sync => if byte == 0 {
                *self
            } else {
                Parser { expect: Expect::Header, ..*self }
            },
            Expect::Rest => if byte & 0x80 != 0 {
                *self
            } else {
                Parser { expect: Expect::Header, ..*self }
            },
            Expect::Payload => if completes(*self) {
                Parser { expect: Expect::Header, ..*self }
            } else if self.got == 0 {
                Parser { got: 1, first: byte, ..*self }
            } else if self.got == 1 {
                Parser { got: 2, second: byte, ..*self }
            } else {
                Parser { got: 3, third: byte, ..*self }
            },
        }
    }

    fn step(&mut self, byte: u8) -> (answer: crate::log::Step) {
        match self.expect {
            Expect::Header => {
                assert(0u8 & 4 == 0) by (bit_vector);
                assert(0x70u8 & 4 == 0) by (bit_vector);
                if byte == 0 {
                    self.expect = Expect::Sync;
                } else if byte == OVERFLOW {
                } else if byte & 3 != 0 {
                    self.expect = Expect::Payload;
                    self.software = byte & 4 == 0;
                    self.port = byte >> 3;
                    self.size = if byte & 3 == 1 {
                        1
                    } else if byte & 3 == 2 {
                        2
                    } else {
                        4
                    };
                    self.got = 0;
                } else if byte & 8 != 0 {
                    if byte & 0x80 != 0 {
                        self.expect = Expect::Rest;
                    }
                } else if byte & 4 != 0 {
                    if byte & 0xdf == 0x94 {
                        self.expect = Expect::Rest;
                    } else {
                        return crate::log::Step::Fault(String::from_str("reserved packet header"));
                    }
                } else if byte & 0x80 != 0 {
                    self.expect = Expect::Rest;
                }
                crate::log::Step::Pending
            },
            Expect::Sync => {
                if byte == 0 {
                    crate::log::Step::Pending
                } else {
                    self.expect = Expect::Header;
                    if byte == SYNC_END {
                        crate::log::Step::Pending
                    } else {
                        crate::log::Step::Fault(String::from_str("broken synchronisation packet"))
                    }
                }
            },
            Expect::Rest => {
                if byte & 0x80 == 0 {
                    self.expect = Expect::Header;
                }
                crate::log::Step::Pending
            },
            Expect::Payload => {
                if self.got >= 3 || self.got + 1 >= self.size {
                    self.expect = Expect::Header;
                    if self.software {
                        let mut payload: Vec<u8> = Vec::new();
                        if self.got >= 1 {
                            payload.push(self.first);
                        }
                        if self.got >= 2 {
                            payload.push(self.second);
                        }
                        if self.got >= 3 {
                            payload.push(self.third);
                        }
                        payload.push(byte);
                        assert(payload@ =~= payload_of(*old(self), byte));
                        let mut records: Vec<crate::log::Record> = Vec::new();
                        records.push(crate::log::Record { port: self.port, payload });
                        assert(crate::log::records_of(records@) =~= seq![
                            (old(self).port, payload_of(*old(self), byte)),
                        ]);
                        crate::log::Step::Records(records)
                    } else {
                        crate::log::Step::Pending
                    }
                } else {
                    if self.got == 0 {
                        self.first = byte;
                        self.got = 1;
                    } else if self.got == 1 {
                        self.second = byte;
                        self.got = 2;
                    } else {
                        self.third = byte;
                        self.got = 3;
                    }
                    crate::log::Step::Pending
                }
            },
        }
    }
}

/// The port that a header names exists.
pub proof fn lemma_port_exists(header: u8)
    ensures
        header >> 3 < crate::log::output::PORTS_COUNT,
{
    assert(header >> 3 < 32) by (bit_vector);
}

/// A source packet, taken in from its header to its last payload byte,
/// leaves the parser before the next header. Written by software, it is one
/// record on the port that the header names, with the payload in the order
/// in which it came; written by hardware, it is no record. The parser asks
/// for nothing in between and finds no fault.
pub proof fn lemma_source_packet(
    parser: Parser,
    sinks: Seq<crate::log::output::Sink>,
    header: u8,
    payload: Seq<u8>,
)
    requires
        parser.expect == Expect::Header,
        header & 3 != 0,
        payload.len() == size_of(header),
    ensures
        crate::log::captured(parser, sinks, seq![header] + payload).0.expect == Expect::Header,
        crate::log::captured(parser, sinks, seq![header] + payload).2 is None,
        crate::log::captured(parser, sinks, seq![header] + payload).1 == if header & 4 == 0 {
            crate::log::output::routed(sinks, header >> 3, payload)
        } else {
            sinks
        },
{
    let bytes = seq![header] + payload;
    let size = size_of(header);
    assert(header & 3 != 0 ==> header != 0 && header != 0x70) by (bit_vector);
    lemma_port_exists(header);
    let one = crate::log::fed(parser, sinks, bytes[0]);
    assert(bytes[0] == header);
    assert(one.0 == after_header(parser, header));
    assert(one.1 == sinks && one.2 is None);
    let rest = bytes.skip(1);
    assert(rest =~= payload);
    reveal_with_fuel(crate::log::captured, 6);
    reveal_with_fuel(crate::log::delivered, 2);
    let record = seq![(header >> 3, payload)];
    assert(record.skip(1) =~= Seq::<(u8, Seq<u8>)>::empty());
    if size == 1 {
        assert(payload =~= seq![payload[0]]);
        assert(payload.skip(1) =~= Seq::<u8>::empty());
    } else if size == 2 {
        assert(payload =~= seq![payload[0], payload[1]]);
        assert(payload.skip(1)[0] == payload[1]);
        assert(payload.skip(1).skip(1) =~= Seq::<u8>::empty());
    } else {
        assert(payload =~= seq![payload[0], payload[1], payload[2], payload[3]]);
        let a = payload.skip(1);
        let b = a.skip(1);
        let c = b.skip(1);
        assert(a[0] == payload[1]);
        assert(b[0] == payload[2]);
        assert(c[0] == payload[3]);
        assert(c.skip(1) =~= Seq::<u8>::empty());
    }
}

} // verus!
