//! Log capture: a decoder turns the byte stream into records, and each
//! record goes to the outputs that listen on its port.

use vstd::prelude::*;

pub mod output;
pub mod swo;

pub use self::output::{LogOutput, Output, OutputMap, OutputStream, PORTS_COUNT};

verus! {

/// Why a capture stopped, as contracts speak of it.
pub enum Halt {
    /// A record names this port, which does not exist.
    Port(u8),
    /// The decoder found the stream malformed, as it says here.
    Fault(Seq<char>),
}

/// Why a capture stopped.
#[derive(Debug, PartialEq, Eq)]
pub enum LogError {
    /// A record names a port that does not exist.
    PortOutOfRange(u8),
    /// The decoder found the stream malformed, as it says here.
    DecoderFault(String),
}

impl View for LogError {
    type V = Halt;

    open spec fn view(&self) -> Halt {
        match self {
            LogError::PortOutOfRange(port) => Halt::Port(*port),
            LogError::DecoderFault(text) => Halt::Fault(text@),
        }
    }
}

impl Halt {
    /// The text of the error.
    pub open spec fn message_of(&self) -> Seq<char> {
        match self {
            Halt::Port(port) => "port "@ + crate::text::decimal_of(*port as nat)
                + " is out of range"@,
            Halt::Fault(text) => *text,
        }
    }
}

impl LogError {
    /// Returns the text of the error.
    pub fn message(&self) -> (text: String)
        ensures
            text@ == self@.message_of(),
    {
        match self {
            LogError::PortOutOfRange(port) => {
                let mut text = String::from_str("port ");
                crate::text::push_decimal(&mut text, *port as u64);
                text.append(" is out of range");
                text
            },
            LogError::DecoderFault(text) => text.clone(),
        }
    }

    /// Returns the error as a failure of the command: a fault of the log
    /// protocol with the error's text.
    pub fn into_failure(self) -> (failure: crate::utils::Failure)
        ensures
            failure matches crate::utils::Failure::Protocol(text) && text@
                == self@.message_of(),
    {
        crate::utils::Failure::Protocol(self.message())
    }
}

/// A decoded piece of the log.
#[derive(Debug, PartialEq, Eq)]
pub struct Record {
    /// The port that the target wrote to.
    pub port: u8,
    /// What it wrote.
    pub payload: Vec<u8>,
}

/// What a decoder answers to one byte.
#[derive(Debug, PartialEq, Eq)]
pub enum Step {
    /// More bytes are needed.
    Pending,
    /// These records are complete, in the order in which they were written.
    Records(Vec<Record>),
    /// The stream is malformed.
    Fault(String),
}

/// What a decoder answers to one byte, as contracts speak of it: a record
/// is its port and its payload.
pub enum Answer {
    /// More bytes are needed.
    Pending,
    /// These records are complete, in the order in which they were written.
    Records(Seq<(u8, Seq<u8>)>),
    /// The stream is malformed.
    Fault(Seq<char>),
}

impl View for Record {
    type V = (u8, Seq<u8>);

    open spec fn view(&self) -> (u8, Seq<u8>) {
        (self.port, self.payload@)
    }
}

/// The records as contracts speak of them, one for one.
pub open spec fn records_of(records: Seq<Record>) -> Seq<(u8, Seq<u8>)> {
    Seq::new(records.len(), |i: int| records[i]@)
}

impl View for Step {
    type V = Answer;

    open spec fn view(&self) -> Answer {
        match self {
            Step::Pending => Answer::Pending,
            Step::Records(records) => Answer::Records(records_of(records@)),
            Step::Fault(text) => Answer::Fault(text@),
        }
    }
}

/// A decoder of one wire format. It takes the stream byte by byte; its
/// answer to a byte depends on nothing but the bytes it was given so far.
///
/// A decoder says in `answer` and `advanced` what `step` does; left as they
/// are, the two say nothing.
pub trait Decoder: Sized {
    /// The answer to `byte` of the decoder as it stands.
    open spec fn answer(&self, byte: u8) -> Answer {
        arbitrary()
    }

    /// The decoder after it was given `byte`.
    open spec fn advanced(&self, byte: u8) -> Self {
        arbitrary()
    }

    /// Takes one byte in.
    fn step(&mut self, byte: u8) -> (answer: Step)
        ensures
            answer@ == old(self).answer(byte),
            *final(self) == old(self).advanced(byte),
    ;
}

/// The sinks after the records were delivered one after the other, and the
/// error that stopped the delivery: the first record with a port that does
/// not exist is refused, and what follows it is not delivered.
pub open spec fn delivered(sinks: Seq<crate::log::output::Sink>, records: Seq<(u8, Seq<u8>)>) -> (
    Seq<crate::log::output::Sink>,
    Option<Halt>,
)
    decreases records.len(),
{
    if records.len() == 0 {
        (sinks, None)
    } else if records[0].0 >= crate::log::output::PORTS_COUNT {
        (sinks, Some(Halt::Port(records[0].0)))
    } else {
        delivered(
            crate::log::output::routed(sinks, records[0].0, records[0].1),
            records.skip(1),
        )
    }
}

/// The sinks after a decoder's answer was acted on, and the error that it
/// led to: nothing happens while the decoder needs more bytes, records are
/// delivered, a fault stops the capture.
pub open spec fn answered(sinks: Seq<crate::log::output::Sink>, answer: Answer) -> (
    Seq<crate::log::output::Sink>,
    Option<Halt>,
) {
    match answer {
        Answer::Pending => (sinks, None),
        Answer::Records(records) => delivered(sinks, records),
        Answer::Fault(text) => (sinks, Some(Halt::Fault(text))),
    }
}

/// The decoder and the sinks after one byte of the stream, and the error
/// that the byte led to.
pub open spec fn fed<D: Decoder>(decoder: D, sinks: Seq<crate::log::output::Sink>, byte: u8) -> (
    D,
    Seq<crate::log::output::Sink>,
    Option<Halt>,
) {
    let after = answered(sinks, decoder.answer(byte));
    (decoder.advanced(byte), after.0, after.1)
}

/// The decoder and the sinks after the bytes of the stream were taken in
/// their order, up to the first that led to an error, and that error.
pub open spec fn captured<D: Decoder>(
    decoder: D,
    sinks: Seq<crate::log::output::Sink>,
    bytes: Seq<u8>,
) -> (D, Seq<crate::log::output::Sink>, Option<Halt>)
    decreases bytes.len(),
{
    if bytes.len() == 0 {
        (decoder, sinks, None)
    } else {
        let first = fed(decoder, sinks, bytes[0]);
        if first.2 is Some {
            first
        } else {
            captured(first.0, first.1, bytes.skip(1))
        }
    }
}

/// Whether `result` reports `halt`: success where there is none, else the
/// error that stands for it.
pub open spec fn reports(result: Result<(), LogError>, halt: Option<Halt>) -> bool {
    match halt {
        None => result is Ok,
        Some(halt) => result matches Err(error) && error@ == halt,
    }
}

/// Acts on a decoder's answer: delivers its records to the outputs, in
/// their order, and reports its fault.
pub fn deliver(outputs: &mut OutputMap, step: Step) -> (result: Result<(), LogError>)
    ensures
        final(outputs)@ == answered(old(outputs)@, step@).0,
        reports(result, answered(old(outputs)@, step@).1),
{
    match step {
        Step::Pending => Ok(()),
        Step::Fault(text) => Err(LogError::DecoderFault(text)),
        Step::Records(records) => {
            let ghost all = records_of(records@);
            let mut at: usize = 0;
            assert(all.skip(0) =~= all);
            while at < records.len()
                invariant
                    at <= records.len(),
                    all == records_of(records@),
                    answered(old(outputs)@, step@) == delivered(old(outputs)@, all),
                    delivered(old(outputs)@, all) == delivered(outputs@, all.skip(at as int)),
                decreases records.len() - at,
            {
                proof {
                    assert(all.skip(at as int)[0] == records@[at as int]@);
                    assert(all.skip(at as int).skip(1) =~= all.skip(at + 1));
                }
                match outputs.write(records[at].port, records[at].payload.as_slice()) {
                    Ok(_) => {},
                    Err(error) => {
                        return Err(error);
                    },
                }
                at += 1;
            }
            Ok(())
        },
    }
}

/// Gives the decoder one byte of the stream and acts on its answer.
pub fn feed<D: Decoder>(decoder: &mut D, outputs: &mut OutputMap, byte: u8) -> (result: Result<
    (),
    LogError,
>)
    ensures
        *final(decoder) == fed(*old(decoder), old(outputs)@, byte).0,
        final(outputs)@ == fed(*old(decoder), old(outputs)@, byte).1,
        reports(result, fed(*old(decoder), old(outputs)@, byte).2),
{
    let answer = decoder.step(byte);
    deliver(outputs, answer)
}

/// Takes the bytes of the stream in their order: each goes to the decoder,
/// and what the decoder makes of it goes to the outputs. The capture stops
/// at the first byte that leads to an error; the bytes after it are not
/// looked at.
pub fn capture<D: Decoder>(decoder: &mut D, outputs: &mut OutputMap, bytes: &[u8]) -> (result:
    Result<(), LogError>)
    ensures
        *final(decoder) == captured(*old(decoder), old(outputs)@, bytes@).0,
        final(outputs)@ == captured(*old(decoder), old(outputs)@, bytes@).1,
        reports(result, captured(*old(decoder), old(outputs)@, bytes@).2),
{
    let mut at: usize = 0;
    assert(bytes@.skip(0) =~= bytes@);
    while at < bytes.len()
        invariant
            at <= bytes.len(),
            captured(*old(decoder), old(outputs)@, bytes@) == captured(
                *decoder,
                outputs@,
                bytes@.skip(at as int),
            ),
        decreases bytes.len() - at,
    {
        proof {
            assert(bytes@.skip(at as int)[0] == bytes@[at as int]);
            assert(bytes@.skip(at as int).skip(1) =~= bytes@.skip(at + 1));
        }
        match feed(decoder, outputs, bytes[at]) {
            Ok(_) => {},
            Err(error) => {
                return Err(error);
            },
        }
        at += 1;
    }
    Ok(())
}

/// A run of one character.
pub open spec fn run_of(c: char, n: nat) -> Seq<char> {
    Seq::new(n, |i: int| c)
}

/// The line that opens the log on the terminal: the title in the middle of
/// eighty columns, between equal signs.
pub open spec fn banner_of() -> Seq<char> {
    run_of('=', 34) + " LOG OUTPUT "@ + run_of('=', 34)
}

/// Returns the line that opens the log on the terminal.
pub fn begin_log_output() -> (banner: String)
    ensures
        banner@ == banner_of(),
{
    let mut banner = String::new();
    push_run(&mut banner, '=', 34);
    banner.append(" LOG OUTPUT ");
    push_run(&mut banner, '=', 34);
    banner
}

/// Appends `n` times the character `c`.
fn push_run(text: &mut String, c: char, n: usize)
    ensures
        final(text)@ == old(text)@ + run_of(c, n as nat),
{
    let mut done: usize = 0;
    assert(text@ =~= old(text)@ + run_of(c, 0));
    while done < n
        invariant
            done <= n,
            text@ == old(text)@ + run_of(c, done as nat),
        decreases n - done,
    {
        text.push(c);
        done += 1;
        assert(text@ =~= old(text)@ + run_of(c, done as nat));
    }
}

} // verus!
