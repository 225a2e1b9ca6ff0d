//! The outputs of a capture and the routing of records by port.
//!
//! An output collects what is written to it; the program around the library
//! takes the collected bytes and hands them to the real destination.

use vstd::prelude::*;

verus! {

/// The number of ports. A record's port is below it.
pub const PORTS_COUNT: usize = 32;

/// Where the log of some ports is to go, as the operator asked for it.
#[derive(Debug)]
pub struct LogOutput {
    /// The ports to listen on; none stands for all ports.
    pub ports: Vec<u32>,
    /// The path of the file to write to; empty for the standard output.
    pub path: String,
}

/// A destination and the bytes written to it that it has not handed over.
#[derive(Debug)]
pub enum OutputStream {
    /// The standard output.
    Stdout(Vec<u8>),
    /// The file at this path.
    File(String, Vec<u8>),
}

/// An output: the ports it listens on and its destination.
#[derive(Debug)]
pub struct Output {
    ports: Vec<u32>,
    stream: OutputStream,
}

/// The outputs of one capture, in the order in which they were asked for.
#[derive(Debug)]
pub struct OutputMap(Vec<Output>);

/// What an output is to a capture.
pub struct Sink {
    /// The ports listened on; none stands for all ports.
    pub ports: Seq<u32>,
    /// The path of the file; `None` for the standard output.
    pub file: Option<Seq<char>>,
    /// The bytes written and not yet handed over.
    pub pending: Seq<u8>,
}

/// Whether an output with these ports listens on `port`.
pub open spec fn covers(ports: Seq<u32>, port: u8) -> bool {
    ports.len() == 0 || ports.contains(port as u32)
}

/// The sink after `data` was written to it.
pub open spec fn sink_written(sink: Sink, data: Seq<u8>) -> Sink {
    Sink { pending: sink.pending + data, ..sink }
}

/// The sinks after a record on `port` with `data` was delivered: the data
/// is written to each sink that listens on the port, and to no other.
pub open spec fn routed(sinks: Seq<Sink>, port: u8, data: Seq<u8>) -> Seq<Sink> {
    Seq::new(
        sinks.len(),
        |i: int|
            if covers(sinks[i].ports, port) {
                sink_written(sinks[i], data)
            } else {
                sinks[i]
            },
    )
}

/// A record reaches every sink that listens on all ports or on the
/// record's port, where its payload follows what was written before; a sink
/// that listens on other ports only is left as it was. No sink is added,
/// dropped or moved.
pub proof fn lemma_routing(sinks: Seq<Sink>, port: u8, data: Seq<u8>, at: int)
    requires
        0 <= at < sinks.len(),
    ensures
        routed(sinks, port, data).len() == sinks.len(),
        routed(sinks, port, data)[at].ports == sinks[at].ports,
        routed(sinks, port, data)[at].file == sinks[at].file,
        sinks[at].ports.len() == 0 || sinks[at].ports.contains(port as u32) ==> routed(
            sinks,
            port,
            data,
        )[at].pending == sinks[at].pending + data,
        sinks[at].ports.len() > 0 && !sinks[at].ports.contains(port as u32) ==> routed(
            sinks,
            port,
            data,
        )[at] == sinks[at],
{
}

/// The sink that a request for an output stands for.
pub open spec fn sink_of(output: LogOutput) -> Sink {
    Sink {
        ports: output.ports@,
        file: if output.path@.len() == 0 {
            None
        } else {
            Some(output.path@)
        },
        pending: Seq::empty(),
    }
}

impl OutputStream {
    /// The path of the file; `None` for the standard output.
    pub open spec fn file(&self) -> Option<Seq<char>> {
        match self {
            OutputStream::Stdout(_) => None,
            OutputStream::File(path, _) => Some(path@),
        }
    }

    /// The bytes written and not yet handed over.
    pub open spec fn pending(&self) -> Seq<u8> {
        match self {
            OutputStream::Stdout(bytes) => bytes@,
            OutputStream::File(_, bytes) => bytes@,
        }
    }

    /// Writes `data` to the output.
    pub fn write(&mut self, data: &[u8])
        ensures
            final(self).file() == old(self).file(),
            final(self).pending() == old(self).pending() + data@,
    {
        match self {
            OutputStream::Stdout(bytes) => {
                extend(bytes, data);
            },
            OutputStream::File(_, bytes) => {
                extend(bytes, data);
            },
        }
    }

    /// Hands over the bytes written since the last call; the output has
    /// none pending afterwards.
    pub fn take(&mut self) -> (bytes: Vec<u8>)
        ensures
            bytes@ == old(self).pending(),
            final(self).file() == old(self).file(),
            final(self).pending() == Seq::<u8>::empty(),
    {
        let mut taken: Vec<u8> = Vec::new();
        match self {
            OutputStream::Stdout(bytes) => {
                std::mem::swap(bytes, &mut taken);
            },
            OutputStream::File(_, bytes) => {
                std::mem::swap(bytes, &mut taken);
            },
        }
        taken
    }
}

/// Appends `data` to `bytes`.
pub fn extend(bytes: &mut Vec<u8>, data: &[u8])
    ensures
        final(bytes)@ == old(bytes)@ + data@,
{
    let mut at: usize = 0;
    assert(data@.take(0) =~= Seq::<u8>::empty());
    assert(bytes@ + Seq::<u8>::empty() =~= bytes@);
    while at < data.len()
        invariant
            at <= data.len(),
            bytes@ == old(bytes)@ + data@.take(at as int),
        decreases data.len() - at,
    {
        bytes.push(data[at]);
        at += 1;
        assert(bytes@ =~= old(bytes)@ + data@.take(at as int));
    }
    assert(data@.take(at as int) =~= data@);
}

impl View for Output {
    type V = Sink;

    closed spec fn view(&self) -> Sink {
        Sink { ports: self.ports@, file: self.stream.file(), pending: self.stream.pending() }
    }
}

impl Output {
    /// Returns the output that `request` asks for, with nothing written.
    pub fn new(request: &LogOutput) -> (output: Output)
        ensures
            output@ == sink_of(*request),
    {
        let stream = if request.path.as_str().unicode_len() == 0 {
            OutputStream::Stdout(Vec::new())
        } else {
            OutputStream::File(request.path.clone(), Vec::new())
        };
        Output { ports: request.ports.clone(), stream }
    }

    /// Returns whether the output listens on `port`.
    pub fn listens(&self, port: u8) -> (listening: bool)
        ensures
            listening == covers(self@.ports, port),
    {
        if self.ports.len() == 0 {
            return true;
        }
        let wanted: u32 = port as u32;
        let mut at: usize = 0;
        while at < self.ports.len()
            invariant
                at <= self.ports.len(),
                wanted == port as u32,
                forall|j: int| 0 <= j < at ==> self.ports@[j] != wanted,
            decreases self.ports.len() - at,
        {
            if self.ports[at] == wanted {
                assert(self.ports@.contains(wanted));
                return true;
            }
            at += 1;
        }
        false
    }

    /// Writes `data` to the output's destination.
    pub fn write(&mut self, data: &[u8])
        ensures
            final(self)@ == sink_written(old(self)@, data@),
    {
        self.stream.write(data);
    }

    /// Hands over the bytes written since the last call.
    pub fn take(&mut self) -> (bytes: Vec<u8>)
        ensures
            bytes@ == old(self)@.pending,
            final(self)@ == (Sink { pending: Seq::empty(), ..old(self)@ }),
    {
        self.stream.take()
    }

    /// Returns the path of the file that the output writes to; `None` for
    /// the standard output.
    pub fn path(&self) -> (path: Option<&str>)
        ensures
            match path {
                Some(path) => self@.file == Some(path@),
                None => self@.file is None,
            },
    {
        match &self.stream {
            OutputStream::Stdout(_) => None,
            OutputStream::File(path, _) => Some(path.as_str()),
        }
    }
}

/// The sinks that the requests stand for, one for one.
pub open spec fn sinks_of(requests: Seq<LogOutput>) -> Seq<Sink> {
    Seq::new(requests.len(), |i: int| sink_of(requests[i]))
}

impl View for OutputMap {
    type V = Seq<Sink>;

    closed spec fn view(&self) -> Seq<Sink> {
        Seq::new(self.0@.len(), |i: int| self.0@[i]@)
    }
}

impl OutputMap {
    /// Returns the outputs that the requests ask for, in their order, with
    /// nothing written to any.
    pub fn new(requests: &Vec<LogOutput>) -> (map: OutputMap)
        ensures
            map@ == sinks_of(requests@),
    {
        let mut outputs: Vec<Output> = Vec::new();
        let mut at: usize = 0;
        while at < requests.len()
            invariant
                at <= requests.len(),
                outputs@.len() == at,
                forall|i: int| 0 <= i < at ==> (#[trigger] outputs@[i])@ == sink_of(requests@[i]),
            decreases requests.len() - at,
        {
            outputs.push(Output::new(&requests[at]));
            at += 1;
        }
        let map = OutputMap(outputs);
        assert(map@ =~= sinks_of(requests@));
        map
    }

    /// Returns the number of outputs.
    pub fn len(&self) -> (n: usize)
        ensures
            n == self@.len(),
    {
        self.0.len()
    }

    /// Writes `data` to every output that listens on `port`, and to no
    /// other. A port that does not exist is refused, and nothing is written.
    pub fn write(&mut self, port: u8, data: &[u8]) -> (result: Result<(), crate::log::LogError>)
        ensures
            port < PORTS_COUNT ==> result is Ok && final(self)@ == routed(old(self)@, port, data@),
            port >= PORTS_COUNT ==> result == Err::<(), crate::log::LogError>(
                crate::log::LogError::PortOutOfRange(port),
            )
                && final(self)@ == old(self)@,
    {
        if port as usize >= PORTS_COUNT {
            return Err(crate::log::LogError::PortOutOfRange(port));
        }
        let mut at: usize = 0;
        while at < self.0.len()
            invariant
                at <= self.0@.len(),
                self@.len() == old(self)@.len(),
                forall|i: int| 0 <= i < at ==> #[trigger] self@[i] == routed(old(self)@, port, data@)[i],
                forall|i: int| at <= i < self@.len() ==> #[trigger] self@[i] == old(self)@[i],
            decreases self.0@.len() - at,
        {
            let ghost before = self@;
            let ghost outputs = self.0@;
            assert(before[at as int] == outputs[at as int]@);
            assert(before[at as int] == old(self)@[at as int]);
            if self.0[at].listens(port) {
                self.0[at].write(data);
            }
            proof {
                assert(self.0@.len() == outputs.len());
                assert(self@[at as int] == self.0@[at as int]@);
                assert(self@[at as int] == routed(old(self)@, port, data@)[at as int]);
                assert forall|i: int| 0 <= i < self@.len() && i != at implies #[trigger] self@[i]
                    == before[i] by {
                    assert(self.0@[i] == outputs[i]);
                }
            }
            at += 1;
        }
        assert(self@ =~= routed(old(self)@, port, data@));
        Ok(())
    }

    /// Hands over the bytes written to the output at `index` since the last
    /// call.
    pub fn take(&mut self, index: usize) -> (bytes: Vec<u8>)
        requires
            index < old(self)@.len(),
        ensures
            bytes@ == old(self)@[index as int].pending,
            final(self)@ == old(self)@.update(
                index as int,
                Sink { pending: Seq::empty(), ..old(self)@[index as int] },
            ),
    {
        let bytes = self.0[index].take();
        assert(self@ =~= old(self)@.update(
            index as int,
            Sink { pending: Seq::empty(), ..old(self)@[index as int] },
        ));
        bytes
    }

    /// Returns the path of the file that the output at `index` writes to;
    /// `None` for the standard output.
    pub fn path(&self, index: usize) -> (path: Option<&str>)
        requires
            index < self@.len(),
        ensures
            match path {
                Some(path) => self@[index as int].file == Some(path@),
                None => self@[index as int].file is None,
            },
    {
        self.0[index].path()
    }
}

} // verus!
