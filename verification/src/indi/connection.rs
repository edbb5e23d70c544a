//! The two halves of a connection, the reader loop and the connection itself,
//! as far as they decide and compute.
//!
//! Nothing here touches a socket. The reading half is handed the bytes that
//! the transport delivered and gives back messages; the writing half collects
//! the bytes of the commands for the transport to send. The reader loop and the
//! connection are told what happened outside (a read returned, a channel was
//! polled) and answer with what to do next.

use crate::config_file::ConnectionSpec;
use crate::element::DecodeError;
use crate::frame::{
    advanced, byte_views, drained, idle, FrameError, FrameProcessor, FrameState, Halt,
};
use crate::indi::enable_blob::{EnableBLOB, EnableBLOBValue};
use crate::indi::get_properties::GetProperties;
use crate::indi::{decode, IncomingMsg};
use crate::text::{decimal_text, write_decimal};
use crate::xml::{empty_element_xml, text_element_xml};
use vstd::prelude::*;

verus! {

/// A message that the client originates.
pub trait OutgoingMsg {
    /// The bytes of the message on the wire.
    spec fn xml(&self) -> Seq<u8>;

    /// Encodes the message.
    fn to_xml(&self) -> (r: Vec<u8>)
        ensures
            r@ == self.xml(),
    ;
}

/// What a connection is to do with BLOBs.
#[derive(Clone, Copy, Debug, PartialEq, Eq, Structural)]
pub enum EnableBlobSemantics {
    /// Deliver no BLOBs.
    Never,
    /// Deliver BLOBs along with everything else.
    Also,
    /// Deliver nothing but BLOBs.
    Only,
}

impl EnableBlobSemantics {
    /// The payload of the command that asks for these semantics.
    pub open spec fn payload(self) -> EnableBLOBValue {
        match self {
            EnableBlobSemantics::Never => EnableBLOBValue::Never,
            EnableBlobSemantics::Also => EnableBLOBValue::Also,
            EnableBlobSemantics::Only => EnableBLOBValue::Only,
        }
    }

    /// The payload of the command that asks for these semantics.
    pub fn value(&self) -> (r: EnableBLOBValue)
        ensures
            r == self.payload(),
    {
        match self {
            EnableBlobSemantics::Never => EnableBLOBValue::Never,
            EnableBlobSemantics::Also => EnableBLOBValue::Also,
            EnableBlobSemantics::Only => EnableBLOBValue::Only,
        }
    }
}

/// The version of the protocol that the client speaks.
pub fn protocol_version() -> (r: &'static str)
    ensures
        r@ == "1.7"@,
{
    "1.7"
}

/// The bytes of the request for properties that the client sends.
pub open spec fn get_properties_xml() -> Seq<u8> {
    empty_element_xml("getProperties"@, seq![("version"@, "1.7"@)])
}

/// The bytes of the command that asks for `semantics`, for one device or, with
/// no device named, for all.
pub open spec fn enable_blob_xml(device: Option<Seq<char>>, semantics: EnableBlobSemantics) -> Seq<
    u8,
> {
    text_element_xml(
        "enableBLOB"@,
        match device {
            Some(d) => seq![("device"@, d)],
            None => Seq::empty(),
        },
        semantics.payload().text(),
    )
}

/// The writing half of a connection: a sink, and a name for the log.
pub struct Writer<T> {
    pub w: T,
    dbg_name: String,
}

impl<T> Writer<T> {
    /// The sink.
    pub closed spec fn sink(&self) -> T {
        self.w
    }

    /// The name under which the writer appears in the log.
    pub closed spec fn name(&self) -> Seq<char> {
        self.dbg_name@
    }

    /// A writer over the sink `w`.
    pub fn new(w: T, dbg_name: &str) -> (r: Self)
        ensures
            r.sink() == w,
            r.name() == dbg_name@,
    {
        Writer { w, dbg_name: String::from_str(dbg_name) }
    }

    /// The name under which the writer appears in the log.
    pub fn dbg_name(&self) -> (r: &str)
        ensures
            r@ == self.name(),
    {
        self.dbg_name.as_str()
    }
}

impl Writer<Vec<u8>> {
    /// Appends bytes to the sink.
    fn write_bytes(&mut self, bytes: Vec<u8>)
        ensures
            final(self).sink()@ == old(self).sink()@ + bytes@,
            final(self).name() == old(self).name(),
    {
        self.w.extend_from_slice(bytes.as_slice());
    }

    /// Queues the request for properties.
    pub fn send_get_properties(&mut self)
        ensures
            final(self).sink()@ == old(self).sink()@ + get_properties_xml(),
            final(self).name() == old(self).name(),
    {
        let message = GetProperties { version: String::from_str(protocol_version()) };
        self.write_bytes(message.to_xml());
    }

    /// Queues the command that asks for `semantics` for every device.
    pub fn send_enable_blob(&mut self, semantics: EnableBlobSemantics)
        ensures
            final(self).sink()@ == old(self).sink()@ + enable_blob_xml(None, semantics),
            final(self).name() == old(self).name(),
    {
        let message = EnableBLOB { device: None, value: semantics.value() };
        self.write_bytes(message.to_xml());
    }

    /// Queues the command that asks for `semantics` for one device.
    pub fn send_enable_blob_for(&mut self, device: &str, semantics: EnableBlobSemantics)
        ensures
            final(self).sink()@ == old(self).sink()@ + enable_blob_xml(Some(device@), semantics),
            final(self).name() == old(self).name(),
    {
        let message = EnableBLOB {
            device: Some(String::from_str(device)),
            value: semantics.value(),
        };
        self.write_bytes(message.to_xml());
    }

    /// Takes what is queued, for the transport to send, and leaves the sink
    /// empty.
    pub fn take_outgoing(&mut self) -> (r: Vec<u8>)
        ensures
            r@ == old(self).sink()@,
            final(self).sink()@ == Seq::<u8>::empty(),
            final(self).name() == old(self).name(),
    {
        let mut bytes: Vec<u8> = Vec::new();
        std::mem::swap(&mut bytes, &mut self.w);
        bytes
    }
}

/// Why a read gave no message.
#[derive(Clone, Copy, Debug, PartialEq, Eq, Structural)]
pub enum ReadError {
    /// The stream is not XML at this point; the document under construction
    /// was dropped.
    Frame(FrameError),
    /// A complete document is no message of the catalog; it was dropped.
    Decode(DecodeError),
}

/// The reading half of a connection: a source, and the frame processor that the
/// source's bytes go through.
pub struct Reader<T> {
    pub r: T,
    frames: FrameProcessor,
}

impl<T> Reader<T> {
    /// The source.
    pub closed spec fn source(&self) -> T {
        self.r
    }

    /// The bytes that have arrived and belong to no token yet.
    pub closed spec fn pending(&self) -> Seq<u8> {
        self.frames.pending()
    }

    /// The document under construction.
    pub closed spec fn state(&self) -> FrameState {
        self.frames.state()
    }

    /// Whether the source has reported its end.
    pub closed spec fn ended(&self) -> bool {
        self.frames.ended()
    }

    /// A reader over the source `r` that has seen nothing.
    pub fn new(r: T) -> (reader: Self)
        ensures
            reader.source() == r,
            reader.pending() == Seq::<u8>::empty(),
            reader.state() == idle(),
            !reader.ended(),
    {
        Reader { r, frames: FrameProcessor::new() }
    }

    /// Hands the reader bytes that the source delivered.
    pub fn receive(&mut self, bytes: &[u8])
        ensures
            final(self).source() == old(self).source(),
            final(self).pending() == old(self).pending() + bytes@,
            final(self).state() == old(self).state(),
            final(self).ended() == old(self).ended(),
    {
        self.frames.feed(bytes);
    }

    /// Tells the reader that the source will deliver nothing more.
    pub fn end(&mut self)
        ensures
            final(self).source() == old(self).source(),
            final(self).pending() == old(self).pending(),
            final(self).state() == old(self).state(),
            final(self).ended(),
    {
        self.frames.finish();
    }

    /// The next message, if the bytes received so far hold one.
    ///
    /// Steps through the pending bytes as
    /// [`advanced`](crate::frame::advanced) says. A document that comes
    /// complete is decoded: the result is its message, or the reason why it is
    /// none. A token that is refused is reported. With no document complete
    /// the result is `Ok(None)`: more bytes are needed.
    pub fn read(&mut self) -> (r: Result<Option<IncomingMsg>, ReadError>)
        ensures
            final(self).source() == old(self).source(),
            final(self).ended() == old(self).ended(),
            final(self).pending() == advanced(old(self).pending(), old(self).state()).0,
            final(self).state() == advanced(old(self).pending(), old(self).state()).1,
            match advanced(old(self).pending(), old(self).state()).2 {
                Halt::Document(d) => match r {
                    Ok(Some(m)) => m.decodes(d),
                    Err(ReadError::Decode(e)) => IncomingMsg::decode_refusal(d) == Some(e),
                    _ => false,
                },
                Halt::Failed(e) => r == Err::<Option<IncomingMsg>, ReadError>(ReadError::Frame(e)),
                Halt::Starved => r matches Ok(None),
            },
    {
        match self.frames.next_document() {
            Ok(Some(document)) => match decode(document.as_slice()) {
                Ok(message) => Ok(Some(message)),
                Err(e) => Err(ReadError::Decode(e)),
            },
            Ok(None) => Ok(None),
            Err(e) => Err(ReadError::Frame(e)),
        }
    }
}

/// A connection: its reading half and its writing half.
pub struct Connection<R, W> {
    pub r: Reader<R>,
    pub w: Writer<W>,
}

impl<R, W> Connection<R, W> {
    /// A connection over a source and a sink.
    pub fn new(source: R, sink: W, dbg_name: &str) -> (c: Self)
        ensures
            c.r.source() == source,
            c.r.pending() == Seq::<u8>::empty(),
            c.r.state() == idle(),
            !c.r.ended(),
            c.w.sink() == sink,
            c.w.name() == dbg_name@,
    {
        Connection { r: Reader::new(source), w: Writer::new(sink, dbg_name) }
    }
}

/// The documents among `documents` that are messages of the catalog, in
/// order.
pub open spec fn decodable(documents: Seq<Seq<u8>>) -> Seq<Seq<u8>>
    decreases documents.len(),
{
    if documents.len() == 0 {
        Seq::empty()
    } else if IncomingMsg::decode_refusal(documents.last()) is None {
        decodable(documents.drop_last()).push(documents.last())
    } else {
        decodable(documents.drop_last())
    }
}

/// Whether the messages are what the documents say, one for one and in order.
pub open spec fn all_decode(messages: Seq<IncomingMsg>, documents: Seq<Seq<u8>>) -> bool {
    &&& messages.len() == documents.len()
    &&& forall|i: int| 0 <= i < messages.len() ==> (#[trigger] messages[i]).decodes(documents[i])
}

/// Decodes the documents that are messages of the catalog, in order, and
/// passes over the others.
pub fn decode_all(documents: &Vec<Vec<u8>>) -> (r: Vec<IncomingMsg>)
    ensures
        all_decode(r@, decodable(byte_views(documents@))),
{
    let ghost views = byte_views(documents@);
    let mut messages: Vec<IncomingMsg> = Vec::new();
    let mut i: usize = 0;
    proof {
        assert(views.take(0) =~= Seq::empty());
    }
    while i < documents.len()
        invariant
            i <= documents@.len(),
            views == byte_views(documents@),
            all_decode(messages@, decodable(views.take(i as int))),
        decreases documents@.len() - i,
    {
        proof {
            assert(views.take(i + 1).drop_last() =~= views.take(i as int));
            assert(views.take(i + 1).last() == documents@[i as int]@);
        }
        match decode(documents[i].as_slice()) {
            Ok(message) => {
                messages.push(message);
            },
            Err(_) => {},
        }
        i += 1;
    }
    proof {
        assert(views.take(i as int) =~= views);
    }
    messages
}

/// What a read on the transport returned.
#[derive(Debug)]
pub enum ReadOutcome {
    /// Bytes arrived.
    Data(Vec<u8>),
    /// The read deadline passed and nothing arrived.
    WouldBlock,
    /// The transport reached its end.
    Closed,
    /// The transport failed.
    Failed,
}

/// Why the reader loop ends.
#[derive(Clone, Copy, Debug, PartialEq, Eq, Structural)]
pub enum StopReason {
    /// The transport reached its end.
    EndOfStream,
    /// The connection asked the loop to stop.
    Unblocked,
    /// The transport failed.
    TransportError,
}

/// What the reader loop does next.
#[derive(Clone, Copy, Debug, PartialEq, Eq, Structural)]
pub enum LoopAction {
    /// Read again at once.
    Continue,
    /// Pause for a moment, then read again.
    Yield,
    /// End the loop.
    Stop(StopReason),
}

/// The decisions of the reader loop.
///
/// The loop itself runs where the transport is: it reads, tells
/// [`IndiReaderLoop::reader_main`] what the read returned, delivers the
/// messages it gets back, in order, and does as the action says.
pub struct IndiReaderLoop {
    frames: FrameProcessor,
    stopping: bool,
}

impl IndiReaderLoop {
    /// The bytes that have arrived and belong to no token yet.
    pub closed spec fn pending(&self) -> Seq<u8> {
        self.frames.pending()
    }

    /// The document under construction.
    pub closed spec fn state(&self) -> FrameState {
        self.frames.state()
    }

    /// Whether the connection has asked the loop to stop.
    pub closed spec fn stopping(&self) -> bool {
        self.stopping
    }

    /// A loop that has read nothing.
    pub fn create() -> (r: Self)
        ensures
            r.pending() == Seq::<u8>::empty(),
            r.state() == idle(),
            !r.stopping(),
    {
        IndiReaderLoop { frames: FrameProcessor::new(), stopping: false }
    }

    /// Asks the loop to stop at its next turn.
    pub fn unblock(&mut self)
        ensures
            final(self).pending() == old(self).pending(),
            final(self).state() == old(self).state(),
            final(self).stopping(),
    {
        self.stopping = true;
    }

    /// One turn of the loop, told what the read returned.
    ///
    /// Once the loop was asked to stop it stops, whatever the read returned: a
    /// read that failed because the connection is closing is no failure.
    /// Otherwise: bytes are framed, and every document that comes complete and
    /// is a message of the catalog is handed back, in the order of arrival; a
    /// document that is none, or a token that is refused, is dropped and the
    /// loop goes on. A read that would block makes the loop pause and retry.
    /// The end of the transport, or its failure, ends the loop.
    pub fn reader_main(&mut self, outcome: ReadOutcome) -> (r: (Vec<IncomingMsg>, LoopAction))
        ensures
            final(self).stopping() == old(self).stopping(),
            old(self).stopping() ==> {
                &&& r.0@.len() == 0
                &&& r.1 == LoopAction::Stop(StopReason::Unblocked)
                &&& final(self).pending() == old(self).pending()
                &&& final(self).state() == old(self).state()
            },
            !old(self).stopping() ==> match outcome {
                ReadOutcome::Data(bytes) => {
                    let after = drained(old(self).pending() + bytes@, old(self).state());
                    &&& final(self).pending() == after.0
                    &&& final(self).state() == after.1
                    &&& all_decode(r.0@, decodable(after.2))
                    &&& r.1 == LoopAction::Continue
                },
                ReadOutcome::WouldBlock => {
                    &&& r.0@.len() == 0
                    &&& r.1 == LoopAction::Yield
                    &&& final(self).pending() == old(self).pending()
                    &&& final(self).state() == old(self).state()
                },
                ReadOutcome::Closed => {
                    &&& r.0@.len() == 0
                    &&& r.1 == LoopAction::Stop(StopReason::EndOfStream)
                    &&& final(self).pending() == old(self).pending()
                    &&& final(self).state() == old(self).state()
                },
                ReadOutcome::Failed => {
                    &&& r.0@.len() == 0
                    &&& r.1 == LoopAction::Stop(StopReason::TransportError)
                    &&& final(self).pending() == old(self).pending()
                    &&& final(self).state() == old(self).state()
                },
            },
    {
        if self.stopping {
            return (Vec::new(), LoopAction::Stop(StopReason::Unblocked));
        }
        match outcome {
            ReadOutcome::Data(bytes) => {
                self.frames.feed(bytes.as_slice());
                let documents = self.frames.drain();
                let messages = decode_all(&documents);
                (messages, LoopAction::Continue)
            },
            ReadOutcome::WouldBlock => (Vec::new(), LoopAction::Yield),
            ReadOutcome::Closed => {
                self.frames.finish();
                (Vec::new(), LoopAction::Stop(StopReason::EndOfStream))
            },
            ReadOutcome::Failed => (Vec::new(), LoopAction::Stop(StopReason::TransportError)),
        }
    }
}

/// What polling the delivery channel returned.
#[derive(Debug)]
pub enum Polled {
    /// A message was waiting.
    Message(IncomingMsg),
    /// Nothing is waiting; the reader loop is alive.
    Empty,
    /// Nothing is waiting and nothing will come: the reader loop has ended.
    Disconnected,
}

/// Why a connection could not do what it was asked.
#[derive(Clone, Copy, Debug, PartialEq, Eq, Structural)]
pub enum ConnectionError {
    /// The connection is closing or closed.
    Closed,
    /// The message is none that a client sends.
    NotSendable,
    /// The reader loop has ended; no message will come.
    Disconnected,
}

/// How far a connection is on its way from open to closed.
#[derive(Clone, Copy, Debug, PartialEq, Eq, Structural)]
pub enum ConnectionPhase {
    /// In use.
    Open,
    /// Closing: what was written has been flushed.
    Flushed,
    /// Closing: the pending read has been made to return.
    Unblocked,
    /// The reader loop has been joined.
    Closed,
}

/// What closing a connection asks of the transport next.
#[derive(Clone, Copy, Debug, PartialEq, Eq, Structural)]
pub enum CloseStep {
    /// Flush what was written.
    Flush,
    /// Make the pending read return: shut the transport down.
    Unblock,
    /// Wait for the reader loop to end.
    Join,
    /// Nothing: the connection is closed.
    Done,
}

impl ConnectionPhase {
    /// The phase that follows this one when a connection closes.
    pub open spec fn following(self) -> ConnectionPhase {
        match self {
            ConnectionPhase::Open => ConnectionPhase::Flushed,
            ConnectionPhase::Flushed => ConnectionPhase::Unblocked,
            ConnectionPhase::Unblocked => ConnectionPhase::Closed,
            ConnectionPhase::Closed => ConnectionPhase::Closed,
        }
    }

    /// What leaving this phase asks of the transport.
    pub open spec fn step(self) -> CloseStep {
        match self {
            ConnectionPhase::Open => CloseStep::Flush,
            ConnectionPhase::Flushed => CloseStep::Unblock,
            ConnectionPhase::Unblocked => CloseStep::Join,
            ConnectionPhase::Closed => CloseStep::Done,
        }
    }
}

/// Closing an open connection asks for a flush, then for the unblocking of the
/// reader, then for the join, in this order and each once; after that the
/// connection is closed and asks for nothing more.
pub proof fn lemma_close_order()
    ensures
        ConnectionPhase::Open.step() == CloseStep::Flush,
        ConnectionPhase::Open.following().step() == CloseStep::Unblock,
        ConnectionPhase::Open.following().following().step() == CloseStep::Join,
        ConnectionPhase::Open.following().following().following() == ConnectionPhase::Closed,
        ConnectionPhase::Closed.step() == CloseStep::Done,
        ConnectionPhase::Closed.following() == ConnectionPhase::Closed,
{
}

/// The address of an endpoint: host, a colon, the port in base ten.
pub open spec fn endpoint_text(host: Seq<char>, port: usize) -> Seq<char> {
    host + ":"@ + decimal_text(port as nat)
}

/// The decisions of a connection.
///
/// The transport, the delivery channel and the reader loop's thread live
/// outside; the connection knows its address and how far it is on its way from
/// open to closed.
pub struct IndiConnection {
    endpoint: String,
    phase: ConnectionPhase,
}

impl IndiConnection {
    /// The address that the connection was opened to.
    pub closed spec fn address(&self) -> Seq<char> {
        self.endpoint@
    }

    /// How far the connection is on its way from open to closed.
    pub closed spec fn phase(&self) -> ConnectionPhase {
        self.phase
    }

    /// A connection to the endpoint that `spec` names, open.
    pub fn connect(spec: &ConnectionSpec) -> (r: IndiConnection)
        ensures
            r.address() == endpoint_text(spec.host@, spec.port),
            r.phase() == ConnectionPhase::Open,
    {
        let mut endpoint = spec.host.clone();
        endpoint.append(":");
        endpoint.append(write_decimal(spec.port).as_str());
        IndiConnection { endpoint, phase: ConnectionPhase::Open }
    }

    /// The address that the connection was opened to.
    pub fn endpoint(&self) -> (r: &str)
        ensures
            r@ == self.address(),
    {
        self.endpoint.as_str()
    }

    /// Whether the connection is in use.
    pub fn is_open(&self) -> (r: bool)
        ensures
            r == (self.phase() == ConnectionPhase::Open),
    {
        match self.phase {
            ConnectionPhase::Open => true,
            _ => false,
        }
    }

    /// The bytes to write for a message.
    ///
    /// A client sends requests for properties and commands on BLOBs and
    /// nothing else, and sends nothing once it closes.
    pub fn send(&self, msg: &IncomingMsg) -> (r: Result<Vec<u8>, ConnectionError>)
        ensures
            self.phase() != ConnectionPhase::Open ==> r == Err::<Vec<u8>, ConnectionError>(
                ConnectionError::Closed,
            ),
            self.phase() == ConnectionPhase::Open ==> match msg {
                IncomingMsg::GetProperties(m) => r matches Ok(bytes) && bytes@ == m.xml(),
                IncomingMsg::EnableBLOB(m) => r matches Ok(bytes) && bytes@ == m.xml(),
                _ => r == Err::<Vec<u8>, ConnectionError>(ConnectionError::NotSendable),
            },
    {
        if !self.is_open() {
            return Err(ConnectionError::Closed);
        }
        match msg {
            IncomingMsg::GetProperties(m) => Ok(m.to_xml()),
            IncomingMsg::EnableBLOB(m) => Ok(m.to_xml()),
            _ => Err(ConnectionError::NotSendable),
        }
    }

    /// What a poll of the delivery channel means to the caller: the message
    /// that was waiting, or none yet, or the end of the connection.
    pub fn recv_or_none(&self, polled: Polled) -> (r: Result<
        Option<Box<IncomingMsg>>,
        ConnectionError,
    >)
        ensures
            match polled {
                Polled::Message(m) => r matches Ok(Some(b)) && *b == m,
                Polled::Empty => r matches Ok(None),
                Polled::Disconnected => r == Err::<Option<Box<IncomingMsg>>, ConnectionError>(
                    ConnectionError::Disconnected,
                ),
            },
    {
        match polled {
            Polled::Message(m) => Ok(Some(Box::new(m))),
            Polled::Empty => Ok(None),
            Polled::Disconnected => Err(ConnectionError::Disconnected),
        }
    }

    /// What a wait on the delivery channel means to the caller: the message
    /// that arrived, or `None` where the channel was closed. The end of the
    /// channel is no error.
    pub fn recv_or_block(&self, awaited: Polled) -> (r: Option<IncomingMsg>)
        ensures
            match awaited {
                Polled::Message(m) => r == Some(m),
                _ => r is None,
            },
    {
        match awaited {
            Polled::Message(m) => Some(m),
            _ => None,
        }
    }

    /// Takes the next step of closing: says what the transport is to do now,
    /// and moves on by one phase.
    pub fn close(&mut self) -> (r: CloseStep)
        ensures
            r == old(self).phase().step(),
            final(self).phase() == old(self).phase().following(),
            final(self).address() == old(self).address(),
    {
        match self.phase {
            ConnectionPhase::Open => {
                self.phase = ConnectionPhase::Flushed;
                CloseStep::Flush
            },
            ConnectionPhase::Flushed => {
                self.phase = ConnectionPhase::Unblocked;
                CloseStep::Unblock
            },
            ConnectionPhase::Unblocked => {
                self.phase = ConnectionPhase::Closed;
                CloseStep::Join
            },
            ConnectionPhase::Closed => CloseStep::Done,
        }
    }
}

} // verus!
