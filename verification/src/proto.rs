//! One encrypted request/reply exchange with a device, optionally routed
//! through a response cache.
//!
//! The library never opens a socket. Whoever embeds it hands in a
//! [`Socket`], which carries one datagram to the device and brings the reply
//! back; everything around that step is decided here.

use vstd::prelude::*;
use vstd::string::StringExecFns;
use serde_json::Value;
use std::time::Duration;
use crate::cache::{fresh, looked_up, stored, Cache, CacheKey, Entries};
use crate::crypto;
use crate::crypto::{decrypted, encrypted};
use crate::error;
use crate::error::{IoFailure, Result};
use crate::json;
use crate::json::{empty_object, json_decoding, json_encoding, json_of, Json};

verus! {

/// The default port of the devices.
pub const DEFAULT_PORT: u16 = 9999;

/// The default size of the receive buffer, in bytes.
pub const DEFAULT_BUFFER_SIZE: usize = 4096;

/// An IP address, by its number.
#[derive(Clone, Copy, Debug, PartialEq, Eq, Structural, Hash)]
pub enum Host {
    /// An IPv4 address: its four bytes as one big-endian number.
    V4(u32),
    /// An IPv6 address: its sixteen bytes as one big-endian number.
    V6(u128),
}

/// The address that every device on the local network receives.
pub fn broadcast_host() -> (host: Host)
    ensures
        host == Host::V4(0xFFFF_FFFF),
{
    Host::V4(0xFFFF_FFFF)
}

/// An IP address and a port.
#[derive(Clone, Copy, Debug, PartialEq, Eq, Structural, Hash)]
pub struct Endpoint {
    pub host: Host,
    pub port: u16,
}

/// A command for a device: the namespace, the command in it, and the
/// command's argument.
#[derive(Debug)]
pub struct Request {
    pub target: String,
    pub command: String,
    pub arg: Option<Value>,
}

/// The document that carries a command on the wire:
/// `{"<namespace>": {"<command>": <argument>}}`.
pub open spec fn request_document(target: Seq<char>, command: Seq<char>, arg: Json) -> Json {
    empty_object().with(target, empty_object().with(command, arg))
}

/// The result that a reply document holds for a command: the value at
/// `[namespace][command]`, if the document has one.
pub open spec fn reply_result(reply: Json, target: Seq<char>, command: Seq<char>) -> Option<Json> {
    match reply.get(target) {
        Some(namespace) => namespace.get(command),
        None => None,
    }
}

impl Request {
    /// A request for `command` in the namespace `target`, with `arg` as its
    /// argument.
    pub fn new(target: &str, command: &str, arg: Option<Value>) -> (request: Request)
        ensures
            request.target@ == target@,
            request.command@ == command@,
            request.arg == arg,
    {
        Request { target: String::from_str(target), command: String::from_str(command), arg }
    }

    /// The argument as a document; a request without argument carries null.
    pub open spec fn argument(&self) -> Json {
        match self.arg {
            Some(value) => json_of(value),
            None => Json::Null,
        }
    }

    /// The document that carries this request on the wire.
    pub open spec fn document(&self) -> Json {
        request_document(self.target@, self.command@, self.argument())
    }

    /// The text `(<namespace>, <command>)`.
    pub fn describe(&self) -> (text: String)
        ensures
            text@ == "("@ + self.target@ + ", "@ + self.command@ + ")"@,
    {
        String::from_str("(").concat(self.target.as_str()).concat(", ").concat(
            self.command.as_str(),
        ).concat(")")
    }

    /// The bytes that carry this request, before the cipher: the JSON
    /// encoding of its document. Every request can be written.
    pub fn encode(&self) -> (r: Result<Vec<u8>>)
        ensures
            r matches Ok(bytes) && bytes@ == json_encoding(self.document()),
    {
        let arg = match &self.arg {
            Some(value) => value.clone(),
            None => json::null(),
        };
        let mut inner = json::new_object();
        json::set_member(&mut inner, self.command.as_str(), arg);
        let mut outer = json::new_object();
        json::set_member(&mut outer, self.target.as_str(), inner);
        match json::to_bytes(&outer) {
            Ok(bytes) => Ok(bytes),
            Err(failure) => Err(error::json(failure)),
        }
    }

    /// The result for this request in the reply `bytes`, which are the
    /// plaintext of what the device sent.
    ///
    /// Bytes that are no JSON document are malformed. A document that does
    /// not hold a value at `[namespace][command]` is unexpected. Both are
    /// serialization errors.
    pub fn extract(&self, bytes: &[u8]) -> (r: Result<Value>)
        ensures
            match json_decoding(bytes@) {
                None => r matches Err(e) && e.is_malformed(),
                Some(reply) => match reply_result(reply, self.target@, self.command@) {
                    Some(result) => r matches Ok(value) && json_of(value) == result,
                    None => r matches Err(e) && e.is_unexpected(),
                },
            },
    {
        match json::parse(bytes) {
            Err(failure) => Err(error::json(failure)),
            Ok(reply) => {
                match json::member(&reply, self.target.as_str()) {
                    None => Err(error::unexpected("the reply lacks the namespace of the request")),
                    Some(namespace) => {
                        match json::member(namespace, self.command.as_str()) {
                            None => Err(
                                error::unexpected("the reply lacks the command of the request"),
                            ),
                            Some(result) => Ok(result.clone()),
                        }
                    },
                }
            },
        }
    }
}

impl Request {
    /// What this request gets of the exchange that ended in `outcome`: the
    /// value at `[namespace][command]` of the reply, or the error that says
    /// why there is none.
    pub fn conclude(&self, outcome: std::result::Result<Vec<u8>, IoFailure>) -> (answer: Result<
        Value,
    >)
        ensures
            answers(*self, outcome_of(outcome), answer),
    {
        match received(outcome) {
            Ok(plain) => self.extract(plain.as_slice()),
            Err(e) => Err(e),
        }
    }
}

/// A request is found in the cache by its namespace and command alone. The
/// argument is no part of its identity: two requests that differ only in
/// their argument share one cache entry.
impl CacheKey for Request {
    type Id = (Seq<char>, Seq<char>);

    open spec fn id(&self) -> (Seq<char>, Seq<char>) {
        (self.target@, self.command@)
    }

    fn same(&self, other: &Self) -> (r: bool) {
        self.target == other.target && self.command == other.command
    }
}

/// A cached result answers every request for the same namespace and
/// command while it is valid, whatever the argument of the request that
/// stored it and whatever the argument of the request that asks.
pub proof fn lemma_argument_is_ignored(
    entries: Entries<Request, Value>,
    stored_under: Request,
    asked_with: Request,
    value: Value,
    stamp: nat,
    ttl: nat,
    now: nat,
)
    requires
        stored_under.target@ == asked_with.target@,
        stored_under.command@ == asked_with.command@,
        fresh(stamp, ttl, now),
    ensures
        looked_up(stored(entries, stored_under, value, stamp), asked_with.id(), ttl, now) == Some(
            value,
        ),
{
}

/// The cache of a device handle, if it has one.
pub type ResponseCache = Option<Cache<Request, Value>>;

/// The settings of the exchange with one device.
pub struct Settings {
    /// Where the device listens.
    pub addr: Endpoint,
    /// The size of the receive buffer; a longer reply is cut off.
    pub buffer_size: usize,
    /// How long a receive waits; `None` waits without end.
    pub read_timeout: Option<Duration>,
    /// How long a send waits; `None` waits without end.
    pub write_timeout: Option<Duration>,
    /// Whether the socket may send to a broadcast address.
    pub broadcast: bool,
    /// How many times each datagram is sent, against loss on the way.
    pub tolerance: u32,
}

/// Configures a [`Proto`].
#[derive(Debug)]
pub struct Builder {
    addr: Endpoint,
    buffer_size: usize,
    read_timeout: Option<Duration>,
    write_timeout: Option<Duration>,
    broadcast: bool,
    tolerance: u32,
}

/// The settings of the exchange with one device. They do not change once
/// built.
#[derive(Debug)]
pub struct Proto {
    addr: Endpoint,
    buffer_size: usize,
    read_timeout: Option<Duration>,
    write_timeout: Option<Duration>,
    broadcast: bool,
    tolerance: u32,
}

impl View for Builder {
    type V = Settings;

    closed spec fn view(&self) -> Settings {
        Settings {
            addr: self.addr,
            buffer_size: self.buffer_size,
            read_timeout: self.read_timeout,
            write_timeout: self.write_timeout,
            broadcast: self.broadcast,
            tolerance: self.tolerance,
        }
    }
}

impl View for Proto {
    type V = Settings;

    closed spec fn view(&self) -> Settings {
        Settings {
            addr: self.addr,
            buffer_size: self.buffer_size,
            read_timeout: self.read_timeout,
            write_timeout: self.write_timeout,
            broadcast: self.broadcast,
            tolerance: self.tolerance,
        }
    }
}

impl Builder {
    /// A builder for the device at `addr`: a buffer of 4096 bytes, no
    /// timeouts, no broadcast, each datagram sent once.
    pub fn new(addr: Endpoint) -> (builder: Builder)
        ensures
            builder@ == (Settings {
                addr,
                buffer_size: DEFAULT_BUFFER_SIZE,
                read_timeout: None,
                write_timeout: None,
                broadcast: false,
                tolerance: 1,
            }),
    {
        Builder {
            addr,
            buffer_size: DEFAULT_BUFFER_SIZE,
            read_timeout: None,
            write_timeout: None,
            broadcast: false,
            tolerance: 1,
        }
    }

    /// Sets the size of the receive buffer.
    pub fn buffer_size(&mut self, buffer_size: usize) -> (builder: &mut Builder)
        ensures
            builder@ == (Settings { buffer_size, ..old(self)@ }),
            final(self)@ == final(builder)@,
    {
        self.buffer_size = buffer_size;
        self
    }

    /// Sets how long a receive waits.
    pub fn read_timeout(&mut self, duration: Duration) -> (builder: &mut Builder)
        ensures
            builder@ == (Settings { read_timeout: Some(duration), ..old(self)@ }),
            final(self)@ == final(builder)@,
    {
        self.read_timeout = Some(duration);
        self
    }

    /// Sets how long a send waits.
    pub fn write_timeout(&mut self, duration: Duration) -> (builder: &mut Builder)
        ensures
            builder@ == (Settings { write_timeout: Some(duration), ..old(self)@ }),
            final(self)@ == final(builder)@,
    {
        self.write_timeout = Some(duration);
        self
    }

    /// Sets whether the socket may send to a broadcast address.
    pub fn broadcast(&mut self, broadcast: bool) -> (builder: &mut Builder)
        ensures
            builder@ == (Settings { broadcast, ..old(self)@ }),
            final(self)@ == final(builder)@,
    {
        self.broadcast = broadcast;
        self
    }

    /// Sets how many times each datagram is sent.
    pub fn tolerance(&mut self, offline_tolerance: u32) -> (builder: &mut Builder)
        ensures
            builder@ == (Settings { tolerance: offline_tolerance, ..old(self)@ }),
            final(self)@ == final(builder)@,
    {
        self.tolerance = offline_tolerance;
        self
    }

    /// The settings as they stand.
    pub fn build(&mut self) -> (proto: Proto)
        ensures
            proto@ == old(self)@,
            final(self)@ == old(self)@,
    {
        Proto {
            addr: self.addr,
            buffer_size: self.buffer_size,
            read_timeout: self.read_timeout,
            write_timeout: self.write_timeout,
            broadcast: self.broadcast,
            tolerance: self.tolerance,
        }
    }
}

/// How many copies are left of `copies` once `sent` of them went out.
pub open spec fn unsent_after(copies: nat, sent: nat) -> nat {
    if sent <= copies {
        (copies - sent) as nat
    } else {
        0
    }
}

/// The copies of a datagram that are still to be sent before the owner of
/// the socket listens.
///
/// A datagram goes out as many times as the tolerance of the exchange says,
/// against loss on the way, and only then is a reply waited for. The owner
/// of the socket sends while a copy is pending, reports each copy that went
/// out with [`Copies::sent`], and receives once none is pending.
pub struct Copies {
    unsent: u32,
}

impl View for Copies {
    type V = nat;

    closed spec fn view(&self) -> nat {
        self.unsent as nat
    }
}

impl Copies {
    /// Whether a copy is still to be sent. While it is, the owner of the
    /// socket sends; once it is not, the owner receives.
    pub fn pending(&self) -> (more: bool)
        ensures
            more == (self@ > 0),
    {
        self.unsent > 0
    }

    /// Takes note that one copy went out.
    pub fn sent(&mut self)
        ensures
            final(self)@ == unsent_after(old(self)@, 1),
    {
        if self.unsent > 0 {
            self.unsent = self.unsent - 1;
        }
    }
}

/// A datagram goes out exactly as many times as there are copies before the
/// first receive: after fewer sends a copy is still pending, and after that
/// many none is.
pub proof fn lemma_sent_before_receive(copies: nat, sent: nat)
    ensures
        unsent_after(copies, sent) > 0 <==> sent < copies,
        unsent_after(unsent_after(copies, sent), 1) == unsent_after(copies, sent + 1),
        unsent_after(copies, 0) == copies,
{
}

/// What carries datagrams. The library decides what is sent, how many times
/// and what a reply means; an implementation owns the socket.
///
/// One call of `exchange` is one exchange on a socket of its own: bind an
/// ephemeral local UDP endpoint, apply the read and write timeouts and the
/// broadcast flag of `proto`, send `datagram` to the address of `proto`
/// while [`Proto::copies`] has a copy pending, receive one datagram into a
/// buffer of the configured size, and close the socket on every way out.
/// The reply is what was received, cut to the bytes that arrived.
///
/// The library relies on nothing of this: whatever an implementation
/// returns, the functions here keep what they promise.
pub trait Socket {
    fn exchange(
        &self,
        proto: &Proto,
        datagram: &[u8],
    ) -> std::result::Result<Vec<u8>, IoFailure>;
}

/// The outcome of an exchange, as a socket hands it back: the datagram
/// that arrived, or why none did.
pub type Outcome = std::result::Result<Seq<u8>, IoFailure>;

/// What a socket handed back, as contracts see it.
pub open spec fn outcome_of(outcome: std::result::Result<Vec<u8>, IoFailure>) -> Outcome {
    match outcome {
        Ok(reply) => Ok(reply@),
        Err(failure) => Err(failure),
    }
}

/// Whether `plain` is what the caller gets of the exchange that ended in
/// `outcome`: the plaintext of the datagram that arrived, or the failure of
/// the socket as an error of kind `Io`.
pub open spec fn delivers(outcome: Outcome, plain: Result<Vec<u8>>) -> bool {
    match outcome {
        Ok(reply) => plain matches Ok(bytes) && bytes@ == decrypted(reply),
        Err(failure) => plain matches Err(e) && e.kind_of() == error::ErrorKind::Io(failure),
    }
}

/// Whether `answer` is what `request` gets of the exchange that ended in
/// `outcome`.
///
/// A failure of the socket is an error of kind `Io`. A datagram whose
/// plaintext is no JSON document is malformed. A document without a value
/// at `[namespace][command]` is unexpected. Else that value is the answer.
pub open spec fn answers(request: Request, outcome: Outcome, answer: Result<Value>) -> bool {
    match outcome {
        Err(failure) => answer matches Err(e) && e.kind_of() == error::ErrorKind::Io(failure),
        Ok(reply) => match json_decoding(decrypted(reply)) {
            None => answer matches Err(e) && e.is_malformed(),
            Some(document) => match reply_result(document, request.target@, request.command@) {
                Some(result) => answer matches Ok(value) && json_of(value) == result,
                None => answer matches Err(e) && e.is_unexpected(),
            },
        },
    }
}

/// Whether `answer` is what sending `request` may give: the exchange ended
/// in some outcome, and `answer` is what the request gets of it.
pub open spec fn asked(request: Request, answer: Result<Value>) -> bool {
    exists|outcome: Outcome| #[trigger] answers(request, outcome, answer)
}

/// The peer reads the request and the request reads the peer: what the
/// peer decrypts of the datagram of a request is the encoding of the
/// request's document; and where the peer answers with the ciphertext of
/// `plain`, bytes that are a JSON document with `result` at
/// `[namespace][command]`, the answer is `result`, not the whole document.
pub proof fn lemma_exchange_end_to_end(
    request: Request,
    plain: Seq<u8>,
    document: Json,
    result: Json,
    answer: Result<Value>,
)
    requires
        json_decoding(plain) == Some(document),
        reply_result(document, request.target@, request.command@) == Some(result),
        answers(request, Ok(encrypted(plain)), answer),
    ensures
        decrypted(encrypted(json_encoding(request.document()))) == json_encoding(
            request.document(),
        ),
        answer matches Ok(value) && json_of(value) == result,
{
    crypto::lemma_decrypt_encrypt(plain);
    crypto::lemma_decrypt_encrypt(json_encoding(request.document()));
}

/// What the caller gets of an exchange: the plaintext of a reply, or the
/// failure of the network as an error of kind `Io`.
pub fn received(outcome: std::result::Result<Vec<u8>, IoFailure>) -> (r: Result<Vec<u8>>)
    ensures
        delivers(outcome_of(outcome), r),
{
    match outcome {
        Ok(reply) => Ok(crypto::decrypt(reply.as_slice())),
        Err(failure) => Err(error::io(failure)),
    }
}

impl Proto {
    /// The address of the device.
    pub fn host(&self) -> (host: Host)
        ensures
            host == self@.addr.host,
    {
        self.addr.host
    }

    /// The address and port of the device.
    pub fn addr(&self) -> (addr: Endpoint)
        ensures
            addr == self@.addr,
    {
        self.addr
    }

    /// The size of the receive buffer.
    pub fn buffer_size(&self) -> (size: usize)
        ensures
            size == self@.buffer_size,
    {
        self.buffer_size
    }

    /// How long a receive waits; `None` waits without end.
    pub fn read_timeout(&self) -> (timeout: Option<Duration>)
        ensures
            timeout == self@.read_timeout,
    {
        self.read_timeout
    }

    /// How long a send waits; `None` waits without end.
    pub fn write_timeout(&self) -> (timeout: Option<Duration>)
        ensures
            timeout == self@.write_timeout,
    {
        self.write_timeout
    }

    /// Whether the socket may send to a broadcast address.
    pub fn broadcast(&self) -> (broadcast: bool)
        ensures
            broadcast == self@.broadcast,
    {
        self.broadcast
    }

    /// How many times each datagram is sent.
    pub fn tolerance(&self) -> (tolerance: u32)
        ensures
            tolerance == self@.tolerance,
    {
        self.tolerance
    }

    /// The copies of a datagram that one exchange sends before it listens: as
    /// many as the tolerance says.
    pub fn copies(&self) -> (copies: Copies)
        ensures
            copies@ == self@.tolerance,
    {
        Copies { unsent: self.tolerance }
    }

    /// The datagram that carries the plaintext `payload`: its ciphertext,
    /// without a length header.
    pub fn datagram(payload: &[u8]) -> (datagram: Vec<u8>)
        ensures
            datagram@ == encrypted(payload@),
    {
        crypto::encrypt(payload)
    }

    /// Sends the plaintext `payload` encrypted and returns the plaintext of
    /// the reply: the socket is handed [`Proto::datagram`], and the result
    /// is what [`received`] makes of what the socket hands back. A failure
    /// of the socket, a timeout included, is an error of kind `Io`; nothing
    /// is tried again.
    pub fn send_bytes<S: Socket>(&self, socket: &S, payload: &[u8]) -> (r: Result<Vec<u8>>)
        ensures
            exists|outcome: Outcome| #[trigger] delivers(outcome, r),
            r matches Err(e) ==> e.is_io(),
    {
        let datagram = Proto::datagram(payload);
        let outcome = socket.exchange(self, datagram.as_slice());
        let r = received(outcome);
        assert(delivers(outcome_of(outcome), r));
        r
    }

    /// The datagram that carries `request`: the ciphertext, without length
    /// header, of the JSON encoding of its document. Every request has one.
    pub fn request_datagram(request: &Request) -> (r: Result<Vec<u8>>)
        ensures
            r matches Ok(datagram) && datagram@ == encrypted(json_encoding(request.document())),
    {
        match request.encode() {
            Ok(payload) => Ok(Proto::datagram(payload.as_slice())),
            Err(e) => Err(e),
        }
    }

    /// Sends `request` and returns the result that the reply holds for it:
    /// the socket is handed [`Proto::request_datagram`], and the answer is
    /// what [`Request::conclude`] makes of what the socket hands back.
    /// Nothing is tried again.
    pub fn send_request<S: Socket>(&self, socket: &S, request: &Request) -> (r: Result<Value>)
        ensures
            asked(*request, r),
            r matches Err(e) ==> e.is_io() || e.is_json(),
    {
        let datagram = match Proto::request_datagram(request) {
            Ok(datagram) => datagram,
            Err(e) => {
                return Err(e);
            },
        };
        let outcome = socket.exchange(self, datagram.as_slice());
        let r = request.conclude(outcome);
        assert(answers(*request, outcome_of(outcome), r));
        r
    }
}

} // verus!
