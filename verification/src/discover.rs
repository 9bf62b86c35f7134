//! The discovery sweep: one broadcast probe, the replies of whoever answers
//! until the network falls silent, and what kind of device each reply
//! describes.
//!
//! The sweep is written as a state machine. Whoever owns the socket does
//! what the sweep says next, sending a copy of the probe or waiting for a
//! datagram, and hands each outcome to [`Sweep::on_event`], which says what
//! to do then. The probe goes out as many times as the settings say before
//! the sweep listens for the first time.

use vstd::prelude::*;
use vstd::string::StringSliceAdditionalSpecFns;
use vstd::utf8::encode_utf8;
use serde_json::Value;
use crate::clock;
use crate::crypto;
use crate::crypto::{decrypted, encrypted};
use crate::error;
use crate::error::{Error, ErrorKind, IoFailure, IoFailureKind, Result};
use crate::json;
use crate::json::{empty_object, json_decoding, json_encoding, json_of, json_text, lowercased, Json};
use crate::proto::{
    broadcast_host,
    reply_result,
    unsent_after,
    Builder,
    Endpoint,
    Host,
    Proto,
    DEFAULT_BUFFER_SIZE,
    DEFAULT_PORT,
};
use crate::util::{contains, occurs_in};

verus! {

/// Types of smart-home devices.
#[derive(Clone, Copy, Debug, PartialEq, Eq, Structural)]
pub enum DeviceKind {
    /// A smart plug.
    Plug,
    /// A smart bulb.
    Bulb,
    /// A power strip: a plug with child outlets.
    Strip,
    /// Any other device that answered the probe.
    Unknown,
}

/// How many times the probe is sent, against loss on the way.
pub const PROBE_COPIES: u32 = 3;

/// The read and write timeout of a sweep, in seconds.
pub const SWEEP_TIMEOUT_SECS: u64 = 3;

/// The probe: one document that asks, namespace by namespace, for what a
/// plug or a bulb can tell about itself. A device answers the namespaces it
/// knows and ignores the others.
pub open spec fn probe_document() -> Json {
    empty_object().with("system"@, empty_object().with("get_sysinfo"@, empty_object())).with(
        "emeter"@,
        empty_object().with("get_realtime"@, empty_object()),
    ).with(
        "smartlife.iot.dimmer"@,
        empty_object().with("get_dimmer_parameters"@, empty_object()),
    ).with(
        "smartlife.iot.common.emeter"@,
        empty_object().with("get_realtime"@, empty_object()),
    ).with(
        "smartlife.iot.smartbulb.lightingservice"@,
        empty_object().with("get_light_state"@, empty_object()),
    )
}

/// The object `{"<command>": {}}`.
fn query(command: &str) -> (value: Value)
    ensures
        json_of(value) == empty_object().with(command@, empty_object()),
{
    let mut value = json::new_object();
    json::set_member(&mut value, command, json::new_object());
    value
}

/// The plaintext of the probe: the JSON encoding of [`probe_document`].
pub fn probe() -> (r: Result<Vec<u8>>)
    ensures
        r matches Ok(bytes) && bytes@ == json_encoding(probe_document()),
{
    let mut document = json::new_object();
    json::set_member(&mut document, "system", query("get_sysinfo"));
    json::set_member(&mut document, "emeter", query("get_realtime"));
    json::set_member(&mut document, "smartlife.iot.dimmer", query("get_dimmer_parameters"));
    json::set_member(&mut document, "smartlife.iot.common.emeter", query("get_realtime"));
    json::set_member(
        &mut document,
        "smartlife.iot.smartbulb.lightingservice",
        query("get_light_state"),
    );
    match json::to_bytes(&document) {
        Ok(bytes) => Ok(bytes),
        Err(failure) => Err(error::json(failure)),
    }
}

/// The datagram that opens a sweep: the probe, encrypted without header.
/// It is sent to the broadcast address as many times as
/// [`sweep_settings`] says, before the first receive.
pub fn probe_datagram() -> (r: Result<Vec<u8>>)
    ensures
        r matches Ok(datagram) && datagram@ == encrypted(json_encoding(probe_document())),
{
    match probe() {
        Ok(plain) => Ok(Proto::datagram(plain.as_slice())),
        Err(e) => Err(e),
    }
}

/// The settings of a sweep: the broadcast address at the default port,
/// broadcast enabled, three seconds to read and to write, the probe sent
/// three times.
pub fn sweep_settings() -> (proto: Proto)
    ensures
        proto@.addr == (Endpoint { host: Host::V4(0xFFFF_FFFF), port: DEFAULT_PORT }),
        proto@.buffer_size == DEFAULT_BUFFER_SIZE,
        proto@.broadcast,
        proto@.tolerance == PROBE_COPIES,
        proto@.read_timeout matches Some(d) && clock::duration_nanos(d) == SWEEP_TIMEOUT_SECS
            * clock::NANOS_PER_SEC,
        proto@.write_timeout matches Some(d) && clock::duration_nanos(d) == SWEEP_TIMEOUT_SECS
            * clock::NANOS_PER_SEC,
{
    let mut builder = Builder::new(Endpoint { host: broadcast_host(), port: DEFAULT_PORT });
    builder.broadcast(true);
    builder.read_timeout(clock::from_secs(SWEEP_TIMEOUT_SECS));
    builder.write_timeout(clock::from_secs(SWEEP_TIMEOUT_SECS));
    builder.tolerance(PROBE_COPIES);
    builder.build()
}

/// The kind of a device by its type indicator, in lower case, and by
/// whether it reports child outlets.
pub open spec fn kind_for(device_type: Seq<u8>, has_children: bool) -> DeviceKind {
    if occurs_in("plug".spec_bytes(), device_type) {
        if has_children {
            DeviceKind::Strip
        } else {
            DeviceKind::Plug
        }
    } else if occurs_in("bulb".spec_bytes(), device_type) {
        DeviceKind::Bulb
    } else {
        DeviceKind::Unknown
    }
}

/// Classifies a device by its type indicator, which is expected in lower
/// case, and by whether its system information has a `children` field.
///
/// An indicator that contains "plug" is a power strip with children and a
/// plug without. Otherwise one that contains "bulb" is a bulb. Anything
/// else is unknown.
pub fn classify(device_type: &str, has_children: bool) -> (kind: DeviceKind)
    ensures
        kind == kind_for(device_type.spec_bytes(), has_children),
{
    if contains(device_type, "plug") {
        if has_children {
            DeviceKind::Strip
        } else {
            DeviceKind::Plug
        }
    } else if contains(device_type, "bulb") {
        DeviceKind::Bulb
    } else {
        DeviceKind::Unknown
    }
}

/// The system information in a reply to the probe.
pub open spec fn sysinfo_of(reply: Json) -> Option<Json> {
    reply_result(reply, "system"@, "get_sysinfo"@)
}

/// The field of the system information that tells the type of the device:
/// `type`, or else `mic_type`.
pub open spec fn type_indicator(sysinfo: Json) -> Option<Json> {
    match sysinfo.get("type"@) {
        Some(indicator) => Some(indicator),
        None => sysinfo.get("mic_type"@),
    }
}

/// The kind of the device that sent `reply`; `None` for a reply without
/// system information or without a type indicator.
///
/// The indicator is taken as the JSON text of the field, in lower case.
pub open spec fn device_kind(reply: Json) -> Option<DeviceKind> {
    match sysinfo_of(reply) {
        None => None,
        Some(sysinfo) => match type_indicator(sysinfo) {
            None => None,
            Some(indicator) => Some(
                kind_for(
                    encode_utf8(lowercased(json_text(indicator))),
                    sysinfo.get("children"@) is Some,
                ),
            ),
        },
    }
}

/// The system information in a reply to the probe, if it has any.
fn sysinfo_in<'a>(reply: &'a Value) -> (r: Option<&'a Value>)
    ensures
        match r {
            Some(sysinfo) => sysinfo_of(json_of(*reply)) == Some(json_of(*sysinfo)),
            None => sysinfo_of(json_of(*reply)) is None,
        },
{
    match json::member(reply, "system") {
        Some(system) => json::member(system, "get_sysinfo"),
        None => None,
    }
}

/// The kind of the device that sent the reply `value`. A reply without
/// system information or without a type indicator is a serialization error.
pub fn device_from(value: &Value) -> (r: Result<DeviceKind>)
    ensures
        match device_kind(json_of(*value)) {
            Some(kind) => r matches Ok(k) && k == kind,
            None => r matches Err(e) && e.is_unexpected(),
        },
{
    let sysinfo = match sysinfo_in(value) {
        Some(sysinfo) => sysinfo,
        None => {
            return Err(error::unexpected("invalid discovery response received"));
        },
    };
    let indicator = match json::member(sysinfo, "type") {
        Some(indicator) => indicator,
        None => match json::member(sysinfo, "mic_type") {
            Some(indicator) => indicator,
            None => {
                return Err(error::unexpected("invalid discovery response received"));
            },
        },
    };
    let device_type = json::lowercase(json::to_text(indicator).as_str());
    let has_children = json::member(sysinfo, "children").is_some();
    Ok(classify(device_type.as_str(), has_children))
}

/// One reply to the probe: who sent it, and its plaintext.
pub struct Response {
    pub from: Host,
    pub payload: Vec<u8>,
}

/// A reply to the probe, as contracts see it.
pub struct Reply {
    pub from: Host,
    pub payload: Seq<u8>,
}

/// Whether `replies` holds one from `host`.
pub open spec fn heard_from(replies: Seq<Reply>, host: Host) -> bool {
    exists|i: int| 0 <= i < replies.len() && (#[trigger] replies[i]).from == host
}

/// The replies after one more datagram arrived: the first reply of each
/// sender is kept, and a later one from the same sender is dropped.
pub open spec fn recorded(replies: Seq<Reply>, from: Host, datagram: Seq<u8>) -> Seq<Reply> {
    if heard_from(replies, from) {
        replies
    } else {
        replies.push(Reply { from, payload: decrypted(datagram) })
    }
}

/// No two replies come from the same sender.
pub open spec fn one_per_sender(replies: Seq<Reply>) -> bool {
    forall|i: int, j: int|
        0 <= i < j < replies.len() ==> (#[trigger] replies[i]).from != (#[trigger] replies[j]).from
}

/// What the socket reported of the step that the sweep asked for.
pub enum Event {
    /// A copy of the probe went out.
    Sent,
    /// A datagram arrived from `from`.
    Received { from: Host, datagram: Vec<u8> },
    /// The send or the receive failed.
    Failed(IoFailure),
}

/// What the owner of the socket does next.
pub enum Next {
    /// Send one copy of the probe to the broadcast address and report the
    /// outcome.
    Send,
    /// Receive and report the outcome.
    Listen,
    /// The sweep is complete: nothing more arrived within the read timeout.
    Finished,
    /// The sweep failed as a whole.
    Aborted(Error),
}

/// A sweep: the copies of the probe that are still to be sent, and the
/// replies gathered, in the order of arrival, one per sender.
pub struct Sweep {
    responses: Vec<Response>,
    unsent: u32,
}

/// Whether `next` is the step of a sweep that neither ended nor failed:
/// send while a copy of the probe is still to be sent, and listen once none
/// is.
pub open spec fn goes_on(next: Next, unsent: nat) -> bool {
    if unsent > 0 {
        next is Send
    } else {
        next is Listen
    }
}

/// Whether `next` is what a failure of the socket leads to: the sweep is
/// complete where a receive found nothing within the read timeout, and
/// fails as a whole, with the failure as an error of kind `Io`, on any
/// other failure of a receive and on every failure of a send.
pub open spec fn gives_up(next: Next, unsent: nat, failure: IoFailure) -> bool {
    if unsent == 0 && failure.kind == IoFailureKind::WouldBlock {
        next is Finished
    } else {
        next matches Next::Aborted(e) && e.kind_of() == ErrorKind::Io(failure)
    }
}

/// The reply as contracts see it.
pub open spec fn reply_of(response: Response) -> Reply {
    Reply { from: response.from, payload: response.payload@ }
}

impl View for Sweep {
    type V = Seq<Reply>;

    closed spec fn view(&self) -> Seq<Reply> {
        self.responses@.map_values(|response: Response| reply_of(response))
    }
}

impl Sweep {
    #[verifier::type_invariant]
    spec fn well_formed(self) -> bool {
        one_per_sender(self@)
    }

    /// A sweep that has heard nothing yet.
    pub fn new() -> (sweep: Sweep)
        ensures
            sweep@ == Seq::<Reply>::empty(),
            sweep.unsent() == 0,
    {
        let sweep = Sweep { responses: Vec::new(), unsent: 0 };
        assert(sweep@ =~= Seq::<Reply>::empty());
        sweep
    }

    /// How many copies of the probe are still to be sent.
    pub closed spec fn unsent(&self) -> nat {
        self.unsent as nat
    }

    /// A sweep with the settings `proto` that has sent and heard nothing
    /// yet: the probe is to be sent as many times as the tolerance says.
    pub fn begin(proto: &Proto) -> (sweep: Sweep)
        ensures
            sweep@ == Seq::<Reply>::empty(),
            sweep.unsent() == proto@.tolerance,
    {
        let sweep = Sweep { responses: Vec::new(), unsent: proto.tolerance() };
        assert(sweep@ =~= Seq::<Reply>::empty());
        sweep
    }

    /// The step that the sweep is at: send while a copy of the probe is
    /// still to be sent, listen once none is.
    pub fn next(&self) -> (next: Next)
        ensures
            goes_on(next, self.unsent()),
    {
        if self.unsent > 0 {
            Next::Send
        } else {
            Next::Listen
        }
    }

    /// Whether a reply from `host` was recorded.
    fn has_heard_from(&self, host: Host) -> (r: bool)
        ensures
            r == heard_from(self@, host),
    {
        let mut i: usize = 0;
        while i < self.responses.len()
            invariant
                i <= self.responses@.len(),
                self@.len() == self.responses@.len(),
                forall|j: int| 0 <= j < i ==> (#[trigger] self@[j]).from != host,
            decreases self.responses@.len() - i,
        {
            if self.responses[i].from == host {
                assert(self@[i as int].from == host);
                return true;
            }
            i += 1;
        }
        false
    }

    /// Records the datagram that arrived from `from`: its plaintext is kept
    /// if it is the first from that sender, and dropped if not.
    pub fn record(&mut self, from: Host, datagram: &[u8])
        ensures
            final(self)@ == recorded(old(self)@, from, datagram@),
            final(self).unsent() == old(self).unsent(),
    {
        proof {
            use_type_invariant(&*self);
        }
        if !self.has_heard_from(from) {
            let payload = crypto::decrypt(datagram);
            let ghost before = self@;
            let mut responses: Vec<Response> = Vec::new();
            core::mem::swap(&mut self.responses, &mut responses);
            responses.push(Response { from, payload });
            proof {
                let after = responses@.map_values(|response: Response| reply_of(response));
                assert(after =~= before.push(Reply { from, payload: decrypted(datagram@) }));
                assert forall|i: int, j: int| 0 <= i < j < after.len() implies (
                #[trigger] after[i]).from != (#[trigger] after[j]).from by {
                    assert(after[i] == before[i]);
                    if j < before.len() {
                        assert(after[j] == before[j]);
                    }
                }
            }
            self.responses = responses;
        }
    }

    /// Takes in what the socket reported and says what to do next.
    ///
    /// A copy of the probe that went out is one less to send. A datagram is
    /// recorded as by [`Sweep::record`]. After either, the sweep sends while
    /// a copy is still to be sent and listens once none is: the probe goes
    /// out as many times as the settings say before the first receive. A
    /// receive that found nothing within the read timeout ends the sweep.
    /// Any other failure, and every failure of a send, aborts it with an
    /// error of kind `Io`.
    pub fn on_event(&mut self, event: Event) -> (next: Next)
        ensures
            match event {
                Event::Sent => {
                    &&& final(self)@ == old(self)@
                    &&& final(self).unsent() == unsent_after(old(self).unsent(), 1)
                    &&& goes_on(next, final(self).unsent())
                },
                Event::Received { from, datagram } => {
                    &&& final(self)@ == recorded(old(self)@, from, datagram@)
                    &&& final(self).unsent() == old(self).unsent()
                    &&& goes_on(next, final(self).unsent())
                },
                Event::Failed(failure) => {
                    &&& final(self)@ == old(self)@
                    &&& final(self).unsent() == old(self).unsent()
                    &&& gives_up(next, old(self).unsent(), failure)
                },
            },
    {
        match event {
            Event::Sent => {
                proof {
                    use_type_invariant(&*self);
                }
                if self.unsent > 0 {
                    self.unsent = self.unsent - 1;
                }
                self.next()
            },
            Event::Received { from, datagram } => {
                self.record(from, datagram.as_slice());
                self.next()
            },
            Event::Failed(failure) => {
                if self.unsent == 0 && failure.kind == IoFailureKind::WouldBlock {
                    Next::Finished
                } else {
                    Next::Aborted(error::io(failure))
                }
            },
        }
    }

    /// The number of replies recorded.
    pub fn len(&self) -> (n: usize)
        ensures
            n == self@.len(),
    {
        self.responses.len()
    }

    /// The replies recorded, in the order of arrival, one per sender.
    pub fn responses(&self) -> (responses: &Vec<Response>)
        ensures
            one_per_sender(self@),
            responses@.len() == self@.len(),
            forall|i: int|
                0 <= i < self@.len() ==> (#[trigger] self@[i]).from == responses@[i].from
                    && self@[i].payload == responses@[i].payload@,
    {
        proof {
            use_type_invariant(self);
        }
        &self.responses
    }
}

/// The first reply of a sender stays: a second datagram from the same
/// sender changes nothing, whatever it holds.
pub proof fn lemma_first_reply_wins(
    replies: Seq<Reply>,
    from: Host,
    first: Seq<u8>,
    second: Seq<u8>,
)
    ensures
        recorded(recorded(replies, from, first), from, second) == recorded(replies, from, first),
{
    let once = recorded(replies, from, first);
    if !heard_from(replies, from) {
        assert(once[replies.len() as int].from == from);
    }
}

/// Recording keeps the replies one per sender.
pub proof fn lemma_recorded_one_per_sender(replies: Seq<Reply>, from: Host, datagram: Seq<u8>)
    requires
        one_per_sender(replies),
    ensures
        one_per_sender(recorded(replies, from, datagram)),
{
    let after = recorded(replies, from, datagram);
    assert forall|i: int, j: int| 0 <= i < j < after.len() implies (#[trigger] after[i]).from != (
    #[trigger] after[j]).from by {
        if !heard_from(replies, from) {
            assert(after[i] == replies[i]);
            if j < replies.len() {
                assert(after[j] == replies[j]);
            }
        }
    }
}

/// A device that a sweep found.
pub struct Discovered {
    /// The address that the reply came from.
    pub host: Host,
    /// What kind of device it is.
    pub kind: DeviceKind,
    /// The system information that the device reported.
    pub sysinfo: Value,
}

/// A device that a sweep found, as contracts see it.
pub struct Found {
    pub host: Host,
    pub kind: DeviceKind,
    pub sysinfo: Json,
}

/// The device that a reply describes; `None` for a reply that is no JSON
/// document, has no system information, or has no type indicator.
pub open spec fn found_in(reply: Reply) -> Option<Found> {
    match json_decoding(reply.payload) {
        None => None,
        Some(document) => match (device_kind(document), sysinfo_of(document)) {
            (Some(kind), Some(sysinfo)) => Some(Found { host: reply.from, kind, sysinfo }),
            _ => None,
        },
    }
}

/// The devices that `replies` describe, in the same order. A reply that
/// describes none is left out.
pub open spec fn devices_in(replies: Seq<Reply>) -> Seq<Found>
    decreases replies.len(),
{
    if replies.len() == 0 {
        Seq::empty()
    } else {
        let before = devices_in(replies.drop_last());
        match found_in(replies.last()) {
            Some(found) => before.push(found),
            None => before,
        }
    }
}

/// The device as contracts see it.
pub open spec fn found_of(device: Discovered) -> Found {
    Found { host: device.host, kind: device.kind, sysinfo: json_of(device.sysinfo) }
}

/// The device that one reply describes, if it describes one.
pub fn inspect(response: &Response) -> (r: Option<Discovered>)
    ensures
        match r {
            Some(device) => found_in(reply_of(*response)) == Some(found_of(device)),
            None => found_in(reply_of(*response)) is None,
        },
{
    let document = match json::parse(response.payload.as_slice()) {
        Ok(document) => document,
        Err(_) => {
            return None;
        },
    };
    let kind = match device_from(&document) {
        Ok(kind) => kind,
        Err(_) => {
            return None;
        },
    };
    match sysinfo_in(&document) {
        Some(sysinfo) => Some(Discovered { host: response.from, kind, sysinfo: sysinfo.clone() }),
        None => None,
    }
}

/// The senders of the replies that describe no device, in the same order.
pub open spec fn senders_skipped(replies: Seq<Reply>) -> Seq<Host>
    decreases replies.len(),
{
    if replies.len() == 0 {
        Seq::empty()
    } else {
        let before = senders_skipped(replies.drop_last());
        match found_in(replies.last()) {
            Some(_) => before,
            None => before.push(replies.last().from),
        }
    }
}

/// Every reply either describes a device or is skipped.
pub proof fn lemma_found_or_skipped(replies: Seq<Reply>)
    ensures
        devices_in(replies).len() + senders_skipped(replies).len() == replies.len(),
    decreases replies.len(),
{
    if replies.len() > 0 {
        lemma_found_or_skipped(replies.drop_last());
    }
}

/// The senders whose reply [`discover`] skips, in the order of arrival:
/// those whose reply is no JSON document, has no system information, or has
/// no type indicator. They are what a diagnostic about a sweep names.
pub fn skipped(sweep: &Sweep) -> (hosts: Vec<Host>)
    ensures
        hosts@ == senders_skipped(sweep@),
{
    let responses = sweep.responses();
    let ghost replies = sweep@;
    let mut hosts: Vec<Host> = Vec::new();
    let mut i: usize = 0;
    assert(replies.take(0) =~= Seq::<Reply>::empty());
    while i < responses.len()
        invariant
            i <= responses@.len(),
            responses@.len() == replies.len(),
            forall|p: int|
                0 <= p < replies.len() ==> (#[trigger] replies[p]) == reply_of(responses@[p]),
            hosts@ == senders_skipped(replies.take(i as int)),
        decreases responses@.len() - i,
    {
        proof {
            assert(replies.take(i + 1).drop_last() =~= replies.take(i as int));
            assert(replies.take(i + 1).last() == replies[i as int]);
        }
        if inspect(&responses[i]).is_none() {
            hosts.push(responses[i].from);
        }
        i += 1;
    }
    assert(replies.take(i as int) =~= replies);
    hosts
}

/// Classifies what a sweep gathered: one device for each reply that
/// describes one, in the order of arrival. A malformed reply is skipped and
/// does not affect the others. No two devices share an address.
pub fn discover(sweep: &Sweep) -> (devices: Vec<Discovered>)
    ensures
        devices@.map_values(|device: Discovered| found_of(device)) == devices_in(sweep@),
        forall|i: int, j: int|
            0 <= i < j < devices@.len() ==> (#[trigger] devices@[i]).host != (
            #[trigger] devices@[j]).host,
{
    proof {
        use_type_invariant(sweep);
    }
    let responses = sweep.responses();
    let ghost replies = sweep@;
    let mut devices: Vec<Discovered> = Vec::new();
    let mut i: usize = 0;
    assert(replies.take(0) =~= Seq::<Reply>::empty());
    while i < responses.len()
        invariant
            i <= responses@.len(),
            responses@.len() == replies.len(),
            one_per_sender(replies),
            forall|p: int|
                0 <= p < replies.len() ==> (#[trigger] replies[p]) == reply_of(responses@[p]),
            devices@.map_values(|device: Discovered| found_of(device)) == devices_in(
                replies.take(i as int),
            ),
            forall|a: int|
                0 <= a < devices@.len() ==> exists|p: int|
                    0 <= p < i && (#[trigger] replies[p]).from == (#[trigger] devices@[a]).host,
            forall|a: int, b: int|
                0 <= a < b < devices@.len() ==> (#[trigger] devices@[a]).host != (
                #[trigger] devices@[b]).host,
        decreases responses@.len() - i,
    {
        let ghost before = devices@;
        let found = inspect(&responses[i]);
        proof {
            assert(replies.take(i + 1).drop_last() =~= replies.take(i as int));
            assert(replies.take(i + 1).last() == replies[i as int]);
        }
        match found {
            Some(device) => {
                devices.push(device);
                proof {
                    assert(devices@.map_values(|device: Discovered| found_of(device))
                        =~= before.map_values(|device: Discovered| found_of(device)).push(
                        found_of(device),
                    ));
                    assert forall|a: int| 0 <= a < devices@.len() implies exists|p: int|
                        0 <= p < i + 1 && (#[trigger] replies[p]).from == (
                        #[trigger] devices@[a]).host by {
                        if a < before.len() {
                            let p = choose|p: int|
                                0 <= p < i && (#[trigger] replies[p]).from == before[a].host;
                            assert(replies[p].from == devices@[a].host);
                        } else {
                            assert(replies[i as int].from == devices@[a].host);
                        }
                    }
                    assert forall|a: int, b: int| 0 <= a < b < devices@.len() implies (
                    #[trigger] devices@[a]).host != (#[trigger] devices@[b]).host by {
                        if b == before.len() {
                            let p = choose|p: int|
                                0 <= p < i && (#[trigger] replies[p]).from == before[a].host;
                            assert(replies[p].from != replies[i as int].from);
                        }
                    }
                }
            },
            None => {
                proof {
                    assert forall|a: int| 0 <= a < devices@.len() implies exists|p: int|
                        0 <= p < i + 1 && (#[trigger] replies[p]).from == (
                        #[trigger] devices@[a]).host by {
                        let p = choose|p: int|
                            0 <= p < i && (#[trigger] replies[p]).from == before[a].host;
                        assert(replies[p].from == devices@[a].host);
                    }
                }
            },
        }
        i += 1;
    }
    assert(replies.take(i as int) =~= replies);
    devices
}

} // verus!
