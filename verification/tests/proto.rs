use serde_json::Value;
use std::cell::RefCell;
use std::collections::VecDeque;
use std::rc::Rc;
use std::time::Duration;
use tplink::cache::Cache;
use tplink::crypto::{decrypt, encrypt};
use tplink::error::{ErrorKind, IoFailure, IoFailureKind, JsonFailure};
use tplink::proto::{
    broadcast_host, received, Builder, Endpoint, Host, Proto, Request, Socket, DEFAULT_BUFFER_SIZE,
    DEFAULT_PORT,
};
use tplink::transport::{CachePolicy, Transport};

/// What a scripted device saw and what it will answer.
struct Script {
    replies: RefCell<VecDeque<Result<String, IoFailureKind>>>,
    seen: RefCell<Vec<String>>,
}

/// A socket whose device is a script: it decrypts what it is sent, notes
/// it, and answers with the next scripted reply, encrypted.
struct Scripted(Rc<Script>);

impl Socket for Scripted {
    fn exchange(&self, _proto: &Proto, datagram: &[u8]) -> Result<Vec<u8>, IoFailure> {
        let plain = String::from_utf8(decrypt(datagram)).unwrap();
        self.0.seen.borrow_mut().push(plain);
        match self.0.replies.borrow_mut().pop_front() {
            Some(Ok(reply)) => Ok(encrypt(reply.as_bytes())),
            Some(Err(kind)) => Err(IoFailure { kind, detail: String::from("scripted failure") }),
            None => Err(IoFailure {
                kind: IoFailureKind::WouldBlock,
                detail: String::from("the script has ended"),
            }),
        }
    }
}

fn script(replies: Vec<Result<&str, IoFailureKind>>) -> Rc<Script> {
    Rc::new(Script {
        replies: RefCell::new(
            replies.into_iter().map(|r| r.map(String::from)).collect(),
        ),
        seen: RefCell::new(Vec::new()),
    })
}

fn device_at_loopback() -> Proto {
    Builder::new(Endpoint { host: Host::V4(0x7F00_0001), port: DEFAULT_PORT }).build()
}

fn parsed(text: &str) -> Value {
    serde_json::from_str(text).unwrap()
}

fn object(key: &str, value: Value) -> Value {
    let mut map = serde_json::Map::new();
    map.insert(String::from(key), value);
    Value::Object(map)
}

#[test]
fn request_without_argument_carries_null() {
    let request = Request::new("system", "get_sysinfo", None);
    assert_eq!(request.target, "system");
    assert_eq!(request.command, "get_sysinfo");
    assert_eq!(request.encode().unwrap(), br#"{"system":{"get_sysinfo":null}}"#.to_vec());
}

#[test]
fn request_with_argument_carries_it() {
    let empty = Request::new("system", "get_sysinfo", Some(parsed("{}")));
    assert_eq!(empty.encode().unwrap(), br#"{"system":{"get_sysinfo":{}}}"#.to_vec());
    let arg = object("delay", Value::from(1u64));
    let request = Request::new("smartlife.iot.common.system", "reboot", Some(arg));
    assert_eq!(
        request.encode().unwrap(),
        br#"{"smartlife.iot.common.system":{"reboot":{"delay":1}}}"#.to_vec()
    );
}

#[test]
fn request_describes_itself() {
    let request = Request::new("emeter", "get_realtime", None);
    assert_eq!(request.describe(), "(emeter, get_realtime)");
}

#[test]
fn extract_finds_the_result_of_the_command() {
    let request = Request::new("system", "get_sysinfo", None);
    let value = request
        .extract(br#"{"system":{"get_sysinfo":{"alias":"Lamp"}},"other":1}"#)
        .unwrap();
    assert_eq!(value, parsed(r#"{"alias":"Lamp"}"#));
}

#[test]
fn extract_refuses_bytes_that_are_no_json() {
    let request = Request::new("system", "get_sysinfo", None);
    let e = request.extract(b"{\"system\":").unwrap_err();
    assert!(matches!(e.kind(), ErrorKind::Json(JsonFailure::Malformed(_))));
    let e = request.extract(b"").unwrap_err();
    assert!(matches!(e.kind(), ErrorKind::Json(JsonFailure::Malformed(_))));
}

#[test]
fn extract_refuses_a_reply_without_the_keys() {
    let request = Request::new("system", "get_sysinfo", None);
    for reply in [
        r#"{"emeter":{"get_sysinfo":{}}}"#,
        r#"{"system":{"get_realtime":{}}}"#,
        r#"{"system":[1,2]}"#,
        r#"[1,2]"#,
        r#""system""#,
        r#"null"#,
    ] {
        let e = request.extract(reply.as_bytes()).unwrap_err();
        assert!(
            matches!(e.kind(), ErrorKind::Json(JsonFailure::Unexpected(_))),
            "{}",
            reply
        );
    }
}

#[test]
fn extract_keeps_a_null_result() {
    let request = Request::new("system", "reboot", None);
    assert_eq!(request.extract(br#"{"system":{"reboot":null}}"#).unwrap(), Value::Null);
}

#[test]
fn datagram_is_the_ciphertext_without_header() {
    assert_eq!(Proto::datagram(b"hello"), vec![195, 166, 202, 166, 201]);
}

#[test]
fn received_decrypts_a_reply_and_wraps_a_failure() {
    assert_eq!(received(Ok(vec![195, 166, 202, 166, 201])).unwrap(), b"hello".to_vec());
    let e = received(Err(IoFailure { kind: IoFailureKind::TimedOut, detail: String::from("late") }))
        .unwrap_err();
    match e.kind() {
        ErrorKind::Io(failure) => {
            assert_eq!(failure.kind, IoFailureKind::TimedOut);
            assert_eq!(failure.detail, "late");
        }
        _ => panic!("an error of kind Io was expected"),
    }
    assert_eq!(e.message(), "late");
}

#[test]
fn builder_defaults() {
    let proto = Builder::new(Endpoint { host: Host::V4(0xC0A8_0164), port: 9999 }).build();
    assert_eq!(proto.host(), Host::V4(0xC0A8_0164));
    assert_eq!(proto.addr(), Endpoint { host: Host::V4(0xC0A8_0164), port: 9999 });
    assert_eq!(proto.buffer_size(), 4096);
    assert_eq!(DEFAULT_BUFFER_SIZE, 4096);
    assert_eq!(DEFAULT_PORT, 9999);
    assert_eq!(proto.read_timeout(), None);
    assert_eq!(proto.write_timeout(), None);
    assert!(!proto.broadcast());
    assert_eq!(proto.tolerance(), 1);
}

#[test]
fn builder_setters_chain() {
    let proto = Builder::new(Endpoint { host: broadcast_host(), port: 1234 })
        .buffer_size(512)
        .read_timeout(Duration::from_secs(5))
        .write_timeout(Duration::from_millis(250))
        .broadcast(true)
        .tolerance(3)
        .build();
    assert_eq!(proto.host(), Host::V4(0xFFFF_FFFF));
    assert_eq!(proto.addr().port, 1234);
    assert_eq!(proto.buffer_size(), 512);
    assert_eq!(proto.read_timeout(), Some(Duration::from_secs(5)));
    assert_eq!(proto.write_timeout(), Some(Duration::from_millis(250)));
    assert!(proto.broadcast());
    assert_eq!(proto.tolerance(), 3);
}

#[test]
fn send_bytes_encrypts_and_decrypts() {
    let device = script(vec![Ok("pong")]);
    let proto = device_at_loopback();
    let reply = proto.send_bytes(&Scripted(device.clone()), b"ping").unwrap();
    assert_eq!(reply, b"pong".to_vec());
    assert_eq!(*device.seen.borrow(), vec![String::from("ping")]);
}

#[test]
fn end_to_end_exchange_returns_the_result_subtree() {
    let device = script(vec![Ok(r#"{"system":{"get_sysinfo":{"alias":"Lamp"}}}"#)]);
    let proto = device_at_loopback();
    let request = Request::new("system", "get_sysinfo", Some(parsed("{}")));
    let value = proto.send_request(&Scripted(device.clone()), &request).unwrap();
    assert_eq!(value, parsed(r#"{"alias":"Lamp"}"#));
    assert_eq!(*device.seen.borrow(), vec![String::from(r#"{"system":{"get_sysinfo":{}}}"#)]);
}

#[test]
fn end_to_end_exchange_with_null_argument() {
    let device = script(vec![Ok(r#"{"system":{"get_sysinfo":{"alias":"Lamp"}}}"#)]);
    let mut transport = Transport::new(device_at_loopback(), Scripted(device.clone()), None);
    let request = Request::new("system", "get_sysinfo", None);
    let value = transport.execute(request, CachePolicy::ReadThrough).unwrap();
    assert_eq!(value, parsed(r#"{"alias":"Lamp"}"#));
    assert_eq!(*device.seen.borrow(), vec![String::from(r#"{"system":{"get_sysinfo":null}}"#)]);
}

#[test]
fn timeout_surfaces_as_io_error() {
    let device = script(vec![Err(IoFailureKind::WouldBlock)]);
    let proto = device_at_loopback();
    let request = Request::new("system", "get_sysinfo", None);
    let e = proto.send_request(&Scripted(device), &request).unwrap_err();
    match e.kind() {
        ErrorKind::Io(failure) => assert_eq!(failure.kind, IoFailureKind::WouldBlock),
        _ => panic!("an error of kind Io was expected"),
    }
}

#[test]
fn unparsable_reply_surfaces_as_json_error() {
    let device = script(vec![Ok("not json")]);
    let proto = device_at_loopback();
    let request = Request::new("system", "get_sysinfo", None);
    let e = proto.send_request(&Scripted(device), &request).unwrap_err();
    assert!(matches!(e.kind(), ErrorKind::Json(JsonFailure::Malformed(_))));
}

#[test]
fn read_through_asks_the_device_once() {
    let device = script(vec![Ok(r#"{"system":{"get_sysinfo":{"n":1}}}"#)]);
    let cache = Some(Cache::with_ttl(Duration::from_secs(60)));
    let mut transport = Transport::new(device_at_loopback(), Scripted(device.clone()), cache);
    let first = transport
        .execute(Request::new("system", "get_sysinfo", None), CachePolicy::ReadThrough)
        .unwrap();
    let again = transport
        .execute(Request::new("system", "get_sysinfo", None), CachePolicy::ReadThrough)
        .unwrap();
    assert_eq!(first, parsed(r#"{"n":1}"#));
    assert_eq!(again, first);
    assert_eq!(device.seen.borrow().len(), 1);
    let cache = transport.cache().as_ref().unwrap();
    assert_eq!(cache.len(), 1);
    assert_eq!(cache.hits(), Some(1));
    assert_eq!(cache.misses(), Some(1));
}

#[test]
fn read_through_serves_the_cached_value_for_another_argument() {
    let device = script(vec![
        Ok(r#"{"emeter":{"get_daystat":{"day_list":[]}}}"#),
        Ok(r#"{"emeter":{"get_daystat":{"day_list":[1]}}}"#),
    ]);
    let cache = Some(Cache::with_ttl(Duration::from_secs(60)));
    let mut transport = Transport::new(device_at_loopback(), Scripted(device.clone()), cache);
    let january = Request::new("emeter", "get_daystat", Some(object("month", Value::from(1u64))));
    let june = Request::new("emeter", "get_daystat", Some(object("month", Value::from(6u64))));
    let first = transport.execute(january, CachePolicy::ReadThrough).unwrap();
    let second = transport.execute(june, CachePolicy::ReadThrough).unwrap();
    assert_eq!(second, first);
    assert_eq!(device.seen.borrow().len(), 1);
}

#[test]
fn failed_read_through_caches_nothing() {
    let device = script(vec![Err(IoFailureKind::Other), Ok(r#"{"a":{"b":2}}"#)]);
    let cache = Some(Cache::with_ttl(Duration::from_secs(60)));
    let mut transport = Transport::new(device_at_loopback(), Scripted(device.clone()), cache);
    assert!(transport.execute(Request::new("a", "b", None), CachePolicy::ReadThrough).is_err());
    assert_eq!(transport.cache().as_ref().unwrap().len(), 0);
    let value = transport.execute(Request::new("a", "b", None), CachePolicy::ReadThrough).unwrap();
    assert_eq!(value, Value::from(2u64));
    assert_eq!(device.seen.borrow().len(), 2);
}

#[test]
fn uncached_leaves_the_cache_alone() {
    let device = script(vec![Ok(r#"{"a":{"b":1}}"#), Ok(r#"{"a":{"b":2}}"#)]);
    let cache = Some(Cache::with_ttl(Duration::from_secs(60)));
    let mut transport = Transport::new(device_at_loopback(), Scripted(device.clone()), cache);
    transport.execute(Request::new("a", "b", None), CachePolicy::ReadThrough).unwrap();
    let value = transport.execute(Request::new("a", "b", None), CachePolicy::Uncached).unwrap();
    assert_eq!(value, Value::from(2u64));
    assert_eq!(transport.cache().as_ref().unwrap().len(), 1);
}

#[test]
fn invalidate_on_write_drops_the_namespace_before_asking() {
    let device = script(vec![
        Ok(r#"{"a":{"get":1}}"#),
        Ok(r#"{"b":{"get":2}}"#),
        Err(IoFailureKind::Other),
        Ok(r#"{"a":{"get":3}}"#),
    ]);
    let cache = Some(Cache::with_ttl(Duration::from_secs(60)));
    let mut transport = Transport::new(device_at_loopback(), Scripted(device.clone()), cache);
    transport.execute(Request::new("a", "get", None), CachePolicy::ReadThrough).unwrap();
    transport.execute(Request::new("b", "get", None), CachePolicy::ReadThrough).unwrap();
    // the write fails on the wire; the namespace is invalidated all the same
    assert!(transport
        .execute(Request::new("a", "set", None), CachePolicy::InvalidateNamespace)
        .is_err());
    assert_eq!(transport.cache().as_ref().unwrap().len(), 1);
    let a = transport.execute(Request::new("a", "get", None), CachePolicy::ReadThrough).unwrap();
    assert_eq!(a, Value::from(3u64));
    let b = transport.execute(Request::new("b", "get", None), CachePolicy::ReadThrough).unwrap();
    assert_eq!(b, Value::from(2u64));
    assert_eq!(device.seen.borrow().len(), 4);
}

#[test]
fn invalidate_all_drops_every_namespace() {
    let device = script(vec![
        Ok(r#"{"a":{"get":1}}"#),
        Ok(r#"{"b":{"get":2}}"#),
        Ok(r#"{"system":{"reboot":{"err_code":0}}}"#),
    ]);
    let cache = Some(Cache::with_ttl(Duration::from_secs(60)));
    let mut transport = Transport::new(device_at_loopback(), Scripted(device.clone()), cache);
    transport.execute(Request::new("a", "get", None), CachePolicy::ReadThrough).unwrap();
    transport.execute(Request::new("b", "get", None), CachePolicy::ReadThrough).unwrap();
    transport.execute(Request::new("system", "reboot", None), CachePolicy::InvalidateAll).unwrap();
    assert_eq!(transport.cache().as_ref().unwrap().len(), 0);
}

#[test]
fn transport_invalidate_is_by_namespace() {
    let device = script(vec![Ok(r#"{"a":{"get":1}}"#), Ok(r#"{"b":{"get":2}}"#)]);
    let cache = Some(Cache::with_ttl(Duration::from_secs(60)));
    let mut transport = Transport::new(device_at_loopback(), Scripted(device), cache);
    transport.execute(Request::new("a", "get", None), CachePolicy::ReadThrough).unwrap();
    transport.execute(Request::new("b", "get", None), CachePolicy::ReadThrough).unwrap();
    transport.invalidate("a");
    assert_eq!(transport.cache().as_ref().unwrap().len(), 1);
    assert_eq!(transport.proto().tolerance(), 1);
}

#[test]
fn request_datagram_is_the_encrypted_encoding() {
    let request = Request::new("system", "get_sysinfo", None);
    let datagram = Proto::request_datagram(&request).unwrap();
    assert_eq!(decrypt(&datagram), request.encode().unwrap());
    assert_eq!(datagram, encrypt(br#"{"system":{"get_sysinfo":null}}"#));
}

#[test]
fn conclude_makes_the_answer_of_the_outcome() {
    let request = Request::new("system", "get_sysinfo", None);
    let reply = encrypt(br#"{"system":{"get_sysinfo":{"alias":"Lamp"}}}"#);
    assert_eq!(request.conclude(Ok(reply)).unwrap(), parsed(r#"{"alias":"Lamp"}"#));
    let e = request
        .conclude(Err(IoFailure { kind: IoFailureKind::Other, detail: String::from("down") }))
        .unwrap_err();
    assert!(matches!(e.kind(), ErrorKind::Io(_)));
    let e = request.conclude(Ok(encrypt(b"{}"))).unwrap_err();
    assert!(matches!(e.kind(), ErrorKind::Json(JsonFailure::Unexpected(_))));
    // a reply that was not encrypted does not decrypt to JSON
    let e = request.conclude(Ok(br#"{"system":{"get_sysinfo":{}}}"#.to_vec())).unwrap_err();
    assert!(matches!(e.kind(), ErrorKind::Json(JsonFailure::Malformed(_))));
}

#[test]
fn copies_are_pending_until_all_went_out() {
    let proto = Builder::new(Endpoint { host: Host::V4(1), port: 9999 }).tolerance(2).build();
    let mut copies = proto.copies();
    assert!(copies.pending());
    copies.sent();
    assert!(copies.pending());
    copies.sent();
    assert!(!copies.pending());
    copies.sent();
    assert!(!copies.pending());
    assert!(device_at_loopback().copies().pending());
    let none = Builder::new(Endpoint { host: Host::V4(1), port: 9999 }).tolerance(0).build();
    assert!(!none.copies().pending());
}

#[test]
fn every_request_can_be_written() {
    let odd = Request::new("", "\u{0}\"\\\n", Some(parsed(r#"[1.5e300,-0.0,{"":null}]"#)));
    assert_eq!(
        String::from_utf8(odd.encode().unwrap()).unwrap(),
        r#"{"":{"\u0000\"\\\n":[1.5e+300,-0.0,{"":null}]}}"#
    );
    assert!(Proto::request_datagram(&odd).is_ok());
}

#[test]
fn execute_at_hits_exactly_while_the_entry_is_valid() {
    const SECOND: u128 = 1_000_000_000;
    let device = script(vec![Ok(r#"{"a":{"b":1}}"#), Ok(r#"{"a":{"b":2}}"#), Ok(r#"{"a":{"b":3}}"#)]);
    let cache = Some(Cache::with_ttl(Duration::from_secs(3)));
    let mut transport = Transport::new(device_at_loopback(), Scripted(device.clone()), cache);
    let ask = |transport: &mut Transport<Scripted>, looked: u128, stored_at: u128| {
        transport
            .execute_at(Request::new("a", "b", None), CachePolicy::ReadThrough, looked, stored_at)
            .unwrap()
    };
    // a miss: the device is asked and its result stored at 11 s
    assert_eq!(ask(&mut transport, 10 * SECOND, 11 * SECOND), Value::from(1u64));
    // one nanosecond before the entry expires
    assert_eq!(ask(&mut transport, 14 * SECOND - 1, 14 * SECOND), Value::from(1u64));
    assert_eq!(device.seen.borrow().len(), 1);
    // exactly the time to live after the stamp
    assert_eq!(ask(&mut transport, 14 * SECOND, 20 * SECOND), Value::from(2u64));
    assert_eq!(device.seen.borrow().len(), 2);
    assert_eq!(ask(&mut transport, 22 * SECOND, 22 * SECOND), Value::from(2u64));
    // the other policies take no reading
    let fresh = transport
        .execute_at(Request::new("a", "b", None), CachePolicy::Uncached, 0, 0)
        .unwrap();
    assert_eq!(fresh, Value::from(3u64));
    let cache = transport.cache().as_ref().unwrap();
    assert_eq!((cache.hits(), cache.misses(), cache.len()), (Some(2), Some(2), 1));
}
