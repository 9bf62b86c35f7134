use serde_json::Value;
use std::cell::RefCell;
use std::collections::VecDeque;
use std::rc::Rc;
use std::time::Duration;
use tplink::config::Config;
use tplink::emeter::RealtimeStats;
use tplink::error::{ErrorKind, IoFailure, IoFailureKind, JsonFailure};
use tplink::plug::hs100::{HS100Info, Location, HS100};
use tplink::proto::{Host, Proto, Socket};
use tplink::timer::{rule_id, Rule, RuleList};
use tplink::Plug;

struct Outlet {
    replies: RefCell<VecDeque<Result<String, IoFailureKind>>>,
    seen: RefCell<Vec<String>>,
}

struct Plugged(Rc<Outlet>);

impl Socket for Plugged {
    fn exchange(&self, _proto: &Proto, datagram: &[u8]) -> Result<Vec<u8>, IoFailure> {
        let plain = String::from_utf8(tplink::crypto::decrypt(datagram)).unwrap();
        self.0.seen.borrow_mut().push(plain);
        match self.0.replies.borrow_mut().pop_front() {
            Some(Ok(reply)) => Ok(tplink::crypto::encrypt(reply.as_bytes())),
            Some(Err(kind)) => Err(IoFailure { kind, detail: String::from("scripted failure") }),
            None => Err(IoFailure {
                kind: IoFailureKind::WouldBlock,
                detail: String::from("the script has ended"),
            }),
        }
    }
}

fn plug_info(relay: u8, led_off: u8, feature: &str) -> String {
    format!(
        "{{\"system\":{{\"get_sysinfo\":{{\"sw_ver\":\"1.2.5\",\"hw_ver\":\"2.0\",\
         \"model\":\"HS110(EU)\",\"type\":\"IOT.SMARTPLUGSWITCH\",\"mac\":\"AC:84:C6:00:00:00\",\
         \"alias\":\"Desk\",\"relay_state\":{},\"rssi\":-61,\"longitude_i\":-1220000,\
         \"latitude_i\":374000,\"led_off\":{},\"feature\":\"{}\",\"on_time\":12}}}}}}",
        relay, led_off, feature
    )
}

fn done(ns: &str, command: &str) -> Result<String, IoFailureKind> {
    Ok(format!("{{\"{}\":{{\"{}\":{{\"err_code\":0}}}}}}", ns, command))
}

fn outlet(replies: Vec<Result<String, IoFailureKind>>) -> Rc<Outlet> {
    Rc::new(Outlet { replies: RefCell::new(replies.into_iter().collect()), seen: RefCell::new(Vec::new()) })
}

fn cached_plug(replies: Vec<Result<String, IoFailureKind>>) -> (Plug<HS100<Plugged>>, Rc<Outlet>) {
    let wire = outlet(replies);
    let config = Config::for_host(Host::V4(0xC0A8_0164))
        .with_cache_enabled(Duration::from_secs(60), Some(8))
        .build();
    (Plug::with_config(config, Plugged(wire.clone())), wire)
}

fn sent(wire: &Rc<Outlet>) -> Vec<String> {
    wire.seen.borrow().clone()
}

#[test]
fn plug_identity_and_state() {
    let (mut plug, wire) = cached_plug(vec![Ok(plug_info(1, 0, "TIM:ENE"))]);
    assert_eq!(plug.sw_ver().unwrap(), "1.2.5");
    assert_eq!(plug.hw_ver().unwrap(), "2.0");
    assert_eq!(plug.model().unwrap(), "HS110(EU)");
    assert_eq!(plug.alias().unwrap(), "Desk");
    assert_eq!(plug.mac_address().unwrap(), "AC:84:C6:00:00:00");
    assert_eq!(plug.rssi().unwrap(), -61);
    let location = plug.location().unwrap();
    assert_eq!(location, Location { longitude: -1220000, latitude: 374000 });
    assert_eq!(location.to_text(), "(374000, -1220000)");
    assert!(plug.is_on().unwrap());
    assert!(plug.is_led_on().unwrap());
    assert!(plug.has_emeter().unwrap());
    assert_eq!(sent(&wire).len(), 1);
}

#[test]
fn plug_sysinfo_is_typed() {
    let (mut plug, _) = cached_plug(vec![Ok(plug_info(0, 1, "TIM"))]);
    let info = plug.sysinfo().unwrap();
    assert_eq!(info.model(), "HS110(EU)");
    assert_eq!(info.sw_ver(), "1.2.5");
    assert_eq!(info.hw_ver(), "2.0");
    assert_eq!(info.alias(), "Desk");
    assert_eq!(info.mac_address(), "AC:84:C6:00:00:00");
    assert_eq!(info.rssi(), -61);
    assert_eq!(info.location().latitude, 374000);
    assert_eq!(info.device_type, "IOT.SMARTPLUGSWITCH");
    assert!(!info.is_on());
    assert!(!info.is_led_on());
    assert!(!info.has_emeter());
    let missing: Value = serde_json::from_str(r#"{"sw_ver":"1"}"#).unwrap();
    assert!(matches!(
        HS100Info::from_json(&missing).unwrap_err().kind(),
        ErrorKind::Json(JsonFailure::Unexpected(_))
    ));
}

#[test]
fn plug_without_cache_by_default() {
    let wire = outlet(vec![Ok(plug_info(1, 0, "TIM")), Ok(plug_info(0, 0, "TIM"))]);
    let mut plug = Plug::new(Host::V4(0xC0A8_0164), Plugged(wire.clone()));
    assert!(plug.is_on().unwrap());
    assert!(!plug.is_on().unwrap());
    assert_eq!(sent(&wire).len(), 2);
}

#[test]
fn plug_switching_invalidates_the_system_namespace() {
    let (mut plug, wire) = cached_plug(vec![
        Ok(plug_info(0, 0, "TIM")),
        done("system", "set_relay_state"),
        Ok(plug_info(1, 0, "TIM")),
        done("system", "set_relay_state"),
        Ok(plug_info(0, 0, "TIM")),
    ]);
    assert!(!plug.is_on().unwrap());
    plug.turn_on().unwrap();
    assert!(plug.is_on().unwrap());
    assert!(plug.is_on().unwrap());
    plug.turn_off().unwrap();
    assert!(!plug.is_on().unwrap());
    let seen = sent(&wire);
    assert_eq!(seen.len(), 5);
    assert_eq!(seen[1], r#"{"system":{"set_relay_state":{"state":1}}}"#);
    assert_eq!(seen[3], r#"{"system":{"set_relay_state":{"state":0}}}"#);
}

#[test]
fn plug_led() {
    let (mut plug, wire) = cached_plug(vec![
        done("system", "set_led_off"),
        done("system", "set_led_off"),
    ]);
    plug.turn_off_led().unwrap();
    plug.turn_on_led().unwrap();
    let seen = sent(&wire);
    assert_eq!(seen[0], r#"{"system":{"set_led_off":{"off":true}}}"#);
    assert_eq!(seen[1], r#"{"system":{"set_led_off":{"off":false}}}"#);
}

#[test]
fn plug_reboot_clears_the_cache() {
    let (mut plug, wire) = cached_plug(vec![
        Ok(plug_info(1, 0, "TIM")),
        done("system", "reboot"),
        Ok(plug_info(1, 0, "TIM")),
        done("system", "reset"),
    ]);
    plug.alias().unwrap();
    plug.reboot(Some(Duration::from_secs(10))).unwrap();
    plug.alias().unwrap();
    plug.factory_reset(None).unwrap();
    let seen = sent(&wire);
    assert_eq!(seen[1], r#"{"system":{"reboot":{"delay":10}}}"#);
    assert_eq!(seen[3], r#"{"system":{"reset":{"delay":1}}}"#);
}

#[test]
fn plug_without_meter_does_not_support_it() {
    let (mut plug, wire) = cached_plug(vec![Ok(plug_info(1, 0, "TIM"))]);
    match plug.get_emeter_realtime().unwrap_err().kind() {
        ErrorKind::UnsupportedOperation(text) => {
            assert_eq!(text, "HS110(EU) get_emeter_realtime")
        }
        _ => panic!("an unsupported operation was expected"),
    }
    assert!(matches!(
        plug.get_emeter_month_stats(2020).unwrap_err().kind(),
        ErrorKind::UnsupportedOperation(_)
    ));
    assert!(matches!(
        plug.get_emeter_day_stats(13, 2020).unwrap_err().kind(),
        ErrorKind::UnsupportedOperation(_)
    ));
    assert!(matches!(
        plug.erase_emeter_stats().unwrap_err().kind(),
        ErrorKind::UnsupportedOperation(_)
    ));
    assert_eq!(sent(&wire).len(), 1);
}

#[test]
fn plug_with_meter() {
    let (mut plug, wire) = cached_plug(vec![
        Ok(plug_info(1, 0, "TIM:ENE")),
        Ok(String::from(r#"{"emeter":{"get_realtime":{"current":0.012,"power":1.5}}}"#)),
        Ok(String::from(r#"{"emeter":{"get_daystat":{"day_list":[]}}}"#)),
        done("emeter", "erase_emeter_stat"),
    ]);
    let now = plug.get_emeter_realtime().unwrap();
    assert!(now.stats.get("power").is_some());
    assert!(plug.get_emeter_day_stats(12, 2019).unwrap().day_list.is_empty());
    assert!(matches!(
        plug.get_emeter_day_stats(0, 2019).unwrap_err().kind(),
        ErrorKind::InvalidParameter(_)
    ));
    plug.erase_emeter_stats().unwrap();
    assert_eq!(sent(&wire).len(), 4);
}

#[test]
fn realtime_stats_must_be_an_object() {
    let object: Value = serde_json::from_str(r#"{"power":1.5}"#).unwrap();
    assert_eq!(RealtimeStats::from_json(&object).unwrap().stats, object);
    for other in ["5", "null", "[1]", "\"x\""] {
        let value: Value = serde_json::from_str(other).unwrap();
        assert!(RealtimeStats::from_json(&value).is_err(), "{}", other);
    }
}

#[test]
fn timer_rule_builder() {
    let rule = Rule::builder().build();
    assert_eq!(
        (rule.act, rule.delay, rule.enable, rule.name.as_str(), rule.id.clone(), rule.remain),
        (1, 1, 1, "timer", None, None)
    );
    let rule = Rule::builder()
        .turn_on(false)
        .enable(false)
        .delay(Duration::from_millis(90_500))
        .name("lights out")
        .build();
    assert_eq!((rule.act, rule.delay, rule.enable), (0, 90, 0));
    assert_eq!(rule.name, "lights out");
    assert_eq!(
        serde_json::to_string(&rule.to_argument()).unwrap(),
        r#"{"act":0,"delay":90,"enable":0,"name":"lights out"}"#
    );
    assert_eq!(
        serde_json::to_string(&rule.to_edit_argument("7F")).unwrap(),
        r#"{"act":0,"delay":90,"enable":0,"id":"7F","name":"lights out"}"#
    );
}

#[test]
fn timer_rules_parsing() {
    let reply: Value = serde_json::from_str(
        r#"{"rule_list":[{"id":"AB","name":"timer","enable":1,"act":0,"delay":60,"remain":42}],"err_code":0}"#,
    )
    .unwrap();
    let rules = RuleList::from_json(&reply).unwrap();
    assert_eq!(rules.len(), 1);
    assert!(!rules.is_empty());
    assert_eq!(rules.rule_list[0].id.as_deref(), Some("AB"));
    assert_eq!(rules.rule_list[0].remain, Some(42));
    assert_eq!(rules.rule_list[0].delay, 60);
    let empty: Value = serde_json::from_str(r#"{"rule_list":[]}"#).unwrap();
    assert!(RuleList::from_json(&empty).unwrap().is_empty());
    let broken: Value = serde_json::from_str(r#"{"rule_list":[{"id":"AB"}]}"#).unwrap();
    assert!(RuleList::from_json(&broken).is_err());
    assert!(RuleList::from_json(&Value::Null).is_err());
    assert!(Rule::from_json(&serde_json::from_str(r#"{"act":1,"delay":1,"enable":1,"name":"x","id":5}"#).unwrap()).is_err());
}

#[test]
fn rule_id_is_the_json_text_of_the_id() {
    let reply: Value = serde_json::from_str(r#"{"id":"4F2A","err_code":0}"#).unwrap();
    assert_eq!(rule_id(&reply), "\"4F2A\"");
    assert_eq!(rule_id(&Value::Null), "null");
}

#[test]
fn plug_timer_commands() {
    let (mut plug, wire) = cached_plug(vec![
        Ok(String::from(r#"{"count_down":{"get_rules":{"rule_list":[]}}}"#)),
        Ok(String::from(r#"{"count_down":{"add_rule":{"id":"4F2A","err_code":0}}}"#)),
        Ok(String::from(
            r#"{"count_down":{"get_rules":{"rule_list":[{"id":"4F2A","name":"timer","enable":1,"act":1,"delay":1}]}}}"#,
        )),
        done("count_down", "edit_rule"),
        done("count_down", "delete_rule"),
        done("count_down", "delete_all_rules"),
    ]);
    assert!(plug.get_timer_rules().unwrap().is_empty());
    assert_eq!(plug.add_timer_rule(Rule::builder().build()).unwrap(), "\"4F2A\"");
    // the table now holds a rule: it is full
    match plug.add_timer_rule(Rule::builder().build()).unwrap_err().kind() {
        ErrorKind::UnsupportedOperation(text) => assert_eq!(text, "add_timer_rule: table is full"),
        _ => panic!("an unsupported operation was expected"),
    }
    plug.edit_timer_rule("4F2A", Rule::builder().turn_on(false).build()).unwrap();
    plug.delete_timer_rule_with_id("4F2A").unwrap();
    plug.delete_all_timer_rules().unwrap();
    let seen = sent(&wire);
    assert_eq!(seen.len(), 6);
    assert_eq!(seen[0], r#"{"count_down":{"get_rules":null}}"#);
    assert_eq!(
        seen[1],
        r#"{"count_down":{"add_rule":{"act":1,"delay":1,"enable":1,"name":"timer"}}}"#
    );
    assert_eq!(
        seen[3],
        r#"{"count_down":{"edit_rule":{"act":0,"delay":1,"enable":1,"id":"4F2A","name":"timer"}}}"#
    );
    assert_eq!(seen[4], r#"{"count_down":{"delete_rule":{"id":"4F2A"}}}"#);
    assert_eq!(seen[5], r#"{"count_down":{"delete_all_rules":null}}"#);
}

#[test]
fn plug_time_cloud_and_scan_use_the_plug_namespaces() {
    let (mut plug, wire) = cached_plug(vec![
        Ok(String::from(
            r#"{"time":{"get_time":{"year":2021,"month":1,"mday":2,"hour":3,"min":4,"sec":5}}}"#,
        )),
        Ok(String::from(r#"{"time":{"get_timezone":{"index":6}}}"#)),
        done("cnCloud", "unbind"),
        Ok(String::from(r#"{"netif":{"get_scaninfo":{"ap_list":[]}}}"#)),
        Ok(String::from(r#"{"cnCloud":{"get_intl_fw_list":{"fw_list":[]}}}"#)),
        done("cnCloud", "bind"),
        done("cnCloud", "set_server_url"),
    ]);
    assert_eq!(plug.time().unwrap().to_text(), "2021-01-02 03:04:05");
    assert_eq!(plug.timezone().unwrap().index(), 6);
    plug.unbind().unwrap();
    assert!(plug.get_scan_info(false, None).unwrap().is_empty());
    assert!(plug.get_firmware_list().unwrap().is_empty());
    plug.bind("a", "b").unwrap();
    plug.set_server_url("c").unwrap();
    assert!(matches!(plug.get_cloud_info().unwrap_err().kind(), ErrorKind::Io(_)));
    let seen = sent(&wire);
    assert_eq!(seen[0], r#"{"time":{"get_time":null}}"#);
    assert_eq!(seen[2], r#"{"cnCloud":{"unbind":null}}"#);
    assert_eq!(seen[3], r#"{"netif":{"get_scaninfo":{"refresh":0,"timeout":3}}}"#);
}
