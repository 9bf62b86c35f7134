use serde_json::Value;
use std::cell::RefCell;
use std::collections::VecDeque;
use std::rc::Rc;
use std::time::Duration;
use tplink::bulb::lb110::{LB110Info, LB110};
use tplink::bulb::lighting::{LightState, HSV};
use tplink::config::Config;
use tplink::error::{ErrorKind, IoFailure, IoFailureKind, JsonFailure};
use tplink::proto::{Host, Proto, Socket};
use tplink::time::{DeviceTime, DeviceTimeZone};
use tplink::wlan::{access_points, scan_argument};
use tplink::Bulb;

struct Wire {
    replies: RefCell<VecDeque<Result<String, IoFailureKind>>>,
    seen: RefCell<Vec<String>>,
}

struct Scripted(Rc<Wire>);

impl Socket for Scripted {
    fn exchange(&self, _proto: &Proto, datagram: &[u8]) -> Result<Vec<u8>, IoFailure> {
        let plain = String::from_utf8(tplink::crypto::decrypt(datagram)).unwrap();
        self.0.seen.borrow_mut().push(plain);
        match self.0.replies.borrow_mut().pop_front() {
            Some(Ok(reply)) => Ok(tplink::crypto::encrypt(reply.as_bytes())),
            Some(Err(kind)) => Err(IoFailure { kind, detail: String::from("scripted failure") }),
            None => Err(IoFailure {
                kind: IoFailureKind::WouldBlock,
                detail: String::from("the script has ended"),
            }),
        }
    }
}

const LIGHTING: &str = "smartlife.iot.smartbulb.lightingservice";

fn sysinfo(model: &str, dimmable: u8, color: u8, temp: u8) -> String {
    format!(
        "{{\"system\":{{\"get_sysinfo\":{{\"sw_ver\":\"1.8.11\",\"hw_ver\":\"1.0\",\
         \"model\":\"{}\",\"description\":\"Smart Wi-Fi LED Bulb\",\"alias\":\"Lamp\",\
         \"mic_type\":\"IOT.SMARTBULB\",\"mic_mac\":\"50C7BF000000\",\"deviceId\":\"8012\",\
         \"is_dimmable\":{},\"is_color\":{},\"is_variable_color_temp\":{},\
         \"light_state\":{{\"on_off\":1,\"mode\":\"normal\",\"hue\":120,\"saturation\":50,\
         \"color_temp\":0,\"brightness\":80}},\"rssi\":-55}}}}}}",
        model, dimmable, color, temp
    )
}

fn light_state(body: &str, command: &str) -> String {
    format!("{{\"{}\":{{\"{}\":{}}}}}", LIGHTING, command, body)
}

const ON: &str = r#"{"on_off":1,"mode":"normal","hue":120,"saturation":50,"color_temp":0,"brightness":80}"#;
const OFF: &str = r#"{"on_off":0,"dft_on_state":{"mode":"normal","hue":10,"saturation":20,"color_temp":2700,"brightness":30}}"#;

fn bulb(replies: Vec<Result<String, IoFailureKind>>) -> (Bulb<LB110<Scripted>>, Rc<Wire>) {
    let wire = Rc::new(Wire {
        replies: RefCell::new(replies.into_iter().collect()),
        seen: RefCell::new(Vec::new()),
    });
    (Bulb::new(Host::V4(0xC0A8_0165), Scripted(wire.clone())), wire)
}

fn seen(wire: &Rc<Wire>) -> Vec<String> {
    wire.seen.borrow().clone()
}

#[test]
fn bulb_identity_comes_from_one_cached_sysinfo() {
    let (mut bulb, wire) = bulb(vec![Ok(sysinfo("LB130(US)", 1, 1, 1))]);
    assert_eq!(bulb.sw_ver().unwrap(), "1.8.11");
    assert_eq!(bulb.hw_ver().unwrap(), "1.0");
    assert_eq!(bulb.model().unwrap(), "LB130(US)");
    assert_eq!(bulb.alias().unwrap(), "Lamp");
    assert_eq!(bulb.mac_address().unwrap(), "50C7BF000000");
    assert_eq!(bulb.rssi().unwrap(), -55);
    assert!(bulb.is_dimmable().unwrap());
    assert!(bulb.is_color().unwrap());
    assert!(bulb.is_variable_color_temp().unwrap());
    assert_eq!(seen(&wire), vec![String::from(r#"{"system":{"get_sysinfo":null}}"#)]);
}

#[test]
fn bulb_sysinfo_is_typed() {
    let (mut bulb, _) = bulb(vec![Ok(sysinfo("LB110(EU)", 1, 0, 0))]);
    let info = bulb.sysinfo().unwrap();
    assert_eq!(info.model(), "LB110(EU)");
    assert_eq!(info.sw_ver(), "1.8.11");
    assert_eq!(info.hw_ver(), "1.0");
    assert_eq!(info.alias(), "Lamp");
    assert_eq!(info.mac_address(), "50C7BF000000");
    assert_eq!(info.rssi(), -55);
    assert_eq!(info.description.as_deref(), Some("Smart Wi-Fi LED Bulb"));
    assert!(info.is_dimmable());
    assert!(!info.is_color());
    assert!(!info.is_variable_color_temp());
    assert!(info.has_emeter());
    assert!(matches!(info.hsv().unwrap_err().kind(), ErrorKind::UnsupportedOperation(_)));
}

#[test]
fn bulb_has_emeter_without_asking() {
    let (mut bulb, wire) = bulb(vec![]);
    assert!(bulb.has_emeter().unwrap());
    assert!(seen(&wire).is_empty());
}

#[test]
fn bulb_is_on_by_its_light_state() {
    let (mut bulb, wire) = bulb(vec![Ok(light_state(ON, "get_light_state"))]);
    assert!(bulb.is_on().unwrap());
    assert_eq!(seen(&wire), vec![format!("{{\"{}\":{{\"get_light_state\":null}}}}", LIGHTING)]);
    let (mut bulb, _) = bulb_off();
    assert!(!bulb.is_on().unwrap());
}

fn bulb_off() -> (Bulb<LB110<Scripted>>, Rc<Wire>) {
    bulb(vec![Ok(light_state(OFF, "get_light_state"))])
}

#[test]
fn bulb_turn_on_and_off() {
    let (mut bulb, wire) = bulb(vec![
        Ok(light_state(ON, "transition_light_state")),
        Ok(light_state(OFF, "transition_light_state")),
    ]);
    bulb.turn_on().unwrap();
    bulb.turn_off().unwrap();
    assert_eq!(
        seen(&wire),
        vec![
            format!("{{\"{}\":{{\"transition_light_state\":{{\"on_off\":1}}}}}}", LIGHTING),
            format!("{{\"{}\":{{\"transition_light_state\":{{\"on_off\":0}}}}}}", LIGHTING),
        ]
    );
}

#[test]
fn bulb_switching_invalidates_the_light_state() {
    let (mut bulb, wire) = bulb(vec![
        Ok(light_state(OFF, "get_light_state")),
        Ok(light_state(ON, "transition_light_state")),
        Ok(light_state(ON, "get_light_state")),
    ]);
    assert!(!bulb.is_on().unwrap());
    assert!(!bulb.is_on().unwrap());
    bulb.turn_on().unwrap();
    assert!(bulb.is_on().unwrap());
    assert_eq!(seen(&wire).len(), 3);
}

#[test]
fn bulb_set_hue_in_range() {
    let (mut bulb, wire) = bulb(vec![
        Ok(sysinfo("LB130(US)", 1, 1, 1)),
        Ok(light_state(ON, "transition_light_state")),
    ]);
    bulb.set_hue(140).unwrap();
    assert_eq!(
        seen(&wire)[1],
        format!(
            "{{\"{}\":{{\"transition_light_state\":{{\"color_temp\":0,\"hue\":140}}}}}}",
            LIGHTING
        )
    );
}

#[test]
fn bulb_set_hue_out_of_range_is_an_invalid_parameter() {
    let (mut bulb, wire) = bulb(vec![Ok(sysinfo("LB130(US)", 1, 1, 1))]);
    let e = bulb.set_hue(361).unwrap_err();
    match e.kind() {
        ErrorKind::InvalidParameter(text) => {
            assert_eq!(text, "LB130(US) set_hue: 361\u{b0} (valid range: 0-360\u{b0})")
        }
        _ => panic!("an invalid parameter was expected"),
    }
    assert_eq!(seen(&wire).len(), 1);
    assert!(bulb.set_hue(360).is_err()); // the script has ended: the bulb was asked
    assert_eq!(seen(&wire).len(), 2);
}

#[test]
fn bulb_without_colour_does_not_support_colour() {
    let (mut bulb, wire) = bulb(vec![Ok(sysinfo("LB110(US)", 1, 0, 0))]);
    for e in [
        bulb.set_hue(10).unwrap_err(),
        bulb.set_saturation(10).unwrap_err(),
        bulb.set_hsv(10, 10, 10).unwrap_err(),
        bulb.set_hsv(1000, 10, 10).unwrap_err(),
        bulb.hue().unwrap_err(),
        bulb.saturation().unwrap_err(),
        bulb.hsv().unwrap_err(),
        bulb.set_color_temp(3000).unwrap_err(),
        bulb.color_temp().unwrap_err(),
    ] {
        assert!(matches!(e.kind(), ErrorKind::UnsupportedOperation(_)));
    }
    assert_eq!(seen(&wire).len(), 1);
}

#[test]
fn bulb_that_cannot_be_dimmed_does_not_support_brightness() {
    let (mut bulb, _) = bulb(vec![Ok(sysinfo("LB100(US)", 0, 0, 0))]);
    match bulb.set_brightness(50).unwrap_err().kind() {
        ErrorKind::UnsupportedOperation(text) => assert_eq!(text, "LB100(US) set_brightness"),
        _ => panic!("an unsupported operation was expected"),
    }
    assert!(matches!(bulb.brightness().unwrap_err().kind(), ErrorKind::UnsupportedOperation(_)));
}

#[test]
fn bulb_set_hsv_saturation_and_brightness() {
    let (mut bulb, wire) = bulb(vec![
        Ok(sysinfo("LB130(US)", 1, 1, 1)),
        Ok(light_state(ON, "transition_light_state")),
        Ok(light_state(ON, "transition_light_state")),
        Ok(light_state(ON, "transition_light_state")),
    ]);
    bulb.set_hsv(270, 55, 90).unwrap();
    bulb.set_saturation(100).unwrap();
    bulb.set_brightness(0).unwrap();
    let sent = seen(&wire);
    assert!(sent[1].ends_with(r#"{"color_temp":0,"hue":270,"saturation":55,"value":90}}}"#));
    assert!(sent[2].ends_with(r#"{"color_temp":0,"saturation":100}}}"#));
    assert!(sent[3].ends_with(r#"{"brightness":0}}}"#));
    for e in [
        bulb.set_hsv(361, 55, 90).unwrap_err(),
        bulb.set_hsv(270, 101, 90).unwrap_err(),
        bulb.set_hsv(270, 55, 101).unwrap_err(),
        bulb.set_saturation(101).unwrap_err(),
        bulb.set_brightness(101).unwrap_err(),
    ] {
        assert!(matches!(e.kind(), ErrorKind::InvalidParameter(_)));
    }
    assert_eq!(seen(&wire).len(), 4);
}

#[test]
fn bulb_colour_temperature_by_model() {
    let (mut bulb, wire) = bulb(vec![
        Ok(sysinfo("LB130(US)", 1, 1, 1)),
        Ok(light_state(ON, "transition_light_state")),
    ]);
    bulb.set_color_temp(9000).unwrap();
    assert!(seen(&wire)[1].ends_with(r#"{"color_temp":9000}}}"#));
    for out in [2499, 9001, 0] {
        assert!(matches!(
            bulb.set_color_temp(out).unwrap_err().kind(),
            ErrorKind::InvalidParameter(_)
        ));
    }
    let (mut lb120, _) = bulb_model("LB120(US)");
    assert!(matches!(
        lb120.set_color_temp(2699).unwrap_err().kind(),
        ErrorKind::InvalidParameter(_)
    ));
    assert!(matches!(
        lb120.set_color_temp(6501).unwrap_err().kind(),
        ErrorKind::InvalidParameter(_)
    ));
    let (mut other, _) = bulb_model("KL125(US)");
    assert!(matches!(
        other.set_color_temp(3000).unwrap_err().kind(),
        ErrorKind::UnsupportedOperation(_)
    ));
}

fn bulb_model(model: &str) -> (Bulb<LB110<Scripted>>, Rc<Wire>) {
    bulb(vec![Ok(sysinfo(model, 1, 1, 1))])
}

#[test]
fn bulb_reads_colour_from_the_light_state() {
    let (mut on, _) = bulb(vec![
        Ok(sysinfo("LB130(US)", 1, 1, 1)),
        Ok(light_state(ON, "get_light_state")),
    ]);
    assert_eq!(on.hue().unwrap(), 120);
    assert_eq!(on.saturation().unwrap(), 50);
    assert_eq!(on.brightness().unwrap(), 80);
    assert_eq!(on.color_temp().unwrap(), 0);
    let hsv = on.hsv().unwrap();
    assert_eq!((hsv.hue(), hsv.saturation(), hsv.value(), hsv.color_temp()), (120, 50, 80, 0));

    let (mut off, _) = bulb(vec![
        Ok(sysinfo("LB130(US)", 1, 1, 1)),
        Ok(light_state(OFF, "get_light_state")),
    ]);
    assert_eq!(off.hue().unwrap(), 10);
    assert_eq!(off.saturation().unwrap(), 20);
    assert_eq!(off.brightness().unwrap(), 30);
    assert_eq!(off.color_temp().unwrap(), 2700);
}

#[test]
fn light_state_parsing() {
    let on = LightState::from_json(&serde_json::from_str(ON).unwrap()).unwrap();
    assert!(on.is_on());
    assert_eq!(on.hsv, Some(HSV { hue: 120, saturation: 50, brightness: 80, color_temp: 0 }));
    assert_eq!(on.dft_on_state, None);
    let off = LightState::from_json(&serde_json::from_str(OFF).unwrap()).unwrap();
    assert!(!off.is_on());
    assert_eq!(off.hsv, None);
    assert_eq!(off.hsv().unwrap().hue(), 10);
    let bare = LightState::from_json(&serde_json::from_str(r#"{"on_off":1}"#).unwrap()).unwrap();
    assert!(matches!(bare.hsv().unwrap_err().kind(), ErrorKind::Json(JsonFailure::Unexpected(_))));
    assert!(LightState::from_json(&serde_json::from_str(r#"{"hue":1}"#).unwrap()).is_err());
    assert!(LightState::from_json(
        &serde_json::from_str(r#"{"on_off":0,"dft_on_state":{"hue":1}}"#).unwrap()
    )
    .is_err());
    assert!(HSV::from_json(&serde_json::from_str(r#"{"hue":-1}"#).unwrap()).is_err());
}

#[test]
fn malformed_sysinfo_is_a_serialization_error() {
    let (mut bulb, _) = bulb(vec![Ok(String::from(r#"{"system":{"get_sysinfo":{"alias":"x"}}}"#))]);
    let e = bulb.alias().unwrap_err();
    assert!(matches!(e.kind(), ErrorKind::Json(JsonFailure::Unexpected(_))));
    let incomplete: Value = serde_json::from_str(r#"{"sw_ver":1}"#).unwrap();
    assert!(LB110Info::from_json(&incomplete).is_err());
}

#[test]
fn unreachable_bulb_is_an_io_error() {
    let (mut bulb, _) = bulb(vec![Err(IoFailureKind::TimedOut), Err(IoFailureKind::WouldBlock)]);
    assert!(matches!(bulb.alias().unwrap_err().kind(), ErrorKind::Io(_)));
    assert!(matches!(bulb.turn_on().unwrap_err().kind(), ErrorKind::Io(_)));
}

#[test]
fn bulb_reboot_and_reset_ask_with_a_delay() {
    let reply = |command: &str| {
        Ok(format!("{{\"smartlife.iot.common.system\":{{\"{}\":{{\"err_code\":0}}}}}}", command))
    };
    let (mut bulb, wire) = bulb(vec![
        Ok(sysinfo("LB130(US)", 1, 1, 1)),
        reply("reboot"),
        reply("reset"),
        Ok(sysinfo("LB130(US)", 1, 1, 1)),
    ]);
    bulb.alias().unwrap();
    bulb.reboot(None).unwrap();
    bulb.factory_reset(Some(Duration::from_millis(3999))).unwrap();
    // the cache was emptied: the bulb is asked again
    bulb.alias().unwrap();
    let sent = seen(&wire);
    assert_eq!(sent[1], r#"{"smartlife.iot.common.system":{"reboot":{"delay":1}}}"#);
    assert_eq!(sent[2], r#"{"smartlife.iot.common.system":{"reset":{"delay":3}}}"#);
    assert_eq!(sent.len(), 4);
}

#[test]
fn bulb_time_and_timezone() {
    let (mut bulb, wire) = bulb(vec![
        Ok(String::from(
            r#"{"smartlife.iot.common.timesetting":{"get_time":{"year":2020,"month":4,"mday":8,"hour":22,"min":29,"sec":7,"err_code":0}}}"#,
        )),
        Ok(String::from(
            r#"{"smartlife.iot.common.timesetting":{"get_timezone":{"index":39,"err_code":0}}}"#,
        )),
    ]);
    let time = bulb.time().unwrap();
    assert_eq!(
        (time.year(), time.month(), time.day(), time.hour(), time.minute(), time.second()),
        (2020, 4, 8, 22, 29, 7)
    );
    assert_eq!(time.to_text(), "2020-04-08 22:29:07");
    assert_eq!(bulb.timezone().unwrap().index(), 39);
    assert_eq!(seen(&wire)[0], r#"{"smartlife.iot.common.timesetting":{"get_time":null}}"#);
}

#[test]
fn device_time_parsing() {
    let both: Value =
        serde_json::from_str(r#"{"year":1999,"month":12,"day":31,"mday":1,"hour":0,"min":0,"sec":59}"#)
            .unwrap();
    let time = DeviceTime::from_json(&both).unwrap();
    assert_eq!(time.day(), 31);
    assert_eq!(time.to_text(), "1999-12-31 00:00:59");
    let short: Value = serde_json::from_str(r#"{"year":1999,"month":12}"#).unwrap();
    assert!(DeviceTime::from_json(&short).is_err());
    let early = DeviceTime { year: -44, month: 3, day: 15, hour: 12, min: 0, sec: 100 };
    assert_eq!(early.to_text(), "-44-03-15 12:00:100");
    let zone: Value = serde_json::from_str(r#"{"index":-3}"#).unwrap();
    assert_eq!(DeviceTimeZone::from_json(&zone).unwrap().index(), -3);
    assert!(DeviceTimeZone::from_json(&short).is_err());
}

#[test]
fn bulb_scan_uses_the_read_timeout_by_default() {
    let reply = r#"{"netif":{"get_scaninfo":{"ap_list":[{"ssid":"home","key_type":3},{"ssid":"café","key_type":0}],"err_code":0}}}"#;
    let config = Config::for_host(Host::V4(1)).with_read_timeout(Duration::from_secs(7)).build();
    let wire = Rc::new(Wire {
        replies: RefCell::new(vec![Ok(String::from(reply)), Ok(String::from(reply))].into()),
        seen: RefCell::new(Vec::new()),
    });
    let mut bulb = Bulb::with_config(config, Scripted(wire.clone()));
    let list = bulb.get_scan_info(true, None).unwrap();
    assert_eq!(list.len(), 2);
    assert_eq!(list[0].ssid(), "home");
    assert_eq!(list[0].key_type(), 3);
    assert_eq!(list[1].ssid(), "café");
    bulb.get_scan_info(false, Some(Duration::from_secs(2))).unwrap();
    let sent = seen(&wire);
    assert_eq!(sent[0], r#"{"netif":{"get_scaninfo":{"refresh":1,"timeout":7}}}"#);
    assert_eq!(sent[1], r#"{"netif":{"get_scaninfo":{"refresh":0,"timeout":2}}}"#);
}

#[test]
fn scan_argument_defaults_to_three_seconds() {
    let arg = scan_argument(false, None, None);
    assert_eq!(serde_json::to_string(&arg).unwrap(), r#"{"refresh":0,"timeout":3}"#);
    let unreadable: Value = serde_json::from_str(r#"{"ap_list":[{"ssid":"x"}]}"#).unwrap();
    assert!(access_points(&unreadable).is_err());
    let none: Value = serde_json::from_str(r#"{"ap_list":[]}"#).unwrap();
    assert!(access_points(&none).unwrap().is_empty());
}

#[test]
fn bulb_cloud_commands() {
    let ns = "smartlife.iot.common.cloud";
    let info = format!(
        "{{\"{}\":{{\"get_info\":{{\"username\":\"me@example.com\",\"server\":\"devs.tplinkcloud.com\",\
         \"binded\":1,\"cld_connection\":1,\"illegalType\":0,\"stopConnect\":0,\"tcspStatus\":1,\
         \"fwDlPage\":\"\",\"tcspInfo\":\"\",\"fwNotifyType\":0}}}}}}",
        ns
    );
    let done = |command: &str| Ok(format!("{{\"{}\":{{\"{}\":{{\"err_code\":0}}}}}}", ns, command));
    let (mut bulb, wire) = bulb(vec![
        Ok(info.clone()),
        done("bind"),
        Ok(info),
        done("unbind"),
        done("set_server_url"),
        Ok(format!("{{\"{}\":{{\"get_intl_fw_list\":{{\"fw_list\":[\"1.0\",\"1.1\"]}}}}}}", ns)),
    ]);
    let cloud = bulb.get_cloud_info().unwrap();
    assert_eq!(cloud.username(), "me@example.com");
    assert_eq!(cloud.server(), "devs.tplinkcloud.com");
    assert!(cloud.bounded());
    assert_eq!(cloud.tcsp_status, 1);
    bulb.bind("me@example.com", "s\"ecret").unwrap();
    // the bind invalidated the cloud namespace
    bulb.get_cloud_info().unwrap();
    bulb.unbind().unwrap();
    bulb.set_server_url("devs.example.org").unwrap();
    assert_eq!(bulb.get_firmware_list().unwrap(), vec!["1.0", "1.1"]);
    let sent = seen(&wire);
    assert_eq!(sent.len(), 6);
    assert_eq!(
        sent[1],
        format!(
            "{{\"{}\":{{\"bind\":{{\"password\":\"s\\\"ecret\",\"username\":\"me@example.com\"}}}}}}",
            ns
        )
    );
    assert_eq!(sent[3], format!("{{\"{}\":{{\"unbind\":null}}}}", ns));
    assert_eq!(
        sent[4],
        format!("{{\"{}\":{{\"set_server_url\":{{\"server\":\"devs.example.org\"}}}}}}", ns)
    );
}

#[test]
fn bulb_energy_meter() {
    let ns = "smartlife.iot.common.emeter";
    let (mut bulb, wire) = bulb(vec![
        Ok(sysinfo("LB130(US)", 1, 1, 1)),
        Ok(format!("{{\"{}\":{{\"get_realtime\":{{\"power_mw\":1300,\"err_code\":0}}}}}}", ns)),
        Ok(format!(
            "{{\"{}\":{{\"get_daystat\":{{\"day_list\":[{{\"year\":2020,\"month\":4,\"day\":8,\"energy_wh\":12}}]}}}}}}",
            ns
        )),
        Ok(format!(
            "{{\"{}\":{{\"get_monthstat\":{{\"month_list\":[{{\"year\":2020,\"month\":4,\"energy_wh\":300}},{{\"year\":2020,\"month\":5,\"energy_wh\":1}}]}}}}}}",
            ns
        )),
        Ok(format!("{{\"{}\":{{\"erase_emeter_stat\":{{\"err_code\":0}}}}}}", ns)),
    ]);
    let now = bulb.get_emeter_realtime().unwrap();
    assert_eq!(now.stats["power_mw"], Value::from(1300u64));
    let days = bulb.get_emeter_day_stats(4, 2020).unwrap();
    assert_eq!(days.day_list.len(), 1);
    assert_eq!(days.day_list[0].energy_wh, 12);
    assert_eq!(days.day_list[0].day, 8);
    let months = bulb.get_emeter_month_stats(2020).unwrap();
    assert_eq!(months.month_list.len(), 2);
    assert_eq!(months.month_list[1].month, 5);
    for month in [0, 13] {
        match bulb.get_emeter_day_stats(month, 2020).unwrap_err().kind() {
            ErrorKind::InvalidParameter(text) => assert_eq!(
                *text,
                format!("LB130(US) get_emeter_day_stats: month={} (valid range: 1-12)", month)
            ),
            _ => panic!("an invalid parameter was expected"),
        }
    }
    bulb.erase_emeter_stats().unwrap();
    let sent = seen(&wire);
    assert_eq!(sent.len(), 5);
    assert_eq!(sent[2], format!("{{\"{}\":{{\"get_daystat\":{{\"month\":4,\"year\":2020}}}}}}", ns));
    assert_eq!(sent[3], format!("{{\"{}\":{{\"get_monthstat\":{{\"year\":2020}}}}}}", ns));
}

#[test]
fn bulb_with_config_without_cache_asks_every_time() {
    let wire = Rc::new(Wire {
        replies: RefCell::new(
            vec![Ok(sysinfo("LB130(US)", 1, 1, 1)), Ok(sysinfo("LB130(US)", 1, 1, 1))].into(),
        ),
        seen: RefCell::new(Vec::new()),
    });
    let config = Config::for_host(Host::V4(1)).build();
    let mut bulb = Bulb::with_config(config, Scripted(wire.clone()));
    bulb.alias().unwrap();
    bulb.model().unwrap();
    assert_eq!(seen(&wire).len(), 2);
}
