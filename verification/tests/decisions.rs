use serde_json::Value;
use std::time::Duration;
use tplink::bulb::lb110::LB110Info;
use tplink::bulb::lighting::LightState;
use tplink::cloud::{credentials, firmware_names, CloudInfo};
use tplink::emeter::{day_stats_argument, day_stats_request, require_emeter, DayStats, MonthStats};
use tplink::error::ErrorKind;
use tplink::plug::hs100::{led_argument, relay_argument, require_room};
use tplink::sys::delay_argument;
use tplink::timer::RuleList;

fn text(value: &Value) -> String {
    serde_json::to_string(value).unwrap()
}

fn info(dimmable: u64, color: u64, temp: u64, model: &str) -> LB110Info {
    LB110Info {
        sw_ver: String::from("1"),
        hw_ver: String::from("1"),
        model: String::from(model),
        description: None,
        alias: String::from("Lamp"),
        mic_type: String::from("IOT.SMARTBULB"),
        mic_mac: String::from("00"),
        is_dimmable: dimmable,
        is_color: color,
        is_variable_color_temp: temp,
        light_state: LightState { on_off: 0, hsv: None, dft_on_state: None },
        rssi: -1,
    }
}

fn unsupported<T>(r: tplink::Result<T>) -> bool {
    matches!(r.err().map(|e| matches!(e.kind(), ErrorKind::UnsupportedOperation(_))), Some(true))
}

fn invalid<T>(r: tplink::Result<T>) -> bool {
    matches!(r.err().map(|e| matches!(e.kind(), ErrorKind::InvalidParameter(_))), Some(true))
}

#[test]
fn hue_change_at_the_edges() {
    let colour = info(1, 1, 1, "LB130");
    assert_eq!(text(&colour.hue_change(0).unwrap()), r#"{"color_temp":0,"hue":0}"#);
    assert_eq!(text(&colour.hue_change(360).unwrap()), r#"{"color_temp":0,"hue":360}"#);
    assert!(invalid(colour.hue_change(361)));
    assert!(invalid(colour.hue_change(u32::MAX)));
    let white = info(1, 0, 1, "LB120");
    assert!(unsupported(white.hue_change(10)));
    // the capability is asked first
    assert!(unsupported(white.hue_change(361)));
    // only 1 means yes
    assert!(unsupported(info(1, 2, 1, "LB130").hue_change(10)));
}

#[test]
fn hsv_saturation_and_brightness_changes() {
    let colour = info(1, 1, 1, "LB130");
    assert_eq!(
        text(&colour.hsv_change(360, 100, 100).unwrap()),
        r#"{"color_temp":0,"hue":360,"saturation":100,"value":100}"#
    );
    assert!(invalid(colour.hsv_change(361, 0, 0)));
    assert!(invalid(colour.hsv_change(0, 101, 0)));
    assert!(invalid(colour.hsv_change(0, 0, 101)));
    assert_eq!(
        text(&colour.saturation_change(100).unwrap()),
        r#"{"color_temp":0,"saturation":100}"#
    );
    assert!(invalid(colour.saturation_change(101)));
    assert_eq!(text(&colour.brightness_change(100).unwrap()), r#"{"brightness":100}"#);
    assert!(invalid(colour.brightness_change(101)));
    let fixed = info(0, 0, 0, "LB100");
    assert!(unsupported(fixed.hsv_change(0, 0, 0)));
    assert!(unsupported(fixed.saturation_change(0)));
    assert!(unsupported(fixed.brightness_change(0)));
    assert!(unsupported(fixed.require_color("hue")));
    assert!(unsupported(fixed.require_dimmable("brightness")));
    assert!(unsupported(fixed.require_variable_color_temp("color_temp")));
    assert!(colour.require_color("hue").is_ok());
    assert!(colour.require_dimmable("brightness").is_ok());
    assert!(colour.require_variable_color_temp("color_temp").is_ok());
}

#[test]
fn color_temp_change_by_model() {
    assert_eq!(
        text(&info(1, 1, 1, "LB130(US)").color_temp_change(2500).unwrap()),
        r#"{"color_temp":2500}"#
    );
    assert!(invalid(info(1, 1, 1, "LB130(US)").color_temp_change(2499)));
    assert!(info(1, 0, 1, "LB120(US)").color_temp_change(6500).is_ok());
    assert!(invalid(info(1, 0, 1, "LB120(US)").color_temp_change(6501)));
    assert!(unsupported(info(1, 0, 1, "LB110(US)").color_temp_change(3000)));
    assert!(unsupported(info(1, 1, 0, "LB130(US)").color_temp_change(3000)));
}

#[test]
fn day_stats_request_checks_meter_then_month() {
    assert_eq!(text(&day_stats_request(true, "HS110", 1, 2020).unwrap()), r#"{"month":1,"year":2020}"#);
    assert_eq!(text(&day_stats_request(true, "HS110", 12, 2020).unwrap()), r#"{"month":12,"year":2020}"#);
    assert!(invalid(day_stats_request(true, "HS110", 0, 2020)));
    assert!(invalid(day_stats_request(true, "HS110", 13, 2020)));
    assert!(unsupported(day_stats_request(false, "HS100", 5, 2020)));
    assert!(unsupported(day_stats_request(false, "HS100", 13, 2020)));
    assert_eq!(text(&day_stats_argument(13, 1)), r#"{"month":13,"year":1}"#);
    assert!(require_emeter(true, "HS110", "x").is_ok());
    assert!(unsupported(require_emeter(false, "HS100", "x")));
}

#[test]
fn arguments_of_plug_commands() {
    assert_eq!(text(&led_argument(true)), r#"{"off":true}"#);
    assert_eq!(text(&led_argument(false)), r#"{"off":false}"#);
    assert_eq!(text(&relay_argument(true)), r#"{"state":1}"#);
    assert_eq!(text(&relay_argument(false)), r#"{"state":0}"#);
    assert_eq!(text(&delay_argument(None)), r#"{"delay":1}"#);
    assert_eq!(text(&delay_argument(Some(Duration::from_secs(0)))), r#"{"delay":0}"#);
    assert_eq!(text(&delay_argument(Some(Duration::from_millis(1999)))), r#"{"delay":1}"#);
    assert_eq!(text(&credentials("u", "p")), r#"{"password":"p","username":"u"}"#);
}

#[test]
fn timer_table_holds_one_rule() {
    let empty: Value = serde_json::from_str(r#"{"rule_list":[]}"#).unwrap();
    assert!(require_room(&RuleList::from_json(&empty).unwrap()).is_ok());
    let full: Value = serde_json::from_str(
        r#"{"rule_list":[{"id":"A","name":"t","enable":1,"act":1,"delay":1}]}"#,
    )
    .unwrap();
    assert!(unsupported(require_room(&RuleList::from_json(&full).unwrap())));
}

#[test]
fn cloud_info_takes_either_spelling() {
    let snake: Value = serde_json::from_str(
        r#"{"binded":0,"cld_connection":0,"fw_dl_page":"a","fw_notify_type":1,"illegal_type":2,
            "server":"s","stop_connect":3,"tcsp_info":"b","tcsp_status":4,"username":"u"}"#,
    )
    .unwrap();
    let info = CloudInfo::from_json(&snake).unwrap();
    assert!(!info.bounded());
    assert_eq!(
        (info.fw_dl_page.as_str(), info.fw_notify_type, info.illegal_type, info.stop_connect),
        ("a", 1, 2, 3)
    );
    assert_eq!((info.tcsp_info.as_str(), info.tcsp_status), ("b", 4));
    let short: Value = serde_json::from_str(r#"{"binded":0}"#).unwrap();
    assert!(CloudInfo::from_json(&short).is_err());
    let names: Value = serde_json::from_str(r#"{"fw_list":["a",1]}"#).unwrap();
    assert!(firmware_names(&names).is_err());
}

#[test]
fn stats_lists_are_read_strictly() {
    let days: Value = serde_json::from_str(
        r#"{"day_list":[{"year":2020,"month":4,"day":8,"energy_wh":12},{"year":2020,"month":4,"day":9}]}"#,
    )
    .unwrap();
    assert!(DayStats::from_json(&days).is_err());
    let months: Value = serde_json::from_str(r#"{"month_list":[{"year":2020,"month":4,"energy_wh":-1}]}"#)
        .unwrap();
    assert!(MonthStats::from_json(&months).is_err());
    assert!(MonthStats::from_json(&Value::Null).is_err());
}
