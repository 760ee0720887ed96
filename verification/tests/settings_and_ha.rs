use monitor_dashboard::home_assistant::{
    bearer_header, entities_parse_error, ha_api_url, ha_call_result, ha_connection_result,
    ha_credentials, ha_service_body, ha_service_url, ha_states_result, ha_states_url, HaReply,
};
use monitor_dashboard::settings::{get_app_config, loaded_or_default, update_app_config, AppConfig};

fn cfg(url: Option<&str>, token: Option<&str>) -> AppConfig {
    AppConfig {
        temp_threshold_orange_bits: 65.5f32.to_bits(),
        temp_threshold_red_bits: 90.0f32.to_bits(),
        ha_url: url.map(|s| s.to_string()),
        ha_token: token.map(|s| s.to_string()),
    }
}

#[test]
fn default_thresholds() {
    let c = AppConfig::default();
    assert_eq!(f32::from_bits(c.temp_threshold_orange_bits), 60.0);
    assert_eq!(f32::from_bits(c.temp_threshold_red_bits), 80.0);
    assert!(c.ha_url.is_none());
    assert!(c.ha_token.is_none());
}

#[test]
fn loaded_or_default_picks() {
    let c = loaded_or_default(None);
    assert_eq!(f32::from_bits(c.temp_threshold_orange_bits), 60.0);
    let d = loaded_or_default(Some(cfg(Some("u"), None)));
    assert_eq!(d.ha_url.as_deref(), Some("u"));
    assert_eq!(f32::from_bits(d.temp_threshold_orange_bits), 65.5);
}

#[test]
fn update_then_get_round_trip() {
    let mut current = AppConfig::default();
    let back = update_app_config(&mut current, cfg(Some("http://ha:8123"), Some("tok")));
    assert_eq!(back.ha_url.as_deref(), Some("http://ha:8123"));
    let read = get_app_config(&current);
    assert_eq!(read.ha_url.as_deref(), Some("http://ha:8123"));
    assert_eq!(read.ha_token.as_deref(), Some("tok"));
    assert_eq!(f32::from_bits(read.temp_threshold_red_bits), 90.0);
}

#[test]
fn credentials_need_both() {
    assert_eq!(
        ha_credentials(&cfg(None, None)),
        Err("未配置 Home Assistant 地址".to_string())
    );
    assert_eq!(
        ha_credentials(&cfg(None, Some("t"))),
        Err("未配置 Home Assistant 地址".to_string())
    );
    assert_eq!(
        ha_credentials(&cfg(Some("u"), None)),
        Err("未配置 Home Assistant Token".to_string())
    );
    assert_eq!(
        ha_credentials(&cfg(Some("u"), Some("t"))),
        Ok(("u".to_string(), "t".to_string()))
    );
}

#[test]
fn urls_and_header() {
    let base = "http://ha.local:8123".to_string();
    assert_eq!(ha_api_url(&base), "http://ha.local:8123/api/");
    assert_eq!(ha_states_url(&base), "http://ha.local:8123/api/states");
    assert_eq!(
        ha_service_url(&base, &"light".to_string(), &"turn_on".to_string()),
        "http://ha.local:8123/api/services/light/turn_on"
    );
    assert_eq!(bearer_header(&"abc".to_string()), "Bearer abc");
}

#[test]
fn service_body_is_json() {
    assert_eq!(
        ha_service_body(&"light.kitchen".to_string()),
        "{\"entity_id\":\"light.kitchen\"}"
    );
    assert_eq!(
        ha_service_body(&"a\"b\\c".to_string()),
        "{\"entity_id\":\"a\\\"b\\\\c\"}"
    );
    assert_eq!(
        ha_service_body(&"a\u{1}b\n\t灯".to_string()),
        "{\"entity_id\":\"a\\u0001b\\n\\t灯\"}"
    );
    assert_eq!(
        ha_service_body(&"\u{1f}\u{8}\u{c}\r/".to_string()),
        "{\"entity_id\":\"\\u001f\\b\\f\\r/\"}"
    );
}

#[test]
fn replies() {
    assert_eq!(ha_connection_result(HaReply::Status { code: 200 }), Ok(true));
    assert_eq!(
        ha_connection_result(HaReply::Status { code: 401 }),
        Err("连接失败，状态码: 401 Unauthorized".to_string())
    );
    assert_eq!(
        ha_connection_result(HaReply::Status { code: 301 }),
        Err("连接失败，状态码: 301 Moved Permanently".to_string())
    );
    assert_eq!(
        ha_connection_result(HaReply::SendFailed { reason: "x".to_string() }),
        Err("请求失败: x".to_string())
    );
    assert_eq!(ha_states_result(HaReply::Status { code: 204 }), Ok(()));
    assert_eq!(
        ha_states_result(HaReply::Status { code: 500 }),
        Err("获取状态失败: 500 Internal Server Error".to_string())
    );
    assert_eq!(ha_call_result(HaReply::Status { code: 200 }), Ok(true));
    assert_eq!(
        ha_call_result(HaReply::Status { code: 404 }),
        Err("调用服务失败: 404 Not Found".to_string())
    );
    assert_eq!(entities_parse_error(&"eof".to_string()), "解析响应失败: eof");
}
