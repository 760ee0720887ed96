use monitor_dashboard::service::{ServiceConfig, ServiceRegistry, ServiceType};
use monitor_dashboard::status::{
    check_failed_status, http_probe_result, http_url, probe_plan, status_from_check,
    tcp_address, tcp_probe_result, HttpProbe, ProbePlan, StatusSweep, TcpProbe, Timestamp,
    CHECK_TIMEOUT_MS,
};

fn svc(id: &str, ty: ServiceType, host: &str, port: u16, enabled: bool) -> ServiceConfig {
    ServiceConfig {
        id: id.to_string(),
        name: id.to_uppercase(),
        service_type: ty,
        host: host.to_string(),
        port,
        check_interval: 60,
        enabled,
    }
}

#[test]
fn http_url_by_port() {
    let h = "example.com".to_string();
    assert_eq!(http_url(&h, 443), "https://example.com");
    assert_eq!(http_url(&h, 80), "http://example.com");
    assert_eq!(http_url(&h, 8080), "http://example.com:8080");
    assert_eq!(http_url(&h, 0), "http://example.com:0");
    assert_eq!(http_url(&h, 65535), "http://example.com:65535");
}

#[test]
fn tcp_address_spells_port() {
    let h = "10.0.0.2".to_string();
    assert_eq!(tcp_address(&h, 22), "10.0.0.2:22");
    assert_eq!(tcp_address(&h, 9), "10.0.0.2:9");
    assert_eq!(tcp_address(&h, 10), "10.0.0.2:10");
    assert_eq!(tcp_address(&h, 443), "10.0.0.2:443");
}

#[test]
fn plan_follows_type() {
    match probe_plan(&svc("w", ServiceType::Web, "nas.local", 5000, true)) {
        ProbePlan::Http { url } => assert_eq!(url, "http://nas.local:5000"),
        ProbePlan::Tcp { .. } => panic!("web service probed over tcp"),
    }
    match probe_plan(&svc("t", ServiceType::Tcp, "nas.local", 22, true)) {
        ProbePlan::Tcp { address } => assert_eq!(address, "nas.local:22"),
        ProbePlan::Http { .. } => panic!("tcp service probed over http"),
    }
    assert_eq!(CHECK_TIMEOUT_MS, 5000);
}

#[test]
fn tcp_results() {
    assert_eq!(tcp_probe_result(TcpProbe::Connected { elapsed_ms: 12 }), Ok(12));
    assert_eq!(
        tcp_probe_result(TcpProbe::Failed { reason: "refused".to_string() }),
        Err("连接失败: refused".to_string())
    );
    assert_eq!(tcp_probe_result(TcpProbe::TimedOut), Err("连接超时".to_string()));
}

#[test]
fn http_results() {
    assert_eq!(http_probe_result(HttpProbe::Responded { status: 200, elapsed_ms: 7 }), Ok(7));
    assert_eq!(http_probe_result(HttpProbe::Responded { status: 302, elapsed_ms: 9 }), Ok(9));
    assert_eq!(http_probe_result(HttpProbe::Responded { status: 399, elapsed_ms: 9 }), Ok(9));
    assert_eq!(
        http_probe_result(HttpProbe::Responded { status: 404, elapsed_ms: 9 }),
        Err("HTTP 错误: 404 Not Found".to_string())
    );
    assert_eq!(
        http_probe_result(HttpProbe::Responded { status: 199, elapsed_ms: 9 }),
        Err("HTTP 错误: 199 <unknown status code>".to_string())
    );
    assert_eq!(
        http_probe_result(HttpProbe::ClientFailed { reason: "tls".to_string() }),
        Err("创建客户端失败: tls".to_string())
    );
    assert_eq!(
        http_probe_result(HttpProbe::RequestFailed { reason: "dns".to_string() }),
        Err("请求失败: dns".to_string())
    );
    assert_eq!(http_probe_result(HttpProbe::TimedOut), Err("请求超时".to_string()));
}

fn at(secs: i64, nanos: u32) -> Timestamp {
    Timestamp { secs, nanos }
}

#[test]
fn status_from_success_and_failure() {
    let ok = status_from_check("a".to_string(), Ok(15), at(1_700_000_000, 123_456_789));
    assert_eq!(ok.service_id, "a");
    assert!(ok.is_online);
    assert_eq!(ok.response_time, 15);
    assert_eq!(ok.last_checked, at(1_700_000_000, 123_456_789));
    assert_eq!(ok.error_message, None);

    let bad = status_from_check("b".to_string(), Err("连接超时".to_string()), at(5, 0));
    assert!(!bad.is_online);
    assert_eq!(bad.response_time, 0);
    assert_eq!(bad.last_checked, at(5, 0));
    assert_eq!(bad.error_message.as_deref(), Some("连接超时"));
}

#[test]
fn failed_check_status() {
    let s = check_failed_status("gone".to_string(), at(42, 7));
    assert_eq!(s.service_id, "gone");
    assert!(!s.is_online);
    assert_eq!(s.response_time, 0);
    assert_eq!(s.error_message.as_deref(), Some("检查失败"));
    assert_eq!(s.last_checked, at(42, 7));
}

#[test]
fn sweep_checks_enabled_in_order() {
    let reg = ServiceRegistry::new(vec![
        svc("a", ServiceType::Tcp, "h", 1, true),
        svc("b", ServiceType::Tcp, "h", 2, false),
        svc("c", ServiceType::Web, "h", 3, true),
    ]);
    let mut sweep = StatusSweep::new(&reg);
    assert!(!sweep.is_done());
    assert_eq!(sweep.next_target(), Some("a".to_string()));
    sweep.record(Some(Ok(4)), at(10, 1));
    assert_eq!(sweep.next_target(), Some("c".to_string()));
    sweep.record(None, at(11, 2));
    assert!(sweep.is_done());
    assert_eq!(sweep.next_target(), None);
    let statuses = sweep.into_statuses();
    assert_eq!(statuses.len(), 2);
    assert_eq!(statuses[0].service_id, "a");
    assert!(statuses[0].is_online);
    assert_eq!(statuses[1].service_id, "c");
    assert_eq!(statuses[0].last_checked, at(10, 1));
    assert_eq!(statuses[1].error_message.as_deref(), Some("检查失败"));
    assert_eq!(statuses[1].last_checked, at(11, 2));
}

#[test]
fn sweep_over_nothing_is_done() {
    let reg = ServiceRegistry::new(vec![svc("b", ServiceType::Tcp, "h", 2, false)]);
    let sweep = StatusSweep::new(&reg);
    assert!(sweep.is_done());
    assert!(sweep.into_statuses().is_empty());
}
