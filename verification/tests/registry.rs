use monitor_dashboard::service::{ServiceConfig, ServiceRegistry, ServiceType};

fn svc(id: &str, enabled: bool) -> ServiceConfig {
    ServiceConfig {
        id: id.to_string(),
        name: format!("name-{}", id),
        service_type: ServiceType::Tcp,
        host: "127.0.0.1".to_string(),
        port: 22,
        check_interval: 30,
        enabled,
    }
}

fn ids(r: &ServiceRegistry) -> Vec<String> {
    r.get_services().into_iter().map(|s| s.id).collect()
}

#[test]
fn add_appends_new_id() {
    let mut r = ServiceRegistry::new(vec![svc("a", true)]);
    let added = r.add_service(svc("b", false)).unwrap();
    assert_eq!(added.id, "b");
    assert_eq!(ids(&r), vec!["a", "b"]);
}

#[test]
fn add_refuses_taken_id() {
    let mut r = ServiceRegistry::new(vec![svc("a", true)]);
    let err = r.add_service(svc("a", false)).err().unwrap();
    assert_eq!(err, "服务 ID 已存在");
    assert_eq!(ids(&r), vec!["a"]);
}

#[test]
fn add_then_find_gives_added() {
    let mut r = ServiceRegistry::new(vec![svc("a", true)]);
    r.add_service(svc("b", false)).unwrap();
    let found = r.find_service(&"b".to_string()).unwrap();
    assert_eq!(found.name, "name-b");
    assert!(!found.enabled);
}

#[test]
fn add_then_delete_restores() {
    let mut r = ServiceRegistry::new(vec![svc("a", true), svc("c", true)]);
    r.add_service(svc("b", true)).unwrap();
    assert_eq!(r.delete_service(&"b".to_string()), Ok(true));
    assert_eq!(ids(&r), vec!["a", "c"]);
}

#[test]
fn update_replaces_first_match_only() {
    let mut r = ServiceRegistry::new(vec![svc("a", true), svc("x", true), svc("a", false)]);
    let mut new = svc("a", true);
    new.port = 8080;
    let back = r.update_service(&"a".to_string(), new).unwrap();
    assert_eq!(back.port, 8080);
    let all = r.get_services();
    assert_eq!(all.len(), 3);
    assert_eq!(all[0].port, 8080);
    assert_eq!(all[2].port, 22);
    assert_eq!(r.find_service(&"a".to_string()).unwrap().port, 8080);
}

#[test]
fn update_missing_is_refused() {
    let mut r = ServiceRegistry::new(vec![svc("a", true)]);
    let err = r.update_service(&"z".to_string(), svc("z", true)).err().unwrap();
    assert_eq!(err, "服务不存在");
    assert_eq!(ids(&r), vec!["a"]);
}

#[test]
fn update_may_change_id() {
    let mut r = ServiceRegistry::new(vec![svc("a", true)]);
    r.update_service(&"a".to_string(), svc("q", true)).unwrap();
    assert_eq!(ids(&r), vec!["q"]);
    assert!(r.find_service(&"a".to_string()).is_err());
}

#[test]
fn delete_removes_first_match() {
    let mut r = ServiceRegistry::new(vec![svc("a", true), svc("b", true), svc("a", false)]);
    assert_eq!(r.delete_service(&"a".to_string()), Ok(true));
    let all = r.get_services();
    assert_eq!(all.len(), 2);
    assert_eq!(all[0].id, "b");
    assert!(!all[1].enabled);
}

#[test]
fn delete_missing_is_refused() {
    let mut r = ServiceRegistry::new(vec![]);
    assert_eq!(r.delete_service(&"a".to_string()), Err("服务不存在".to_string()));
}

#[test]
fn delete_keeps_other_lookups() {
    let mut r = ServiceRegistry::new(vec![svc("a", true), svc("b", false)]);
    r.delete_service(&"a".to_string()).unwrap();
    assert_eq!(r.find_service(&"b".to_string()).unwrap().name, "name-b");
}

#[test]
fn find_missing_is_refused() {
    let r = ServiceRegistry::new(vec![svc("a", true)]);
    assert_eq!(r.find_service(&"b".to_string()).err().unwrap(), "服务不存在");
}

#[test]
fn enabled_services_keep_order() {
    let r = ServiceRegistry::new(vec![svc("a", true), svc("b", false), svc("c", true)]);
    let e: Vec<String> = r.enabled_services().into_iter().map(|s| s.id).collect();
    assert_eq!(e, vec!["a", "c"]);
}

#[test]
fn from_loaded_falls_back_to_empty() {
    assert!(ServiceRegistry::from_loaded(None).get_services().is_empty());
    let r = ServiceRegistry::from_loaded(Some(vec![svc("a", true)]));
    assert_eq!(ids(&r), vec!["a"]);
}

#[test]
fn position_finds_first() {
    let r = ServiceRegistry::new(vec![svc("b", true), svc("a", true), svc("a", true)]);
    assert_eq!(r.position(&"a".to_string()), Some(1));
    assert_eq!(r.position(&"c".to_string()), None);
}

#[test]
fn duplicate_copies_every_field() {
    let s = svc("a", true);
    let d = s.duplicate();
    assert_eq!(d.id, s.id);
    assert_eq!(d.name, s.name);
    assert_eq!(d.host, s.host);
    assert_eq!(d.port, s.port);
    assert_eq!(d.check_interval, s.check_interval);
    assert_eq!(d.enabled, s.enabled);
    assert_eq!(d.service_type, s.service_type);
}
