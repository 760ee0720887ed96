use monitor_dashboard::power::{command_outcome, power_command, PowerAction};
use monitor_dashboard::sensor::{cpu_label, select_cpu_sensor};
use monitor_dashboard::text::{contains_text, push_decimal};

#[test]
fn cpu_labels() {
    assert!(cpu_label("CPU Temp"));
    assert!(cpu_label("coretemp Core 0"));
    assert!(cpu_label("Package id 0"));
    assert!(cpu_label("k10temp Tctl"));
    assert!(!cpu_label("nvme Composite"));
    assert!(!cpu_label("acpitz"));
}

#[test]
fn first_usable_cpu_sensor() {
    let labels = vec![
        "nvme Composite".to_string(),
        "Core 0".to_string(),
        "CPU".to_string(),
        "Core 1".to_string(),
    ];
    assert_eq!(select_cpu_sensor(&labels, &vec![true, false, true, true]), Some(2));
    assert_eq!(select_cpu_sensor(&labels, &vec![true, true, true, true]), Some(1));
    assert_eq!(select_cpu_sensor(&labels, &vec![true, false, false, false]), None);
    assert_eq!(select_cpu_sensor(&vec![], &vec![]), None);
}

#[test]
fn power_commands() {
    let c = power_command(PowerAction::Shutdown, false);
    assert_eq!(c.program, "shutdown");
    assert_eq!(c.args, vec!["-h", "now"]);
    assert_eq!(power_command(PowerAction::Restart, false).args, vec!["-r", "now"]);
    assert_eq!(power_command(PowerAction::Shutdown, true).args, vec!["/s", "/t", "0"]);
    assert_eq!(power_command(PowerAction::Restart, true).args, vec!["/r", "/t", "0"]);
}

#[test]
fn command_outcomes() {
    assert_eq!(command_outcome(true, b"ignored"), Ok(()));
    assert_eq!(command_outcome(false, b"not permitted"), Err("not permitted".to_string()));
    assert_eq!(command_outcome(false, &[0x61, 0xff]), Err("a\u{fffd}".to_string()));
}

#[test]
fn text_helpers() {
    assert!(contains_text("hello", "ell"));
    assert!(contains_text("hello", ""));
    assert!(!contains_text("he", "hello"));
    assert!(!contains_text("hello", "elo"));
    assert!(cpu_label("ÇPU CORE"));
    let mut s = String::from("n=");
    push_decimal(&mut s, 0);
    push_decimal(&mut s, 1234);
    assert_eq!(s, "n=01234");
}
