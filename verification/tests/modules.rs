use leftwm_theme_dark_nord::modules::battery::{self, battery_level, BatteryLevel};
use leftwm_theme_dark_nord::modules::cpu::{self, cpu_level, CpuLevel};
use leftwm_theme_dark_nord::statusbar::{module_named, shell_named, ModuleKind, Shell};
use leftwm_theme_dark_nord::template::fill;
use leftwm_theme_dark_nord::PbStatusError;

#[test]
fn battery_levels_follow_the_first_threshold_passed() {
    assert_eq!(battery_level(true, true, true, true, true), BatteryLevel::Critical);
    assert_eq!(battery_level(false, true, true, true, true), BatteryLevel::Low);
    assert_eq!(battery_level(false, false, true, true, true), BatteryLevel::Normal);
    assert_eq!(battery_level(false, false, false, true, true), BatteryLevel::High);
    assert_eq!(battery_level(false, false, false, false, true), BatteryLevel::Full);
    assert_eq!(battery_level(false, false, false, false, false), BatteryLevel::Unknown);
}

#[test]
fn battery_level_names() {
    let names: Vec<&str> = [
        BatteryLevel::Critical,
        BatteryLevel::Low,
        BatteryLevel::Normal,
        BatteryLevel::High,
        BatteryLevel::Full,
        BatteryLevel::Unknown,
    ]
    .iter()
    .map(|l| l.name())
    .collect();
    assert_eq!(names, vec!["critical", "low", "normal", "high", "full", "NaN"]);
}

#[test]
fn cpu_levels() {
    assert_eq!(cpu_level(true, true), CpuLevel::Low);
    assert_eq!(cpu_level(false, true), CpuLevel::Mid);
    assert_eq!(cpu_level(false, false), CpuLevel::High);
    assert_eq!(CpuLevel::Low.name(), "low");
    assert_eq!(CpuLevel::Mid.name(), "mid");
    assert_eq!(CpuLevel::High.name(), "high");
}

#[test]
fn battery_text_fills_the_template() {
    let m = battery::Mod {};
    let (text, sep) = m
        .status_text("{separator}{label} {value}%", "B", "C", false, "42", Some("|".into()))
        .unwrap();
    assert_eq!(text, "|B 42%");
    assert_eq!(sep, "|");
}

#[test]
fn battery_text_uses_charging_label_and_empty_separator() {
    let m = battery::Mod {};
    let (text, sep) = m
        .status_text("{separator}{label} {value}%", "B", "C", true, "7", None)
        .unwrap();
    assert_eq!(text, "C 7%");
    assert_eq!(sep, "");
}

#[test]
fn default_battery_format_keeps_its_dollar() {
    let m = battery::Mod {};
    let (text, _) = m
        .status_text("${separator}{label} {value}%", "", "", false, "100", None)
        .unwrap();
    assert_eq!(text, "$ 100%");
}

#[test]
fn unknown_name_in_template_is_a_format_error() {
    let m = cpu::Mod {};
    let r = m.status_text(
        "{separator}{load_label} {load}% | {temp_label} {temp}{temp_unit}°C",
        "L",
        "T",
        "12.5",
        "40",
        None,
    );
    assert!(matches!(r, Err(PbStatusError::DynamicFormat(_))));
}

#[test]
fn cpu_text_fills_the_template() {
    let m = cpu::Mod {};
    let (text, sep) = m
        .status_text("{separator}{load_label} {load}% | {temp_label} {temp}°C", "L", "T", "12.5", "40", Some(" ".into()))
        .unwrap();
    assert_eq!(text, " L 12.5% | T 40°C");
    assert_eq!(sep, " ");
}

#[test]
fn fill_reports_stray_braces() {
    assert!(matches!(fill("{", vec![]), Err(PbStatusError::DynamicFormat(_))));
    assert!(matches!(fill("}", vec![]), Err(PbStatusError::DynamicFormat(_))));
    assert_eq!(fill("{{x}}", vec![]).unwrap(), "{x}");
    assert_eq!(fill("{a:>3}", vec![("a".into(), "b".into())]).unwrap(), "  b");
}

#[test]
fn later_pair_wins() {
    let vars = vec![("a".to_string(), "1".to_string()), ("a".to_string(), "2".to_string())];
    assert_eq!(fill("{a}", vars).unwrap(), "2");
}

#[test]
fn modules_by_name() {
    assert!(matches!(module_named("battery"), Ok(ModuleKind::Battery)));
    assert!(matches!(module_named("cpu"), Ok(ModuleKind::Cpu)));
    match module_named("memory") {
        Err(PbStatusError::ModuleNotFound(name)) => assert_eq!(name, "battery"),
        _ => panic!("expected ModuleNotFound"),
    }
}

#[test]
fn shells_by_name() {
    assert_eq!(shell_named("bash"), Shell::Bash);
    assert_eq!(shell_named("elvish"), Shell::Elvish);
    assert_eq!(shell_named("fish"), Shell::Fish);
    assert_eq!(shell_named("powershell"), Shell::PowerShell);
    assert_eq!(shell_named("zsh"), Shell::Zsh);
}
