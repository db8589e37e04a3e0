use sysinfo_applet::classify::get_physical_interfaces;
use sysinfo_applet::config::SysInfoConfig;

fn names(list: &[&str]) -> Vec<String> {
    list.iter().map(|s| s.to_string()).collect()
}

#[test]
fn no_filters_passes_everything() {
    let config = SysInfoConfig { include_interfaces: None, exclude_interfaces: None };
    let devices = names(&["eth0", "wlan0", "enp3s0"]);
    assert_eq!(get_physical_interfaces(&devices, &config), devices);
}

#[test]
fn include_list_restricts() {
    let config = SysInfoConfig {
        include_interfaces: Some(names(&["eth0"])),
        exclude_interfaces: None,
    };
    let devices = names(&["eth0", "wlan0"]);
    assert_eq!(get_physical_interfaces(&devices, &config), names(&["eth0"]));
}

#[test]
fn exclude_list_removes() {
    let config = SysInfoConfig {
        include_interfaces: None,
        exclude_interfaces: Some(names(&["wlan0"])),
    };
    let devices = names(&["eth0", "wlan0", "enp3s0"]);
    assert_eq!(get_physical_interfaces(&devices, &config), names(&["eth0", "enp3s0"]));
}

#[test]
fn exclude_wins_over_include() {
    let config = SysInfoConfig {
        include_interfaces: Some(names(&["A"])),
        exclude_interfaces: Some(names(&["A"])),
    };
    let devices = names(&["A", "B"]);
    let physical = get_physical_interfaces(&devices, &config);
    assert!(physical.is_empty());
}

#[test]
fn classification_keeps_order() {
    let config = SysInfoConfig {
        include_interfaces: Some(names(&["c", "a"])),
        exclude_interfaces: None,
    };
    let devices = names(&["a", "b", "c"]);
    assert_eq!(get_physical_interfaces(&devices, &config), names(&["a", "c"]));
}

#[test]
fn classification_is_idempotent() {
    let config = SysInfoConfig {
        include_interfaces: Some(names(&["eth0", "enp3s0"])),
        exclude_interfaces: Some(names(&["enp3s0"])),
    };
    let devices = names(&["eth0", "wlan0", "enp3s0"]);
    let once = get_physical_interfaces(&devices, &config);
    let twice = get_physical_interfaces(&once, &config);
    assert_eq!(once, twice);
}

#[test]
fn config_entry_falls_back_to_default() {
    let loaded = SysInfoConfig::config(None);
    assert!(loaded.include_interfaces.is_none());
    assert!(loaded.exclude_interfaces.is_none());

    let entry = SysInfoConfig {
        include_interfaces: Some(names(&["eth0"])),
        exclude_interfaces: None,
    };
    let loaded = SysInfoConfig::config(Some(entry));
    assert_eq!(loaded.include_interfaces, Some(names(&["eth0"])));
    assert!(loaded.exclude_interfaces.is_none());
}
