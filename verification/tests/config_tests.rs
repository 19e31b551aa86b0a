use jdw_suite::config::{
    config_path, default_control_address, default_control_port, default_nrt_listener_port_base,
    default_sequencer_in_port, load, ConfigFile, SuiteConfig, SuiteSection,
};

fn empty_section() -> SuiteSection {
    SuiteSection {
        control_port: None,
        control_address: None,
        nrt_listener_port_base: None,
        sequencer_in_port: None,
    }
}

#[test]
fn defaults_are_the_documented_ports() {
    assert_eq!(default_control_port(), 13340);
    assert_eq!(default_control_address(), "127.0.0.1");
    assert_eq!(default_nrt_listener_port_base(), 13456);
    assert_eq!(default_sequencer_in_port(), 14441);
}

#[test]
fn default_config_holds_every_default() {
    let c = SuiteConfig::default();
    assert_eq!(c.control_port, 13340);
    assert_eq!(c.control_address, "127.0.0.1");
    assert_eq!(c.nrt_listener_port_base, 13456);
    assert_eq!(c.sequencer_in_port, 14441);
}

#[test]
fn resolve_keeps_present_keys_and_fills_absent_ones() {
    let section = SuiteSection {
        control_port: Some(9000),
        control_address: None,
        nrt_listener_port_base: None,
        sequencer_in_port: Some(15000),
    };
    let c = section.resolve();
    assert_eq!(c.control_port, 9000);
    assert_eq!(c.control_address, "127.0.0.1");
    assert_eq!(c.nrt_listener_port_base, 13456);
    assert_eq!(c.sequencer_in_port, 15000);
}

#[test]
fn resolve_of_a_full_table_is_the_table() {
    let section = SuiteSection {
        control_port: Some(1),
        control_address: Some("10.0.0.2".to_string()),
        nrt_listener_port_base: Some(2),
        sequencer_in_port: Some(3),
    };
    let c = section.resolve();
    assert_eq!(c.control_port, 1);
    assert_eq!(c.control_address, "10.0.0.2");
    assert_eq!(c.nrt_listener_port_base, 2);
    assert_eq!(c.sequencer_in_port, 3);
}

#[test]
fn resolve_of_an_empty_table_is_the_default() {
    let c = empty_section().resolve();
    assert_eq!(c.control_port, 13340);
    assert_eq!(c.control_address, "127.0.0.1");
}

#[test]
fn load_without_a_file_gives_defaults() {
    let c = load(None);
    assert_eq!(c.control_port, 13340);
    assert_eq!(c.sequencer_in_port, 14441);
}

#[test]
fn load_without_a_suite_table_gives_defaults() {
    let c = load(Some(ConfigFile { suite: None }));
    assert_eq!(c.control_port, 13340);
    assert_eq!(c.control_address, "127.0.0.1");
}

#[test]
fn load_with_a_suite_table_resolves_it() {
    let mut section = empty_section();
    section.control_address = Some("192.168.1.5".to_string());
    let c = load(Some(ConfigFile { suite: Some(section) }));
    assert_eq!(c.control_address, "192.168.1.5");
    assert_eq!(c.control_port, 13340);
}

#[test]
fn config_path_prefers_the_override() {
    let p = config_path(Some("/etc/jdw.toml".to_string()), Some("/home/ann".to_string()));
    assert_eq!(p, "/etc/jdw.toml");
}

#[test]
fn config_path_lies_under_home() {
    let p = config_path(None, Some("/home/ann".to_string()));
    assert_eq!(p, "/home/ann/.config/jdw.toml");
}

#[test]
fn config_path_falls_back_to_tmp() {
    assert_eq!(config_path(None, None), "/tmp/.config/jdw.toml");
}
