use jdw_suite::config::SuiteConfig;
use jdw_suite::launch::{
    control_addr, control_event, control_event_for, log_level, run_router, run_sc,
    run_sequencer, subscribe_message, subscribe_packets, subscription_routes, ControlEvent,
    LogLevel, Service,
};
use jdw_suite::osc::{encode, OscArg, OscMessage};

#[test]
fn quiet_logs_errors_only() {
    assert_eq!(log_level(true), LogLevel::Error);
    assert_eq!(log_level(false), LogLevel::Info);
}

#[test]
fn single_service_plans() {
    let p = run_router(false);
    assert_eq!(p.service, Service::Router);
    assert_eq!(p.log_level, LogLevel::Info);
    assert!(!p.quiet);
    let p = run_sc(true);
    assert_eq!(p.service, Service::Sc);
    assert_eq!(p.log_level, LogLevel::Error);
    assert!(p.quiet);
    let p = run_sequencer(true);
    assert_eq!(p.service, Service::Sequencer);
    assert_eq!(p.log_level, LogLevel::Error);
}

#[test]
fn control_addr_of_the_default_config() {
    assert_eq!(control_addr(&SuiteConfig::default()), "127.0.0.1:13340");
}

#[test]
fn control_addr_of_a_custom_config() {
    let mut c = SuiteConfig::default();
    c.control_address = "0.0.0.0".to_string();
    c.control_port = 7;
    assert_eq!(control_addr(&c), "0.0.0.0:7");
}

#[test]
fn routes_wire_every_service() {
    let routes = subscription_routes(13331, 14441, &SuiteConfig::default());
    assert_eq!(routes.len(), 19);
    assert_eq!(routes[0], ("/note_on_timed", 13331));
    assert_eq!(routes[13], ("/jdw_sc_event_trigger", 13331));
    assert_eq!(routes[14], ("/bundle", 14441));
    assert_eq!(routes[15], ("/nrt_record_finished", 13456));
    assert_eq!(routes[18], ("/wipe_on_finish", 14441));
    let sc: Vec<_> = routes.iter().filter(|r| r.1 == 13331).collect();
    assert_eq!(sc.len(), 14);
}

#[test]
fn subscribe_message_names_route_host_and_port() {
    let m = subscribe_message("/set_bpm", "127.0.0.1", 14441);
    assert_eq!(m.addr, "/subscribe");
    assert_eq!(m.args.len(), 3);
    assert!(matches!(&m.args[0], OscArg::Str(s) if s == "/set_bpm"));
    assert!(matches!(&m.args[1], OscArg::Str(s) if s == "127.0.0.1"));
    assert!(matches!(&m.args[2], OscArg::Int(14441)));
}

#[test]
fn subscribe_packets_encode_each_route() {
    let routes = [("/a", 1), ("/bb", 2)];
    let packets = subscribe_packets("h", &routes);
    assert_eq!(packets.len(), 2);
    assert_eq!(packets[1], encode(&subscribe_message("/bb", "h", 2)));
    let mut expected = b"/subscribe\0\0,ssi\0\0\0\0/a\0\0h\0\0\0".to_vec();
    expected.extend_from_slice(&[0, 0, 0, 1]);
    assert_eq!(packets[0], expected);
}

#[test]
fn control_event_for_addresses() {
    assert!(matches!(control_event_for(None), ControlEvent::Ignored));
    assert!(matches!(control_event_for(Some("/shutdown".to_string())), ControlEvent::Shutdown));
    assert!(matches!(
        control_event_for(Some("/reboot".to_string())),
        ControlEvent::Unknown(a) if a == "/reboot"
    ));
}

#[test]
fn control_listener_reads_messages() {
    let msg = OscMessage { addr: "/hello".to_string(), args: vec![OscArg::Int(3)] };
    assert!(matches!(control_event(&encode(&msg)), ControlEvent::Unknown(a) if a == "/hello"));
    let msg = OscMessage { addr: "/shutdown".to_string(), args: vec![] };
    assert!(matches!(control_event(&encode(&msg)), ControlEvent::Shutdown));
}

#[test]
fn control_listener_ignores_garbage() {
    assert!(matches!(control_event(&[]), ControlEvent::Ignored));
    assert!(matches!(control_event(b"not osc"), ControlEvent::Ignored));
}

#[test]
fn run_all_plan_for_the_default_config() {
    let plan = jdw_suite::launch::run_all(true, &SuiteConfig::default(), 13331, 14441);
    assert_eq!(plan.log_level, LogLevel::Error);
    assert!(plan.quiet);
    assert_eq!(plan.control_addr, "127.0.0.1:13340");
    assert_eq!(plan.routes, subscription_routes(13331, 14441, &SuiteConfig::default()));
    assert_eq!(plan.routes[15], ("/nrt_record_finished", 13456));
}

#[test]
fn run_all_plan_when_not_quiet() {
    let plan = jdw_suite::launch::run_all(false, &SuiteConfig::default(), 1, 2);
    assert_eq!(plan.log_level, LogLevel::Info);
    assert!(!plan.quiet);
}
