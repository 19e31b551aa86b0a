//! What the launch commands decide: the logging level, the service to run,
//! the router subscriptions that wire the services together, and how the
//! control listener answers a datagram.

use vstd::prelude::*;
use vstd::string::StringExecFns;

use crate::config::SuiteConfig;
use crate::osc::{
    encode, is_routable, osc_decoded_address, osc_message_bytes, rosc_decoded_address, ArgModel,
    MessageModel, OscArg, OscMessage,
};
use crate::text::{decimal_digits, decimal_value, lemma_decimal_round_trip, opt_view, push_decimal};

verus! {

/// How much the suite logs.
#[derive(Debug, Clone, Copy, PartialEq, Eq, Structural)]
pub enum LogLevel {
    /// Errors only.
    Error,
    /// Informational messages and above.
    Info,
}

/// One of the services that the suite runs in its own process.
#[derive(Debug, Clone, Copy, PartialEq, Eq, Structural)]
pub enum Service {
    /// The OSC message router.
    Router,
    /// The SuperCollider wrapper.
    Sc,
    /// The beat-synchronous sequencer.
    Sequencer,
}

/// What launching a single service does: set up logging at a level, then
/// run the service in the foreground, telling it whether to be quiet.
#[derive(Debug, Clone, Copy, PartialEq, Eq, Structural)]
pub struct LaunchPlan {
    pub log_level: LogLevel,
    pub service: Service,
    pub quiet: bool,
}

/// The logging level for the `--quiet` flag.
pub open spec fn spec_log_level(quiet: bool) -> LogLevel {
    if quiet {
        LogLevel::Error
    } else {
        LogLevel::Info
    }
}

/// The logging level: errors only when quiet, else informational.
pub fn log_level(quiet: bool) -> (level: LogLevel)
    ensures
        level == spec_log_level(quiet),
{
    if quiet {
        LogLevel::Error
    } else {
        LogLevel::Info
    }
}

/// The plan that launches one service.
pub open spec fn spec_plan(service: Service, quiet: bool) -> LaunchPlan {
    LaunchPlan { log_level: spec_log_level(quiet), service, quiet }
}

/// Launching a single service honours `--quiet` whichever the service:
/// the service is told to be quiet exactly when the flag is set, and the
/// log shows errors only exactly when the flag is set.
pub proof fn lemma_plan_honours_quiet(service: Service, quiet: bool)
    ensures
        spec_plan(service, quiet).service == service,
        spec_plan(service, quiet).quiet == quiet,
        spec_plan(service, quiet).log_level == LogLevel::Error <==> quiet,
        spec_plan(service, quiet).log_level == LogLevel::Info <==> !quiet,
{
}

/// Launch only the OSC message router.
pub fn run_router(quiet: bool) -> (plan: LaunchPlan)
    ensures
        plan == spec_plan(Service::Router, quiet),
        plan.service == Service::Router,
        plan.quiet == quiet,
        plan.log_level == LogLevel::Error <==> quiet,
{
    LaunchPlan { log_level: log_level(quiet), service: Service::Router, quiet }
}

/// Launch only the SuperCollider wrapper.
pub fn run_sc(quiet: bool) -> (plan: LaunchPlan)
    ensures
        plan == spec_plan(Service::Sc, quiet),
        plan.service == Service::Sc,
        plan.quiet == quiet,
        plan.log_level == LogLevel::Error <==> quiet,
{
    LaunchPlan { log_level: log_level(quiet), service: Service::Sc, quiet }
}

/// Launch only the beat-synchronous sequencer.
pub fn run_sequencer(quiet: bool) -> (plan: LaunchPlan)
    ensures
        plan == spec_plan(Service::Sequencer, quiet),
        plan.service == Service::Sequencer,
        plan.quiet == quiet,
        plan.log_level == LogLevel::Error <==> quiet,
{
    LaunchPlan { log_level: log_level(quiet), service: Service::Sequencer, quiet }
}

/// The `host:port` text of the suite's control channel.
pub open spec fn spec_control_addr(config: SuiteConfig) -> Seq<char> {
    config.control_address@ + ":"@ + decimal_digits(config.control_port as nat)
}

/// The control address reads back as the configured host and port: it is
/// the configured address, a `:`, then digits only, which denote the
/// configured port.
pub proof fn lemma_control_addr_reads_back(config: SuiteConfig)
    ensures
        ({
            let text = spec_control_addr(config);
            let k = config.control_address@.len() as int;
            &&& text.take(k) == config.control_address@
            &&& text[k] == ':'
            &&& decimal_value(text.skip(k + 1)) == config.control_port as int
            &&& text.skip(k + 1).len() > 0
            &&& forall|i: int|
                0 <= i < text.skip(k + 1).len() ==> '0' <= #[trigger] text.skip(k + 1)[i] <= '9'
        }),
{
    reveal_strlit(":");
    let text = spec_control_addr(config);
    let k = config.control_address@.len() as int;
    let digits = decimal_digits(config.control_port as nat);
    lemma_decimal_round_trip(config.control_port as nat);
    assert(text.take(k) =~= config.control_address@);
    assert(text.skip(k + 1) =~= digits);
}

/// The address on which the control listener binds and to which the
/// client sends its shutdown request.
pub fn control_addr(config: &SuiteConfig) -> (addr: String)
    ensures
        addr@ == spec_control_addr(*config),
{
    let mut addr = config.control_address.clone();
    addr.append(":");
    push_decimal(&mut addr, config.control_port as u64);
    addr
}

/// The OSC address of a shutdown request.
pub open spec fn shutdown_address() -> Seq<char> {
    "/shutdown"@
}

/// What the control listener makes of one datagram.
#[derive(Debug, Clone)]
pub enum ControlEvent {
    /// A shutdown request: the suite stops.
    Shutdown,
    /// A message with another address: it is logged and dropped.
    Unknown(String),
    /// Not an OSC message: it is dropped silently.
    Ignored,
}

/// How the control listener answers a datagram whose decoded message
/// address is `decoded` (`None`: nothing decoded).
pub open spec fn answers(decoded: Option<Seq<char>>, event: ControlEvent) -> bool {
    match decoded {
        None => event is Ignored,
        Some(addr) => if addr == shutdown_address() {
            event is Shutdown
        } else {
            event matches ControlEvent::Unknown(a) && a@ == addr
        },
    }
}

/// The control listener's answer to a decoded message address.
pub fn control_event_for(decoded: Option<String>) -> (event: ControlEvent)
    ensures
        answers(opt_view(decoded), event),
{
    match decoded {
        None => ControlEvent::Ignored,
        Some(addr) => {
            let shutdown = String::from_str("/shutdown");
            if addr == shutdown {
                ControlEvent::Shutdown
            } else {
                ControlEvent::Unknown(addr)
            }
        },
    }
}

/// The control listener's answer to a received datagram. A datagram that is
/// the wire form of a routable message is answered by that message's
/// address, so the shutdown request that the client sends stops the suite.
pub fn control_event(datagram: &[u8]) -> (event: ControlEvent)
    ensures
        answers(osc_decoded_address(datagram@), event),
        forall|m: MessageModel|
            #[trigger] osc_message_bytes(m) == datagram@ && is_routable(m) ==> answers(
                Some(m.addr),
                event,
            ),
{
    control_event_for(rosc_decoded_address(datagram))
}

/// The router subscriptions that wire the services together, in the order
/// in which they are registered: each OSC address with the port of the
/// service that receives it.
pub open spec fn route_table(sc_port: i32, seq_port: i32, nrt_port: i32) -> Seq<(Seq<char>, i32)> {
    seq![
        ("/note_on_timed"@, sc_port),
        ("/note_on"@, sc_port),
        ("/bundle"@, sc_port),
        ("/c_set"@, sc_port),
        ("/play_sample"@, sc_port),
        ("/note_modify"@, sc_port),
        ("/read_scd"@, sc_port),
        ("/create_synthdef"@, sc_port),
        ("/load_sample"@, sc_port),
        ("/free_notes"@, sc_port),
        ("/clear_nrt"@, sc_port),
        ("/nrt_record_from_file"@, sc_port),
        ("/set_bpm"@, sc_port),
        ("/jdw_sc_event_trigger"@, sc_port),
        ("/bundle"@, seq_port),
        ("/nrt_record_finished"@, nrt_port),
        ("/set_bpm"@, seq_port),
        ("/hard_stop"@, seq_port),
        ("/wipe_on_finish"@, seq_port),
    ]
}

/// Every route lands where its messages are meant to go, given three
/// distinct service ports: the fourteen SuperCollider addresses at
/// `sc_port`; `/bundle`, `/set_bpm`, `/hard_stop` and `/wipe_on_finish` at
/// the sequencer's `seq_port`; and `/nrt_record_finished`, and nothing
/// else, at the completion listener's `nrt_port`.
pub proof fn lemma_routes_reach_their_services(sc_port: i32, seq_port: i32, nrt_port: i32)
    requires
        sc_port != seq_port,
        sc_port != nrt_port,
        seq_port != nrt_port,
    ensures
        ({
            let t = route_table(sc_port, seq_port, nrt_port);
            &&& t.len() == 19
            &&& t.contains(("/note_on_timed"@, sc_port))
            &&& t.contains(("/note_on"@, sc_port))
            &&& t.contains(("/bundle"@, sc_port))
            &&& t.contains(("/c_set"@, sc_port))
            &&& t.contains(("/play_sample"@, sc_port))
            &&& t.contains(("/note_modify"@, sc_port))
            &&& t.contains(("/read_scd"@, sc_port))
            &&& t.contains(("/create_synthdef"@, sc_port))
            &&& t.contains(("/load_sample"@, sc_port))
            &&& t.contains(("/free_notes"@, sc_port))
            &&& t.contains(("/clear_nrt"@, sc_port))
            &&& t.contains(("/nrt_record_from_file"@, sc_port))
            &&& t.contains(("/set_bpm"@, sc_port))
            &&& t.contains(("/jdw_sc_event_trigger"@, sc_port))
            &&& t.contains(("/bundle"@, seq_port))
            &&& t.contains(("/set_bpm"@, seq_port))
            &&& t.contains(("/hard_stop"@, seq_port))
            &&& t.contains(("/wipe_on_finish"@, seq_port))
            &&& t.contains(("/nrt_record_finished"@, nrt_port))
            &&& forall|i: int|
                0 <= i < t.len() ==> ((#[trigger] t[i]).1 == nrt_port <==> t[i].0
                    == "/nrt_record_finished"@)
            &&& forall|i: int|
                0 <= i < t.len() ==> ((#[trigger] t[i]).1 == sc_port || t[i].1 == seq_port
                    || t[i].1 == nrt_port)
        }),
{
    reveal_strlit("/note_on_timed");
    reveal_strlit("/note_on");
    reveal_strlit("/bundle");
    reveal_strlit("/c_set");
    reveal_strlit("/play_sample");
    reveal_strlit("/note_modify");
    reveal_strlit("/read_scd");
    reveal_strlit("/create_synthdef");
    reveal_strlit("/load_sample");
    reveal_strlit("/free_notes");
    reveal_strlit("/clear_nrt");
    reveal_strlit("/nrt_record_from_file");
    reveal_strlit("/set_bpm");
    reveal_strlit("/jdw_sc_event_trigger");
    reveal_strlit("/nrt_record_finished");
    reveal_strlit("/hard_stop");
    reveal_strlit("/wipe_on_finish");
    let t = route_table(sc_port, seq_port, nrt_port);
    assert(t[0] == ("/note_on_timed"@, sc_port));
    assert(t[1] == ("/note_on"@, sc_port));
    assert(t[2] == ("/bundle"@, sc_port));
    assert(t[3] == ("/c_set"@, sc_port));
    assert(t[4] == ("/play_sample"@, sc_port));
    assert(t[5] == ("/note_modify"@, sc_port));
    assert(t[6] == ("/read_scd"@, sc_port));
    assert(t[7] == ("/create_synthdef"@, sc_port));
    assert(t[8] == ("/load_sample"@, sc_port));
    assert(t[9] == ("/free_notes"@, sc_port));
    assert(t[10] == ("/clear_nrt"@, sc_port));
    assert(t[11] == ("/nrt_record_from_file"@, sc_port));
    assert(t[12] == ("/set_bpm"@, sc_port));
    assert(t[13] == ("/jdw_sc_event_trigger"@, sc_port));
    assert(t[14] == ("/bundle"@, seq_port));
    assert(t[15] == ("/nrt_record_finished"@, nrt_port));
    assert(t[16] == ("/set_bpm"@, seq_port));
    assert(t[17] == ("/hard_stop"@, seq_port));
    assert(t[18] == ("/wipe_on_finish"@, seq_port));
    assert(t.contains(("/hard_stop"@, seq_port)));
    assert forall|i: int| 0 <= i < t.len() implies ((#[trigger] t[i]).1 == nrt_port <==> t[i].0
        == "/nrt_record_finished"@) by {
        if i != 15 {
            assert(t[i].0.len() != "/nrt_record_finished"@.len());
        }
    }
}

/// The view of a list of routes.
pub open spec fn routes_view(routes: Seq<(&str, i32)>) -> Seq<(Seq<char>, i32)> {
    routes.map_values(|r: (&str, i32)| (r.0@, r.1))
}

/// The subscriptions that `all` registers with the router: the
/// SuperCollider wrapper's input port `sc_port`, the sequencer's input port
/// `seq_port`, and the first non-real-time listener port of the suite.
pub fn subscription_routes(sc_port: i32, seq_port: i32, config: &SuiteConfig) -> (routes: Vec<(&'static str, i32)>)
    ensures
        routes_view(routes@) == route_table(sc_port, seq_port, config.nrt_listener_port_base as i32),
{
    let nrt_port = config.nrt_listener_port_base as i32;
    let mut routes: Vec<(&'static str, i32)> = Vec::new();
    routes.push(("/note_on_timed", sc_port));
    routes.push(("/note_on", sc_port));
    routes.push(("/bundle", sc_port));
    routes.push(("/c_set", sc_port));
    routes.push(("/play_sample", sc_port));
    routes.push(("/note_modify", sc_port));
    routes.push(("/read_scd", sc_port));
    routes.push(("/create_synthdef", sc_port));
    routes.push(("/load_sample", sc_port));
    routes.push(("/free_notes", sc_port));
    routes.push(("/clear_nrt", sc_port));
    routes.push(("/nrt_record_from_file", sc_port));
    routes.push(("/set_bpm", sc_port));
    routes.push(("/jdw_sc_event_trigger", sc_port));
    routes.push(("/bundle", seq_port));
    routes.push(("/nrt_record_finished", nrt_port));
    routes.push(("/set_bpm", seq_port));
    routes.push(("/hard_stop", seq_port));
    routes.push(("/wipe_on_finish", seq_port));
    assert(routes_view(routes@) =~= route_table(sc_port, seq_port, nrt_port));
    routes
}

/// The message that subscribes `ip`:`port` to the OSC address `route`.
pub open spec fn subscribe_model(route: Seq<char>, ip: Seq<char>, port: i32) -> MessageModel {
    MessageModel {
        addr: "/subscribe"@,
        args: seq![ArgModel::Str(route), ArgModel::Str(ip), ArgModel::Int(port)],
    }
}

/// The subscription request for one route.
pub fn subscribe_message(route: &str, ip: &str, port: i32) -> (msg: OscMessage)
    ensures
        msg@ == subscribe_model(route@, ip@, port),
{
    let mut args: Vec<OscArg> = Vec::new();
    args.push(OscArg::Str(String::from_str(route)));
    args.push(OscArg::Str(String::from_str(ip)));
    args.push(OscArg::Int(port));
    let msg = OscMessage { addr: String::from_str("/subscribe"), args };
    assert(msg@.args =~= subscribe_model(route@, ip@, port).args);
    msg
}

/// The datagrams that register each route for the host `ip` with the
/// router, one per route and in the same order.
pub fn subscribe_packets(ip: &str, routes: &[(&str, i32)]) -> (packets: Vec<Vec<u8>>)
    ensures
        packets@.len() == routes@.len(),
        forall|i: int|
            0 <= i < routes@.len() ==> (#[trigger] packets@[i])@ == osc_message_bytes(
                subscribe_model(routes@[i].0@, ip@, routes@[i].1),
            ),
{
    let mut packets: Vec<Vec<u8>> = Vec::new();
    let n = routes.len();
    for k in 0..n
        invariant
            n == routes@.len(),
            packets@.len() == k,
            forall|i: int|
                0 <= i < k ==> (#[trigger] packets@[i])@ == osc_message_bytes(
                    subscribe_model(routes@[i].0@, ip@, routes@[i].1),
                ),
    {
        let (route, port) = routes[k];
        packets.push(encode(&subscribe_message(route, ip, port)));
    }
    packets
}

/// What `all` sets up and runs: the logging level, the address of the
/// control listener, the router subscriptions, and whether the services run
/// quietly.
pub struct StartupPlan {
    pub log_level: LogLevel,
    pub control_addr: String,
    pub routes: Vec<(&'static str, i32)>,
    pub quiet: bool,
}

/// Launch all services: the plan for the `--quiet` flag, the suite
/// configuration `config`, the SuperCollider wrapper's input port `sc_port`
/// and the sequencer's input port `seq_port`.
pub fn run_all(quiet: bool, config: &SuiteConfig, sc_port: i32, seq_port: i32) -> (plan: StartupPlan)
    ensures
        plan.log_level == spec_log_level(quiet),
        plan.quiet == quiet,
        plan.control_addr@ == spec_control_addr(*config),
        routes_view(plan.routes@) == route_table(sc_port, seq_port, config.nrt_listener_port_base as i32),
{
    StartupPlan {
        log_level: log_level(quiet),
        control_addr: control_addr(config),
        routes: subscription_routes(sc_port, seq_port, config),
        quiet,
    }
}

} // verus!
