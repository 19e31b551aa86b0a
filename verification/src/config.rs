//! The `[suite]` section of the central configuration file.

use vstd::prelude::*;
use vstd::string::StringExecFns;

use crate::text::opt_view;

verus! {

/// Settings of the suite facade itself: the control channel and the ports
/// that the launcher wires into the router.
#[derive(Debug, Clone)]
pub struct SuiteConfig {
    pub control_port: u16,
    pub control_address: String,
    pub nrt_listener_port_base: u16,
    pub sequencer_in_port: u16,
}

/// The control port used when the configuration names none.
pub open spec fn spec_default_control_port() -> u16 {
    13340
}

/// The control address used when the configuration names none.
pub open spec fn spec_default_control_address() -> Seq<char> {
    "127.0.0.1"@
}

/// The first port tried for a non-real-time completion listener.
pub open spec fn spec_default_nrt_listener_port_base() -> u16 {
    13456
}

/// The port on which the sequencer takes its input.
pub open spec fn spec_default_sequencer_in_port() -> u16 {
    14441
}

impl SuiteConfig {
    /// Every field holds its compiled-in default.
    pub open spec fn is_default(&self) -> bool {
        &&& self.control_port == spec_default_control_port()
        &&& self.control_address@ == spec_default_control_address()
        &&& self.nrt_listener_port_base == spec_default_nrt_listener_port_base()
        &&& self.sequencer_in_port == spec_default_sequencer_in_port()
    }
}

pub fn default_control_port() -> (port: u16)
    ensures
        port == spec_default_control_port(),
{
    13340
}

pub fn default_control_address() -> (address: String)
    ensures
        address@ == spec_default_control_address(),
{
    String::from_str("127.0.0.1")
}

pub fn default_nrt_listener_port_base() -> (port: u16)
    ensures
        port == spec_default_nrt_listener_port_base(),
{
    13456
}

pub fn default_sequencer_in_port() -> (port: u16)
    ensures
        port == spec_default_sequencer_in_port(),
{
    14441
}

impl Default for SuiteConfig {
    fn default() -> (config: Self)
        ensures
            config.is_default(),
    {
        SuiteConfig {
            control_port: default_control_port(),
            control_address: default_control_address(),
            nrt_listener_port_base: default_nrt_listener_port_base(),
            sequencer_in_port: default_sequencer_in_port(),
        }
    }
}

/// The `[suite]` table as it stands in the file: each key may be absent.
#[derive(Debug, Clone)]
pub struct SuiteSection {
    pub control_port: Option<u16>,
    pub control_address: Option<String>,
    pub nrt_listener_port_base: Option<u16>,
    pub sequencer_in_port: Option<u16>,
}

/// The parts of the central configuration file that the suite reads.
#[derive(Debug, Clone)]
pub struct ConfigFile {
    pub suite: Option<SuiteSection>,
}

/// A present value, or the default where it is absent.
pub open spec fn or_default<T>(value: Option<T>, default: T) -> T {
    match value {
        Some(v) => v,
        None => default,
    }
}

impl SuiteSection {
    /// The configuration that this table gives: each key that is present is
    /// taken as it stands, each absent key takes its default.
    pub open spec fn resolves_to(&self, config: SuiteConfig) -> bool {
        &&& config.control_port == or_default(self.control_port, spec_default_control_port())
        &&& config.control_address@ == match self.control_address {
            Some(a) => a@,
            None => spec_default_control_address(),
        }
        &&& config.nrt_listener_port_base == or_default(
            self.nrt_listener_port_base,
            spec_default_nrt_listener_port_base(),
        )
        &&& config.sequencer_in_port == or_default(
            self.sequencer_in_port,
            spec_default_sequencer_in_port(),
        )
    }

    /// Fills every absent key of the table with its default.
    pub fn resolve(self) -> (config: SuiteConfig)
        ensures
            self.resolves_to(config),
    {
        let control_port = match self.control_port {
            Some(p) => p,
            None => default_control_port(),
        };
        let control_address = match self.control_address {
            Some(a) => a,
            None => default_control_address(),
        };
        let nrt_listener_port_base = match self.nrt_listener_port_base {
            Some(p) => p,
            None => default_nrt_listener_port_base(),
        };
        let sequencer_in_port = match self.sequencer_in_port {
            Some(p) => p,
            None => default_sequencer_in_port(),
        };
        SuiteConfig { control_port, control_address, nrt_listener_port_base, sequencer_in_port }
    }
}

/// Each key of the `[suite]` table resolves on its own, whatever the other
/// keys hold: a present key gives its value, an absent one its compiled-in
/// default (13340, `127.0.0.1`, 13456, 14441).
pub proof fn lemma_keys_resolve_independently(section: SuiteSection, config: SuiteConfig)
    requires
        section.resolves_to(config),
    ensures
        section.control_port matches Some(p) ==> config.control_port == p,
        section.control_port is None ==> config.control_port == 13340,
        section.control_address matches Some(a) ==> config.control_address@ == a@,
        section.control_address is None ==> config.control_address@ == "127.0.0.1"@,
        section.nrt_listener_port_base matches Some(p) ==> config.nrt_listener_port_base == p,
        section.nrt_listener_port_base is None ==> config.nrt_listener_port_base == 13456,
        section.sequencer_in_port matches Some(p) ==> config.sequencer_in_port == p,
        section.sequencer_in_port is None ==> config.sequencer_in_port == 14441,
{
}

/// A `[suite]` table without keys gives exactly the compiled-in defaults,
/// as a missing table does.
pub proof fn lemma_empty_section_gives_defaults(section: SuiteSection, config: SuiteConfig)
    requires
        section.control_port is None,
        section.control_address is None,
        section.nrt_listener_port_base is None,
        section.sequencer_in_port is None,
        section.resolves_to(config),
    ensures
        config.is_default(),
{
}

/// What loading gives for a file: the defaults where the file could not be
/// read or parsed (`None`) or has no `[suite]` table, else that table resolved.
pub open spec fn loads_to(file: Option<ConfigFile>, config: SuiteConfig) -> bool {
    match file {
        Some(ConfigFile { suite: Some(section) }) => section.resolves_to(config),
        _ => config.is_default(),
    }
}

/// The suite configuration from the central file as read and parsed;
/// `None` stands for a file that could not be read or did not parse.
pub fn load(file: Option<ConfigFile>) -> (config: SuiteConfig)
    ensures
        loads_to(file, config),
{
    match file {
        Some(ConfigFile { suite: Some(section) }) => section.resolve(),
        _ => SuiteConfig::default(),
    }
}

/// The home directory, `/tmp` where there is none.
pub open spec fn home_or_tmp(home: Option<Seq<char>>) -> Seq<char> {
    match home {
        Some(h) => h,
        None => "/tmp"@,
    }
}

/// Where the central configuration file is looked for, given the values of
/// the `JDW_CONFIG` and `HOME` environment variables.
pub open spec fn spec_config_path(jdw_config: Option<Seq<char>>, home: Option<Seq<char>>) -> Seq<char> {
    match jdw_config {
        Some(path) => path,
        None => home_or_tmp(home) + "/.config/jdw.toml"@,
    }
}

/// The path of the central configuration file: `JDW_CONFIG` where it is set,
/// else `.config/jdw.toml` under the home directory (`/tmp` without one).
pub fn config_path(jdw_config: Option<String>, home: Option<String>) -> (path: String)
    ensures
        path@ == spec_config_path(opt_view(jdw_config), opt_view(home)),
{
    match jdw_config {
        Some(path) => path,
        None => {
            let mut path = match home {
                Some(h) => h,
                None => String::from_str("/tmp"),
            };
            path.append("/.config/jdw.toml");
            path
        },
    }
}

} // verus!
