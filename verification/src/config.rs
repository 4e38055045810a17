//! The settings the subsystem is started with.
//!
//! A [`Config`] arrives complete from whoever loads it; nothing here reads a
//! file. The numbers are kept as wide as they are written (`usize`), and the
//! accessors narrow them to what a socket or a gateway takes.

use crate::addr::{IpAddress, SocketAddress};
use vstd::prelude::*;
use vstd::utf8::encode_utf8;

verus! {

/// A block of addresses: a network address and the number of leading bits
/// that all addresses of the block share with it.
#[derive(Clone, Copy, Debug, PartialEq, Eq, Structural)]
pub struct MeiliIpCidr {
    pub network: IpAddress,
    pub prefix_bits: u8,
}

/// A span of time as whole seconds and the nanoseconds beyond them.
#[derive(Clone, Copy, Debug, PartialEq, Eq, Structural)]
pub struct MeiliHumanDuration {
    pub seconds: u64,
    pub nanos: u32,
}

/// An address range to look through in the background.
#[derive(Debug)]
pub struct IPRange {
    pub name: Option<String>,
    pub cidr: MeiliIpCidr,
    pub max_ips_per_second: usize,
    pub rescan_age: MeiliHumanDuration,
}

/// One UDP endpoint to listen on.
#[derive(Debug)]
pub struct ConfSocket {
    pub name: Option<String>,
    pub socket: SocketAddress,
}

/// Everything the subsystem is told from outside.
#[derive(Debug)]
pub struct Config {
    pub hostname: String,
    /// Pause after each sweep over the sockets, in nanoseconds.
    pub poll_delay_ns: usize,
    /// Whether to ask a gateway for a public port at all.
    pub attempt_upnp_port_forward: bool,
    /// How long gateway discovery may take, in milliseconds.
    pub upnp_gw_timeout_ms: usize,
    /// The public port asked for first.
    pub upnp_pref_public_port: usize,
    /// The local port the public one leads to.
    pub upnp_local_port: usize,
    pub ip_range_scan_seed: usize,
    pub ip_ranges_to_scan: Vec<IPRange>,
    pub udp_sockets_to_listen_on: Vec<ConfSocket>,
}

/// The scan seed of a configuration that names none.
pub fn default_ip_range_scan_seed() -> (seed: usize)
    ensures
        seed == 12345,
{
    12345
}

/// The scan rate of a range that names none.
pub fn default_max_ips_per_second() -> (rate: usize)
    ensures
        rate == 100,
{
    100
}

/// The rescan age of a range that names none: twenty-four hours.
pub fn default_rescan_age() -> (age: MeiliHumanDuration)
    ensures
        age == (MeiliHumanDuration { seconds: 86400, nanos: 0 }),
{
    MeiliHumanDuration { seconds: 24 * 60 * 60, nanos: 0 }
}

impl MeiliHumanDuration {
    /// The span of `seconds` and `nanos`; nanoseconds beyond a full second
    /// are carried into the seconds, and a carry past the largest number of
    /// seconds is refused.
    pub fn new(seconds: u64, nanos: u32) -> (span: Option<MeiliHumanDuration>)
        ensures
            span is Some <==> seconds + nanos / 1_000_000_000 <= u64::MAX,
            span matches Some(s) ==> s.seconds == seconds + nanos / 1_000_000_000 && s.nanos
                == nanos % 1_000_000_000,
    {
        let carry: u64 = (nanos / 1_000_000_000) as u64;
        match seconds.checked_add(carry) {
            Some(total) => Some(MeiliHumanDuration { seconds: total, nanos: nanos % 1_000_000_000 }),
            None => None,
        }
    }
}

impl MeiliIpCidr {
    /// The widest prefix an address of this family admits.
    pub open spec fn width(network: IpAddress) -> nat {
        match network {
            IpAddress::V4(_) => 32,
            IpAddress::V6(_) => 128,
        }
    }

    /// The block of `network` with `prefix_bits` shared bits, if the address
    /// family has that many.
    pub fn new(network: IpAddress, prefix_bits: u8) -> (block: Option<MeiliIpCidr>)
        ensures
            block == (if prefix_bits <= Self::width(network) {
                Some(MeiliIpCidr { network, prefix_bits })
            } else {
                None::<MeiliIpCidr>
            }),
    {
        let width: u8 = match network {
            IpAddress::V4(_) => 32,
            IpAddress::V6(_) => 128,
        };
        if prefix_bits <= width {
            Some(MeiliIpCidr { network, prefix_bits })
        } else {
            None
        }
    }
}

impl Config {
    /// A host name of fewer than four bytes counts as not given.
    pub open spec fn spec_needs_system_hostname(&self) -> bool {
        (encode_utf8(self.hostname@).len() as usize) < 4
    }

    /// The host name used where none is configured and the machine's own
    /// cannot be found out.
    pub open spec fn fallback_hostname() -> Seq<char> {
        "localhost"@
    }

    /// The host name to go by: the configured one, unless that is too short
    /// to be one; then the machine's own name, `system_name`, and where that
    /// is not known, `localhost`.
    pub open spec fn effective_hostname(&self, system_name: Option<String>) -> Seq<char> {
        if self.spec_needs_system_hostname() {
            match system_name {
                Some(name) => name@,
                None => Self::fallback_hostname(),
            }
        } else {
            self.hostname@
        }
    }

    /// The port the gateway is asked for first: the configured number, as
    /// far as it fits in sixteen bits.
    pub open spec fn spec_preferred_public_port(&self) -> u16 {
        (self.upnp_pref_public_port as int % 65536) as u16
    }

    /// The local port the mapping leads to: the configured number, as far as
    /// it fits in sixteen bits.
    pub open spec fn spec_local_port(&self) -> u16 {
        (self.upnp_local_port as int % 65536) as u16
    }

    /// Whether the configured host name is too short to be one, so that the
    /// machine's own name is to be used in its place.
    #[verifier::when_used_as_spec(spec_needs_system_hostname)]
    pub fn needs_system_hostname(&self) -> (needed: bool)
        ensures
            needed == self.spec_needs_system_hostname(),
    {
        self.hostname.as_str().len() < 4
    }

    /// The configuration with the host name to go by filled in: a configured
    /// name of fewer than four bytes gives way to the machine's own name,
    /// `system_name`, or to `localhost` where that could not be found out.
    /// Nothing else changes.
    pub fn with_system_hostname(self, system_name: Option<String>) -> (config: Config)
        ensures
            config.hostname@ == self.effective_hostname(system_name),
            config.poll_delay_ns == self.poll_delay_ns,
            config.attempt_upnp_port_forward == self.attempt_upnp_port_forward,
            config.upnp_gw_timeout_ms == self.upnp_gw_timeout_ms,
            config.upnp_pref_public_port == self.upnp_pref_public_port,
            config.upnp_local_port == self.upnp_local_port,
            config.ip_range_scan_seed == self.ip_range_scan_seed,
            config.ip_ranges_to_scan == self.ip_ranges_to_scan,
            config.udp_sockets_to_listen_on == self.udp_sockets_to_listen_on,
    {
        if !self.needs_system_hostname() {
            return self;
        }
        let hostname = match system_name {
            Some(name) => name,
            None => "localhost".to_owned(),
        };
        Config { hostname, ..self }
    }

    /// The pause after each sweep, in nanoseconds.
    pub fn poll_delay_nanos(&self) -> (nanos: u64)
        ensures
            nanos == self.poll_delay_ns,
    {
        self.poll_delay_ns as u64
    }

    /// The time allowed for gateway discovery, in milliseconds.
    pub fn gateway_timeout_millis(&self) -> (millis: u64)
        ensures
            millis == self.upnp_gw_timeout_ms,
    {
        self.upnp_gw_timeout_ms as u64
    }

    /// The public port to ask for first.
    #[verifier::when_used_as_spec(spec_preferred_public_port)]
    pub fn preferred_public_port(&self) -> (port: u16)
        ensures
            port == self.spec_preferred_public_port(),
    {
        (self.upnp_pref_public_port % 65536) as u16
    }

    /// The local port to advertise.
    #[verifier::when_used_as_spec(spec_local_port)]
    pub fn local_port(&self) -> (port: u16)
        ensures
            port == self.spec_local_port(),
    {
        (self.upnp_local_port % 65536) as u16
    }
}

impl Default for Config {
    /// No host name, a sweep every four milliseconds, port forwarding on
    /// with five seconds for discovery and port 1337 on both sides, nothing
    /// to scan and nothing to listen on.
    fn default() -> (config: Config)
        ensures
            config.hostname@ == Seq::<char>::empty(),
            config.poll_delay_ns == 4000000,
            config.attempt_upnp_port_forward,
            config.upnp_gw_timeout_ms == 5000,
            config.upnp_pref_public_port == 1337,
            config.upnp_local_port == 1337,
            config.ip_range_scan_seed == 12345,
            config.ip_ranges_to_scan@ == Seq::<IPRange>::empty(),
            config.udp_sockets_to_listen_on@ == Seq::<ConfSocket>::empty(),
    {
        Config {
            hostname: String::new(),
            poll_delay_ns: 4000000,
            attempt_upnp_port_forward: true,
            upnp_gw_timeout_ms: 5000,
            upnp_pref_public_port: 1337,
            upnp_local_port: 1337,
            ip_range_scan_seed: default_ip_range_scan_seed(),
            ip_ranges_to_scan: Vec::new(),
            udp_sockets_to_listen_on: Vec::new(),
        }
    }
}

} // verus!
