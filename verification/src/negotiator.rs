//! One-shot negotiation of a public UDP port with a gateway on the local
//! network.
//!
//! The negotiation is a state machine. [`Negotiator::next_action`] says what
//! to ask of the outside world, the caller does it, and
//! [`Negotiator::step`] takes in what came back. The machine itself never
//! waits and never talks to anyone, so a slow gateway costs only the caller's
//! own time.
//!
//! The order of business: find a gateway; pick the local IPv4 address to
//! advertise; read the gateway's mapping table entry by entry and stop as
//! soon as an entry is recognised as this program's own; failing that, ask for
//! the preferred public port; and if that is refused, ask once for any port.

use crate::addr::{IpAddress, Ipv4Address};
use crate::config::Config;
use crate::text::{chars_of, contains, occurs_in, same_text};
use vstd::prelude::*;

verus! {

/// No more than this many entries of a gateway's table are read, however
/// many the gateway claims to have.
pub const MAX_MAPPING_ENTRIES: u32 = 256;

/// Every mapping is asked for with this lease, in seconds.
pub const LEASE_SECONDS: u32 = 300;

/// The text by which this program recognises its own mappings: it stands in
/// the description of every mapping it asks for.
pub open spec fn mapping_tag() -> Seq<char> {
    "meili"@
}

/// The description that every mapping asked for carries.
pub open spec fn mapping_description() -> Seq<char> {
    "meili port mapping"@
}

/// The transport a mapping forwards.
#[derive(Clone, Copy, Debug, PartialEq, Eq, Structural)]
pub enum Protocol {
    Tcp,
    Udp,
}

/// One row of a gateway's mapping table, as the gateway reports it.
#[derive(Clone, Debug, PartialEq, Eq)]
pub struct PortMappingEntry {
    pub remote_host: String,
    pub external_port: u16,
    pub protocol: Protocol,
    pub internal_port: u16,
    /// The host the mapping leads to, an address or a name.
    pub internal_client: String,
    pub enabled: bool,
    pub description: String,
    /// Seconds the mapping has left to live.
    pub lease_duration: u32,
}

/// One address of one local network interface.
#[derive(Clone, Debug, PartialEq, Eq)]
pub struct InterfaceAddress {
    pub name: String,
    pub ip: IpAddress,
}

/// Why a negotiation ended without a mapping.
#[derive(Clone, Copy, Debug, PartialEq, Eq, Structural)]
pub enum Failure {
    /// No gateway answered in time.
    Discovery,
    /// The interfaces could not be listed, or none of them has an IPv4
    /// address outside the loopback network.
    InterfaceLookup,
    /// The gateway refused the preferred port and then any port.
    MappingRequest,
    /// The caller answered an action with an event of another kind.
    UnexpectedEvent,
}

/// How a negotiation ended.
#[derive(Clone, Copy, Debug, PartialEq, Eq, Structural)]
pub enum Outcome {
    /// Port forwarding is switched off; nothing was asked of anyone.
    Disabled,
    /// The gateway already held this program's mapping; nothing was created.
    AlreadyMapped { external_port: u16 },
    /// A mapping was created on this public port.
    Mapped { external_port: u16 },
    Failed(Failure),
}

/// Where a negotiation stands.
#[derive(Clone, Copy, Debug, PartialEq, Eq, Structural)]
pub enum Phase {
    /// Waiting for a gateway to be found.
    Discovering,
    /// Waiting for the list of local interfaces.
    ResolvingAddress,
    /// Waiting for entry `index` of the gateway's table.
    Enumerating { lan: Ipv4Address, index: u32 },
    /// Waiting for the answer to the request for the preferred port.
    RequestingPreferred { lan: Ipv4Address },
    /// Waiting for the answer to the request for any port.
    RequestingAny { lan: Ipv4Address },
    Finished(Outcome),
}

/// What a mapping request says besides the public port.
#[derive(Clone, Debug, PartialEq, Eq)]
pub struct MappingRequest {
    pub protocol: Protocol,
    pub internal_ip: Ipv4Address,
    pub internal_port: u16,
    pub lease_seconds: u32,
    pub description: String,
}

/// What the caller is to do next.
#[derive(Clone, Debug, PartialEq, Eq)]
pub enum GatewayAction {
    /// Look for a gateway, for at most `timeout_ms` milliseconds.
    Discover { timeout_ms: u64 },
    /// List the addresses of the local network interfaces.
    ListInterfaces,
    /// Read entry `index` of the gateway's mapping table.
    GetEntry { index: u32 },
    /// Ask for a mapping on exactly `external_port`.
    AddPort { external_port: u16, request: MappingRequest },
    /// Ask for a mapping on whatever public port the gateway picks.
    AddAnyPort { request: MappingRequest },
    /// Nothing more: the negotiation is over.
    Stop(Outcome),
}

/// What the outside world answered.
#[derive(Clone, Debug, PartialEq, Eq)]
pub enum GatewayEvent {
    GatewayFound,
    /// No gateway, a timeout, or a transport error.
    DiscoveryFailed,
    Interfaces(Vec<InterfaceAddress>),
    InterfaceLookupFailed,
    Entry(PortMappingEntry),
    /// The request for an entry failed on the way; the same entry may be
    /// asked for again.
    EntryRequestFailed,
    /// The gateway has no entry at this index, or will not say.
    EntriesEnded,
    PortGranted,
    PortRefused,
    AnyPortGranted(u16),
    AnyPortRefused,
}

/// A negotiation in progress.
#[derive(Clone, Copy, Debug, PartialEq, Eq, Structural)]
pub struct Negotiator {
    /// Milliseconds allowed for discovery.
    pub timeout_ms: u64,
    /// The public port asked for first.
    pub preferred_port: u16,
    /// The local port the mapping leads to.
    pub local_port: u16,
    pub phase: Phase,
}

/// A mapping request with its description as a sequence of characters.
pub struct MappingRequestView {
    pub protocol: Protocol,
    pub internal_ip: Ipv4Address,
    pub internal_port: u16,
    pub lease_seconds: u32,
    pub description: Seq<char>,
}

/// An action with its texts as sequences of characters.
pub enum GatewayActionView {
    Discover { timeout_ms: u64 },
    ListInterfaces,
    GetEntry { index: u32 },
    AddPort { external_port: u16, request: MappingRequestView },
    AddAnyPort { request: MappingRequestView },
    Stop(Outcome),
}

impl View for MappingRequest {
    type V = MappingRequestView;

    open spec fn view(&self) -> MappingRequestView {
        MappingRequestView {
            protocol: self.protocol,
            internal_ip: self.internal_ip,
            internal_port: self.internal_port,
            lease_seconds: self.lease_seconds,
            description: self.description@,
        }
    }
}

impl View for GatewayAction {
    type V = GatewayActionView;

    open spec fn view(&self) -> GatewayActionView {
        match *self {
            GatewayAction::Discover { timeout_ms } => GatewayActionView::Discover { timeout_ms },
            GatewayAction::ListInterfaces => GatewayActionView::ListInterfaces,
            GatewayAction::GetEntry { index } => GatewayActionView::GetEntry { index },
            GatewayAction::AddPort { external_port, request } => GatewayActionView::AddPort {
                external_port,
                request: request@,
            },
            GatewayAction::AddAnyPort { request } => GatewayActionView::AddAnyPort {
                request: request@,
            },
            GatewayAction::Stop(outcome) => GatewayActionView::Stop(outcome),
        }
    }
}

/// The address an interface offers for advertising: its IPv4 address, unless
/// that lies in the loopback network.
pub open spec fn lan_candidate(ip: IpAddress) -> Option<Ipv4Address> {
    match ip {
        IpAddress::V4(v4) => if v4.spec_is_loopback() {
            None
        } else {
            Some(v4)
        },
        IpAddress::V6(_) => None,
    }
}

/// The first address in `interfaces` that can be advertised.
pub open spec fn first_lan_ipv4(interfaces: Seq<InterfaceAddress>) -> Option<Ipv4Address>
    decreases interfaces.len(),
{
    if interfaces.len() == 0 {
        None
    } else if lan_candidate(interfaces[0].ip) is Some {
        lan_candidate(interfaces[0].ip)
    } else {
        first_lan_ipv4(interfaces.drop_first())
    }
}

/// Whether `entry` is this program's own mapping for `lan` and `local_port`:
/// its description holds the tag, its internal client is `lan` written out,
/// and its internal port is `local_port`.
pub open spec fn entry_matches(entry: PortMappingEntry, lan: Ipv4Address, local_port: u16) -> bool {
    &&& occurs_in(entry.description@, mapping_tag())
    &&& entry.internal_client@ == lan.spec_dotted_quad()
    &&& entry.internal_port == local_port
}

/// The request for a mapping that leads to `lan` and `local_port`.
pub open spec fn request_for(lan: Ipv4Address, local_port: u16) -> MappingRequestView {
    MappingRequestView {
        protocol: Protocol::Udp,
        internal_ip: lan,
        internal_port: local_port,
        lease_seconds: LEASE_SECONDS,
        description: mapping_description(),
    }
}

/// The first interface address that can be advertised to a gateway: IPv4 and
/// not loopback.
pub fn select_lan_address(interfaces: &Vec<InterfaceAddress>) -> (chosen: Option<Ipv4Address>)
    ensures
        chosen == first_lan_ipv4(interfaces@),
{
    let mut i: usize = 0;
    assert(interfaces@.skip(0) == interfaces@);
    while i < interfaces.len()
        invariant
            i <= interfaces.len(),
            first_lan_ipv4(interfaces@) == first_lan_ipv4(interfaces@.skip(i as int)),
        decreases interfaces.len() - i,
    {
        let ghost rest = interfaces@.skip(i as int);
        assert(rest[0] == interfaces@[i as int]);
        assert(rest.drop_first() == interfaces@.skip(i + 1));
        match interfaces[i].ip {
            IpAddress::V4(v4) => {
                if !v4.is_loopback() {
                    return Some(v4);
                }
            },
            IpAddress::V6(_) => {},
        }
        i += 1;
    }
    assert(interfaces@.skip(i as int).len() == 0);
    None
}

/// Whether `entry` is this program's own mapping for `lan` and `local_port`.
pub fn is_own_mapping(entry: &PortMappingEntry, lan: Ipv4Address, local_port: u16) -> (own: bool)
    ensures
        own == entry_matches(*entry, lan, local_port),
{
    if entry.internal_port != local_port {
        return false;
    }
    let client = chars_of(entry.internal_client.as_str());
    let written = lan.dotted_quad();
    if !same_text(&client, &written) {
        return false;
    }
    let description = chars_of(entry.description.as_str());
    let tag = chars_of("meili");
    contains(&description, &tag)
}

/// The request for a mapping that leads to `lan` and `local_port`: UDP, the
/// fixed lease, the fixed description.
pub fn mapping_request(lan: Ipv4Address, local_port: u16) -> (request: MappingRequest)
    ensures
        request@ == request_for(lan, local_port),
{
    MappingRequest {
        protocol: Protocol::Udp,
        internal_ip: lan,
        internal_port: local_port,
        lease_seconds: LEASE_SECONDS,
        description: "meili port mapping".to_owned(),
    }
}

impl Negotiator {
    /// In every state that a negotiation reaches, the entry waited for lies
    /// below the limit.
    pub open spec fn wf(&self) -> bool {
        match self.phase {
            Phase::Enumerating { lan, index } => index < MAX_MAPPING_ENTRIES,
            _ => true,
        }
    }

    /// The negotiation for `config` before anything has happened.
    pub open spec fn spec_new(config: &Config) -> Negotiator {
        Negotiator {
            timeout_ms: config.upnp_gw_timeout_ms as u64,
            preferred_port: config.spec_preferred_public_port(),
            local_port: config.spec_local_port(),
            phase: if config.attempt_upnp_port_forward {
                Phase::Discovering
            } else {
                Phase::Finished(Outcome::Disabled)
            },
        }
    }

    /// What is asked of the caller in this state.
    pub open spec fn spec_next_action(&self) -> GatewayActionView {
        match self.phase {
            Phase::Discovering => GatewayActionView::Discover { timeout_ms: self.timeout_ms },
            Phase::ResolvingAddress => GatewayActionView::ListInterfaces,
            Phase::Enumerating { lan, index } => GatewayActionView::GetEntry { index },
            Phase::RequestingPreferred { lan } => GatewayActionView::AddPort {
                external_port: self.preferred_port,
                request: request_for(lan, self.local_port),
            },
            Phase::RequestingAny { lan } => GatewayActionView::AddAnyPort {
                request: request_for(lan, self.local_port),
            },
            Phase::Finished(outcome) => GatewayActionView::Stop(outcome),
        }
    }

    /// The phase that follows when `event` answers the action of this state.
    ///
    /// An event that does not answer that action ends the negotiation, so
    /// that no request can ever be repeated by mistake. A finished
    /// negotiation stays as it is.
    pub open spec fn phase_after(&self, event: GatewayEvent) -> Phase {
        match self.phase {
            Phase::Discovering => match event {
                GatewayEvent::GatewayFound => Phase::ResolvingAddress,
                GatewayEvent::DiscoveryFailed => Phase::Finished(
                    Outcome::Failed(Failure::Discovery),
                ),
                _ => Phase::Finished(Outcome::Failed(Failure::UnexpectedEvent)),
            },
            Phase::ResolvingAddress => match event {
                GatewayEvent::Interfaces(interfaces) => match first_lan_ipv4(interfaces@) {
                    Some(lan) => Phase::Enumerating { lan, index: 0 },
                    None => Phase::Finished(Outcome::Failed(Failure::InterfaceLookup)),
                },
                GatewayEvent::InterfaceLookupFailed => Phase::Finished(
                    Outcome::Failed(Failure::InterfaceLookup),
                ),
                _ => Phase::Finished(Outcome::Failed(Failure::UnexpectedEvent)),
            },
            Phase::Enumerating { lan, index } => match event {
                GatewayEvent::Entry(entry) => if entry_matches(entry, lan, self.local_port) {
                    Phase::Finished(Outcome::AlreadyMapped { external_port: entry.external_port })
                } else if index + 1 >= MAX_MAPPING_ENTRIES {
                    Phase::RequestingPreferred { lan }
                } else {
                    Phase::Enumerating { lan, index: (index + 1) as u32 }
                },
                GatewayEvent::EntryRequestFailed => self.phase,
                GatewayEvent::EntriesEnded => Phase::RequestingPreferred { lan },
                _ => Phase::Finished(Outcome::Failed(Failure::UnexpectedEvent)),
            },
            Phase::RequestingPreferred { lan } => match event {
                GatewayEvent::PortGranted => Phase::Finished(
                    Outcome::Mapped { external_port: self.preferred_port },
                ),
                GatewayEvent::PortRefused => Phase::RequestingAny { lan },
                _ => Phase::Finished(Outcome::Failed(Failure::UnexpectedEvent)),
            },
            Phase::RequestingAny { lan } => match event {
                GatewayEvent::AnyPortGranted(port) => Phase::Finished(
                    Outcome::Mapped { external_port: port },
                ),
                GatewayEvent::AnyPortRefused => Phase::Finished(
                    Outcome::Failed(Failure::MappingRequest),
                ),
                _ => Phase::Finished(Outcome::Failed(Failure::UnexpectedEvent)),
            },
            Phase::Finished(outcome) => self.phase,
        }
    }

    /// The negotiation after `event`: the settings stay, the phase moves.
    pub open spec fn after(&self, event: GatewayEvent) -> Negotiator {
        Negotiator { phase: self.phase_after(event), ..*self }
    }

    /// The outcome, once there is one.
    pub open spec fn spec_outcome(&self) -> Option<Outcome> {
        match self.phase {
            Phase::Finished(outcome) => Some(outcome),
            _ => None,
        }
    }

    /// Starts a negotiation for `config`. With port forwarding switched off
    /// it is over before it begins.
    pub fn new(config: &Config) -> (negotiator: Negotiator)
        ensures
            negotiator == Self::spec_new(config),
            negotiator.wf(),
    {
        Negotiator {
            timeout_ms: config.gateway_timeout_millis(),
            preferred_port: config.preferred_public_port(),
            local_port: config.local_port(),
            phase: if config.attempt_upnp_port_forward {
                Phase::Discovering
            } else {
                Phase::Finished(Outcome::Disabled)
            },
        }
    }

    /// What the caller is to do next.
    pub fn next_action(&self) -> (action: GatewayAction)
        ensures
            action@ == self.spec_next_action(),
    {
        match self.phase {
            Phase::Discovering => GatewayAction::Discover { timeout_ms: self.timeout_ms },
            Phase::ResolvingAddress => GatewayAction::ListInterfaces,
            Phase::Enumerating { lan, index } => GatewayAction::GetEntry { index },
            Phase::RequestingPreferred { lan } => GatewayAction::AddPort {
                external_port: self.preferred_port,
                request: mapping_request(lan, self.local_port),
            },
            Phase::RequestingAny { lan } => GatewayAction::AddAnyPort {
                request: mapping_request(lan, self.local_port),
            },
            Phase::Finished(outcome) => GatewayAction::Stop(outcome),
        }
    }

    /// Takes in the answer to the action last handed out.
    pub fn step(&mut self, event: GatewayEvent)
        ensures
            *final(self) == old(self).after(event),
            old(self).wf() ==> final(self).wf(),
    {
        let unexpected = Phase::Finished(Outcome::Failed(Failure::UnexpectedEvent));
        let next = match self.phase {
            Phase::Discovering => match event {
                GatewayEvent::GatewayFound => Phase::ResolvingAddress,
                GatewayEvent::DiscoveryFailed => Phase::Finished(
                    Outcome::Failed(Failure::Discovery),
                ),
                _ => unexpected,
            },
            Phase::ResolvingAddress => match event {
                GatewayEvent::Interfaces(interfaces) => match select_lan_address(&interfaces) {
                    Some(lan) => Phase::Enumerating { lan, index: 0 },
                    None => Phase::Finished(Outcome::Failed(Failure::InterfaceLookup)),
                },
                GatewayEvent::InterfaceLookupFailed => Phase::Finished(
                    Outcome::Failed(Failure::InterfaceLookup),
                ),
                _ => unexpected,
            },
            Phase::Enumerating { lan, index } => match event {
                GatewayEvent::Entry(entry) => {
                    if is_own_mapping(&entry, lan, self.local_port) {
                        Phase::Finished(
                            Outcome::AlreadyMapped { external_port: entry.external_port },
                        )
                    } else if index >= MAX_MAPPING_ENTRIES - 1 {
                        Phase::RequestingPreferred { lan }
                    } else {
                        Phase::Enumerating { lan, index: index + 1 }
                    }
                },
                GatewayEvent::EntryRequestFailed => self.phase,
                GatewayEvent::EntriesEnded => Phase::RequestingPreferred { lan },
                _ => unexpected,
            },
            Phase::RequestingPreferred { lan } => match event {
                GatewayEvent::PortGranted => Phase::Finished(
                    Outcome::Mapped { external_port: self.preferred_port },
                ),
                GatewayEvent::PortRefused => Phase::RequestingAny { lan },
                _ => unexpected,
            },
            Phase::RequestingAny { lan } => match event {
                GatewayEvent::AnyPortGranted(port) => Phase::Finished(
                    Outcome::Mapped { external_port: port },
                ),
                GatewayEvent::AnyPortRefused => Phase::Finished(
                    Outcome::Failed(Failure::MappingRequest),
                ),
                _ => unexpected,
            },
            Phase::Finished(outcome) => self.phase,
        };
        self.phase = next;
    }

    /// The outcome, once the negotiation is over.
    #[verifier::when_used_as_spec(spec_outcome)]
    pub fn outcome(&self) -> (outcome: Option<Outcome>)
        ensures
            outcome == self.spec_outcome(),
    {
        match self.phase {
            Phase::Finished(outcome) => Some(outcome),
            _ => None,
        }
    }
}

} // verus!
