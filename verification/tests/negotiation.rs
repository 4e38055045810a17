use meili::addr::{IpAddress, Ipv4Address, Ipv6Address};
use meili::config::Config;
use meili::negotiator::{
    is_own_mapping, mapping_request, select_lan_address, Failure, GatewayAction, GatewayEvent,
    InterfaceAddress, MappingRequest, Negotiator, Outcome, Phase, PortMappingEntry, Protocol,
    LEASE_SECONDS, MAX_MAPPING_ENTRIES,
};

const LAN: Ipv4Address = Ipv4Address { a: 192, b: 168, c: 1, d: 20 };

fn interface(name: &str, ip: IpAddress) -> InterfaceAddress {
    InterfaceAddress { name: name.to_string(), ip }
}

fn usual_interfaces() -> Vec<InterfaceAddress> {
    vec![
        interface("lo", IpAddress::V4(Ipv4Address::new(127, 0, 0, 1))),
        interface("lo", IpAddress::V6(Ipv6Address::from_bits(1))),
        interface("eth0", IpAddress::V6(Ipv6Address::from_bits(0xfe80 << 112 | 9))),
        interface("eth0", IpAddress::V4(LAN)),
        interface("wlan0", IpAddress::V4(Ipv4Address::new(10, 0, 0, 5))),
    ]
}

fn entry(description: &str, client: &str, internal_port: u16, external_port: u16) -> PortMappingEntry {
    PortMappingEntry {
        remote_host: String::new(),
        external_port,
        protocol: Protocol::Udp,
        internal_port,
        internal_client: client.to_string(),
        enabled: true,
        description: description.to_string(),
        lease_duration: 120,
    }
}

fn expected_request() -> MappingRequest {
    MappingRequest {
        protocol: Protocol::Udp,
        internal_ip: LAN,
        internal_port: 1337,
        lease_seconds: 300,
        description: "meili port mapping".to_string(),
    }
}

/// A gateway that keeps a table and grants what it is asked for, unless the
/// public port is taken; any-port requests get `spare_port`.
struct Gateway {
    table: Vec<PortMappingEntry>,
    spare_port: u16,
    requests_seen: Vec<GatewayAction>,
}

impl Gateway {
    fn store(&mut self, request: &MappingRequest, external_port: u16) {
        let client: String = request.internal_ip.dotted_quad().into_iter().collect();
        self.table.push(entry(&request.description, &client, request.internal_port, external_port));
    }

    fn answer(&mut self, action: &GatewayAction) -> GatewayEvent {
        match action {
            GatewayAction::Discover { .. } => GatewayEvent::GatewayFound,
            GatewayAction::ListInterfaces => GatewayEvent::Interfaces(usual_interfaces()),
            GatewayAction::GetEntry { index } => match self.table.get(*index as usize) {
                Some(e) => GatewayEvent::Entry(e.clone()),
                None => GatewayEvent::EntriesEnded,
            },
            GatewayAction::AddPort { external_port, request } => {
                self.requests_seen.push(action.clone());
                if self.table.iter().any(|e| e.external_port == *external_port) {
                    GatewayEvent::PortRefused
                } else {
                    self.store(request, *external_port);
                    GatewayEvent::PortGranted
                }
            }
            GatewayAction::AddAnyPort { request } => {
                self.requests_seen.push(action.clone());
                let port = self.spare_port;
                self.store(request, port);
                GatewayEvent::AnyPortGranted(port)
            }
            GatewayAction::Stop(_) => unreachable!(),
        }
    }
}

fn negotiate(config: &Config, gateway: &mut Gateway) -> (Outcome, Vec<GatewayAction>) {
    let mut negotiator = Negotiator::new(config);
    let mut actions = Vec::new();
    loop {
        let action = negotiator.next_action();
        actions.push(action.clone());
        if let GatewayAction::Stop(outcome) = action {
            return (outcome, actions);
        }
        let event = gateway.answer(&action);
        negotiator.step(event);
    }
}

#[test]
fn a_free_preferred_port_is_mapped() {
    let mut gateway = Gateway { table: Vec::new(), spare_port: 51413, requests_seen: Vec::new() };
    let (outcome, actions) = negotiate(&Config::default(), &mut gateway);
    assert_eq!(outcome, Outcome::Mapped { external_port: 1337 });
    assert_eq!(
        actions,
        vec![
            GatewayAction::Discover { timeout_ms: 5000 },
            GatewayAction::ListInterfaces,
            GatewayAction::GetEntry { index: 0 },
            GatewayAction::AddPort { external_port: 1337, request: expected_request() },
            GatewayAction::Stop(Outcome::Mapped { external_port: 1337 }),
        ]
    );
    assert_eq!(gateway.table, vec![entry("meili port mapping", "192.168.1.20", 1337, 1337)]);
}

#[test]
fn a_taken_preferred_port_falls_back_to_any_port() {
    // Port 1337 is mapped by somebody else.
    let third_party = entry("torrent", "192.168.1.77", 6881, 1337);
    let mut gateway =
        Gateway { table: vec![third_party], spare_port: 51413, requests_seen: Vec::new() };
    let (outcome, actions) = negotiate(&Config::default(), &mut gateway);
    assert_eq!(outcome, Outcome::Mapped { external_port: 51413 });
    assert_eq!(
        actions,
        vec![
            GatewayAction::Discover { timeout_ms: 5000 },
            GatewayAction::ListInterfaces,
            GatewayAction::GetEntry { index: 0 },
            GatewayAction::GetEntry { index: 1 },
            GatewayAction::AddPort { external_port: 1337, request: expected_request() },
            GatewayAction::AddAnyPort { request: expected_request() },
            GatewayAction::Stop(Outcome::Mapped { external_port: 51413 }),
        ]
    );
    assert_eq!(gateway.requests_seen.len(), 2);
}

#[test]
fn discovery_timeout_ends_the_negotiation_without_requests() {
    let mut negotiator = Negotiator::new(&Config::default());
    assert_eq!(negotiator.next_action(), GatewayAction::Discover { timeout_ms: 5000 });
    negotiator.step(GatewayEvent::DiscoveryFailed);
    assert_eq!(negotiator.outcome(), Some(Outcome::Failed(Failure::Discovery)));
    assert_eq!(
        negotiator.next_action(),
        GatewayAction::Stop(Outcome::Failed(Failure::Discovery))
    );
    // Whatever arrives afterwards is ignored.
    negotiator.step(GatewayEvent::GatewayFound);
    negotiator.step(GatewayEvent::PortGranted);
    assert_eq!(negotiator.outcome(), Some(Outcome::Failed(Failure::Discovery)));
}

#[test]
fn the_second_run_creates_no_second_mapping() {
    let mut gateway = Gateway { table: Vec::new(), spare_port: 51413, requests_seen: Vec::new() };
    let (first, _) = negotiate(&Config::default(), &mut gateway);
    assert_eq!(first, Outcome::Mapped { external_port: 1337 });
    let table_after_first = gateway.table.clone();
    let (second, actions) = negotiate(&Config::default(), &mut gateway);
    assert_eq!(second, Outcome::AlreadyMapped { external_port: 1337 });
    assert_eq!(gateway.table, table_after_first);
    assert_eq!(gateway.requests_seen.len(), 1);
    assert!(actions.iter().all(|a| !matches!(
        a,
        GatewayAction::AddPort { .. } | GatewayAction::AddAnyPort { .. }
    )));
}

#[test]
fn the_second_run_after_a_fallback_creates_no_second_mapping() {
    let third_party = entry("torrent", "192.168.1.77", 6881, 1337);
    let mut gateway =
        Gateway { table: vec![third_party], spare_port: 51413, requests_seen: Vec::new() };
    let (first, _) = negotiate(&Config::default(), &mut gateway);
    assert_eq!(first, Outcome::Mapped { external_port: 51413 });
    let (second, _) = negotiate(&Config::default(), &mut gateway);
    assert_eq!(second, Outcome::AlreadyMapped { external_port: 51413 });
    assert_eq!(gateway.table.len(), 2);
    assert_eq!(gateway.requests_seen.len(), 2);
}

#[test]
fn a_refused_fallback_is_the_end() {
    let mut negotiator = Negotiator::new(&Config::default());
    negotiator.step(GatewayEvent::GatewayFound);
    negotiator.step(GatewayEvent::Interfaces(usual_interfaces()));
    negotiator.step(GatewayEvent::EntriesEnded);
    assert_eq!(negotiator.phase, Phase::RequestingPreferred { lan: LAN });
    negotiator.step(GatewayEvent::PortRefused);
    assert_eq!(negotiator.phase, Phase::RequestingAny { lan: LAN });
    negotiator.step(GatewayEvent::AnyPortRefused);
    assert_eq!(negotiator.outcome(), Some(Outcome::Failed(Failure::MappingRequest)));
    // No event brings either request back.
    negotiator.step(GatewayEvent::PortRefused);
    negotiator.step(GatewayEvent::EntriesEnded);
    assert_eq!(negotiator.outcome(), Some(Outcome::Failed(Failure::MappingRequest)));
}

#[test]
fn enumeration_stops_after_256_entries() {
    let mut negotiator = Negotiator::new(&Config::default());
    negotiator.step(GatewayEvent::GatewayFound);
    negotiator.step(GatewayEvent::Interfaces(usual_interfaces()));
    let mut asked = Vec::new();
    while let GatewayAction::GetEntry { index } = negotiator.next_action() {
        asked.push(index);
        // A gateway that never runs out of foreign entries.
        negotiator.step(GatewayEvent::Entry(entry("other", "192.168.1.99", 80, 8000)));
        assert!(asked.len() <= 1000);
    }
    assert_eq!(asked.len(), 256);
    assert_eq!(asked, (0..256).collect::<Vec<u32>>());
    assert_eq!(MAX_MAPPING_ENTRIES, 256);
    assert_eq!(negotiator.phase, Phase::RequestingPreferred { lan: LAN });
}

#[test]
fn a_match_in_the_last_entry_within_reach_still_counts() {
    let mut negotiator = Negotiator::new(&Config::default());
    negotiator.step(GatewayEvent::GatewayFound);
    negotiator.step(GatewayEvent::Interfaces(usual_interfaces()));
    for _ in 0..255 {
        negotiator.step(GatewayEvent::Entry(entry("other", "192.168.1.99", 80, 8000)));
    }
    assert_eq!(negotiator.next_action(), GatewayAction::GetEntry { index: 255 });
    negotiator.step(GatewayEvent::Entry(entry("meili port mapping", "192.168.1.20", 1337, 4242)));
    assert_eq!(negotiator.outcome(), Some(Outcome::AlreadyMapped { external_port: 4242 }));
}

#[test]
fn a_failed_entry_request_is_retried_at_the_same_index() {
    let mut negotiator = Negotiator::new(&Config::default());
    negotiator.step(GatewayEvent::GatewayFound);
    negotiator.step(GatewayEvent::Interfaces(usual_interfaces()));
    negotiator.step(GatewayEvent::Entry(entry("other", "192.168.1.99", 80, 8000)));
    for _ in 0..5 {
        assert_eq!(negotiator.next_action(), GatewayAction::GetEntry { index: 1 });
        negotiator.step(GatewayEvent::EntryRequestFailed);
    }
    assert_eq!(negotiator.next_action(), GatewayAction::GetEntry { index: 1 });
    negotiator.step(GatewayEvent::Entry(entry("other", "192.168.1.99", 81, 8001)));
    assert_eq!(negotiator.next_action(), GatewayAction::GetEntry { index: 2 });
}

#[test]
fn disabled_port_forwarding_asks_for_nothing() {
    let mut config = Config::default();
    config.attempt_upnp_port_forward = false;
    let mut negotiator = Negotiator::new(&config);
    assert_eq!(negotiator.outcome(), Some(Outcome::Disabled));
    assert_eq!(negotiator.next_action(), GatewayAction::Stop(Outcome::Disabled));
    negotiator.step(GatewayEvent::GatewayFound);
    assert_eq!(negotiator.next_action(), GatewayAction::Stop(Outcome::Disabled));
}

#[test]
fn no_usable_interface_fails_the_negotiation() {
    let only_loopback_and_v6 = vec![
        interface("lo", IpAddress::V4(Ipv4Address::new(127, 0, 0, 1))),
        interface("eth0", IpAddress::V6(Ipv6Address::from_bits(0xfe80 << 112 | 9))),
    ];
    let mut negotiator = Negotiator::new(&Config::default());
    negotiator.step(GatewayEvent::GatewayFound);
    assert_eq!(negotiator.next_action(), GatewayAction::ListInterfaces);
    negotiator.step(GatewayEvent::Interfaces(only_loopback_and_v6));
    assert_eq!(negotiator.outcome(), Some(Outcome::Failed(Failure::InterfaceLookup)));

    let mut negotiator = Negotiator::new(&Config::default());
    negotiator.step(GatewayEvent::GatewayFound);
    negotiator.step(GatewayEvent::InterfaceLookupFailed);
    assert_eq!(negotiator.outcome(), Some(Outcome::Failed(Failure::InterfaceLookup)));

    let mut negotiator = Negotiator::new(&Config::default());
    negotiator.step(GatewayEvent::GatewayFound);
    negotiator.step(GatewayEvent::Interfaces(Vec::new()));
    assert_eq!(negotiator.outcome(), Some(Outcome::Failed(Failure::InterfaceLookup)));
}

#[test]
fn an_answer_to_another_question_ends_the_negotiation() {
    let mut negotiator = Negotiator::new(&Config::default());
    negotiator.step(GatewayEvent::PortGranted);
    assert_eq!(negotiator.outcome(), Some(Outcome::Failed(Failure::UnexpectedEvent)));

    let mut negotiator = Negotiator::new(&Config::default());
    negotiator.step(GatewayEvent::GatewayFound);
    negotiator.step(GatewayEvent::Interfaces(usual_interfaces()));
    negotiator.step(GatewayEvent::EntriesEnded);
    negotiator.step(GatewayEvent::AnyPortGranted(1));
    assert_eq!(negotiator.outcome(), Some(Outcome::Failed(Failure::UnexpectedEvent)));
}

#[test]
fn the_first_non_loopback_ipv4_address_is_advertised() {
    assert_eq!(select_lan_address(&usual_interfaces()), Some(LAN));
    assert_eq!(select_lan_address(&Vec::new()), None);
    assert_eq!(
        select_lan_address(&vec![
            interface("a", IpAddress::V4(Ipv4Address::new(10, 0, 0, 5))),
            interface("b", IpAddress::V4(LAN)),
        ]),
        Some(Ipv4Address::new(10, 0, 0, 5))
    );
    assert_eq!(
        select_lan_address(&vec![interface("lo", IpAddress::V4(Ipv4Address::new(127, 9, 9, 9)))]),
        None
    );
}

#[test]
fn own_mappings_are_recognised_by_tag_client_and_port() {
    assert!(is_own_mapping(&entry("meili port mapping", "192.168.1.20", 1337, 1337), LAN, 1337));
    assert!(is_own_mapping(&entry("my meili", "192.168.1.20", 1337, 9), LAN, 1337));
    assert!(!is_own_mapping(&entry("port mapping", "192.168.1.20", 1337, 1337), LAN, 1337));
    assert!(!is_own_mapping(&entry("meili port mapping", "192.168.1.21", 1337, 1337), LAN, 1337));
    assert!(!is_own_mapping(&entry("meili port mapping", "192.168.001.020", 1337, 1337), LAN, 1337));
    assert!(!is_own_mapping(&entry("meili port mapping", "192.168.1.20", 1338, 1337), LAN, 1337));
    assert!(!is_own_mapping(&entry("meili port mapping", "myhost", 1337, 1337), LAN, 1337));
}

#[test]
fn requests_carry_the_fixed_lease_and_description() {
    let request = mapping_request(LAN, 4000);
    assert_eq!(request.protocol, Protocol::Udp);
    assert_eq!(request.internal_ip, LAN);
    assert_eq!(request.internal_port, 4000);
    assert_eq!(request.lease_seconds, 300);
    assert_eq!(LEASE_SECONDS, 300);
    assert_eq!(request.description, "meili port mapping");
}

#[test]
fn settings_come_from_the_configuration() {
    let mut config = Config::default();
    config.upnp_gw_timeout_ms = 250;
    config.upnp_pref_public_port = 8080;
    config.upnp_local_port = 9090;
    let mut negotiator = Negotiator::new(&config);
    assert_eq!(negotiator.next_action(), GatewayAction::Discover { timeout_ms: 250 });
    negotiator.step(GatewayEvent::GatewayFound);
    negotiator.step(GatewayEvent::Interfaces(usual_interfaces()));
    negotiator.step(GatewayEvent::EntriesEnded);
    match negotiator.next_action() {
        GatewayAction::AddPort { external_port, request } => {
            assert_eq!(external_port, 8080);
            assert_eq!(request.internal_port, 9090);
        }
        other => panic!("unexpected action {:?}", other),
    }
    negotiator.step(GatewayEvent::PortGranted);
    assert_eq!(negotiator.outcome(), Some(Outcome::Mapped { external_port: 8080 }));
}
