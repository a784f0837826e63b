use scanner_bridge::discovery::{
    browse_plan, default_rs_path, discover_all, discover_ip_range, discover_mdns,
    extract_manufacturer, find_by_id, get_subnet, has_unique_ids,
    is_yes_value,
    manufacturer_for_lowercase, needs_subnet_scan, parse_mdns_service, place, prefer_scanner,
    probe_escl_endpoint, probe_request, score_endpoint, score_scanner, service_kind,
    service_type, txt_value, Arbiter, DiscoveredScanner, LocalAddress, MdnsEvent, MdnsService,
    ScannerCapabilities, ServiceKind, TxtEntry, BROWSE_SECS, PROBE_TIMEOUT_SECS,
    SWEEP_TIMEOUT_SECS,
};
use scanner_bridge::http::{Body, HttpMethod};

fn txt(pairs: &[(&str, &str)]) -> Vec<TxtEntry> {
    pairs
        .iter()
        .map(|(k, v)| TxtEntry { key: k.to_string(), value: v.to_string() })
        .collect()
}

fn service(ip: &str, port: u16, pairs: &[(&str, &str)]) -> MdnsService {
    MdnsService {
        fullname: "Office Scanner._uscan._tcp.local.".to_string(),
        addresses: vec![ip.to_string()],
        port,
        txt: txt(pairs),
    }
}

fn scanner(id: &str, ip: &str, port: u16, use_tls: bool) -> DiscoveredScanner {
    DiscoveredScanner {
        id: id.to_string(),
        name: format!("scanner {}", id),
        manufacturer: "Unknown".to_string(),
        model: "model".to_string(),
        ip: ip.to_string(),
        port,
        use_tls,
        protocols: vec!["escl".to_string()],
        capabilities: ScannerCapabilities::default(),
        discovery_method: "mdns".to_string(),
        rs_path: "eSCL".to_string(),
    }
}

fn identities(list: &[DiscoveredScanner]) -> Vec<(String, String, u16, bool)> {
    let mut ids: Vec<_> =
        list.iter().map(|s| (s.id.clone(), s.ip.clone(), s.port, s.use_tls)).collect();
    ids.sort();
    ids
}

#[test]
fn default_resource_path() {
    assert_eq!(default_rs_path(), "eSCL");
}

#[test]
fn default_capabilities_know_nothing() {
    let c = ScannerCapabilities::default();
    assert!(!c.duplex && !c.adf && !c.flatbed);
    assert_eq!(c.max_resolution, 0);
    assert!(c.color_modes.is_empty());
    assert!(c.formats.is_empty());
}

#[test]
fn score_adds_tls_port_and_address() {
    assert_eq!(score_scanner(&scanner("a", "192.168.1.50", 443, true)), 38);
    assert_eq!(score_scanner(&scanner("a", "192.168.1.50", 80, false)), 13);
    assert_eq!(score_scanner(&scanner("a", "192.168.1.50", 8080, false)), 8);
    assert_eq!(score_scanner(&scanner("a", "192.168.1.50", 9100, false)), 3);
    assert_eq!(score_scanner(&scanner("a", "2001:db8::1", 9100, false)), 0);
    assert_eq!(score_scanner(&scanner("a", "fe80::1", 9100, false)), -3);
    assert_eq!(score_scanner(&scanner("a", "FE80::1", 9100, false)), -3);
    assert_eq!(score_scanner(&scanner("a", "fe80::1", 443, true)), 32);
    assert_eq!(score_scanner(&scanner("a", "2001:db8::1", 80, true)), 30);
}

#[test]
fn score_endpoint_takes_the_lower_case_address() {
    assert_eq!(score_endpoint(false, 80, "FE80::1", "fe80::1"), 7);
    assert_eq!(score_endpoint(false, 80, "FE80::1", "FE80::1"), 10);
    assert_eq!(score_endpoint(true, 443, "10.0.0.1", "10.0.0.1"), 38);
}

#[test]
fn prefer_needs_a_strictly_higher_score() {
    let http = scanner("u-1", "192.168.1.50", 80, false);
    let tls = scanner("u-1", "192.168.1.50", 443, true);
    assert!(prefer_scanner(&tls, &http));
    assert!(!prefer_scanner(&http, &tls));
    assert!(!prefer_scanner(&http, &http));
}

#[test]
fn manufacturer_by_brand_word() {
    assert_eq!(extract_manufacturer("HP LaserJet Pro"), "HP");
    assert_eq!(extract_manufacturer("Hewlett-Packard OfficeJet"), "HP");
    assert_eq!(extract_manufacturer("Canon MF240"), "Canon");
    assert_eq!(extract_manufacturer("BROTHER MFC-L2710DW"), "Brother");
    assert_eq!(extract_manufacturer("EPSON ET-2750"), "Epson");
    assert_eq!(extract_manufacturer("Samsung M2070"), "Samsung");
    assert_eq!(extract_manufacturer("Xerox B215"), "Xerox");
    assert_eq!(extract_manufacturer("Lexmark MB2236"), "Lexmark");
    assert_eq!(extract_manufacturer("RICOH SP 330"), "Ricoh");
    assert_eq!(extract_manufacturer("Kyocera ECOSYS"), "Kyocera");
    assert_eq!(extract_manufacturer("KONICA MINOLTA bizhub"), "Konica Minolta");
    assert_eq!(extract_manufacturer("Fujitsu ScanSnap"), "Unknown");
    assert_eq!(extract_manufacturer(""), "Unknown");
    // The first brand word of the list wins.
    assert_eq!(extract_manufacturer("Canon for hp"), "HP");
}

#[test]
fn manufacturer_for_lowercase_is_case_sensitive() {
    assert_eq!(manufacturer_for_lowercase("canon mf240"), "Canon");
    assert_eq!(manufacturer_for_lowercase("CANON MF240"), "Unknown");
}

#[test]
fn txt_value_ignores_the_case_of_keys() {
    let entries = txt(&[("TY", "Model A"), ("ty", "Model B"), ("Rs", "/eSCL")]);
    assert_eq!(txt_value(&entries, "ty"), Some("Model A".to_string()));
    assert_eq!(txt_value(&entries, "RS"), Some("/eSCL".to_string()));
    assert_eq!(txt_value(&entries, "uuid"), None);
    assert_eq!(txt_value(&Vec::new(), "ty"), None);
}

#[test]
fn yes_values() {
    for v in ["t", "true", "1"] {
        assert!(is_yes_value(v));
    }
    for v in ["f", "false", "0", "", "yes", "T"] {
        assert!(!is_yes_value(v));
    }
}

#[test]
fn parse_reads_the_txt_record() {
    let s = parse_mdns_service(&service(
        "192.168.1.50",
        8080,
        &[
            ("ty", "HP OfficeJet 9010"),
            ("product", "(ignored)"),
            ("UUID", "u-1"),
            ("duplex", "T"),
            ("is", "Platen,ADF"),
            ("rs", "//eSCL2"),
        ],
    ))
    .unwrap();
    assert_eq!(s.id, "u-1");
    assert_eq!(s.name, "HP OfficeJet 9010");
    assert_eq!(s.model, "HP OfficeJet 9010");
    assert_eq!(s.manufacturer, "HP");
    assert_eq!(s.ip, "192.168.1.50");
    assert_eq!(s.port, 8080);
    assert!(!s.use_tls);
    assert_eq!(s.protocols, vec!["escl"]);
    assert!(s.capabilities.duplex);
    assert!(s.capabilities.adf);
    assert!(s.capabilities.flatbed);
    assert_eq!(s.capabilities.max_resolution, 600);
    assert_eq!(s.capabilities.color_modes, vec!["RGB24", "Grayscale8"]);
    assert_eq!(s.capabilities.formats, vec!["application/pdf", "image/jpeg"]);
    assert_eq!(s.discovery_method, "mdns");
    assert_eq!(s.rs_path, "eSCL2");
}

#[test]
fn parse_falls_back_where_the_record_is_silent() {
    let s = parse_mdns_service(&service("192.168.1.50", 80, &[])).unwrap();
    assert_eq!(s.id, "192.168.1.50:80");
    assert_eq!(s.model, "Office Scanner._uscan._tcp.local.");
    assert_eq!(s.name, s.model);
    assert_eq!(s.manufacturer, "Unknown");
    assert!(!s.capabilities.duplex);
    assert!(!s.capabilities.adf);
    assert!(s.capabilities.flatbed);
    assert_eq!(s.rs_path, "eSCL");
}

#[test]
fn parse_model_from_product_and_sources() {
    let s = parse_mdns_service(&service(
        "10.0.0.9",
        443,
        &[("product", "(Canon TR8500)"), ("is", "feeder"), ("duplex", "F")],
    ))
    .unwrap();
    assert_eq!(s.model, "(Canon TR8500)");
    assert_eq!(s.manufacturer, "Canon");
    assert!(s.capabilities.adf);
    assert!(!s.capabilities.flatbed);
    assert!(!s.capabilities.duplex);
    let empty = parse_mdns_service(&service("10.0.0.9", 443, &[("is", "")])).unwrap();
    assert!(empty.capabilities.flatbed);
    assert!(!empty.capabilities.adf);
}

#[test]
fn parse_takes_the_first_address_or_nothing() {
    let mut two = service("10.0.0.1", 80, &[]);
    two.addresses.push("fe80::1".to_string());
    assert_eq!(parse_mdns_service(&two).unwrap().ip, "10.0.0.1");
    let mut none = service("10.0.0.1", 80, &[]);
    none.addresses.clear();
    assert!(parse_mdns_service(&none).is_none());
}

#[test]
fn service_kinds_and_types() {
    let kinds: Vec<ServiceKind> = browse_plan().iter().map(|w| w.kind).collect();
    assert_eq!(kinds, vec![ServiceKind::Escl, ServiceKind::EsclTls, ServiceKind::Generic]);
    assert!(browse_plan().iter().all(|w| w.secs == 5));
    assert_eq!(service_type(ServiceKind::Escl), "_uscan._tcp.local.");
    assert_eq!(service_type(ServiceKind::EsclTls), "_uscans._tcp.local.");
    assert_eq!(service_type(ServiceKind::Generic), "_scanner._tcp.local.");
    for window in browse_plan() {
        assert_eq!(service_kind(service_type(window.kind)), window.kind);
    }
    assert_eq!(service_kind("_ipp._tcp.local."), ServiceKind::Generic);
    assert_eq!(BROWSE_SECS, 5);
}

#[test]
fn mdns_discovery_with_tls_preference() {
    let events = vec![
        MdnsEvent {
            kind: ServiceKind::Escl,
            service: service("192.168.1.50", 80, &[("uuid", "u-1")]),
        },
        MdnsEvent {
            kind: ServiceKind::EsclTls,
            service: service("192.168.1.50", 443, &[("uuid", "u-1")]),
        },
    ];
    let found = discover_mdns(&events);
    assert_eq!(found.len(), 1);
    assert_eq!(found[0].id, "u-1");
    assert!(found[0].use_tls);
    assert_eq!(found[0].port, 443);
    assert_eq!(found[0].rs_path, "eSCL");
    let all = discover_all(&found, &Vec::new());
    assert_eq!(all.len(), 1);
    assert!(all[0].use_tls);
    assert_eq!(all[0].port, 443);
}

#[test]
fn lower_scoring_sighting_does_not_replace() {
    let events = vec![
        MdnsEvent {
            kind: ServiceKind::EsclTls,
            service: service("192.168.1.50", 443, &[("uuid", "u-1")]),
        },
        MdnsEvent {
            kind: ServiceKind::Escl,
            service: service("192.168.1.50", 80, &[("uuid", "u-1")]),
        },
        MdnsEvent {
            kind: ServiceKind::EsclTls,
            service: service("192.168.1.50", 443, &[("uuid", "u-1"), ("ty", "later")]),
        },
    ];
    let found = discover_mdns(&events);
    assert_eq!(found.len(), 1);
    assert!(found[0].use_tls);
    assert_eq!(found[0].port, 443);
    // A tie does not replace either.
    assert_ne!(found[0].model, "later");
}

#[test]
fn retained_scores_at_least_as_high_as_discarded() {
    let sightings = [
        ("192.168.1.50", 80, ServiceKind::Escl),
        ("fe80::1", 443, ServiceKind::EsclTls),
        ("192.168.1.50", 8080, ServiceKind::Escl),
        ("192.168.1.50", 443, ServiceKind::EsclTls),
        ("2001:db8::1", 443, ServiceKind::EsclTls),
    ];
    let mut arbiter = Arbiter::new();
    let mut best = i32::MIN;
    for (ip, port, kind) in sightings {
        let svc = service(ip, port, &[("uuid", "u-1")]);
        let mut candidate = parse_mdns_service(&svc).unwrap();
        candidate.use_tls = kind == ServiceKind::EsclTls;
        best = best.max(score_scanner(&candidate));
        arbiter.observe(kind, &svc);
        assert_eq!(arbiter.scanners.len(), 1);
        assert_eq!(score_scanner(&arbiter.scanners[0]), best);
    }
    assert_eq!(arbiter.scanners[0].ip, "192.168.1.50");
    assert_eq!(arbiter.scanners[0].port, 443);
}

#[test]
fn generic_sighting_of_an_escl_address_is_dropped() {
    let mut arbiter = Arbiter::new();
    arbiter.observe(ServiceKind::Escl, &service("192.168.1.50", 80, &[("uuid", "u-1")]));
    arbiter.observe(ServiceKind::Generic, &service("192.168.1.50", 9100, &[("uuid", "g-1")]));
    arbiter.observe(ServiceKind::Generic, &service("192.168.1.60", 9100, &[("uuid", "g-2")]));
    let ids: Vec<&str> = arbiter.scanners.iter().map(|s| s.id.as_str()).collect();
    assert_eq!(ids, vec!["u-1", "g-2"]);
    assert_eq!(arbiter.escl_ips, vec!["192.168.1.50"]);
}

#[test]
fn generic_sighting_before_the_escl_one_stays() {
    let mut arbiter = Arbiter::new();
    arbiter.observe(ServiceKind::Generic, &service("192.168.1.50", 9100, &[("uuid", "g-1")]));
    arbiter.observe(ServiceKind::Escl, &service("192.168.1.50", 80, &[("uuid", "u-1")]));
    assert_eq!(arbiter.scanners.len(), 2);
}

#[test]
fn service_without_address_changes_nothing() {
    let mut arbiter = Arbiter::new();
    let mut svc = service("192.168.1.50", 80, &[("uuid", "u-1")]);
    svc.addresses.clear();
    arbiter.observe(ServiceKind::Escl, &svc);
    assert!(arbiter.scanners.is_empty());
    assert!(arbiter.escl_ips.is_empty());
}

#[test]
fn place_replaces_in_place_or_appends() {
    let mut list = vec![scanner("a", "10.0.0.1", 80, false), scanner("b", "10.0.0.2", 80, false)];
    place(&mut list, scanner("a", "10.0.0.1", 443, true));
    assert_eq!(list.len(), 2);
    assert_eq!(list[0].port, 443);
    place(&mut list, scanner("b", "10.0.0.2", 9100, false));
    assert_eq!(list[1].port, 80);
    place(&mut list, scanner("c", "10.0.0.3", 80, false));
    assert_eq!(list.len(), 3);
    assert_eq!(list[2].id, "c");
    assert_eq!(find_by_id(&list, "b"), Some(1));
    assert_eq!(find_by_id(&list, "z"), None);
}

#[test]
fn discovery_is_idempotent() {
    let events = vec![
        MdnsEvent { kind: ServiceKind::Escl, service: service("192.168.1.50", 80, &[("uuid", "u-1")]) },
        MdnsEvent { kind: ServiceKind::Generic, service: service("192.168.1.50", 9100, &[]) },
        MdnsEvent { kind: ServiceKind::EsclTls, service: service("192.168.1.51", 443, &[("uuid", "u-2")]) },
        MdnsEvent { kind: ServiceKind::Generic, service: service("192.168.1.52", 9100, &[]) },
        MdnsEvent { kind: ServiceKind::EsclTls, service: service("192.168.1.50", 443, &[("uuid", "u-1")]) },
    ];
    let first = discover_all(&discover_mdns(&events), &Vec::new());
    let second = discover_all(&discover_mdns(&events), &Vec::new());
    assert_eq!(identities(&first), identities(&second));
    assert_eq!(
        identities(&first),
        vec![
            ("192.168.1.52:9100".to_string(), "192.168.1.52".to_string(), 9100, false),
            ("u-1".to_string(), "192.168.1.50".to_string(), 443, true),
            ("u-2".to_string(), "192.168.1.51".to_string(), 443, true),
        ]
    );
}

#[test]
fn discover_all_keeps_every_id_also_on_one_address() {
    let mdns = vec![
        scanner("a", "10.0.0.1", 80, false),
        scanner("b", "10.0.0.2", 80, false),
        scanner("c", "10.0.0.1", 443, true),
    ];
    let all = discover_all(&mdns, &vec![scanner("p", "10.0.0.9", 80, false)]);
    let ids: Vec<&str> = all.iter().map(|s| s.id.as_str()).collect();
    // Two ids on one address are two scanners; the probe is not used.
    assert_eq!(ids, vec!["a", "b", "c"]);
    assert_eq!(format!("{:?}", all), format!("{:?}", mdns));
}

#[test]
fn device_without_uuid_on_both_escl_services_is_found_twice() {
    let events = vec![
        MdnsEvent { kind: ServiceKind::Escl, service: service("192.168.1.50", 80, &[]) },
        MdnsEvent { kind: ServiceKind::EsclTls, service: service("192.168.1.50", 443, &[]) },
    ];
    let all = discover_all(&discover_mdns(&events), &Vec::new());
    assert_eq!(
        identities(&all),
        vec![
            ("192.168.1.50:443".to_string(), "192.168.1.50".to_string(), 443, true),
            ("192.168.1.50:80".to_string(), "192.168.1.50".to_string(), 80, false),
        ]
    );
}

#[test]
fn discover_all_keeps_a_repeated_id_once_by_score() {
    let found = vec![
        scanner("a", "10.0.0.1", 80, false),
        scanner("b", "10.0.0.2", 80, false),
        scanner("a", "10.0.0.1", 443, true),
        scanner("b", "10.0.0.2", 9100, false),
    ];
    let all = discover_all(&found, &Vec::new());
    assert_eq!(
        identities(&all),
        vec![
            ("a".to_string(), "10.0.0.1".to_string(), 443, true),
            ("b".to_string(), "10.0.0.2".to_string(), 80, false),
        ]
    );
    assert_eq!(all[0].id, "a");
    assert!(has_unique_ids(&all));
}

#[test]
fn probe_results_are_used_only_without_mdns() {
    assert!(needs_subnet_scan(&Vec::new()));
    assert!(!needs_subnet_scan(&vec![scanner("a", "10.0.0.1", 80, false)]));
    let probed = vec![
        scanner("10.0.0.9:80", "10.0.0.9", 80, false),
        scanner("10.0.0.9:443", "10.0.0.9", 443, true),
        scanner("10.0.0.7:8080", "10.0.0.7", 8080, false),
    ];
    let all = discover_all(&Vec::new(), &probed);
    let ids: Vec<&str> = all.iter().map(|s| s.id.as_str()).collect();
    // Every answering port of a host is a scanner of its own.
    assert_eq!(ids, vec!["10.0.0.9:80", "10.0.0.9:443", "10.0.0.7:8080"]);
    assert!(discover_all(&Vec::new(), &Vec::new()).is_empty());
}

#[test]
fn subnet_of_the_local_address() {
    assert_eq!(get_subnet(&LocalAddress::V4 { a: 10, b: 0, c: 42, d: 17 }), "10.0.42");
    assert_eq!(get_subnet(&LocalAddress::V4 { a: 192, b: 168, c: 178, d: 1 }), "192.168.178");
    assert_eq!(get_subnet(&LocalAddress::V6), "192.168.1");
}

#[test]
fn subnet_sweep_covers_254_hosts_on_four_ports() {
    let sweep = discover_ip_range("192.168.1");
    assert_eq!(sweep.deadline_secs, 30);
    let targets = sweep.targets;
    assert_eq!(targets.len(), 1016);
    assert_eq!((targets[0].ip.as_str(), targets[0].port), ("192.168.1.1", 80));
    assert_eq!((targets[1].ip.as_str(), targets[1].port), ("192.168.1.1", 443));
    assert_eq!((targets[2].ip.as_str(), targets[2].port), ("192.168.1.1", 8080));
    assert_eq!((targets[3].ip.as_str(), targets[3].port), ("192.168.1.1", 9100));
    assert_eq!((targets[4].ip.as_str(), targets[4].port), ("192.168.1.2", 80));
    assert_eq!((targets[1015].ip.as_str(), targets[1015].port), ("192.168.1.254", 9100));
    assert_eq!(SWEEP_TIMEOUT_SECS, 30);
}

#[test]
fn probe_request_picks_the_scheme_by_port() {
    let plain = probe_request("192.168.1.7", 8080);
    assert_eq!(plain.method, HttpMethod::Get);
    assert_eq!(plain.url, "http://192.168.1.7:8080/eSCL/ScannerCapabilities");
    assert_eq!(plain.bearer, None);
    assert_eq!(plain.timeout_secs, Some(PROBE_TIMEOUT_SECS));
    assert_eq!(PROBE_TIMEOUT_SECS, 2);
    assert!(plain.accept_invalid_certs);
    assert!(matches!(plain.body, Body::Empty));
    let tls = probe_request("192.168.1.7", 443);
    assert_eq!(tls.url, "https://192.168.1.7:443/eSCL/ScannerCapabilities");
}

#[test]
fn probe_needs_success_and_the_capabilities_word() {
    let body = "<scan:ScannerCapabilities xmlns:scan=\"x\"/>";
    let s = probe_escl_endpoint("192.168.1.7", 443, 200, body).unwrap();
    assert_eq!(s.id, "192.168.1.7:443");
    assert_eq!(s.name, "Scanner at 192.168.1.7");
    assert_eq!(s.manufacturer, "Unknown");
    assert_eq!(s.model, "eSCL Scanner (192.168.1.7)");
    assert_eq!(s.ip, "192.168.1.7");
    assert_eq!(s.port, 443);
    assert!(s.use_tls);
    assert_eq!(s.protocols, vec!["escl"]);
    assert_eq!(s.discovery_method, "ip_scan");
    assert_eq!(s.rs_path, "eSCL");
    assert!(!s.capabilities.flatbed);
    assert!(!probe_escl_endpoint("192.168.1.7", 80, 200, body).unwrap().use_tls);
    assert!(probe_escl_endpoint("192.168.1.7", 80, 404, body).is_none());
    assert!(probe_escl_endpoint("192.168.1.7", 80, 200, "<html>printer</html>").is_none());
    assert!(probe_escl_endpoint("192.168.1.7", 80, 299, body).is_some());
    assert!(probe_escl_endpoint("192.168.1.7", 80, 300, body).is_none());
}

#[test]
fn duplicate_keeps_every_field() {
    let s = parse_mdns_service(&service("192.168.1.50", 80, &[("uuid", "u-1"), ("ty", "Canon X")]))
        .unwrap();
    let d = s.duplicate();
    assert_eq!(format!("{:?}", d), format!("{:?}", s));
}

#[test]
fn unique_ids_are_told_apart() {
    assert!(has_unique_ids(&Vec::new()));
    assert!(has_unique_ids(&vec![scanner("a", "10.0.0.1", 80, false)]));
    assert!(has_unique_ids(&vec![
        scanner("a", "10.0.0.1", 80, false),
        scanner("b", "10.0.0.1", 80, false),
    ]));
    assert!(!has_unique_ids(&vec![
        scanner("a", "10.0.0.1", 80, false),
        scanner("b", "10.0.0.2", 80, false),
        scanner("a", "10.0.0.3", 80, false),
    ]));
}

#[test]
fn arbiters_made_by_the_library_are_well_formed() {
    let mut arbiter = Arbiter::new();
    assert!(arbiter.is_well_formed());
    arbiter.observe(ServiceKind::Escl, &service("192.168.1.50", 80, &[("uuid", "u-1")]));
    arbiter.observe(ServiceKind::EsclTls, &service("192.168.1.50", 443, &[("uuid", "u-1")]));
    arbiter.observe(ServiceKind::Escl, &service("192.168.1.51", 80, &[("uuid", "u-2")]));
    assert!(arbiter.is_well_formed());
    arbiter.escl_ips.push("192.168.1.50".to_string());
    assert!(!arbiter.is_well_formed());
}

#[test]
fn seeing_every_service_again_changes_nothing() {
    let events = vec![
        MdnsEvent { kind: ServiceKind::Generic, service: service("192.168.1.50", 9100, &[]) },
        MdnsEvent { kind: ServiceKind::Escl, service: service("192.168.1.50", 80, &[("uuid", "u-1")]) },
        MdnsEvent { kind: ServiceKind::EsclTls, service: service("fe80::1", 443, &[("uuid", "u-1")]) },
        MdnsEvent { kind: ServiceKind::Generic, service: service("192.168.1.52", 9100, &[]) },
        MdnsEvent { kind: ServiceKind::EsclTls, service: service("192.168.1.50", 443, &[("uuid", "u-1")]) },
    ];
    let once = discover_mdns(&events);
    let mut doubled = events.clone();
    doubled.extend(events.iter().cloned());
    let twice = discover_mdns(&doubled);
    assert_eq!(format!("{:?}", once), format!("{:?}", twice));
    assert_eq!(once.len(), 3);
}
