//! Object details: resolution, links, tabs, cable walks and writes.

use nbox::domain::circuit_view::{PathHop, ResolvedTermination};
use nbox::domain::detail::links::{
    circuit_links, device_links, interface_links, ip_links, prefix_links, vlan_links,
};
use nbox::domain::detail::load::{
    follow_up, found_or_note, load_detail, lookup_for, noun_of, object_request,
    prefix_detail_parts, resolve_ip, resolve_mac, resolve_prefix, resolve_vlan, site_racks_tab,
    vlan_number, FollowUp, Loaded, Lookup, Object,
};
use nbox::domain::detail::path::{
    across, cable_label_value, continue_walk, front_for_rear, next_hop_from_peer, port_kind,
    rear_for_front, start_walk, NextHop, PortKind, WalkStep,
};
use nbox::domain::detail::plan::{
    check_reread, finish_reserve, finish_update, plan_device_status_update,
    plan_interface_description_update, plan_ip_range_reserve, plan_ip_reserve,
    plan_prefix_reserve, plan_tag_update, choose_status, start_update, wire_body, ApplyStep,
    NextFree, ObjectTag, TagOperation, TagTargetObject,
};
use nbox::domain::detail::resolve::{
    prefix_satisfies_length, resolve_unique, retain_scope, split_interface_ref, tui_not_found,
    ScopeField,
};
use nbox::domain::detail::routing::{
    address_part, after_graphql_error, build_route_target_detail, build_vrf_detail, fallback_note,
    first_source, prefix_sort_key, route_target_detail_view, sort_prefixes, vrf_detail_view,
    ChildrenSource, ParsedAddress, PlacedPrefix, PrefixNode,
};
use nbox::domain::detail::rows::{
    device_cable_rows, device_interface_rows, device_ip_rows, device_link_rows, device_vlan_rows,
    rack_link_rows, vlan_prefixes_tab,
};
use nbox::domain::detail::steps::{
    load_detail_by_ref, take_answer, take_parts, Answer, DetailStep, Parts,
};
use nbox::domain::detail::target::{
    endpoint_from_relative, id_from_path, names_an_address, resolve_tag_target_endpoint,
    target_from_parts,
};
use nbox::domain::detail::view::{DetailTab, DetailView, ObjectLink};
use nbox::domain::device_detail::{CableRow, IfaceRow, IpRow, VlanRow};
use nbox::domain::route_target_view::VrfRef;
use nbox::domain::virtual_circuit_view::DeviceRef;
use nbox::error::{ErrorChain, ErrorLink, NboxError};
use nbox::json::{Json, JsonNumber, Member};
use nbox::netbox::choices::resolve_choice;
use nbox::netbox::models::{
    BriefObject, Choice, Circuit, CircuitTermination, Device, Interface, IpAddress, IpRange,
    MacAddress, Prefix, Rack, RouteTarget, Site, Tag, Utilization, Vlan, Vrf,
};
use nbox::netbox::mutation::{
    changelog_message, ChangelogMessage, FieldValue, MutationPlan, Operation, Precondition,
};
use nbox::netbox::query::{ip_scope_label, prefix_scope_label, vlan_scope_label};
use nbox::netbox::search::ObjectKind;
use serde_json::Value;

fn parse(text: &str) -> Value {
    serde_json::from_str(text).unwrap()
}

fn json(v: &Value) -> Json {
    match v {
        Value::Null => Json::Null,
        Value::Bool(b) => Json::Bool(*b),
        Value::Number(n) => Json::Number(JsonNumber {
            text: n.to_string(),
            decimal: format!("{}", n.as_f64().unwrap()),
        }),
        Value::String(s) => Json::Text(s.clone()),
        Value::Array(items) => Json::Array {
            items: items.iter().map(json).collect(),
            raw: v.clone(),
        },
        Value::Object(members) => Json::Object {
            members: members
                .iter()
                .map(|(name, value)| Member { name: name.clone(), value: json(value) })
                .collect(),
            raw: v.clone(),
        },
    }
}

fn opt(v: &Value, key: &str) -> Option<Json> {
    v.get(key).filter(|x| !x.is_null()).map(json)
}

fn text(v: &Value, key: &str) -> Option<String> {
    v.get(key).and_then(Value::as_str).map(str::to_string)
}

fn must(v: &Value, key: &str) -> String {
    text(v, key).unwrap()
}

fn count(v: &Value, key: &str) -> Option<u64> {
    v.get(key).and_then(Value::as_u64)
}

fn flag(v: &Value, key: &str) -> Option<bool> {
    v.get(key).and_then(Value::as_bool)
}

fn small(v: &Value, key: &str) -> Option<u32> {
    count(v, key).map(|n| n as u32)
}

fn id(v: &Value) -> u64 {
    count(v, "id").unwrap()
}

fn as_brief(v: &Value) -> BriefObject {
    BriefObject {
        id: id(v),
        url: text(v, "url"),
        display: text(v, "display"),
        name: text(v, "name"),
        slug: text(v, "slug"),
        rd: text(v, "rd"),
        device: brief(v, "device").map(Box::new),
    }
}

fn brief(v: &Value, key: &str) -> Option<BriefObject> {
    v.get(key).filter(|x| x.is_object()).map(as_brief)
}

fn briefs(v: &Value, key: &str) -> Vec<BriefObject> {
    match v.get(key).and_then(Value::as_array) {
        Some(items) => items.iter().map(as_brief).collect(),
        None => vec![],
    }
}

fn choice(v: &Value, key: &str) -> Option<Choice> {
    v.get(key).filter(|x| x.is_object()).map(|c| Choice { value: must(c, "value"), label: must(c, "label") })
}

fn tags(v: &Value) -> Vec<Tag> {
    match v.get("tags").and_then(Value::as_array) {
        Some(items) => items
            .iter()
            .map(|t| Tag { id: id(t), name: must(t, "name"), slug: must(t, "slug") })
            .collect(),
        None => vec![],
    }
}

fn custom(v: &Value) -> Json {
    json(v.get("custom_fields").unwrap_or(&Value::Null))
}

fn device(t: &str) -> Device {
    let v = parse(t);
    Device {
        id: id(&v),
        url: must(&v, "url"),
        display: text(&v, "display"),
        name: must(&v, "name"),
        status: choice(&v, "status"),
        role: brief(&v, "role"),
        site: brief(&v, "site"),
        rack: brief(&v, "rack"),
        platform: brief(&v, "platform"),
        tenant: brief(&v, "tenant"),
        primary_ip4: brief(&v, "primary_ip4"),
        primary_ip6: brief(&v, "primary_ip6"),
        serial: text(&v, "serial"),
        description: text(&v, "description"),
        last_updated: text(&v, "last_updated"),
        tags: tags(&v),
        custom_fields: custom(&v),
    }
}

fn interface(t: &str) -> Interface {
    let v = parse(t);
    Interface {
        id: id(&v),
        url: must(&v, "url"),
        display: text(&v, "display"),
        device: brief(&v, "device"),
        name: must(&v, "name"),
        enabled: flag(&v, "enabled"),
        type_: choice(&v, "type"),
        mtu: small(&v, "mtu"),
        mac_address: text(&v, "mac_address"),
        mode: choice(&v, "mode"),
        untagged_vlan: brief(&v, "untagged_vlan"),
        tagged_vlans: briefs(&v, "tagged_vlans"),
        cable: brief(&v, "cable"),
        connected_endpoints: v.get("connected_endpoints").map(|_| briefs(&v, "connected_endpoints")),
        description: text(&v, "description"),
        last_updated: text(&v, "last_updated"),
        tags: tags(&v),
        custom_fields: custom(&v),
    }
}

fn ip_address(t: &str) -> IpAddress {
    let v = parse(t);
    IpAddress {
        id: id(&v),
        url: must(&v, "url"),
        address: must(&v, "address"),
        status: choice(&v, "status"),
        role: choice(&v, "role"),
        vrf: brief(&v, "vrf"),
        tenant: brief(&v, "tenant"),
        assigned_object_type: text(&v, "assigned_object_type"),
        assigned_object_id: count(&v, "assigned_object_id"),
        assigned_object: opt(&v, "assigned_object"),
        dns_name: text(&v, "dns_name"),
        description: text(&v, "description"),
        nat_inside: brief(&v, "nat_inside"),
        nat_outside: briefs(&v, "nat_outside"),
        owner: brief(&v, "owner"),
        tags: tags(&v),
        custom_fields: custom(&v),
    }
}

fn prefix(t: &str) -> Prefix {
    let v = parse(t);
    Prefix {
        id: id(&v),
        url: must(&v, "url"),
        prefix: must(&v, "prefix"),
        status: choice(&v, "status"),
        vrf: brief(&v, "vrf"),
        vlan: brief(&v, "vlan"),
        scope_type: text(&v, "scope_type"),
        scope: brief(&v, "scope"),
        tenant: brief(&v, "tenant"),
        role: brief(&v, "role"),
        children: count(&v, "children"),
        utilization: v.get("utilization").and_then(Value::as_f64).map(|pct| Utilization {
            decimal: pct.to_string(),
            percent: format!("{:.0}", pct),
            filled: ((pct.clamp(0.0, 100.0) / 100.0) * 16.0).round() as u64,
        }),
        description: text(&v, "description"),
    }
}

fn vlan(t: &str) -> Vlan {
    let v = parse(t);
    Vlan {
        id: id(&v),
        url: must(&v, "url"),
        vid: count(&v, "vid").unwrap() as u16,
        name: must(&v, "name"),
        status: choice(&v, "status"),
        site: brief(&v, "site"),
        group: brief(&v, "group"),
        scope_type: text(&v, "scope_type"),
        scope: brief(&v, "scope"),
        tenant: brief(&v, "tenant"),
        role: brief(&v, "role"),
        description: text(&v, "description"),
        tags: tags(&v),
        custom_fields: custom(&v),
    }
}

fn circuit(t: &str) -> Circuit {
    let v = parse(t);
    Circuit {
        id: id(&v),
        url: must(&v, "url"),
        cid: must(&v, "cid"),
        provider: brief(&v, "provider"),
        type_: brief(&v, "type"),
        status: choice(&v, "status"),
        tenant: brief(&v, "tenant"),
        install_date: text(&v, "install_date"),
        commit_rate: count(&v, "commit_rate"),
        description: text(&v, "description"),
        tags: tags(&v),
        custom_fields: custom(&v),
    }
}

fn circuit_termination(t: &str) -> CircuitTermination {
    let v = parse(t);
    CircuitTermination {
        id: id(&v),
        term_side: text(&v, "term_side"),
        termination: brief(&v, "termination"),
        termination_type: text(&v, "termination_type"),
        link_peers: briefs(&v, "link_peers"),
        cable: brief(&v, "cable"),
        xconnect_id: text(&v, "xconnect_id"),
        pp_info: text(&v, "pp_info"),
        port_speed: count(&v, "port_speed"),
    }
}

fn rack(t: &str) -> Rack {
    let v = parse(t);
    Rack {
        id: id(&v),
        url: must(&v, "url"),
        name: must(&v, "name"),
        status: choice(&v, "status"),
        site: brief(&v, "site"),
        location: brief(&v, "location"),
        role: brief(&v, "role"),
        tenant: brief(&v, "tenant"),
        u_height: small(&v, "u_height"),
        serial: text(&v, "serial"),
        asset_tag: text(&v, "asset_tag"),
        description: text(&v, "description"),
        tags: tags(&v),
        custom_fields: custom(&v),
    }
}

fn site(t: &str) -> Site {
    let v = parse(t);
    Site {
        id: id(&v),
        url: must(&v, "url"),
        name: must(&v, "name"),
        slug: must(&v, "slug"),
        status: choice(&v, "status"),
        region: brief(&v, "region"),
        group: brief(&v, "group"),
        tenant: brief(&v, "tenant"),
        facility: text(&v, "facility"),
        description: text(&v, "description"),
    }
}

fn vrf(t: &str) -> Vrf {
    let v = parse(t);
    Vrf {
        id: id(&v),
        url: must(&v, "url"),
        name: must(&v, "name"),
        rd: text(&v, "rd"),
        tenant: brief(&v, "tenant"),
        enforce_unique: flag(&v, "enforce_unique"),
        import_targets: briefs(&v, "import_targets"),
        export_targets: briefs(&v, "export_targets"),
        prefix_count: count(&v, "prefix_count"),
        ipaddress_count: count(&v, "ipaddress_count"),
        description: text(&v, "description"),
        tags: tags(&v),
        custom_fields: custom(&v),
    }
}

fn route_target(t: &str) -> RouteTarget {
    let v = parse(t);
    RouteTarget {
        id: id(&v),
        url: must(&v, "url"),
        name: must(&v, "name"),
        tenant: brief(&v, "tenant"),
        description: text(&v, "description"),
        owner: brief(&v, "owner"),
        tags: tags(&v),
        custom_fields: custom(&v),
    }
}

fn ip_range(t: &str) -> IpRange {
    let v = parse(t);
    IpRange {
        id: id(&v),
        url: must(&v, "url"),
        start_address: must(&v, "start_address"),
        end_address: must(&v, "end_address"),
        size: count(&v, "size"),
        status: choice(&v, "status"),
        vrf: brief(&v, "vrf"),
        tenant: brief(&v, "tenant"),
        role: brief(&v, "role"),
        description: text(&v, "description"),
        custom_fields: custom(&v),
    }
}

fn mac(t: &str) -> MacAddress {
    let v = parse(t);
    MacAddress {
        id: id(&v),
        url: must(&v, "url"),
        mac_address: must(&v, "mac_address"),
        assigned_object_type: text(&v, "assigned_object_type"),
        assigned_object: opt(&v, "assigned_object"),
        description: text(&v, "description"),
        owner: brief(&v, "owner"),
        tags: tags(&v),
        custom_fields: custom(&v),
    }
}

fn ip(n: u64, address: &str, vrf: Option<&str>) -> IpAddress {
    let mut one = ip_address(&format!(
        "{{\"id\": {n}, \"url\": \"http://nb/ipam/ip-addresses/{n}/\", \"address\": \"{address}\"}}"
    ));
    one.vrf = vrf.map(|name| BriefObject {
        id: n + 100,
        url: None,
        display: Some(name.to_string()),
        name: Some(name.to_string()),
        slug: None,
        rd: None,
        device: None,
    });
    one
}

fn notes(e: &ErrorChain) -> Vec<&str> {
    e.links
        .iter()
        .map(|link| match link {
            ErrorLink::Note(m) => m.as_str(),
            other => panic!("{other:?}"),
        })
        .collect()
}

fn bare(mut e: ErrorChain) -> NboxError {
    assert_eq!(e.links.len(), 1);
    match e.links.remove(0) {
        ErrorLink::Typed(e) => e,
        other => panic!("{other:?}"),
    }
}

fn targets(links: &[ObjectLink]) -> Vec<(ObjectKind, u64, &str)> {
    links.iter().map(|l| (l.kind, l.id, l.relation.as_str())).collect()
}

fn kinds(links: &[ObjectLink]) -> Vec<(ObjectKind, &str)> {
    links.iter().map(|l| (l.kind, l.relation.as_str())).collect()
}

// ===== Links and rows =====

#[test]
fn device_links_cover_site_rack_tenant_and_primary_ips() {
    let d = device(r#"{
        "id": 1, "url": "u", "name": "edge01",
        "site": {"id": 5, "name": "iad1", "display": "iad1"},
        "rack": {"id": 7, "name": "R1", "display": "R1"},
        "tenant": {"id": 9, "name": "acme", "display": "acme"},
        "primary_ip4": {"id": 11, "display": "10.0.0.1/24"}
    }"#);
    let links = device_links(&d);
    let got: Vec<(ObjectKind, u64, &str)> = links
        .iter()
        .map(|l| (l.kind, l.id, l.relation.as_str()))
        .collect();
    assert!(got.contains(&(ObjectKind::Site, 5, "site")));
    assert!(
        got.contains(&(ObjectKind::Rack, 7, "rack")),
        "device→rack link"
    );
    assert!(got.contains(&(ObjectKind::Tenant, 9, "tenant")));
    assert!(got.contains(&(ObjectKind::IpAddress, 11, "primary IPv4")));
    // No primary IPv6 in the fixture → no such link (absent relations skipped).
    assert!(!got.iter().any(|(_, _, r)| *r == "primary IPv6"));
}

#[test]
fn prefix_links_navigate_site_scope_and_vlan_but_not_vrf() {
    let p = prefix(r#"{
        "id": 2, "url": "u", "prefix": "10.0.0.0/16",
        "scope_type": "dcim.site",
        "scope": {"id": 5, "name": "iad1", "display": "iad1"},
        "vlan": {"id": 8, "display": "vlan 100"},
        "vrf": {"id": 3, "name": "blue", "display": "blue"},
        "tenant": {"id": 9, "name": "acme", "display": "acme"}
    }"#);
    let links = prefix_links(&p);
    let got: Vec<(ObjectKind, &str)> = links
        .iter()
        .map(|l| (l.kind, l.relation.as_str()))
        .collect();
    assert!(
        got.contains(&(ObjectKind::Site, "site")),
        "site scope navigable"
    );
    assert!(got.contains(&(ObjectKind::Vlan, "vlan")));
    assert!(got.contains(&(ObjectKind::Tenant, "tenant")));
    // A VRF has no detail kind, so it is never emitted as a link.
    assert!(!got.iter().any(|(_, r)| *r == "vrf"));
}

#[test]
fn circuit_links_cover_provider_site_and_patched_device_not_provider_network() {
    let c = circuit(r#"{
        "id": 3, "url": "u", "cid": "ACME-1001",
        "provider": {"id": 1, "display": "ACME"},
        "tenant": {"id": 9, "name": "acme", "display": "acme"}
    }"#);
    let term_a = circuit_termination(r#"{
        "id": 10, "term_side": "A",
        "termination": {"id": 1, "display": "DC1", "name": "DC1"},
        "termination_type": "dcim.site"
    }"#);
    let term_z = circuit_termination(r#"{
        "id": 11, "term_side": "Z",
        "termination": {"id": 2, "display": "ACME Cloud"},
        "termination_type": "circuits.providernetwork"
    }"#);
    let resolved = vec![
        ResolvedTermination {
            termination: term_a,
            path: vec![PathHop {
                to: "panel-1 7".to_string(),
                cable: Some("#100".to_string()),
                endpoint: false,
                device: Some(DeviceRef {
                    id: 9,
                    name: "panel-1".to_string(),
                }),
            }],
        },
        ResolvedTermination {
            termination: term_z,
            path: Vec::new(),
        },
    ];
    let links = circuit_links(&c, &resolved);
    let got: Vec<(ObjectKind, &str)> = links
        .iter()
        .map(|l| (l.kind, l.relation.as_str()))
        .collect();
    assert!(got.contains(&(ObjectKind::Provider, "provider")));
    assert!(got.contains(&(ObjectKind::Tenant, "tenant")));
    // The A-side site and the device along its path are navigable.
    assert!(got.contains(&(ObjectKind::Site, "A-side site")));
    assert!(got.contains(&(ObjectKind::Device, "A-side device")));
    // A provider network has no detail kind, so the Z-side emits no site link.
    assert!(!got.iter().any(|(_, r)| *r == "Z-side site"));
}

#[test]
fn prefix_detail_parts_builds_navigable_children_and_address_tabs() {
    let p = prefix(r#"{"id": 2, "url": "u", "prefix": "10.0.0.0/16"}"#);
    let children = vec![
        prefix(r#"{"id": 6, "url": "u", "prefix": "10.0.0.0/24"}"#),
        prefix(r#"{"id": 7, "url": "u", "prefix": "10.0.1.0/24"}"#),
    ];
    let ips = vec![
        ip_address(r#"{
            "id": 11, "url": "u", "address": "10.0.0.1/24",
            "assigned_object": {"display": "eth0", "device": {"display": "edge01"}}
        }"#),
    ];

    let (title, body, tabs) = prefix_detail_parts(p, children, ips);
    assert_eq!(title, "prefix 10.0.0.0/16");
    // Body is the header only — the child/IP lists moved to navigable tabs, so
    // they must not also appear inline (that would double them).
    assert!(body.contains("prefix: 10.0.0.0/16"));
    assert!(!body.contains("Child Prefixes"));
    assert!(!body.contains("IP Addresses"));

    // children tab: each child prefix opens that prefix on Enter.
    let children_tab = &tabs[0];
    assert_eq!(children_tab.key, 'c');
    assert_eq!(children_tab.label, "children·2");
    assert_eq!(children_tab.rows[0].target, Some((ObjectKind::Prefix, 6)));
    assert_eq!(children_tab.rows[1].target, Some((ObjectKind::Prefix, 7)));

    // addresses tab: each IP opens that IP; the assignment trails the address.
    let addr_tab = &tabs[1];
    assert_eq!(addr_tab.key, 'a');
    assert_eq!(addr_tab.label, "addresses·1");
    assert_eq!(addr_tab.rows[0].target, Some((ObjectKind::IpAddress, 11)));
    assert!(addr_tab.rows[0].text.contains("10.0.0.1/24"));
    assert!(addr_tab.rows[0].text.contains("edge01"));
}

#[test]
fn device_ip_and_vlan_rows_are_navigable() {
    let ips = vec![
        IpRow {
            id: 11,
            address: "10.0.0.1/24".to_string(),
            interface: Some("eth0".to_string()),
        },
        IpRow {
            id: 12,
            address: "10.0.0.2/24".to_string(),
            interface: None,
        },
    ];
    let ip_rows = device_ip_rows(&ips);
    assert_eq!(ip_rows[0].target, Some((ObjectKind::IpAddress, 11)));
    assert!(ip_rows[0].text.contains("10.0.0.1/24"));
    assert!(ip_rows[0].text.contains("eth0"));
    assert_eq!(ip_rows[1].target, Some((ObjectKind::IpAddress, 12)));

    let vlans = vec![VlanRow {
        id: 20,
        vlan: "20 (prod)".to_string(),
    }];
    let vlan_rows = device_vlan_rows(&vlans);
    assert_eq!(vlan_rows[0].target, Some((ObjectKind::Vlan, 20)));
    assert!(vlan_rows[0].text.contains("20 (prod)"));
}

#[test]
fn device_interface_rows_open_the_interface() {
    let ifaces = vec![
        IfaceRow {
            id: 101,
            name: "xe-0/0/0".to_string(),
            enabled: Some(true),
            type_: Some("SFP+".to_string()),
            description: None,
        },
        IfaceRow {
            id: 102,
            name: "xe-0/0/1".to_string(),
            enabled: Some(false),
            type_: None,
            description: None,
        },
    ];
    let rows = device_interface_rows(&ifaces);
    // Each interface opens its own detail on Enter.
    assert_eq!(rows[0].target, Some((ObjectKind::Interface, 101)));
    assert!(rows[0].text.contains("xe-0/0/0"));
    assert!(rows[0].text.contains("SFP+"));
    // A disabled interface is marked, and still navigable.
    assert_eq!(rows[1].target, Some((ObjectKind::Interface, 102)));
    assert!(rows[1].text.contains("(disabled)"));
}

#[test]
fn device_cable_rows_open_the_local_interface() {
    let cables = vec![
        CableRow {
            id: 101,
            interface: "xe-0/0/0".to_string(),
            cable: Some("#3".to_string()),
            connected_to: vec!["core01 xe-1/0/0".to_string()],
        },
        CableRow {
            id: 103,
            interface: "xe-0/0/2".to_string(),
            cable: Some("#5".to_string()),
            connected_to: Vec::new(),
        },
    ];
    let rows = device_cable_rows(&cables);
    // A cable row opens the LOCAL interface's detail (where the trace lives).
    assert_eq!(rows[0].target, Some((ObjectKind::Interface, 101)));
    assert!(rows[0].text.contains("xe-0/0/0"));
    assert!(rows[0].text.contains("core01 xe-1/0/0"));
    // No far end → the cable label trails instead of a "->" connection.
    assert_eq!(rows[1].target, Some((ObjectKind::Interface, 103)));
    assert!(rows[1].text.contains("#5"));
}

#[test]
fn vlan_prefixes_tab_is_navigable() {
    let prefixes = vec![
        prefix(r#"{"id": 21, "url": "u", "prefix": "10.44.208.0/24"}"#),
        prefix(r#"{"id": 22, "url": "u", "prefix": "10.45.208.0/24"}"#),
    ];
    let tab = vlan_prefixes_tab(&prefixes);
    assert_eq!(tab.key, 'p');
    assert_eq!(tab.label, "prefixes·2");
    assert_eq!(tab.rows[0].target, Some((ObjectKind::Prefix, 21)));
    assert_eq!(tab.rows[1].target, Some((ObjectKind::Prefix, 22)));
    // Empty → one non-navigable placeholder row.
    let empty = vlan_prefixes_tab(&vec![]);
    assert_eq!(empty.label, "prefixes·0");
    assert_eq!(empty.rows.len(), 1);
    assert_eq!(empty.rows[0].target, None);
}

#[test]
fn site_and_rack_contained_rows_are_navigable() {
    let devices = vec![
        device(r#"{"id": 31, "url": "u", "name": "edge01", "custom_fields": {}}"#),
        device(r#"{"id": 32, "url": "u", "name": "edge02", "custom_fields": {}}"#),
    ];
    let drows = device_link_rows(&devices);
    assert_eq!(drows[0].target, Some((ObjectKind::Device, 31)));
    assert_eq!(drows[1].target, Some((ObjectKind::Device, 32)));
    assert!(drows[0].text.contains("edge01"));

    let racks = vec![rack(r#"{"id": 7, "url": "u", "name": "R12"}"#)];
    let rrows = rack_link_rows(&racks);
    assert_eq!(rrows[0].target, Some((ObjectKind::Rack, 7)));
    assert!(rrows[0].text.contains("R12"));

    // Empty → a single non-navigable placeholder row.
    assert_eq!(device_link_rows(&vec![])[0].target, None);
    assert_eq!(rack_link_rows(&vec![])[0].target, None);
}

#[test]
fn ip_links_navigate_to_parent_prefix() {
    let addr = ip(1, "10.0.0.5/24", None);
    let parent = prefix(r#"{"id": 42, "url": "u", "prefix": "10.0.0.0/24"}"#);
    let with_parent = ip_links(&addr, Some(&parent));
    assert!(
        with_parent.iter().any(|l| l.kind == ObjectKind::Prefix
            && l.id == 42
            && l.relation == "parent prefix"),
        "an IP links to its most-specific parent prefix"
    );
    // No parent resolved → no parent-prefix link.
    assert!(
        !ip_links(&addr, None)
            .iter()
            .any(|l| l.relation == "parent prefix")
    );
}

// ===== Resolution =====

#[test]
fn palette_ip_resolution_surfaces_ambiguity_not_first_candidate() {
    // Same address present in two VRFs (no scope to narrow it): ambiguous.
    let candidates = vec![
        ip(1, "10.0.0.1/24", Some("vrf-a")),
        ip(2, "10.0.0.1/24", Some("vrf-b")),
    ];
    let err = resolve_unique("IP address", "10.0.0.1", candidates, ip_scope_label, tui_not_found)
        .expect_err("overlapping IPs must be ambiguous, not silently the first");
    match err {
        NboxError::Ambiguous { noun, value, .. } => {
            assert_eq!(noun, "IP address");
            assert_eq!(value, "10.0.0.1");
        }
        other => panic!("expected Ambiguous, got {other:?}"),
    }
}

#[test]
fn palette_ip_resolution_unambiguous_resolves() {
    let candidates = vec![ip(7, "10.0.0.1/24", Some("vrf-a"))];
    let resolved =
        resolve_unique("IP address", "10.0.0.1", candidates, ip_scope_label, tui_not_found)
            .expect("a single candidate resolves");
    assert_eq!(resolved.id, 7);
}

#[test]
fn palette_ip_resolution_empty_is_not_found() {
    let err = resolve_unique(
        "IP address",
        "10.0.0.99",
        Vec::<IpAddress>::new(),
        ip_scope_label,
        tui_not_found,
    )
    .expect_err("no candidates → not found");
    assert!(matches!(&err, NboxError::NotFound(_)));
    assert_eq!(err.message(), "no IP address matched \"10.0.0.99\"");
}

#[test]
fn an_ambiguity_lists_at_most_eight_candidates() {
    let candidates: Vec<u64> = (1..=10).collect();
    let err = resolve_unique("thing", "x", candidates, |n: &u64| format!("n{n}"), tui_not_found)
        .unwrap_err();
    match err {
        NboxError::Ambiguous { matches, .. } => {
            assert_eq!(matches, "n1, n2, n3, n4, n5, n6, n7, n8");
        }
        other => panic!("{other:?}"),
    }
}

#[test]
fn an_exact_scope_wins_over_a_loose_one() {
    let kept = |names: &[Option<&str>], query: Option<&str>| {
        let items = names.iter().zip(1..).map(|(vrf, n)| ip(n, "a", *vrf)).collect();
        let found = retain_scope(items, query, ScopeField::Vrf);
        found.iter().map(|i| i.id).collect::<Vec<_>>()
    };
    let names = [Some("ci-site2"), Some("ci-site"), None];
    assert_eq!(kept(&names, Some("ci-site")), vec![2]);
    assert_eq!(kept(&names, Some("ci-sit")), vec![1, 2]);
    assert_eq!(kept(&names, Some("102")), vec![2], "by id");
    assert_eq!(kept(&names, None), vec![1, 2, 3]);
    assert!(kept(&names, Some("other")).is_empty());
    assert!(retain_scope(vec![ip(1, "a", None)], Some("x"), ScopeField::Site).is_empty());
}

#[test]
fn candidates_are_scoped_before_they_are_counted() {
    let two = || vec![ip(1, "10.0.0.1/24", Some("a")), ip(2, "10.0.0.1/24", Some("b"))];
    assert_eq!(resolve_ip("10.0.0.1", two(), Some("b"), tui_not_found).unwrap().id, 2);
    assert!(resolve_ip("10.0.0.1", two(), None, tui_not_found).is_err());
    match resolve_ip("10.0.0.1", two(), Some("c"), tui_not_found).unwrap_err() {
        NboxError::NotFound(m) => assert_eq!(m, "no IP address matched \"10.0.0.1\""),
        other => panic!("{other:?}"),
    }

    let p = |n: u64, vrf: &str| {
        prefix(&format!(
            "{{\"id\": {n}, \"url\": \"u\", \"prefix\": \"10.0.0.0/8\", \"vrf\": {{\"id\": 3, \"name\": \"{vrf}\"}}}}"
        ))
    };
    let one = resolve_prefix("10.0.0.0/8", vec![p(1, "a"), p(2, "b")], Some("a"), tui_not_found);
    assert_eq!(one.unwrap().id, 1);
    match resolve_prefix("10.0.0.0/8", vec![p(1, "a"), p(2, "b")], None, tui_not_found).unwrap_err() {
        NboxError::Ambiguous { noun, matches, .. } => {
            assert_eq!(noun, "prefix");
            assert_eq!(
                matches,
                format!("{}, {}", prefix_scope_label(&p(1, "a")), prefix_scope_label(&p(2, "b")))
            );
        }
        other => panic!("{other:?}"),
    }

    let v = |n: u64, site: &str| {
        vlan(&format!(
            "{{\"id\": {n}, \"url\": \"u\", \"vid\": 208, \"name\": \"users\", \"site\": {{\"id\": 3, \"name\": \"{site}\"}}}}"
        ))
    };
    let one = resolve_vlan("208", vec![v(1, "iad1"), v(2, "lax1")], Some("lax1"), None, tui_not_found);
    assert_eq!(one.unwrap().id, 2);
    match resolve_vlan("208", vec![v(1, "iad1"), v(2, "lax1")], None, None, tui_not_found).unwrap_err() {
        NboxError::Ambiguous { noun, matches, .. } => {
            assert_eq!(noun, "VLAN");
            assert_eq!(
                matches,
                format!("{}, {}", vlan_scope_label(&v(1, "iad1")), vlan_scope_label(&v(2, "lax1")))
            );
        }
        other => panic!("{other:?}"),
    }

    let m = |n: u64| {
        mac(&format!("{{\"id\": {n}, \"url\": \"u\", \"mac_address\": \"aa:bb:cc:dd:ee:ff\"}}"))
    };
    assert_eq!(resolve_mac("aabb", vec![m(4)], tui_not_found).unwrap().id, 4);
    assert!(matches!(
        resolve_mac("aabb", vec![m(4), m(5)], tui_not_found).unwrap_err(),
        NboxError::Ambiguous { .. }
    ));
}

#[test]
fn an_interface_reference_splits_at_its_first_slash() {
    let (device, name) = split_interface_ref("edge01/xe-0/0/1").unwrap();
    assert_eq!((device.as_str(), name.as_str()), ("edge01", "xe-0/0/1"));
    for bad in ["edge01", "/xe-0", "edge01/", ""] {
        let err = split_interface_ref(bad).unwrap_err();
        assert!(matches!(&err, NboxError::Usage(_)));
        assert_eq!(
            err.message(),
            format!(
                "interface reference must be `<device>/<name>` (e.g. edge01/xe-0/0/1) — interface names may contain slashes; the part after the device is the name verbatim. Got \"{bad}\"."
            )
        );
    }
}

#[test]
fn a_vlan_is_looked_up_by_number_when_its_reference_is_one() {
    assert_eq!(vlan_number("208"), Some(208));
    assert_eq!(vlan_number("+208"), Some(208));
    assert_eq!(vlan_number("65536"), None);
    assert_eq!(vlan_number("users"), None);
}

// ===== Requests =====

#[test]
fn requests_name_the_collection_and_the_object() {
    let device = object_request(ObjectKind::Device, 7);
    assert_eq!(device.path, "/api/dcim/devices/7/");
    assert!(device.exclude_config_context);
    let prefix = object_request(ObjectKind::Prefix, 12);
    assert_eq!(prefix.path, "/api/ipam/prefixes/12/");
    assert!(!prefix.exclude_config_context);
    assert_eq!(noun_of(ObjectKind::Device), "device");
}

#[test]
fn a_reference_is_looked_up_as_its_kind_wants() {
    assert!(matches!(lookup_for(ObjectKind::Device, "edge01", None), Ok(Lookup::Reference)));
    assert!(matches!(lookup_for(ObjectKind::IpAddress, "10.0.0.1", None), Ok(Lookup::Addresses)));
    assert!(matches!(lookup_for(ObjectKind::Asn, "64512", None), Ok(Lookup::AsNumber(64512))));
    assert!(matches!(lookup_for(ObjectKind::Asn, " AS64512 ", None), Ok(Lookup::AsNumber(64512))));
    assert_eq!(
        notes(&lookup_for(ObjectKind::Asn, "ASx", None).unwrap_err()),
        vec!["invalid AS number \"ASx\"", "invalid digit found in string"]
    );
    assert!(matches!(lookup_for(ObjectKind::Interface, "42", None), Ok(Lookup::InterfaceId(42))));
    assert!(lookup_for(ObjectKind::Interface, "xe-0", None).is_err());
    match lookup_for(ObjectKind::Mac, "AABB.CCDD.EEFF", Some("aa:bb:cc:dd:ee:ff".to_string())) {
        Ok(Lookup::MacAddresses(m)) => assert_eq!(m, "aa:bb:cc:dd:ee:ff"),
        other => panic!("{other:?}"),
    }
    assert!(lookup_for(ObjectKind::Mac, "nope", None).is_err());
    assert_eq!(found_or_note(ObjectKind::Device, "x", Some(5)).unwrap(), 5);
    assert_eq!(
        notes(&found_or_note::<u64>(ObjectKind::Device, "x", None).unwrap_err()),
        vec!["no device matched \"x\""]
    );
}

#[test]
fn what_follows_a_read_depends_on_the_object() {
    let address = Object::IpAddress(ip(1, "10.0.0.5/24", Some("blue")));
    match follow_up(1, &address) {
        FollowUp::Containing { host, vrf_id } => {
            assert_eq!(host, "10.0.0.5");
            assert_eq!(vrf_id, Some(101));
        }
        other => panic!("{other:?}"),
    }
    let p = prefix(r#"{"id": 2, "url": "u", "prefix": "10.0.0.0/16"}"#);
    match follow_up(2, &Object::Prefix(p)) {
        FollowUp::PrefixParts { cidr, vrf_id } => {
            assert_eq!(cidr, "10.0.0.0/16");
            assert_eq!(vrf_id, None);
        }
        other => panic!("{other:?}"),
    }
    assert!(matches!(
        follow_up(8, &Object::Device(device(r#"{"id": 9, "url": "u", "name": "edge01"}"#))),
        FollowUp::DeviceParts { id: 9 }
    ));
    assert!(matches!(
        follow_up(8, &Object::Site(site(r#"{"id": 9, "url": "u", "name": "nyc", "slug": "nyc"}"#))),
        FollowUp::SiteParts { id: 8 }
    ));
}

// ===== Screens =====

#[test]
fn detail_view_json_roundtrips_for_caching() {
    let view =
        DetailView::new(ObjectKind::Device, 7, "device edge01".into(), "summary".into())
            .with_tabs(vec![DetailTab {
                key: 'i',
                label: "interfaces".into(),
                body: "eth0".into(),
                rows: Vec::new(),
            }])
            .with_links(vec![ObjectLink {
                kind: ObjectKind::Site,
                id: 5,
                relation: "site".into(),
                label: "iad1".into(),
            }]);
    assert_eq!(view.kind, ObjectKind::Device);
    assert_eq!(view.id, 7);
    assert_eq!(view.title, "device edge01");
    assert_eq!(view.tabs.len(), 1);
    assert_eq!(view.tabs[0].key, 'i');
    assert_eq!(view.links[0].relation, "site");
    assert_eq!(view.links[0].kind, ObjectKind::Site);
}

#[test]
fn a_device_screen_has_a_tab_per_section() {
    let view = load_detail(
        1,
        Loaded::Device {
            device: device(
                r#"{"id": 1, "url": "u", "name": "edge01", "site": {"id": 5, "name": "iad1"}}"#,
            ),
            interfaces: vec![interface(
                r#"{"id": 2, "url": "u", "name": "xe-0/0/0", "untagged_vlan": {"id": 10, "display": "10 (mgmt)"}}"#,
            )],
            ips: vec![ip(11, "10.0.0.1/24", None)],
        },
    );
    assert_eq!(view.title, "device edge01");
    assert!(view.body.starts_with("name: edge01"));
    assert_eq!(targets(&view.links), vec![(ObjectKind::Site, 5, "site")]);
    let labels: Vec<&str> = view.tabs.iter().map(|t| t.label.as_str()).collect();
    assert_eq!(labels, vec!["Interfaces", "IP Addresses", "VLANs"]);
    assert_eq!(view.tabs[0].rows[0].target, Some((ObjectKind::Interface, 2)));
    assert_eq!(view.tabs[2].rows[0].target, Some((ObjectKind::Vlan, 10)));
}

#[test]
fn a_site_screen_reports_a_section_that_failed() {
    let view = load_detail(
        5,
        Loaded::Site {
            site: site(r#"{"id": 5, "url": "u", "name": "iad1", "slug": "iad1"}"#),
            devices: Err("HTTP 500".to_string()),
            racks: Ok(vec![rack(r#"{"id": 7, "url": "u", "name": "R12"}"#)]),
        },
    );
    assert_eq!(view.title, "site iad1");
    assert!(view.tabs[0].body.contains("HTTP 500"));
    assert!(view.tabs[0].rows.is_empty());
    assert_eq!(view.tabs[1].rows[0].target, Some((ObjectKind::Rack, 7)));
    assert!(site_racks_tab(&Err("down".to_string())).body.contains("down"));
}

#[test]
fn an_address_screen_links_its_most_specific_prefix() {
    let p = |n: u64, cidr: &str| {
        prefix(&format!("{{\"id\": {n}, \"url\": \"u\", \"prefix\": \"{cidr}\"}}"))
    };
    let view = load_detail(
        1,
        Loaded::IpAddress {
            ip: ip(1, "10.0.0.5/24", None),
            containing: vec![p(1, "10.0.0.0/8"), p(2, "10.0.0.0/24"), p(3, "10.0.0.0/16")],
        },
    );
    assert_eq!(targets(&view.links), vec![(ObjectKind::Prefix, 2, "parent prefix")]);
    assert!(view.body.contains("parent_prefix: 10.0.0.0/24"));
}

#[test]
fn each_device_is_linked_once() {
    let hop = |dev: u64| PathHop {
        to: format!("d{dev} p"),
        cable: None,
        endpoint: false,
        device: Some(DeviceRef { id: dev, name: format!("d{dev}") }),
    };
    let links = circuit_links(
        &circuit(r#"{"id": 3, "url": "u", "cid": "X"}"#),
        &vec![ResolvedTermination {
            termination: circuit_termination(r#"{"id": 10, "term_side": "A"}"#),
            path: vec![hop(9), hop(8), hop(9)],
        }],
    );
    assert_eq!(links.iter().map(|l| l.id).collect::<Vec<_>>(), vec![9, 8]);
}

#[test]
fn interfaces_and_vlans_link_what_they_belong_to() {
    let i = interface(
        r#"{"id": 2, "url": "u", "name": "xe-0/0/0", "device": {"id": 1, "name": "edge01"}}"#,
    );
    assert_eq!(kinds(&interface_links(&i)), vec![(ObjectKind::Device, "device")]);
    let v = vlan(
        r#"{"id": 3, "url": "u", "vid": 208, "name": "users", "site": {"id": 5, "name": "iad1"}}"#,
    );
    assert!(kinds(&vlan_links(&v)).contains(&(ObjectKind::Site, "site")));
}

// ===== Routing =====

fn node(n: u64, cidr: &str, depth: u64, status: &str, description: &str) -> PrefixNode {
    PrefixNode {
        id: n,
        prefix: cidr.to_string(),
        depth,
        status: Some(status.to_string()),
        description: description.to_string(),
        utilization: None,
    }
}

fn customer_prod() -> Vrf {
    vrf(r#"{
        "id": 42, "url": "http://nb/api/ipam/vrfs/42/",
        "name": "customer-prod", "rd": "65000:42",
        "tenant": {"id": 1, "display": "Acme"},
        "prefix_count": 2,
        "ipaddress_count": 1
    }"#)
}

fn customer_nodes() -> Vec<PrefixNode> {
    vec![
        node(1, "10.50.0.0/16", 0, "container", "supernet"),
        node(2, "10.50.1.0/24", 1, "active", ""),
    ]
}

fn customer_ips() -> Vec<IpAddress> {
    vec![ip_address(
        r#"{
            "id": 9, "url": "u", "address": "10.50.1.1/24",
            "status": {"value": "active", "label": "active"},
            "dns_name": "gw.customer",
            "description": ""
        }"#,
    )]
}

#[test]
fn a_vrf_detail_shows_its_tree_and_addresses() {
    let detail = build_vrf_detail(customer_prod(), 2, customer_nodes(), customer_ips());
    assert_eq!(detail.summary.name, "customer-prod");
    assert_eq!(detail.prefixes.len(), 2);
    assert_eq!(detail.addresses.len(), 1);
    assert_eq!((detail.prefix_total, detail.address_total), (2, 1));
    let plain = detail.to_plain();
    assert!(plain.contains("10.50.1.0/24"), "{plain}");
    assert!(plain.contains("gw.customer"), "{plain}");
    let view = vrf_detail_view(vec![], detail);
    assert_eq!(view.kind, ObjectKind::Vrf);
    assert_eq!(view.id, 42);
}

fn vrf_ref(n: u64, name: &str, rd: Option<&str>) -> VrfRef {
    VrfRef { id: n, name: name.to_string(), rd: rd.map(str::to_string) }
}

fn rt() -> RouteTarget {
    route_target(
        r#"{"id": 5, "url": "http://nb/api/ipam/route-targets/5/", "name": "65000:100", "tenant": {"id": 1, "display": "Acme"}}"#,
    )
}

#[test]
fn graphql_bundle_assembles_route_target_detail() {
    let detail = build_route_target_detail(
        rt(),
        vec![vrf_ref(1, "customer-prod", Some("65000:100")), vrf_ref(2, "customer-dev", None)],
        vec![vrf_ref(1, "customer-prod", Some("65000:100"))],
    );
    assert_eq!(detail.summary.name, "65000:100");
    assert_eq!(detail.summary.tenant.as_deref(), Some("Acme"));
    // Sorted by (name, rd): customer-dev before customer-prod.
    assert_eq!(
        detail.importing_vrfs.iter().map(|v| v.name.as_str()).collect::<Vec<_>>(),
        vec!["customer-dev", "customer-prod"]
    );
    assert_eq!(detail.exporting_vrfs.len(), 1);
    assert_eq!(detail.exporting_vrfs[0].id, 1);
}

#[test]
fn rest_and_graphql_detail_are_byte_identical() {
    // The two sources list the same relations in different orders.
    let prod = || vrf_ref(1, "customer-prod", Some("65000:100"));
    let dev = || vrf_ref(2, "customer-dev", None);
    let rest = build_route_target_detail(rt(), vec![dev(), prod()], vec![prod()]);
    let graphql = build_route_target_detail(rt(), vec![prod(), dev()], vec![prod()]);
    assert_eq!(rest.to_plain(), graphql.to_plain());
    let rest = route_target_detail_view(vec![], rest);
    let graphql = route_target_detail_view(vec![], graphql);
    assert_eq!(format!("{rest:?}"), format!("{graphql:?}"));
}

#[test]
fn detail_runtime_graphql_bundle_failure_retries_rest() {
    assert!(matches!(first_source(true), ChildrenSource::Graphql));
    match after_graphql_error("maximum query depth exceeded".to_string()) {
        ChildrenSource::Rest { graphql_error: Some(e) } => {
            assert!(fallback_note("VRF", &e).contains("maximum query depth exceeded"));
        }
        _ => panic!("a failed bundle falls back to REST"),
    }
}

#[test]
fn detail_graphql_preference_without_support_falls_back_to_rest() {
    assert!(matches!(first_source(false), ChildrenSource::Rest { graphql_error: None }));
}

#[test]
fn containers_come_before_what_they_hold() {
    let v4 = |a: u32, b: u32, c: u32, d: u32| ParsedAddress::V4((a << 24) | (b << 16) | (c << 8) | d);
    let placed = |n: u64, cidr: &str, address: ParsedAddress| PlacedPrefix {
        key: prefix_sort_key(cidr, address),
        prefix: prefix(&format!("{{\"id\": {n}, \"url\": \"u\", \"prefix\": \"{cidr}\"}}")),
    };
    let sorted = sort_prefixes(vec![
        placed(1, "10.0.0.0/24", v4(10, 0, 0, 0)),
        placed(2, "2001:db8::/32", ParsedAddress::V6(0x2001_0db8 << 96)),
        placed(3, "10.0.0.0/8", v4(10, 0, 0, 0)),
        placed(4, "9.0.0.0/8", v4(9, 0, 0, 0)),
    ]);
    assert_eq!(sorted.iter().map(|p| p.prefix.id).collect::<Vec<_>>(), vec![4, 3, 1, 2]);
    assert_eq!(address_part("10.0.0.0/24"), "10.0.0.0");
    assert_eq!(address_part("10.0.0.0"), "10.0.0.0");
}

// ===== Cable walks =====

fn peer(url: &str, n: u64, device: u64) -> String {
    format!(
        "{{\"id\": {n}, \"url\": \"{url}\", \"display\": \"port{n}\", \"name\": \"port{n}\", \"device\": {{\"id\": {device}, \"name\": \"dev{device}\"}}}}"
    )
}

fn terminated(url: &str, n: u64) -> CircuitTermination {
    circuit_termination(&format!(
        "{{\"id\": 10, \"term_side\": \"A\", \"cable\": {{\"id\": 100, \"display\": \"#100\"}}, \"link_peers\": [{}]}}",
        peer(url, n, 9)
    ))
}

fn hop_to(url: &str, n: u64) -> Option<NextHop> {
    next_hop_from_peer(&json(&parse(&peer(url, n, n))), Some(format!("#{n}")))
}

#[test]
fn a_port_is_known_by_its_address() {
    assert_eq!(port_kind(Some("http://nb/api/dcim/interfaces/1/")), PortKind::Interface);
    assert_eq!(port_kind(Some("http://nb/api/dcim/front-ports/1/")), PortKind::FrontPort);
    assert_eq!(port_kind(Some("http://nb/api/dcim/rear-ports/1/")), PortKind::RearPort);
    assert_eq!(port_kind(Some("http://nb/api/circuits/1/")), PortKind::Other);
    assert_eq!(port_kind(None), PortKind::Other);
}

#[test]
fn a_walk_that_starts_at_an_interface_is_done() {
    match start_walk(&terminated("u/interfaces/7/", 7)) {
        WalkStep::Done(hops) => {
            assert_eq!(hops.len(), 1);
            assert!(hops[0].endpoint);
            assert_eq!(hops[0].cable.as_deref(), Some("#100"));
            assert_eq!(hops[0].device.as_ref().unwrap().id, 9);
        }
        other => panic!("{other:?}"),
    }
    let bare = circuit_termination(r#"{"id": 10, "term_side": "A"}"#);
    assert!(matches!(start_walk(&bare), WalkStep::Done(hops) if hops.is_empty()));
}

#[test]
fn a_walk_crosses_panels_and_reads_device_first() {
    let walk = match start_walk(&terminated("u/rear-ports/7/", 7)) {
        WalkStep::ReadFronts { walk, device_id, rear_id } => {
            assert_eq!((device_id, rear_id), (9, 7));
            walk
        }
        other => panic!("{other:?}"),
    };
    let walk = match continue_walk(walk, hop_to("u/front-ports/8/", 8)) {
        WalkStep::ReadFront { walk, front_id } => {
            assert_eq!(front_id, 8);
            walk
        }
        other => panic!("{other:?}"),
    };
    match continue_walk(walk, hop_to("u/interfaces/5/", 5)) {
        WalkStep::Done(hops) => {
            let ends: Vec<&str> = hops.iter().map(|h| h.to.as_str()).collect();
            assert_eq!(ends, vec!["dev5 port5", "dev8 port8", "dev9 port7"]);
            assert!(hops[0].endpoint);
        }
        other => panic!("{other:?}"),
    }
}

#[test]
fn a_walk_stops_at_a_dead_end_a_cycle_or_the_cap() {
    let first = || match start_walk(&terminated("u/rear-ports/7/", 7)) {
        WalkStep::ReadFronts { walk, .. } => walk,
        other => panic!("{other:?}"),
    };
    assert!(matches!(continue_walk(first(), None), WalkStep::Done(hops) if hops.len() == 1));
    // The same port again.
    assert!(matches!(
        continue_walk(first(), hop_to("u/rear-ports/7/", 7)),
        WalkStep::Done(hops) if hops.len() == 2
    ));
    let mut walk = first();
    for n in 8..20 {
        match continue_walk(walk, hop_to(&format!("u/rear-ports/{n}/"), n)) {
            WalkStep::ReadFronts { walk: next, .. } => walk = next,
            WalkStep::Done(hops) => {
                assert_eq!(hops.len(), 5);
                return;
            }
            other => panic!("{other:?}"),
        }
    }
    panic!("the walk has to end");
}

#[test]
fn panels_pair_their_faces() {
    let fronts = |text: &str| vec![json(&parse(text))];
    let plain = r##"{"id": 1, "rear_port": {"id": 7}, "cable": {"id": 4, "display": "#4"},
        "link_peers": [{"id": 5, "url": "u/interfaces/5/", "name": "xe-0", "device": {"id": 3, "name": "edge"}}]}"##;
    let next = front_for_rear(&fronts(plain), 7).unwrap();
    assert_eq!(next.to, "edge xe-0");
    assert_eq!(next.cable.as_deref(), Some("#4"));
    assert_eq!(next.kind, PortKind::Interface);
    assert!(front_for_rear(&fronts(plain), 8).is_none());
    let listed = r#"{"rear_ports": [{"rear_port": 7, "position": 1}, {"rear_port": {"id": 8}}]}"#;
    assert_eq!(rear_for_front(&json(&parse(listed))), Some(7));
    assert_eq!(rear_for_front(&json(&parse("{}"))), None);
    assert_eq!(across(&json(&parse(plain))).unwrap().id, 5);
    assert!(across(&json(&parse("{}"))).is_none());
    assert_eq!(cable_label_value(&json(&parse(r#"{"id": 4, "label": "x"}"#))).as_deref(), Some("x"));
    assert_eq!(cable_label_value(&json(&parse(r#"{"id": 4, "display": ""}"#))).as_deref(), Some("#4"));
}

// ===== Writes =====

fn xe() -> Interface {
    interface(
        r#"{"id": 42, "url": "u", "name": "xe-0/0/1", "description": "old", "last_updated": "2026-06-26T10:00:00Z"}"#,
    )
}

fn planned(new: &str, etag: Option<&str>, message: Option<&str>) -> MutationPlan {
    plan_interface_description_update(
        "edge01",
        "xe-0/0/1",
        new,
        changelog_message(message, 200).unwrap(),
        "default",
        42,
        &xe(),
        etag.map(str::to_string),
        "hash".to_string(),
    )
    .seal("token".to_string(), "later".to_string())
}

fn patch_of(plan: &MutationPlan) -> Vec<(&str, &str)> {
    plan.patch
        .iter()
        .map(|p| match &p.value {
            FieldValue::Text(t) => (p.field.as_str(), t.as_str()),
            other => panic!("{other:?}"),
        })
        .collect()
}

#[test]
fn plan_uses_etag_precondition_when_present() {
    let plan = planned("new", Some("\"v1\""), None);
    assert!(matches!(&plan.precondition, Precondition::Etag { etag } if etag == "\"v1\""));
    // Minimal patch — only the scoped field, never the full object.
    assert_eq!(patch_of(&plan), vec![("description", "new")]);
    assert!(!plan.no_op);
    assert_eq!(plan.operation, Operation::Update);
    assert_eq!(plan.target.endpoint, "/api/dcim/interfaces/42/");
    assert_eq!(plan.target.reference, "edge01/xe-0/0/1");
}

#[test]
fn plan_uses_last_updated_precondition_when_no_etag() {
    let plan = planned("new", None, None);
    match &plan.precondition {
        Precondition::LastUpdated { last_updated, before_hash } => {
            assert_eq!(last_updated.as_deref(), Some("2026-06-26T10:00:00Z"));
            assert_eq!(before_hash, "hash");
        }
        other => panic!("{other:?}"),
    }
}

#[test]
fn plan_detects_noop_when_value_unchanged() {
    let plan = planned("old", None, None);
    assert!(plan.no_op);
    assert!(plan.patch.is_empty());
    match start_update(&plan, "an update") {
        ApplyStep::Nothing(receipt) => {
            assert!(receipt.no_op && !receipt.applied);
            assert_eq!(receipt.message, "no change: current value already matches");
        }
        _ => panic!("nothing is sent"),
    }
}

#[test]
fn apply_sends_patch_and_returns_receipt() {
    let plan = planned("new", Some("\"v1\""), Some("ticket 7"));
    match start_update(&plan, "an update") {
        ApplyStep::Send { endpoint, body, if_match } => {
            assert_eq!(endpoint, "/api/dcim/interfaces/42/");
            assert_eq!(if_match, "\"v1\"");
            let fields: Vec<&str> = body.iter().map(|e| e.field.as_str()).collect();
            assert_eq!(fields, vec!["description", "changelog_message"]);
        }
        _ => panic!("a plan with a tag is sent at once"),
    }
    let receipt = finish_update(&plan, Some("\"v2\"".to_string()), 200);
    assert!(receipt.applied);
    assert!(!receipt.no_op);
    assert_eq!(receipt.status, 200);
    assert!(receipt.message.starts_with("applied: interface"));
    assert_eq!(receipt.message, "applied: interface edge01/xe-0/0/1 (description)");
}

#[test]
fn apply_pre46_refuses_when_last_updated_changed_between_plan_and_apply() {
    let plan = planned("new", None, None);
    match start_update(&plan, "an update") {
        ApplyStep::Reread { endpoint } => assert_eq!(endpoint, "/api/dcim/interfaces/42/"),
        _ => panic!("the object is read again first"),
    }
    let same = Some("2026-06-26T10:00:00Z".to_string());
    let moved = Some("2026-06-26T11:00:00Z".to_string());
    assert!(matches!(
        check_reread(&plan, &moved, "hash").unwrap_err(),
        NboxError::StalePrecondition(_)
    ));
    assert!(matches!(
        check_reread(&plan, &same, "other").unwrap_err(),
        NboxError::StalePrecondition(_)
    ));
    assert_eq!(check_reread(&plan, &same, "hash").unwrap().len(), 1);
}

#[test]
fn an_update_without_a_precondition_is_refused() {
    let mut plan = planned("new", None, None);
    plan.precondition = Precondition::Absent;
    match start_update(&plan, "an update") {
        ApplyStep::Refuse(ErrorLink::Note(m)) => {
            assert_eq!(m, "internal error: an update plan carried a None precondition");
        }
        _ => panic!("it is refused"),
    }
}

fn no_message() -> ChangelogMessage {
    changelog_message(None, 200).unwrap()
}

fn statuses() -> Vec<Choice> {
    vec![
        Choice { value: "active".to_string(), label: "Active".to_string() },
        Choice { value: "offline".to_string(), label: "Offline now".to_string() },
    ]
}

#[test]
fn a_status_update_changes_the_status_alone() {
    let d = device(
        r#"{"id": 7, "url": "u", "name": "edge01", "status": {"value": "active", "label": "Active"}}"#,
    );
    let plan = |input: &str| {
        plan_device_status_update(
            "edge01",
            &choose_status(&statuses(), input).unwrap(),
            no_message(),
            "default",
            7,
            &d,
            Some("v1".to_string()),
            "hash".to_string(),
        )
        .seal("t".to_string(), "e".to_string())
    };
    assert_eq!(patch_of(&plan("Offline NOW")), vec![("status", "offline")]);
    assert!(plan("active").no_op);
    assert_eq!(plan("offline").target.display, "edge01");
}

#[test]
fn a_status_that_is_not_offered_is_refused() {
    let err = choose_status(&statuses(), "gone").unwrap_err();
    assert_eq!(err.message(), "invalid status \"gone\" — allowed values: active, offline");
    let err = choose_status(&vec![], "active").unwrap_err();
    assert!(matches!(&err, NboxError::Usage(_)));
    assert_eq!(
        err.message(),
        "could not enumerate allowed values for device status from NetBox OPTIONS; refusing to send an unvalidated write"
    );
}

fn tagged(slugs: &[&str]) -> TagTargetObject {
    TagTargetObject {
        display: None,
        last_updated: None,
        tags: slugs
            .iter()
            .map(|s| ObjectTag { id: None, name: None, slug: Some(s.to_string()) })
            .collect(),
    }
}

fn tag_plan(operation: TagOperation, slugs: &[&str], tag: &str) -> MutationPlan {
    plan_tag_update(
        operation,
        "device",
        "edge01",
        tag,
        no_message(),
        "default",
        "/api/dcim/devices/7/",
        7,
        &tagged(slugs),
        Some("v1".to_string()),
        "hash".to_string(),
    )
    .seal("t".to_string(), "e".to_string())
}

fn tags_of(plan: &MutationPlan) -> Vec<String> {
    match &plan.patch[0].value {
        FieldValue::Texts(all) => all.iter().map(|s| s.to_string()).collect(),
        other => panic!("{other:?}"),
    }
}

#[test]
fn a_tag_write_replaces_the_list() {
    let add = tag_plan(TagOperation::Add, &["a", "b"], "c");
    assert_eq!(tags_of(&add), vec!["a", "b", "c"]);
    assert!(tag_plan(TagOperation::Add, &["a", "b"], "b").no_op);
    let remove = tag_plan(TagOperation::Remove, &["a", "b", "c"], "c");
    assert_eq!(tags_of(&remove), vec!["a", "b"]);
    assert!(tag_plan(TagOperation::Remove, &["a"], "z").patch.is_empty());
    assert_eq!(add.target.display, "edge01");
    assert_eq!(add.changed_field_names(), vec!["tags"]);
}

#[test]
fn a_reservation_carries_only_what_was_asked_for() {
    let parent = prefix(r#"{"id": 2, "url": "u", "prefix": "10.0.0.0/24"}"#);
    let plan = plan_ip_reserve(
        "10.0.0.0/24",
        Some("printer"),
        Some(""),
        no_message(),
        "default",
        &parent,
        &NextFree::Next("10.0.0.7/24".to_string()),
    )
    .seal("t".to_string(), "e".to_string());
    assert_eq!(plan.operation, Operation::Allocate);
    assert_eq!(plan.target.endpoint, "/api/ipam/prefixes/2/available-ips/");
    assert_eq!(patch_of(&plan), vec![("description", "printer")]);
    assert_eq!(
        plan.warnings,
        vec!["currently next: 10.0.0.7/24 — NetBox allocates at apply; the applied address may differ"]
    );
    assert!(matches!(plan.precondition, Precondition::Absent));
    let receipt = finish_reserve(&plan, "10.0.0.7/24", 201, None);
    assert_eq!(receipt.message, "reserved: 10.0.0.7/24 in 10.0.0.0/24");
    assert_eq!(wire_body(&plan).len(), 1);

    let range = ip_range(
        r#"{"id": 4, "url": "u", "start_address": "10.0.0.10/24", "end_address": "10.0.0.20/24"}"#,
    );
    let plan = plan_ip_range_reserve("4", None, None, no_message(), "default", &range, &NextFree::Full)
        .seal("t".to_string(), "e".to_string());
    assert_eq!(plan.target.endpoint, "/api/ipam/ip-ranges/4/available-ips/");
    assert_eq!(plan.target.display, "10.0.0.10/24 – 10.0.0.20/24");
    assert!(plan.patch.is_empty() && !plan.no_op);
}

#[test]
fn a_block_reservation_names_the_first_block_that_fits() {
    let parent = prefix(r#"{"id": 2, "url": "u", "prefix": "10.0.0.0/16"}"#);
    let blocks = vec!["10.0.0.0/26".to_string(), "10.0.1.0/24".to_string()];
    let plan = |length: Option<u8>, blocks: Option<&Vec<String>>| {
        plan_prefix_reserve("10.0.0.0/16", length, None, no_message(), "default", &parent, blocks)
            .seal("t".to_string(), "e".to_string())
            .warnings
            .remove(0)
    };
    assert_eq!(
        plan(Some(25), Some(&blocks)),
        "currently next: 10.0.1.0/24 — NetBox allocates at apply; the applied prefix may differ"
    );
    assert_eq!(
        plan(None, Some(&blocks)),
        "currently next: 10.0.0.0/26 — NetBox allocates at apply; the applied prefix may differ"
    );
    assert_eq!(
        plan(Some(20), Some(&blocks)),
        "no available block of length /20 in this prefix — the reserve will fail at apply"
    );
    assert_eq!(
        plan(Some(20), Some(&vec![])),
        "no available prefixes in this prefix — the reserve will fail at apply"
    );
    assert_eq!(plan(None, None), "could not read the next available prefix (advisory only)");
    assert!(prefix_satisfies_length("10.0.0.0/26", 28));
    assert!(!prefix_satisfies_length("10.0.0.0/26", 24));
    assert!(!prefix_satisfies_length("10.0.0.0", 24));
    assert!(!prefix_satisfies_length("10.0.0.0/999", 24));
}

#[test]
fn a_choice_is_found_by_value_or_label() {
    let choices = vec![
        Choice { value: "active".to_string(), label: "Active".to_string() },
        Choice { value: "offline".to_string(), label: "Offline now".to_string() },
    ];
    assert_eq!(resolve_choice(&choices, "status", "active").unwrap(), "active");
    assert_eq!(resolve_choice(&choices, "status", "offline NOW").unwrap(), "offline");
    let err = resolve_choice(&choices, "status", "gone").unwrap_err();
    assert!(matches!(&err, NboxError::Usage(_)));
    assert!(err.message().contains("gone"));
    assert!(err.message().contains("active"));
}

#[test]
fn a_changelog_message_has_a_limit() {
    let text = |m: Option<&str>| changelog_message(m, 200).unwrap().into_text();
    assert_eq!(text(Some("ok")).as_deref(), Some("ok"));
    assert_eq!(text(Some("")), None);
    assert_eq!(text(None), None);
    assert!(matches!(changelog_message(Some("four"), 3).unwrap_err(), NboxError::Usage(_)));
    assert!(changelog_message(Some("four"), 4).is_ok());
}

// ===== Write targets =====

#[test]
fn a_write_target_is_read_off_the_object_address() {
    let (endpoint, n) =
        resolve_tag_target_endpoint("http://h/", "http://h/api/dcim/devices/42/").unwrap();
    assert_eq!((endpoint.as_str(), n), ("/api/dcim/devices/42/", 42));
    let (endpoint, n) =
        resolve_tag_target_endpoint("http://h/netbox/", "http://h/netbox/api/dcim/devices/42/")
            .unwrap();
    assert_eq!((endpoint.as_str(), n), ("/api/dcim/devices/42/", 42));
    let err = resolve_tag_target_endpoint("http://h/", "no url").unwrap_err();
    assert_eq!(
        notes(&err),
        vec!["parsing resolved object URL", "relative URL without a base"]
    );
    assert!(resolve_tag_target_endpoint("http://h/", "http://other/api/dcim/devices/42/").is_err());
    assert!(resolve_tag_target_endpoint("http://h/", "http://h/api/dcim/devices/x/").is_err());
    assert!(names_an_address("ip") && names_an_address("address") && !names_an_address("device"));
}

#[test]
fn the_parts_of_a_write_target_are_all_needed() {
    assert_eq!(endpoint_from_relative("./api/x/"), "/api/x/");
    assert_eq!(endpoint_from_relative("//api/x/"), "/api/x/");
    assert_eq!(endpoint_from_relative("api/x/"), "/api/x/");
    assert_eq!(id_from_path("/api/dcim/devices/42/"), Some(42));
    assert_eq!(id_from_path("/api/dcim/devices/"), None);
    let path = || Ok("/api/dcim/devices/42/".to_string());
    assert_eq!(
        target_from_parts(path(), Some("api/dcim/devices/42/".to_string())).unwrap(),
        ("/api/dcim/devices/42/".to_string(), 42)
    );
    let err = target_from_parts(Err("bad".to_string()), Some("api/".to_string())).unwrap_err();
    assert_eq!(notes(&err), vec!["parsing resolved object URL", "bad"]);
    let err = target_from_parts(path(), None).unwrap_err();
    assert_eq!(notes(&err), vec!["stripping base URL from resolved object URL"]);
    let err = target_from_parts(Ok("/api/x/".to_string()), Some("api/x/".to_string())).unwrap_err();
    assert_eq!(notes(&err), vec!["extracting object id from resolved URL"]);
}

// ===== Steps =====

#[test]
fn a_detail_is_loaded_step_by_step() {
    assert!(matches!(
        load_detail_by_ref(ObjectKind::IpAddress, "10.0.0.5", None),
        DetailStep::Find(Lookup::Addresses)
    ));
    let found = vec![ip(1, "10.0.0.5/24", None)];
    let object = match take_answer(ObjectKind::IpAddress, "10.0.0.5", Answer::Addresses(found)) {
        DetailStep::Read { id: 1, object, wants: FollowUp::Containing { host, vrf_id: None } } => {
            assert_eq!(host, "10.0.0.5");
            object
        }
        other => panic!("{other:?}"),
    };
    // Parts that were not asked for are not shown.
    let object = match take_parts(1, object, Parts::Circuit(vec![])) {
        DetailStep::Read { object, .. } => object,
        other => panic!("{other:?}"),
    };
    let parent = prefix(r#"{"id": 2, "url": "u", "prefix": "10.0.0.0/24"}"#);
    match take_parts(1, object, Parts::Containing(vec![parent])) {
        DetailStep::Show(view) => {
            assert_eq!((view.kind, view.id), (ObjectKind::IpAddress, 1));
            assert_eq!(view.title, "ip 10.0.0.5/24");
        }
        other => panic!("{other:?}"),
    }
}

#[test]
fn a_detail_asked_for_by_id_keeps_that_id() {
    let s = Object::Site(site(r#"{"id": 9, "url": "u", "name": "nyc", "slug": "nyc"}"#));
    let object = match take_parts(8, s, Parts::Nothing) {
        DetailStep::Read { id: 8, object, wants: FollowUp::SiteParts { id: 8 } } => object,
        other => panic!("{other:?}"),
    };
    match take_parts(8, object, Parts::Site { devices: Ok(vec![]), racks: Ok(vec![]) }) {
        DetailStep::Show(view) => {
            assert_eq!((view.kind, view.id), (ObjectKind::Site, 8));
            assert_eq!(view.title, "site nyc");
        }
        other => panic!("{other:?}"),
    }
    let m = mac(r#"{"id": 4, "url": "u", "mac_address": "aa:bb:cc:dd:ee:ff"}"#);
    let answer = Answer::UnderId { id: 3, object: Object::Mac(m) };
    match take_answer(ObjectKind::Mac, "3", answer) {
        DetailStep::Show(view) => assert_eq!(view.id, 3),
        other => panic!("{other:?}"),
    }
}

#[test]
fn an_object_without_parts_is_shown_at_once() {
    let m = mac(r#"{"id": 4, "url": "u", "mac_address": "aa:bb:cc:dd:ee:ff"}"#);
    match take_answer(ObjectKind::Mac, "aabb", Answer::Macs(vec![m])) {
        DetailStep::Show(view) => assert_eq!(view.title, "mac aa:bb:cc:dd:ee:ff"),
        other => panic!("{other:?}"),
    }
}

#[test]
fn a_lookup_that_names_no_object_fails() {
    match take_answer(ObjectKind::Vlan, "users", Answer::Object(None)) {
        DetailStep::Fail(e) => assert_eq!(notes(&e), vec!["no VLAN matched \"users\""]),
        other => panic!("{other:?}"),
    }
    match take_answer(ObjectKind::IpAddress, "10.0.0.9", Answer::Addresses(vec![])) {
        DetailStep::Fail(e) => match bare(e) {
            NboxError::NotFound(m) => assert_eq!(m, "no IP address matched \"10.0.0.9\""),
            other => panic!("{other:?}"),
        },
        other => panic!("{other:?}"),
    }
    let two = vec![ip(1, "10.0.0.1/24", Some("a")), ip(2, "10.0.0.1/24", None)];
    match take_answer(ObjectKind::IpAddress, "10.0.0.1", Answer::Addresses(two)) {
        DetailStep::Fail(e) => match bare(e) {
            NboxError::Ambiguous { matches, .. } => {
                assert_eq!(matches, "10.0.0.1/24 (a), 10.0.0.1/24 (global)");
            }
            other => panic!("{other:?}"),
        },
        other => panic!("{other:?}"),
    }
    match load_detail_by_ref(ObjectKind::Mac, "nope", None) {
        DetailStep::Fail(e) => assert!(matches!(bare(e), NboxError::NotFound(_))),
        other => panic!("{other:?}"),
    }
}
