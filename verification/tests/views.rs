//! The views: what a model flattens to and how it is rendered.

use nbox::domain::aggregate_view::AggregateView;
use nbox::domain::asn_view::AsnView;
use nbox::domain::circuit_view::{CircuitView, PathHop, ResolvedTermination};
use nbox::domain::cluster_view::ClusterView;
use nbox::domain::contact_view::ContactView;
use nbox::domain::custom::{display, fields};
use nbox::domain::device_detail::DeviceDetail;
use nbox::domain::device_view::DeviceView;
use nbox::domain::history_view::HistoryView;
use nbox::domain::interface_view::InterfaceView;
use nbox::domain::ip_range_view::IpRangeView;
use nbox::domain::ip_view::{assigned_label, most_specific, IpView};
use nbox::domain::journal_view::JournalView;
use nbox::domain::mac_view::MacView;
use nbox::domain::prefix_view::PrefixView;
use nbox::domain::provider_view::ProviderView;
use nbox::domain::rack_group_view::RackGroupView;
use nbox::domain::rack_view::RackView;
use nbox::domain::route_target_view::{RouteTargetDetail, RouteTargetView, VrfRef};
use nbox::domain::site_view::SiteView;
use nbox::domain::tag_view::TagsView;
use nbox::domain::tagged_view::{kind_label, ResolvedTag, TaggedObjectView};
use nbox::domain::tenant_view::TenantView;
use nbox::domain::util::{non_empty, non_zero};
use nbox::domain::virtual_circuit_view::VirtualCircuitView;
use nbox::domain::vlan_view::VlanView;
use nbox::domain::vm_type_view::VirtualMachineTypeView;
use nbox::domain::vm_view::VmView;
use nbox::domain::vrf_view::VrfView;
use nbox::json::{Json, JsonNumber, Member};
use nbox::netbox::models::{
    Aggregate, Asn, BriefObject, Choice, Circuit, CircuitTermination, Cluster, Contact, Device,
    Interface, IpAddress, IpRange, JournalEntry, MacAddress, ObjectChange, Payload, Prefix,
    Provider, ProviderAccount, ProviderAsn, Rack, RackGroup, RouteTarget, Site, Tag, TagInfo,
    TaggedObject, Tenant, Utilization, VirtualCircuit, VirtualCircuitTermination, VirtualMachine,
    VirtualMachineType, Vlan, VlanGroup, Vrf,
};
use nbox::rate::humanize_kbps;
use serde_json::Value;

fn parse(text: &str) -> Value {
    serde_json::from_str(text).unwrap()
}

fn json(v: &Value) -> Json {
    match v {
        Value::Null => Json::Null,
        Value::Bool(b) => Json::Bool(*b),
        Value::Number(n) => Json::Number(JsonNumber {
            text: n.to_string(),
            decimal: format!("{}", n.as_f64().unwrap()),
        }),
        Value::String(s) => Json::Text(s.clone()),
        Value::Array(items) => Json::Array {
            items: items.iter().map(json).collect(),
            raw: v.clone(),
        },
        Value::Object(members) => Json::Object {
            members: members
                .iter()
                .map(|(name, value)| Member { name: name.clone(), value: json(value) })
                .collect(),
            raw: v.clone(),
        },
    }
}

fn opt(v: &Value, key: &str) -> Option<Json> {
    v.get(key).filter(|x| !x.is_null()).map(json)
}

fn text(v: &Value, key: &str) -> Option<String> {
    v.get(key).and_then(Value::as_str).map(str::to_string)
}

fn must(v: &Value, key: &str) -> String {
    text(v, key).unwrap()
}

fn count(v: &Value, key: &str) -> Option<u64> {
    v.get(key).and_then(Value::as_u64)
}

fn flag(v: &Value, key: &str) -> Option<bool> {
    v.get(key).and_then(Value::as_bool)
}

fn small(v: &Value, key: &str) -> Option<u32> {
    count(v, key).map(|n| n as u32)
}

fn id(v: &Value) -> u64 {
    count(v, "id").unwrap()
}

fn as_brief(v: &Value) -> BriefObject {
    BriefObject {
        id: id(v),
        url: text(v, "url"),
        display: text(v, "display"),
        name: text(v, "name"),
        slug: text(v, "slug"),
        rd: text(v, "rd"),
        device: brief(v, "device").map(Box::new),
    }
}

fn brief(v: &Value, key: &str) -> Option<BriefObject> {
    v.get(key).filter(|x| x.is_object()).map(as_brief)
}

fn briefs(v: &Value, key: &str) -> Vec<BriefObject> {
    match v.get(key).and_then(Value::as_array) {
        Some(items) => items.iter().map(as_brief).collect(),
        None => vec![],
    }
}

fn choice(v: &Value, key: &str) -> Option<Choice> {
    v.get(key).filter(|x| x.is_object()).map(|c| Choice { value: must(c, "value"), label: must(c, "label") })
}

fn tags(v: &Value) -> Vec<Tag> {
    match v.get("tags").and_then(Value::as_array) {
        Some(items) => items
            .iter()
            .map(|t| Tag { id: id(t), name: must(t, "name"), slug: must(t, "slug") })
            .collect(),
        None => vec![],
    }
}

fn custom(v: &Value) -> Json {
    json(v.get("custom_fields").unwrap_or(&Value::Null))
}

fn device(t: &str) -> Device {
    let v = parse(t);
    Device {
        id: id(&v),
        url: must(&v, "url"),
        display: text(&v, "display"),
        name: must(&v, "name"),
        status: choice(&v, "status"),
        role: brief(&v, "role"),
        site: brief(&v, "site"),
        rack: brief(&v, "rack"),
        platform: brief(&v, "platform"),
        tenant: brief(&v, "tenant"),
        primary_ip4: brief(&v, "primary_ip4"),
        primary_ip6: brief(&v, "primary_ip6"),
        serial: text(&v, "serial"),
        description: text(&v, "description"),
        last_updated: text(&v, "last_updated"),
        tags: tags(&v),
        custom_fields: custom(&v),
    }
}

fn interface(t: &str) -> Interface {
    let v = parse(t);
    Interface {
        id: id(&v),
        url: must(&v, "url"),
        display: text(&v, "display"),
        device: brief(&v, "device"),
        name: must(&v, "name"),
        enabled: flag(&v, "enabled"),
        type_: choice(&v, "type"),
        mtu: small(&v, "mtu"),
        mac_address: text(&v, "mac_address"),
        mode: choice(&v, "mode"),
        untagged_vlan: brief(&v, "untagged_vlan"),
        tagged_vlans: briefs(&v, "tagged_vlans"),
        cable: brief(&v, "cable"),
        connected_endpoints: v.get("connected_endpoints").map(|_| briefs(&v, "connected_endpoints")),
        description: text(&v, "description"),
        last_updated: text(&v, "last_updated"),
        tags: tags(&v),
        custom_fields: custom(&v),
    }
}

fn ip_address(t: &str) -> IpAddress {
    let v = parse(t);
    IpAddress {
        id: id(&v),
        url: must(&v, "url"),
        address: must(&v, "address"),
        status: choice(&v, "status"),
        role: choice(&v, "role"),
        vrf: brief(&v, "vrf"),
        tenant: brief(&v, "tenant"),
        assigned_object_type: text(&v, "assigned_object_type"),
        assigned_object_id: count(&v, "assigned_object_id"),
        assigned_object: opt(&v, "assigned_object"),
        dns_name: text(&v, "dns_name"),
        description: text(&v, "description"),
        nat_inside: brief(&v, "nat_inside"),
        nat_outside: briefs(&v, "nat_outside"),
        owner: brief(&v, "owner"),
        tags: tags(&v),
        custom_fields: custom(&v),
    }
}

fn prefix(t: &str) -> Prefix {
    let v = parse(t);
    Prefix {
        id: id(&v),
        url: must(&v, "url"),
        prefix: must(&v, "prefix"),
        status: choice(&v, "status"),
        vrf: brief(&v, "vrf"),
        vlan: brief(&v, "vlan"),
        scope_type: text(&v, "scope_type"),
        scope: brief(&v, "scope"),
        tenant: brief(&v, "tenant"),
        role: brief(&v, "role"),
        children: count(&v, "children"),
        utilization: v.get("utilization").and_then(Value::as_f64).map(|pct| Utilization {
            decimal: pct.to_string(),
            percent: format!("{:.0}", pct),
            filled: ((pct.clamp(0.0, 100.0) / 100.0) * 16.0).round() as u64,
        }),
        description: text(&v, "description"),
    }
}

fn vlan(t: &str) -> Vlan {
    let v = parse(t);
    Vlan {
        id: id(&v),
        url: must(&v, "url"),
        vid: count(&v, "vid").unwrap() as u16,
        name: must(&v, "name"),
        status: choice(&v, "status"),
        site: brief(&v, "site"),
        group: brief(&v, "group"),
        scope_type: text(&v, "scope_type"),
        scope: brief(&v, "scope"),
        tenant: brief(&v, "tenant"),
        role: brief(&v, "role"),
        description: text(&v, "description"),
        tags: tags(&v),
        custom_fields: custom(&v),
    }
}

fn vlan_group(t: &str) -> VlanGroup {
    let v = parse(t);
    VlanGroup {
        id: id(&v),
        name: must(&v, "name"),
        scope_type: text(&v, "scope_type"),
        scope: brief(&v, "scope"),
    }
}

fn mac(mac_id: u64, addr: &str, assigned: Option<Value>) -> MacAddress {
    MacAddress {
        id: mac_id,
        url: format!("http://nb/api/dcim/mac-addresses/{mac_id}/"),
        mac_address: addr.to_string(),
        assigned_object_type: None,
        assigned_object: assigned.as_ref().map(json),
        description: None,
        owner: None,
        tags: vec![],
        custom_fields: Json::Null,
    }
}

fn rack(t: &str) -> Rack {
    let v = parse(t);
    Rack {
        id: id(&v),
        url: must(&v, "url"),
        name: must(&v, "name"),
        status: choice(&v, "status"),
        site: brief(&v, "site"),
        location: brief(&v, "location"),
        role: brief(&v, "role"),
        tenant: brief(&v, "tenant"),
        u_height: small(&v, "u_height"),
        serial: text(&v, "serial"),
        asset_tag: text(&v, "asset_tag"),
        description: text(&v, "description"),
        tags: tags(&v),
        custom_fields: custom(&v),
    }
}

fn rack_group(t: &str) -> RackGroup {
    let v = parse(t);
    RackGroup {
        id: id(&v),
        url: must(&v, "url"),
        name: must(&v, "name"),
        slug: must(&v, "slug"),
        description: text(&v, "description"),
        owner: brief(&v, "owner"),
        rack_count: count(&v, "rack_count"),
        tags: tags(&v),
        custom_fields: custom(&v),
    }
}

fn tenant(t: &str) -> Tenant {
    let v = parse(t);
    Tenant {
        id: id(&v),
        url: must(&v, "url"),
        name: must(&v, "name"),
        slug: must(&v, "slug"),
        group: brief(&v, "group"),
        description: text(&v, "description"),
        circuit_count: count(&v, "circuit_count"),
        device_count: count(&v, "device_count"),
        ipaddress_count: count(&v, "ipaddress_count"),
        prefix_count: count(&v, "prefix_count"),
        rack_count: count(&v, "rack_count"),
        site_count: count(&v, "site_count"),
        vlan_count: count(&v, "vlan_count"),
        vrf_count: count(&v, "vrf_count"),
        virtualmachine_count: count(&v, "virtualmachine_count"),
        owner: brief(&v, "owner"),
        tags: tags(&v),
        custom_fields: custom(&v),
    }
}

fn contact(t: &str) -> Contact {
    let v = parse(t);
    Contact {
        id: id(&v),
        url: must(&v, "url"),
        name: must(&v, "name"),
        title: text(&v, "title"),
        phone: text(&v, "phone"),
        email: text(&v, "email"),
        address: text(&v, "address"),
        link: text(&v, "link"),
        group: brief(&v, "group"),
        description: text(&v, "description"),
        tags: tags(&v),
        custom_fields: custom(&v),
    }
}

fn provider(t: &str) -> Provider {
    let v = parse(t);
    let empty: Vec<Value> = vec![];
    Provider {
        id: id(&v),
        url: must(&v, "url"),
        name: must(&v, "name"),
        slug: must(&v, "slug"),
        asns: v
            .get("asns")
            .and_then(Value::as_array)
            .unwrap_or(&empty)
            .iter()
            .map(|a| ProviderAsn { id: id(a), asn: small(a, "asn").unwrap() })
            .collect(),
        accounts: v
            .get("accounts")
            .and_then(Value::as_array)
            .unwrap_or(&empty)
            .iter()
            .map(|a| ProviderAccount {
                id: id(a),
                display: text(a, "display"),
                name: text(a, "name"),
                account: text(a, "account"),
            })
            .collect(),
        description: text(&v, "description"),
        circuit_count: count(&v, "circuit_count"),
        tags: tags(&v),
        custom_fields: custom(&v),
    }
}

fn vm(t: &str) -> VirtualMachine {
    let v = parse(t);
    VirtualMachine {
        id: id(&v),
        url: must(&v, "url"),
        name: must(&v, "name"),
        status: choice(&v, "status"),
        role: brief(&v, "role"),
        cluster: brief(&v, "cluster"),
        device: brief(&v, "device"),
        platform: brief(&v, "platform"),
        site: brief(&v, "site"),
        tenant: brief(&v, "tenant"),
        primary_ip4: brief(&v, "primary_ip4"),
        primary_ip6: brief(&v, "primary_ip6"),
        vcpus: v.get("vcpus").and_then(Value::as_f64).map(|n| n.to_string()),
        memory: count(&v, "memory"),
        disk: count(&v, "disk"),
        description: text(&v, "description"),
        tags: tags(&v),
        custom_fields: custom(&v),
    }
}

fn vm_type(t: &str) -> VirtualMachineType {
    let v = parse(t);
    VirtualMachineType {
        id: id(&v),
        url: must(&v, "url"),
        name: must(&v, "name"),
        slug: must(&v, "slug"),
        default_platform: brief(&v, "default_platform"),
        default_vcpus: v.get("default_vcpus").and_then(Value::as_f64).map(|n| n.to_string()),
        default_memory: count(&v, "default_memory"),
        description: text(&v, "description"),
        owner: brief(&v, "owner"),
        virtual_machine_count: count(&v, "virtual_machine_count"),
        tags: tags(&v),
        custom_fields: custom(&v),
    }
}

fn cluster(t: &str) -> Cluster {
    let v = parse(t);
    Cluster {
        id: id(&v),
        url: must(&v, "url"),
        name: must(&v, "name"),
        type_: brief(&v, "type"),
        group: brief(&v, "group"),
        status: choice(&v, "status"),
        tenant: brief(&v, "tenant"),
        scope_type: text(&v, "scope_type"),
        scope: brief(&v, "scope"),
        description: text(&v, "description"),
        device_count: count(&v, "device_count"),
        virtualmachine_count: count(&v, "virtualmachine_count"),
        tags: tags(&v),
        custom_fields: custom(&v),
    }
}

fn circuit(t: &str) -> Circuit {
    let v = parse(t);
    Circuit {
        id: id(&v),
        url: must(&v, "url"),
        cid: must(&v, "cid"),
        provider: brief(&v, "provider"),
        type_: brief(&v, "type"),
        status: choice(&v, "status"),
        tenant: brief(&v, "tenant"),
        install_date: text(&v, "install_date"),
        commit_rate: count(&v, "commit_rate"),
        description: text(&v, "description"),
        tags: tags(&v),
        custom_fields: custom(&v),
    }
}

fn circuit_termination(t: &str) -> CircuitTermination {
    let v = parse(t);
    CircuitTermination {
        id: id(&v),
        term_side: text(&v, "term_side"),
        termination: brief(&v, "termination"),
        termination_type: text(&v, "termination_type"),
        link_peers: briefs(&v, "link_peers"),
        cable: brief(&v, "cable"),
        xconnect_id: text(&v, "xconnect_id"),
        pp_info: text(&v, "pp_info"),
        port_speed: count(&v, "port_speed"),
    }
}

fn vc(t: &str) -> VirtualCircuit {
    let v = parse(t);
    VirtualCircuit {
        id: id(&v),
        url: must(&v, "url"),
        cid: must(&v, "cid"),
        provider_network: brief(&v, "provider_network"),
        provider_account: brief(&v, "provider_account"),
        type_: brief(&v, "type"),
        status: choice(&v, "status"),
        tenant: brief(&v, "tenant"),
        owner: brief(&v, "owner"),
        description: text(&v, "description"),
        tags: tags(&v),
        custom_fields: custom(&v),
    }
}

fn term(t: &str) -> VirtualCircuitTermination {
    let v = parse(t);
    VirtualCircuitTermination {
        id: id(&v),
        interface: brief(&v, "interface"),
        role: choice(&v, "role"),
        description: text(&v, "description"),
    }
}

fn vrf(t: &str) -> Vrf {
    let v = parse(t);
    Vrf {
        id: id(&v),
        url: must(&v, "url"),
        name: must(&v, "name"),
        rd: text(&v, "rd"),
        tenant: brief(&v, "tenant"),
        enforce_unique: flag(&v, "enforce_unique"),
        import_targets: briefs(&v, "import_targets"),
        export_targets: briefs(&v, "export_targets"),
        prefix_count: count(&v, "prefix_count"),
        ipaddress_count: count(&v, "ipaddress_count"),
        description: text(&v, "description"),
        tags: tags(&v),
        custom_fields: custom(&v),
    }
}

fn route_target(t: &str) -> RouteTarget {
    let v = parse(t);
    RouteTarget {
        id: id(&v),
        url: must(&v, "url"),
        name: must(&v, "name"),
        tenant: brief(&v, "tenant"),
        description: text(&v, "description"),
        owner: brief(&v, "owner"),
        tags: tags(&v),
        custom_fields: custom(&v),
    }
}

fn payload(v: &Value, key: &str) -> Option<Payload> {
    v.get(key).filter(|x| !x.is_null()).map(|p| Payload { raw: p.clone(), value: json(p) })
}

fn object_change(t: &str) -> ObjectChange {
    let v = parse(t);
    ObjectChange {
        id: id(&v),
        time: text(&v, "time"),
        action: choice(&v, "action"),
        user_name: text(&v, "user_name"),
        user: brief(&v, "user"),
        object_repr: text(&v, "object_repr"),
        message: must(&v, "message"),
        request_id: text(&v, "request_id"),
        prechange_data: payload(&v, "prechange_data"),
        postchange_data: payload(&v, "postchange_data"),
    }
}

fn hop(to: &str, cable: Option<&str>, endpoint: bool) -> PathHop {
    PathHop { to: to.to_string(), cable: cable.map(str::to_string), endpoint, device: None }
}

fn tagged_row(object_type: &str, obj: &str) -> TaggedObject {
    TaggedObject {
        id: 99,
        url: Some("http://nb/api/extras/tagged-objects/99/".to_string()),
        object_type: object_type.to_string(),
        object_id: 7,
        object: Some(as_brief(&parse(obj))),
        display: Some("edge01 tagged with prod".to_string()),
    }
}

fn aggregate(t: &str) -> Aggregate {
    let v = parse(t);
    Aggregate {
        id: id(&v),
        url: must(&v, "url"),
        prefix: must(&v, "prefix"),
        rir: brief(&v, "rir"),
        tenant: brief(&v, "tenant"),
        date_added: text(&v, "date_added"),
        description: text(&v, "description"),
        custom_fields: custom(&v),
    }
}

fn asn(t: &str) -> Asn {
    let v = parse(t);
    Asn {
        id: id(&v),
        url: must(&v, "url"),
        asn: small(&v, "asn").unwrap(),
        rir: brief(&v, "rir"),
        tenant: brief(&v, "tenant"),
        description: text(&v, "description"),
        custom_fields: custom(&v),
    }
}

fn site(t: &str) -> Site {
    let v = parse(t);
    Site {
        id: id(&v),
        url: must(&v, "url"),
        name: must(&v, "name"),
        slug: must(&v, "slug"),
        status: choice(&v, "status"),
        region: brief(&v, "region"),
        group: brief(&v, "group"),
        tenant: brief(&v, "tenant"),
        facility: text(&v, "facility"),
        description: text(&v, "description"),
    }
}

fn tag_info(t: &str) -> TagInfo {
    let v = parse(t);
    TagInfo {
        id: id(&v),
        name: must(&v, "name"),
        slug: must(&v, "slug"),
        color: text(&v, "color"),
        tagged_items: count(&v, "tagged_items"),
    }
}

fn journal_entry(t: &str) -> JournalEntry {
    let v = parse(t);
    JournalEntry {
        id: id(&v),
        created: text(&v, "created"),
        kind: choice(&v, "kind"),
        created_by: opt(&v, "created_by"),
        comments: must(&v, "comments"),
    }
}

fn ip_range(t: &str) -> IpRange {
    let v = parse(t);
    IpRange {
        id: id(&v),
        url: must(&v, "url"),
        start_address: must(&v, "start_address"),
        end_address: must(&v, "end_address"),
        size: count(&v, "size"),
        status: choice(&v, "status"),
        vrf: brief(&v, "vrf"),
        tenant: brief(&v, "tenant"),
        role: brief(&v, "role"),
        description: text(&v, "description"),
        custom_fields: custom(&v),
    }
}

fn tagged_object(t: &str) -> TaggedObject {
    let v = parse(t);
    TaggedObject {
        id: id(&v),
        url: text(&v, "url"),
        display: text(&v, "display"),
        object_type: must(&v, "object_type"),
        object_id: count(&v, "object_id").unwrap(),
        object: brief(&v, "object"),
    }
}

fn cidr(text: &str) -> Prefix {
    prefix(&format!("{{\"id\": 1, \"url\": \"http://nb/p/\", \"prefix\": \"{text}\"}}"))
}

fn edge01() -> Device {
    device(r#"{
        "id": 1, "url": "u", "name": "edge01",
        "status": {"value": "active", "label": "Active"},
        "custom_fields": {}
    }"#)
}

// ===== aggregate_view =====

#[test]
fn flattens_aggregate() {
    let agg = aggregate(r#"{
        "id": 1, "url": "u", "prefix": "10.0.0.0/8",
        "rir": {"id": 1, "display": "RFC 1918"},
        "custom_fields": {}
    }"#);
    let view = AggregateView::from_model(agg);
    assert_eq!(view.prefix, "10.0.0.0/8");
    assert_eq!(view.rir.as_deref(), Some("RFC 1918"));
    let plain = view.to_key_values().render();
    assert!(plain.starts_with("prefix: 10.0.0.0/8"));
    assert!(plain.contains("rir: RFC 1918"));
}

// ===== asn_view =====

#[test]
fn flattens_asn() {
    let asn = asn(r#"{
        "id": 1, "url": "u", "asn": 64512,
        "rir": {"id": 1, "display": "RFC 6996"},
        "custom_fields": {}
    }"#);
    let view = AsnView::from_model(asn);
    assert_eq!(view.asn, 64512);
    assert_eq!(view.rir.as_deref(), Some("RFC 6996"));
    let plain = view.to_key_values().render();
    assert!(plain.starts_with("asn: 64512"));
}

// ===== site_view =====

#[test]
fn flattens_site() {
    let s = site(r#"{
        "id": 1, "url": "u", "name": "iad1", "slug": "iad1",
        "status": {"value": "active", "label": "Active"},
        "region": {"id": 2, "display": "us-east"},
        "facility": ""
    }"#);
    let view = SiteView::from_model(s);
    assert_eq!(view.status.as_deref(), Some("active"));
    assert_eq!(view.region.as_deref(), Some("us-east"));
    assert_eq!(view.facility, None);
    assert!(
        view.to_key_values()
            .render()
            .starts_with("name: iad1\nslug: iad1")
    );
}

// ===== tag_view =====

#[test]
fn renders_tag_rows() {
    let tags = vec![
        tag_info(r#"{
            "id": 1, "name": "Critical", "slug": "critical",
            "color": "ff0000", "tagged_items": 12
        }"#),
    ];
    let view = TagsView::from_models(tags);
    assert_eq!(view.tags[0].slug, "critical");
    assert_eq!(view.to_plain(), "critical  Critical  (12)");
}

#[test]
fn empty_tags_is_explicit() {
    assert_eq!(TagsView::from_models(vec![]).to_plain(), "no tags");
}

// ===== rack_view =====

#[test]
fn flattens_rack() {
    let r = rack(r#"{
        "id": 12, "url": "u", "name": "r12",
        "status": {"value": "active", "label": "Active"},
        "site": {"id": 1, "display": "iad1"},
        "u_height": 42,
        "tags": [{"id": 1, "name": "row-a", "slug": "row-a"}]
    }"#);
    let view = RackView::from_model(r);
    assert_eq!(view.site.as_deref(), Some("iad1"));
    assert_eq!(view.u_height, Some(42));
    assert_eq!(view.tags, vec!["row-a"]);
    let plain = view.to_key_values().render();
    assert!(plain.contains("u_height: 42"));
    assert!(plain.contains("tags: row-a"));
}

#[test]
fn rack_view_tags_dropped_when_empty() {
    let r = rack(r#"{
        "id": 12, "url": "u", "name": "r12"
    }"#);
    let view = RackView::from_model(r);
    assert!(view.tags.is_empty());
    assert!(!view.to_key_values().render().contains("tags:"));
}

// ===== rack_group_view =====

#[test]
fn flattens_rack_group() {
    let rg = rack_group(r#"{
        "id": 1, "url": "u", "name": "Row A", "slug": "row-a",
        "description": "top of row 1",
        "owner": {"id": 3, "name": "netops"},
        "rack_count": 12,
        "tags": [{"id": 1, "name": "prod", "slug": "prod"}],
        "custom_fields": {"floor": "2"}
    }"#);
    let view = RackGroupView::from_model(rg);
    assert_eq!(view.name, "Row A");
    assert_eq!(view.slug, "row-a");
    assert_eq!(view.owner.as_deref(), Some("netops"));
    assert_eq!(view.rack_count, Some(12));
    assert_eq!(view.tags, vec!["prod"]);

    let plain = view.to_key_values().render();
    assert!(plain.starts_with("name: Row A\nslug: row-a"));
    assert!(plain.contains("description: top of row 1"));
    assert!(plain.contains("owner: netops"));
    assert!(plain.contains("rack_count: 12"));
    assert!(plain.contains("tags: prod"));
    assert!(plain.contains("cf.floor: 2"));
}

#[test]
fn rack_group_view_empty_optionals_dropped_in_json() {
    let rg = rack_group(r#"{
        "id": 1, "url": "u", "name": "bare", "slug": "bare",
        "description": "", "rack_count": 0
    }"#);
    let view = RackGroupView::from_model(rg);
    assert_eq!(view.name, "bare");
    assert!(view.description.is_none());
    assert!(view.owner.is_none());
    assert!(view.rack_count.is_none());
    assert!(view.tags.is_empty());
    assert!(view.custom_fields.is_empty());
}

// ===== journal_view =====

#[test]
fn renders_entries_with_author_and_comments() {
    let entries = vec![
        journal_entry(r#"{
            "id": 1, "created": "2024-01-02", "kind": {"value": "info", "label": "Info"},
            "created_by": {"username": "admin", "display": "admin"}, "comments": "rebooted"
        }"#),
    ];
    let view = JournalView::from_models(entries);
    assert_eq!(view.entries[0].author.as_deref(), Some("admin"));
    let plain = view.to_plain();
    assert!(plain.contains("2024-01-02  info  (admin)"), "got: {plain}");
    assert!(plain.contains("\n  rebooted"));
}

#[test]
fn empty_journal_is_explicit() {
    let view = JournalView::from_models(vec![]);
    assert_eq!(view.to_plain(), "no journal entries");
}

// ===== ip_range_view =====

#[test]
fn flattens_ip_range() {
    let range = ip_range(r#"{
        "id": 1, "url": "u",
        "start_address": "10.0.0.10/24", "end_address": "10.0.0.20/24",
        "size": 11,
        "status": {"value": "active", "label": "Active"},
        "custom_fields": {}
    }"#);
    let view = IpRangeView::from_model(range);
    assert_eq!(view.start_address, "10.0.0.10/24");
    assert_eq!(view.end_address, "10.0.0.20/24");
    assert_eq!(view.size, Some(11));
    let plain = view.to_key_values().render();
    assert!(plain.starts_with("start_address: 10.0.0.10/24"));
    assert!(plain.contains("size: 11"));
}

// ===== tenant_view =====

#[test]
fn flattens_tenant() {
    let t = tenant(r#"{
        "id": 4, "url": "u", "name": "Acme Corp", "slug": "acme",
        "group": {"id": 2, "display": "Customers"},
        "description": "primary customer",
        "device_count": 12,
        "prefix_count": 5,
        "site_count": 0,
        "tags": [{"id": 1, "name": "vip", "slug": "vip"}],
        "custom_fields": {"account_id": "A-100"}
    }"#);
    let view = TenantView::from_model(t);
    assert_eq!(view.name, "Acme Corp");
    assert_eq!(view.group.as_deref(), Some("Customers"));
    assert_eq!(view.device_count, Some(12));
    assert_eq!(view.prefix_count, Some(5));
    // Zero counts are dropped (noise).
    assert_eq!(view.site_count, None);
    assert_eq!(view.tags, vec!["vip"]);

    let plain = view.to_key_values().render();
    assert!(plain.starts_with("name: Acme Corp\nslug: acme"));
    assert!(plain.contains("group: Customers"));
    assert!(plain.contains("device_count: 12"));
    assert!(plain.contains("tags: vip"));
    assert!(plain.contains("cf.account_id: A-100"));
    // Dropped fields don't appear.
    assert!(!plain.contains("site_count"));
}

#[test]
fn tenant_view_empty_optionals_dropped_in_json() {
    let t = tenant(r#"{
        "id": 4, "url": "u", "name": "bare", "slug": "bare",
        "description": ""
    }"#);
    let view = TenantView::from_model(t);
    assert_eq!(view.name, "bare");
    assert!(view.group.is_none());
    assert!(view.description.is_none());
    assert!(view.device_count.is_none());
    assert!(view.tags.is_empty());
    assert!(view.custom_fields.is_empty());
}

// ===== contact_view =====

#[test]
fn flattens_contact() {
    let c = contact(r#"{
        "id": 7, "url": "u", "name": "Jane Doe",
        "group": {"id": 3, "display": "NOC"},
        "title": "Network Engineer",
        "phone": "+1-555-0100",
        "email": "jane@example.com",
        "address": "",
        "link": "https://example.com/jane",
        "tags": [{"id": 2, "name": "oncall", "slug": "oncall"}],
        "custom_fields": {"pager": "555-9000"}
    }"#);
    let view = ContactView::from_model(c);
    assert_eq!(view.name, "Jane Doe");
    assert_eq!(view.group.as_deref(), Some("NOC"));
    assert_eq!(view.title.as_deref(), Some("Network Engineer"));
    assert_eq!(view.email.as_deref(), Some("jane@example.com"));
    assert_eq!(view.link.as_deref(), Some("https://example.com/jane"));
    // Empty string normalized to None.
    assert_eq!(view.address, None);
    assert_eq!(view.tags, vec!["oncall"]);

    let plain = view.to_key_values().render();
    assert!(plain.starts_with("name: Jane Doe"));
    assert!(plain.contains("title: Network Engineer"));
    assert!(plain.contains("email: jane@example.com"));
    assert!(plain.contains("group: NOC"));
    assert!(plain.contains("tags: oncall"));
    assert!(plain.contains("cf.pager: 555-9000"));
    assert!(!plain.contains("address:"));
}

#[test]
fn contact_view_empty_optionals_dropped_in_json() {
    let c = contact(r#"{
        "id": 7, "url": "u", "name": "bare"
    }"#);
    let view = ContactView::from_model(c);
    assert_eq!(view.name, "bare");
    assert!(view.title.is_none());
    assert!(view.email.is_none());
    assert!(view.group.is_none());
    assert!(view.tags.is_empty());
    assert!(view.custom_fields.is_empty());
}

// ===== provider_view =====

#[test]
fn flattens_provider() {
    let p = provider(r#"{
        "id": 1, "url": "u", "name": "ACME Telecom", "slug": "acme-telecom",
        "asns": [
            {"id": 5, "url": "u", "asn": 64512},
            {"id": 6, "url": "u", "asn": 64513}
        ],
        "accounts": [
            {"id": 3, "display": "ACME-001", "name": "primary", "account": "ACME-001"}
        ],
        "description": "upstream transit",
        "circuit_count": 7,
        "tags": [{"id": 1, "name": "transit", "slug": "transit"}],
        "custom_fields": {"noc_email": "noc@acme.example"}
    }"#);
    let view = ProviderView::from_model(p);
    assert_eq!(view.name, "ACME Telecom");
    assert_eq!(view.slug, "acme-telecom");
    assert_eq!(view.asns, vec![64512, 64513]);
    assert_eq!(view.accounts, vec!["ACME-001"]);
    assert_eq!(view.circuit_count, Some(7));
    assert_eq!(view.tags, vec!["transit"]);

    let plain = view.to_key_values().render();
    assert!(plain.starts_with("name: ACME Telecom\nslug: acme-telecom"));
    assert!(plain.contains("asns: AS64512, AS64513"));
    assert!(plain.contains("accounts: ACME-001"));
    assert!(plain.contains("circuit_count: 7"));
    assert!(plain.contains("tags: transit"));
    assert!(plain.contains("cf.noc_email: noc@acme.example"));
}

#[test]
fn provider_view_empty_optionals_dropped_in_json() {
    let p = provider(r#"{
        "id": 1, "url": "u", "name": "bare", "slug": "bare",
        "description": "",
        "circuit_count": 0
    }"#);
    let view = ProviderView::from_model(p);
    assert_eq!(view.name, "bare");
    assert!(view.asns.is_empty());
    assert!(view.accounts.is_empty());
    assert!(view.description.is_none());
    // Zero circuit_count is dropped.
    assert!(view.circuit_count.is_none());
    assert!(view.tags.is_empty());
    assert!(view.custom_fields.is_empty());
}

// ===== vm_view =====

#[test]
fn flattens_vm() {
    let vm = vm(r#"{
        "id": 5, "url": "u", "name": "web-01",
        "status": {"value": "active", "label": "Active"},
        "role": {"id": 2, "display": "App Server"},
        "cluster": {"id": 3, "display": "prod"},
        "device": {"id": 7, "display": "hv-01"},
        "platform": {"id": 4, "display": "Ubuntu 22.04"},
        "site": {"id": 1, "display": "iad1"},
        "tenant": {"id": 9, "display": "Acme"},
        "primary_ip4": {"id": 11, "display": "10.0.0.5/24"},
        "vcpus": 4.0,
        "memory": 8192,
        "disk": 100,
        "description": "primary web node",
        "tags": [{"id": 1, "name": "prod", "slug": "prod"}],
        "custom_fields": {"owner": "platform"}
    }"#);
    let view = VmView::from_model(vm);
    assert_eq!(view.name, "web-01");
    assert_eq!(view.status.as_deref(), Some("active"));
    assert_eq!(view.role.as_deref(), Some("App Server"));
    assert_eq!(view.cluster.as_deref(), Some("prod"));
    assert_eq!(view.device.as_deref(), Some("hv-01"));
    assert_eq!(view.platform.as_deref(), Some("Ubuntu 22.04"));
    assert_eq!(view.site.as_deref(), Some("iad1"));
    assert_eq!(view.tenant.as_deref(), Some("Acme"));
    assert_eq!(view.primary_ip4.as_deref(), Some("10.0.0.5/24"));
    assert_eq!(view.vcpus.as_deref(), Some("4"));
    assert_eq!(view.memory, Some(8192));
    assert_eq!(view.disk, Some(100));
    assert_eq!(view.tags, vec!["prod"]);

    let plain = view.to_key_values().render();
    assert!(plain.starts_with("name: web-01"));
    assert!(plain.contains("status: active"));
    assert!(plain.contains("cluster: prod"));
    assert!(plain.contains("device: hv-01"));
    assert!(plain.contains("vcpus: 4"));
    assert!(plain.contains("memory: 8192"));
    assert!(plain.contains("primary_ip4: 10.0.0.5/24"));
    assert!(plain.contains("tags: prod"));
    assert!(plain.contains("cf.owner: platform"));
}

#[test]
fn vm_view_empty_optionals_dropped_in_json() {
    let vm = vm(r#"{
        "id": 5, "url": "u", "name": "bare",
        "description": ""
    }"#);
    let view = VmView::from_model(vm);
    assert_eq!(view.name, "bare");
    assert!(view.status.is_none());
    assert!(view.cluster.is_none());
    assert!(view.description.is_none());
    assert!(view.vcpus.is_none());
    assert!(view.memory.is_none());
    assert!(view.primary_ip4.is_none());
    assert!(view.tags.is_empty());
    assert!(view.custom_fields.is_empty());
}

// ===== vm_type_view =====

#[test]
fn flattens_vm_type() {
    let t = vm_type(r#"{
        "id": 1, "url": "u", "name": "Web Tier", "slug": "web-tier",
        "default_platform": {"id": 2, "name": "debian-12", "slug": "debian-12"},
        "default_vcpus": 4.0,
        "default_memory": 8192,
        "description": "front-end web servers",
        "owner": {"id": 3, "name": "netops"},
        "virtual_machine_count": 24,
        "tags": [{"id": 1, "name": "prod", "slug": "prod"}],
        "custom_fields": {"tier": "web"}
    }"#);
    let view = VirtualMachineTypeView::from_model(t);
    assert_eq!(view.name, "Web Tier");
    assert_eq!(view.default_platform.as_deref(), Some("debian-12"));
    assert_eq!(view.default_vcpus.as_deref(), Some("4"));
    assert_eq!(view.default_memory, Some(8192));
    assert_eq!(view.owner.as_deref(), Some("netops"));
    assert_eq!(view.virtual_machine_count, Some(24));
    assert_eq!(view.tags, vec!["prod"]);

    let plain = view.to_key_values().render();
    assert!(plain.starts_with("name: Web Tier\nslug: web-tier"));
    assert!(plain.contains("default_platform: debian-12"));
    assert!(plain.contains("default_vcpus: 4"));
    assert!(plain.contains("default_memory: 8192"));
    assert!(plain.contains("owner: netops"));
    assert!(plain.contains("virtual_machine_count: 24"));
    assert!(plain.contains("tags: prod"));
    assert!(plain.contains("cf.tier: web"));
}

#[test]
fn vm_type_view_empty_optionals_dropped_in_json() {
    let t = vm_type(r#"{"id": 1, "url": "u", "name": "bare", "slug": "bare"}"#);
    let view = VirtualMachineTypeView::from_model(t);
    assert_eq!(view.name, "bare");
    assert!(view.default_platform.is_none());
    assert!(view.default_vcpus.is_none());
    assert!(view.default_memory.is_none());
    assert!(view.description.is_none());
    assert!(view.owner.is_none());
    assert!(view.virtual_machine_count.is_none());
    assert!(view.tags.is_empty());
    assert!(view.custom_fields.is_empty());
}

// ===== cluster_view =====

#[test]
fn flattens_cluster() {
    let c = cluster(r#"{
        "id": 3, "url": "u", "name": "prod",
        "type": {"id": 1, "display": "VMware"},
        "group": {"id": 2, "display": "us-east"},
        "status": {"value": "active", "label": "Active"},
        "tenant": {"id": 9, "display": "Acme"},
        "scope_type": "dcim.site",
        "scope": {"id": 1, "display": "iad1"},
        "description": "primary cluster",
        "device_count": 4,
        "virtualmachine_count": 0,
        "tags": [{"id": 1, "name": "prod", "slug": "prod"}],
        "custom_fields": {"sla": "gold"}
    }"#);
    let view = ClusterView::from_model(c);
    assert_eq!(view.name, "prod");
    assert_eq!(view.type_.as_deref(), Some("VMware"));
    assert_eq!(view.group.as_deref(), Some("us-east"));
    assert_eq!(view.status.as_deref(), Some("active"));
    assert_eq!(view.tenant.as_deref(), Some("Acme"));
    assert_eq!(view.scope.as_deref(), Some("iad1"));
    assert_eq!(view.scope_type.as_deref(), Some("site"));
    assert_eq!(view.device_count, Some(4));
    // Zero counts are dropped (noise).
    assert_eq!(view.virtualmachine_count, None);
    assert_eq!(view.tags, vec!["prod"]);

    let plain = view.to_key_values().render();
    assert!(plain.starts_with("name: prod"));
    assert!(plain.contains("type: VMware"));
    assert!(plain.contains("group: us-east"));
    assert!(plain.contains("status: active"));
    assert!(plain.contains("scope: iad1"));
    assert!(plain.contains("scope_type: site"));
    assert!(plain.contains("device_count: 4"));
    assert!(plain.contains("tags: prod"));
    assert!(plain.contains("cf.sla: gold"));
    // Dropped fields don't appear.
    assert!(!plain.contains("virtualmachine_count"));
}

#[test]
fn cluster_view_empty_optionals_dropped_in_json() {
    let c = cluster(r#"{
        "id": 3, "url": "u", "name": "bare",
        "description": "",
        "virtualmachine_count": 0
    }"#);
    let view = ClusterView::from_model(c);
    assert_eq!(view.name, "bare");
    assert!(view.type_.is_none());
    assert!(view.group.is_none());
    assert!(view.status.is_none());
    assert!(view.scope.is_none());
    assert!(view.description.is_none());
    // Zero virtualmachine_count is dropped.
    assert!(view.virtualmachine_count.is_none());
    assert!(view.tags.is_empty());
    assert!(view.custom_fields.is_empty());
}

// ===== mac_view =====

#[test]
fn from_model_labels_a_device_interface_assignment() {
    let m = mac(
        1,
        "aa:bb:cc:dd:ee:ff",
        Some(parse(r#"{
            "display": "xe-0/0/1",
            "device": {"display": "edge01"}
        }"#)),
    );
    let v = MacView::from_model(m);
    assert_eq!(v.mac_address, "aa:bb:cc:dd:ee:ff");
    assert_eq!(v.assigned.as_deref(), Some("edge01 xe-0/0/1"));
    assert_eq!(v.device.as_deref(), Some("edge01"));
}

#[test]
fn from_model_labels_a_vm_interface_assignment() {
    let m = mac(
        2,
        "11:22:33:44:55:66",
        Some(parse(r#"{
            "name": "eth0",
            "virtual_machine": {"display": "web-01"}
        }"#)),
    );
    let v = MacView::from_model(m);
    assert_eq!(v.assigned.as_deref(), Some("web-01 eth0"));
    // A VM interface has no `device` — `device` stays None.
    assert_eq!(v.device, None);
}

#[test]
fn from_model_handles_an_unassigned_mac() {
    let m = mac(3, "aa:bb:cc:dd:ee:00", None);
    let v = MacView::from_model(m);
    assert_eq!(v.assigned, None);
    assert_eq!(v.device, None);
}

#[test]
fn assigned_label_falls_back_to_the_bare_interface_name() {
    let bare = parse(r#"{"name": "eth0"}"#);
    assert_eq!(nbox::domain::mac_view::assigned_label(&json(&bare)).as_deref(), Some("eth0"));
}

#[test]
fn to_key_values_renders_mac_and_assignment() {
    let m = mac(
        1,
        "aa:bb:cc:dd:ee:ff",
        Some(parse(r#"{"display": "xe-0/0/1", "device": {"display": "edge01"}}"#)),
    );
    let rendered = MacView::from_model(m).to_key_values().render();
    assert!(rendered.contains("mac: aa:bb:cc:dd:ee:ff"), "{rendered}");
    assert!(rendered.contains("assigned: edge01 xe-0/0/1"), "{rendered}");
    assert!(rendered.contains("device: edge01"), "{rendered}");
}

// ===== device_view =====

#[test]
fn flattens_brief_relations_and_status() {
    let device = device(r#"{
        "id": 123,
        "url": "http://nb/api/dcim/devices/123/",
        "name": "edge01",
        "status": {"value": "active", "label": "Active"},
        "site": {"id": 1, "display": "iad1"},
        "rack": {"id": 2, "name": "r12"},
        "primary_ip4": {"id": 9, "display": "10.44.12.9/32"},
        "serial": "",
        "tags": [{"id": 1, "name": "edge", "slug": "edge"}],
        "custom_fields": {}
    }"#);

    let view = DeviceView::from_model(device);
    assert_eq!(view.status.as_deref(), Some("active"));
    assert_eq!(view.site.as_deref(), Some("iad1"));
    assert_eq!(view.rack.as_deref(), Some("r12"));
    assert_eq!(view.primary_ip4.as_deref(), Some("10.44.12.9/32"));
    // Empty serial is dropped, not shown as "".
    assert_eq!(view.serial, None);
    assert_eq!(view.tags, vec!["edge"]);

    let plain = view.to_key_values().render();
    assert!(plain.starts_with("name: edge01"));
    assert!(plain.contains("primary_ip4: 10.44.12.9/32"));
    assert!(plain.contains("tags: edge"));
    assert!(!plain.contains("serial:"));
}

#[test]
fn device_view_tags_dropped_when_empty() {
    let device = device(r#"{
        "id": 1, "url": "u", "name": "edge01"
    }"#);
    let view = DeviceView::from_model(device);
    assert!(view.tags.is_empty());
    assert!(!view.to_key_values().render().contains("tags:"));
}

#[test]
fn surfaces_non_null_custom_fields() {
    let device = device(r#"{
        "id": 1, "url": "u", "name": "edge01",
        "custom_fields": {"ticket": "INC-7", "owner": null}
    }"#);
    let view = DeviceView::from_model(device);
    assert_eq!(view.custom_fields.len(), 1);
    let plain = view.to_key_values().render();
    assert!(plain.contains("cf.ticket: INC-7"), "got: {plain}");
    assert!(!plain.contains("owner"));
}

// ===== circuit_view =====

#[test]
fn flattens_circuit() {
    let c = circuit(r#"{
        "id": 3, "url": "u", "cid": "ACME-1234",
        "provider": {"id": 1, "display": "ACME"},
        "type": {"id": 2, "display": "Internet"},
        "status": {"value": "active", "label": "Active"},
        "commit_rate": 1000000,
        "tags": [{"id": 1, "name": "transit", "slug": "transit"}],
        "custom_fields": {}
    }"#);
    let view = CircuitView::from_model(c);
    assert_eq!(view.cid, "ACME-1234");
    assert_eq!(view.provider.as_deref(), Some("ACME"));
    assert_eq!(view.type_.as_deref(), Some("Internet"));
    assert_eq!(view.commit_rate_kbps, Some(1_000_000));
    assert_eq!(view.tags, vec!["transit"]);
    assert!(view.terminations.is_empty());
    assert!(view.diagram.is_empty());

    let plain = view.to_plain();
    assert!(plain.starts_with("cid: ACME-1234"));
    assert!(plain.contains("provider: ACME"));
    assert!(plain.contains("commit_rate: 1 Gbps"));
    assert!(plain.contains("tags: transit"));
    assert!(!plain.contains("Circuit Path"));
}

#[test]
fn circuit_view_tags_dropped_when_empty() {
    let c = circuit(r#"{"id": 3, "url": "u", "cid": "ACME-1234"}"#);
    let view = CircuitView::from_model(c);
    assert!(view.tags.is_empty());
    assert!(!view.to_key_values().render().contains("tags:"));
}

#[test]
fn builds_az_diagram_with_a_multi_hop_path() {
    let c = circuit(r#"{
        "id": 1636, "url": "u", "cid": "FC-208420188",
        "provider": {"id": 1, "display": "314BCE"},
        "type": {"id": 2, "display": "Direct Connect"},
        "status": {"value": "active", "label": "Active"},
        "commit_rate": 400000000,
        "custom_fields": {}
    }"#);
    let term_a = circuit_termination(r#"{
        "id": 2390, "term_side": "A",
        "termination": {"id": 433, "display": "US-CHI02", "name": "US-CHI02"},
        "termination_type": "dcim.site",
        "link_peers": []
    }"#);
    let term_z = circuit_termination(r#"{
        "id": 2391, "term_side": "Z",
        "termination": {"id": 317, "display": "314BCE DX"},
        "termination_type": "circuits.providernetwork",
        "link_peers": []
    }"#);
    // A-side path: device-first (the router leads; the circuit-adjacent panel
    // is last) — as the walker presents it.
    let resolved = vec![
        ResolvedTermination {
            termination: term_z,
            path: Vec::new(),
        },
        ResolvedTermination {
            termination: term_a,
            path: vec![
                hop("bfr4-us-chi02 et-0/0/0:0", Some("#2378170"), true),
                hop("355.M03.01.02.PNL.01 13", Some("#2378128"), false),
            ],
        },
    ];

    let view = CircuitView::build(c, resolved);
    // A is ordered before Z.
    assert_eq!(view.terminations[0].side, "A");
    assert_eq!(view.terminations[0].endpoint, "US-CHI02");
    assert_eq!(view.terminations[0].endpoint_kind, "site");
    assert_eq!(view.terminations[0].path.len(), 2);
    // Device-first: the resolved endpoint leads.
    assert!(view.terminations[0].path[0].endpoint);
    assert_eq!(view.terminations[1].side, "Z");
    assert_eq!(view.terminations[1].endpoint_kind, "provider network");
    assert!(view.terminations[1].path.is_empty());

    // A is above the segment, so it reads device → panel → circuit: the router
    // line comes before the panel line.
    assert_eq!(view.diagram[0], " A  US-CHI02  (site)");
    let router_at = view
        .diagram
        .iter()
        .position(|l| l == "    ↳ bfr4-us-chi02 et-0/0/0:0  ·  #2378170");
    let panel_at = view
        .diagram
        .iter()
        .position(|l| l == "    ↳ 355.M03.01.02.PNL.01 13  ·  #2378128");
    assert!(
        router_at < panel_at && router_at.is_some(),
        "router should come before the panel: {:?}",
        view.diagram
    );
    assert!(
        view.diagram
            .iter()
            .any(|l| l == "    ┿ Direct Connect · 400 Gbps · Active"),
        "{:?}",
        view.diagram
    );
    assert!(
        view.diagram
            .iter()
            .any(|l| l == " Z  314BCE DX  (provider network)"),
        "{:?}",
        view.diagram
    );

    let plain = view.to_plain();
    assert!(plain.contains("Circuit Path"));
    assert!(plain.contains("↳ bfr4-us-chi02 et-0/0/0:0  ·  #2378170"));
}

#[test]
fn an_unknown_side_of_a_circuit_comes_last() {
    let rt = |side: &str| ResolvedTermination {
        termination: circuit_termination(side),
        path: vec![],
    };
    let view = CircuitView::build(
        circuit(r#"{"id": 3, "url": "u", "cid": "X"}"#),
        vec![
            rt(r#"{"id": 1}"#),
            rt(r#"{"id": 2, "term_side": "Z"}"#),
            rt(r#"{"id": 3, "term_side": "A"}"#),
        ],
    );
    let sides: Vec<&str> = view.terminations.iter().map(|t| t.side.as_str()).collect();
    assert_eq!(sides, vec!["A", "Z", "?"]);
    assert_eq!(view.diagram[0], " A  (unterminated)");
}

#[test]
fn humanizes_speeds() {
    assert_eq!(humanize_kbps(400_000_000), "400 Gbps");
    assert_eq!(humanize_kbps(10_000_000), "10 Gbps");
    assert_eq!(humanize_kbps(1_000_000), "1 Gbps");
    assert_eq!(humanize_kbps(500_000), "500 Mbps");
    assert_eq!(humanize_kbps(1500), "1.5 Mbps");
    assert_eq!(humanize_kbps(0), "0");
}

// ===== virtual_circuit_view =====

#[test]
fn flattens_virtual_circuit_attributes() {
    let v = vc(r#"{
        "id": 7, "url": "u", "cid": "VC-100",
        "provider_network": {"id": 3, "name": "ACME Cloud", "display": "ACME Cloud"},
        "type": {"id": 2, "name": "MPLS", "slug": "mpls"},
        "status": {"value": "active", "label": "Active"},
        "tenant": {"id": 4, "name": "acme"},
        "owner": {"id": 1, "name": "netops"},
        "description": "east-west overlay",
        "tags": [{"id": 1, "name": "transit", "slug": "transit"}],
        "custom_fields": {"sla": "gold"}
    }"#);
    let view = VirtualCircuitView::from_model(v);
    assert_eq!(view.cid, "VC-100");
    assert_eq!(view.provider_network.as_deref(), Some("ACME Cloud"));
    assert_eq!(view.type_.as_deref(), Some("MPLS"));
    assert_eq!(view.status.as_deref(), Some("active"));
    assert_eq!(view.tenant.as_deref(), Some("acme"));
    assert_eq!(view.owner.as_deref(), Some("netops"));
    assert_eq!(view.tags, vec!["transit"]);
    assert!(view.terminations.is_empty());

    let plain = view.to_plain();
    assert!(plain.starts_with("cid: VC-100"));
    assert!(plain.contains("provider_network: ACME Cloud"));
    assert!(plain.contains("type: MPLS"));
    assert!(plain.contains("status: active"));
    assert!(plain.contains("owner: netops"));
    assert!(plain.contains("tags: transit"));
    assert!(plain.contains("cf.sla: gold"));
    assert!(!plain.contains("Terminations"));
}

#[test]
fn virtual_circuit_view_empty_optionals_dropped_in_json() {
    let v = vc(r#"{"id": 7, "url": "u", "cid": "VC-1", "description": ""}"#);
    let view = VirtualCircuitView::from_model(v);
    assert_eq!(view.cid, "VC-1");
    // All optional scalars + the empty terminations/tags/custom_fields are
    // omitted.
    assert!(view.provider_network.is_none());
    assert!(view.provider_account.is_none());
    assert!(view.type_.is_none());
    assert!(view.status.is_none());
    assert!(view.tenant.is_none());
    assert!(view.owner.is_none());
    assert!(view.description.is_none());
    assert!(view.terminations.is_empty());
    assert!(view.tags.is_empty());
    assert!(view.custom_fields.is_empty());
}

#[test]
fn builds_terminations_with_device_and_interface_refs() {
    let v = vc(r#"{
        "id": 7, "url": "u", "cid": "VC-100",
        "type": {"id": 2, "name": "MPLS"},
        "status": {"value": "active", "label": "Active"}
    }"#);
    let t1 = term(r#"{
        "id": 10,
        "interface": {
            "id": 50, "name": "xe-0/0/0", "display": "edge01 xe-0/0/0",
            "device": {"id": 8, "name": "edge01"}
        },
        "role": {"value": "hub", "label": "Hub"},
        "description": "a-side"
    }"#);
    let t2 = term(r#"{
        "id": 11,
        "interface": {
            "id": 51, "name": "xe-0/0/0",
            "device": {"id": 9, "name": "edge02"}
        }
    }"#);
    let view = VirtualCircuitView::build(v, vec![t1, t2]);
    assert_eq!(view.terminations.len(), 2);
    let a = &view.terminations[0];
    assert_eq!(a.endpoint, "edge01 xe-0/0/0");
    assert_eq!(a.device.as_ref().unwrap().id, 8);
    assert_eq!(a.device.as_ref().unwrap().name, "edge01");
    assert_eq!(a.interface.as_ref().unwrap().id, 50);
    assert_eq!(a.interface.as_ref().unwrap().name, "xe-0/0/0");
    assert_eq!(a.role.as_deref(), Some("hub"));
    assert_eq!(a.description.as_deref(), Some("a-side"));
    // No role/description on the second termination.
    let b = &view.terminations[1];
    assert_eq!(b.endpoint, "edge02 xe-0/0/0");
    assert!(b.role.is_none());
    assert!(b.description.is_none());

    let plain = view.to_plain();
    assert!(plain.contains("Terminations\n"));
    assert!(plain.contains("1. edge01 xe-0/0/0  ·  hub  ·  a-side"));
    assert!(plain.contains("2. edge02 xe-0/0/0"));
}

#[test]
fn unterminated_termination_shows_placeholder() {
    let v = vc(r#"{"id": 7, "url": "u", "cid": "VC-1"}"#);
    let t = term(r#"{"id": 99}"#);
    let view = VirtualCircuitView::build(v, vec![t]);
    assert_eq!(view.terminations[0].endpoint, "(unterminated)");
    assert!(view.terminations[0].device.is_none());
    assert!(view.terminations[0].interface.is_none());
    assert!(view.terminations[0].role.is_none());
    assert!(view.terminations[0].description.is_none());
}

#[test]
fn interface_without_device_uses_interface_name_only() {
    let v = vc(r#"{"id": 7, "url": "u", "cid": "VC-1"}"#);
    let t = term(r#"{
        "id": 10,
        "interface": {"id": 50, "name": "xe-0/0/0"}
    }"#);
    let view = VirtualCircuitView::build(v, vec![t]);
    assert_eq!(view.terminations[0].endpoint, "xe-0/0/0");
    assert!(view.terminations[0].device.is_none());
    assert_eq!(
        view.terminations[0].interface.as_ref().unwrap().name,
        "xe-0/0/0"
    );
}

#[test]
fn serializes_structured_device_and_interface_refs() {
    let v = vc(r#"{"id": 7, "url": "u", "cid": "VC-1"}"#);
    let t = term(r#"{
        "id": 10,
        "interface": {
            "id": 50, "name": "xe-0/0/0",
            "device": {"id": 8, "name": "edge01"}
        }
    }"#);
    let view = VirtualCircuitView::build(v, vec![t]);
    assert_eq!(view.terminations[0].device.as_ref().unwrap().id, 8);
    assert_eq!(view.terminations[0].device.as_ref().unwrap().name, "edge01");
    assert_eq!(view.terminations[0].interface.as_ref().unwrap().id, 50);
    assert_eq!(view.terminations[0].interface.as_ref().unwrap().name, "xe-0/0/0");
}

// ===== route_target_view =====

#[test]
fn from_model_flattens_tenant_and_drops_empty_description() {
    let rt = route_target(r#"{
        "id": 5, "url": "u", "name": "65000:100",
        "tenant": {"id": 1, "display": "Acme"},
        "description": "",
        "tags": [{"id": 1, "name": "prod", "slug": "prod"}]
    }"#);
    let v = RouteTargetView::from_model(rt);
    assert_eq!(v.name, "65000:100");
    assert_eq!(v.tenant.as_deref(), Some("Acme"));
    assert!(v.description.is_none(), "empty description is dropped");
    assert_eq!(v.tags, vec!["prod"]);
}

#[test]
fn to_plain_renders_both_vrf_directions() {
    let detail = RouteTargetDetail {
        summary: RouteTargetView {
            id: 5,
            name: "65000:100".into(),
            tenant: Some("Acme".into()),
            description: None,
            owner: None,
            tags: vec![],
            custom_fields: vec![],
        },
        importing_vrfs: vec![
            VrfRef {
                id: 1,
                name: "customer-prod".into(),
                rd: Some("65000:100".into()),
            },
            VrfRef {
                id: 2,
                name: "customer-dev".into(),
                rd: None,
            },
        ],
        exporting_vrfs: vec![],
    };
    let plain = detail.to_plain();
    assert!(plain.contains("name: 65000:100"));
    assert!(plain.contains("Importing VRFs (2)"));
    assert!(plain.contains("customer-prod (65000:100)"));
    assert!(plain.contains("customer-dev"));
    assert!(plain.contains("Exporting VRFs (0)"));
    assert!(plain.contains("(none)"));
}

// ===== tagged_view =====

#[test]
fn from_model_reads_the_object_brief_for_known_kinds() {
    let v = TaggedObjectView::from_model(tagged_row(
        "dcim.device",
        r#"{"id": 7, "name": "edge01", "display": "edge01", "url": "http://nb/api/dcim/devices/7/"}"#,
    ));
    assert_eq!(v.kind, "device");
    assert_eq!(v.object_type, "dcim.device");
    assert_eq!(v.id, 7);
    assert_eq!(v.display, "edge01");
    assert_eq!(v.url, "http://nb/api/dcim/devices/7/");
}

#[test]
fn kind_label_maps_every_known_content_type() {
    assert_eq!(kind_label("ipam.ipaddress"), "ip");
    assert_eq!(kind_label("ipam.iprange"), "ip-range");
    assert_eq!(kind_label("ipam.routetarget"), "route-target");
    assert_eq!(kind_label("virtualization.virtualmachine"), "vm");
    assert_eq!(kind_label("dcim.macaddress"), "mac");
}

#[test]
fn kind_label_falls_back_to_the_last_segment_for_unknown_types() {
    // A cable isn't an nbox kind; the row still renders with a derived label
    // rather than being dropped from the polymorphic result set.
    assert_eq!(kind_label("dcim.cable"), "cable");
    assert_eq!(kind_label("ipam.service"), "service");
}

#[test]
fn from_model_uses_the_object_brief_label_when_present() {
    // The object brief carries the object's own display — prefer it over the
    // row's `display`, which is NetBox's "X tagged with Y" sentence, not the
    // object's name.
    let v = TaggedObjectView::from_model(tagged_row(
        "dcim.cable",
        r#"{"id": 7, "display": "Cable #7", "url": "http://nb/api/dcim/cables/7/"}"#,
    ));
    assert_eq!(v.kind, "cable");
    assert_eq!(v.display, "Cable #7");
    assert_eq!(v.url, "http://nb/api/dcim/cables/7/");
}

#[test]
fn from_model_falls_back_to_id_label_when_the_brief_has_only_an_id() {
    // A brief with no display/name still resolves to `#<id>` (always useful —
    // it's the object's own id), not the row's "tagged with" sentence.
    let v = TaggedObjectView::from_model(tagged_row("dcim.cable", r#"{"id": 7}"#));
    assert_eq!(v.display, "#7");
}

#[test]
fn from_model_falls_back_to_row_display_when_object_brief_is_absent() {
    // A non-standard row with no `object` brief: `object` deserializes to
    // `None` (`#[serde(default)]`), so     // keep the object identifiable (rare in practice — the endpoint embeds it).
    let row = tagged_object(r#"{
        "id": 99, "url": "http://nb/api/extras/tagged-objects/99/",
        "object_type": "dcim.cable", "object_id": 7,
        "tag": {"id": 42, "name": "prod", "slug": "prod"},
        "display": "edge01 tagged with prod"
    }"#);
    let v = TaggedObjectView::from_model(row);
    assert_eq!(v.display, "edge01 tagged with prod");
    assert_eq!(v.url, "http://nb/api/extras/tagged-objects/99/");
}

#[test]
fn to_key_values_renders_kind_and_display() {
    let v = TaggedObjectView::from_model(tagged_row(
        "ipam.prefix",
        r#"{"id": 7, "display": "10.0.0.0/24", "url": "http://nb/api/ipam/prefixes/7/"}"#,
    ));
    let rendered = v.to_key_values().render();
    assert!(rendered.contains("kind: prefix"), "{rendered}");
    assert!(rendered.contains("display: 10.0.0.0/24"), "{rendered}");
}

#[test]
fn resolved_tag_from_info_carries_id_name_slug() {
    let info = TagInfo {
        id: 42,
        name: "prod:us-east".into(),
        slug: "produs-east".into(),
        color: None,
        tagged_items: None,
    };
    let r = ResolvedTag::from_info(info);
    assert_eq!(r.id, 42);
    assert_eq!(r.name, "prod:us-east");
    assert_eq!(r.slug, "produs-east");
}

#[test]
fn brief_object_label_handles_a_name_only_brief() {
    // Some object briefs carry `name` but no `display` — label() must still
    // resolve it so the row isn't blank.
    let v =
        TaggedObjectView::from_model(tagged_row("tenancy.tenant", r#"{"id": 7, "name": "Acme"}"#));
    assert_eq!(v.display, "Acme");
}

// ===== prefix_view =====

#[test]
fn utilization_is_coerced_and_rendered_when_numeric() {
    let p = prefix(r#"{
        "id": 5, "url": "u", "prefix": "10.44.208.0/24", "utilization": 75.0
    }"#);
    let view = PrefixView::build(p, vec![], vec![]);
    assert_eq!(view.utilization.as_ref().map(|u| u.percent.as_str()), Some("75"));
    let plain = view.to_plain();
    assert!(plain.contains("utilization: 75% ["), "got: {plain}");
    assert!(plain.contains('#') && plain.contains('-'));
}

#[test]
fn utilization_absent_renders_no_line() {
    let p = prefix(r#"{"id": 5, "url": "u", "prefix": "10.0.0.0/8"}"#);
    let view = PrefixView::build(p, vec![], vec![]);
    assert!(view.utilization.is_none());
    assert!(!view.to_plain().contains("utilization:"));
}

#[test]
fn build_flattens_and_collects_sections() {
    let p = prefix(r#"{
        "id": 5, "url": "http://nb/p/5/", "prefix": "10.44.208.0/24",
        "status": {"value": "active", "label": "Active"},
        "scope_type": "dcim.site",
        "scope": {"id": 1, "display": "iad1"},
        "vlan": {"id": 2, "display": "208 (users)"},
        "children": 4
    }"#);
    let children = vec![
        prefix(r#"{"id": 6, "url": "u", "prefix": "10.44.208.0/26"}"#),
    ];
    let ips = vec![
        ip_address(r#"{
            "id": 7, "url": "u", "address": "10.44.208.1/24",
            "assigned_object": {"display": "irb.208", "device": {"display": "edge01"}}
        }"#),
    ];

    let view = PrefixView::build(p, children, ips);
    assert_eq!(view.scope.as_deref(), Some("iad1"));
    assert_eq!(view.vlan.as_deref(), Some("208 (users)"));
    assert_eq!(view.children, Some(4));
    assert_eq!(view.child_prefixes, vec!["10.44.208.0/26"]);
    assert_eq!(
        view.ip_addresses[0].assigned.as_deref(),
        Some("edge01 irb.208")
    );

    let plain = view.to_plain();
    assert!(plain.contains("prefix: 10.44.208.0/24"));
    assert!(plain.contains("Child Prefixes\n  10.44.208.0/26"));
    assert!(plain.contains("IP Addresses\n  10.44.208.1/24  edge01 irb.208"));
}

// ===== vlan_view =====

#[test]
fn build_collects_prefixes() {
    let v = vlan(r#"{
        "id": 3, "url": "u", "vid": 208, "name": "users",
        "status": {"value": "active", "label": "Active"},
        "group": {"id": 1, "display": "iad1-campus"},
        "tags": [{"id": 1, "name": "users", "slug": "users"}]
    }"#);
    let prefixes = vec![
        prefix(r#"{"id": 1, "url": "u", "prefix": "10.44.208.0/24"}"#),
        prefix(r#"{"id": 2, "url": "u", "prefix": "10.45.208.0/24"}"#),
    ];

    let view = VlanView::build(v, prefixes, None);
    assert_eq!(view.vid, 208);
    assert_eq!(view.group.as_deref(), Some("iad1-campus"));
    assert_eq!(view.prefixes.len(), 2);
    assert_eq!(view.tags, vec!["users"]);

    let plain = view.to_plain();
    assert!(plain.contains("vid: 208"));
    assert!(plain.contains("tags: users"));
    assert!(plain.contains("Prefixes\n  10.44.208.0/24\n  10.45.208.0/24"));
}

#[test]
fn vlan_view_tags_dropped_when_empty() {
    let v = vlan(r#"{
        "id": 3, "url": "u", "vid": 208, "name": "users"
    }"#);
    let view = VlanView::build(v, vec![], None);
    assert!(view.tags.is_empty());
    assert!(!view.to_plain().contains("tags:"));
}

#[test]
fn direct_site_assignment_surfaces_as_site_scope() {
    let v = vlan(r#"{
        "id": 3, "url": "u", "vid": 208, "name": "users",
        "site": {"id": 1, "display": "iad1"}
    }"#);
    let view = VlanView::build(v, vec![], None);
    assert_eq!(view.scope.as_deref(), Some("iad1"));
    assert_eq!(view.scope_type.as_deref(), Some("site"));
    let plain = view.to_plain();
    assert!(plain.contains("scope: iad1"), "got: {plain}");
    assert!(plain.contains("scope_type: site"), "got: {plain}");
}

#[test]
fn polymorphic_non_site_scope_is_surfaced_with_friendly_type() {
    let v = vlan(r#"{
        "id": 3, "url": "u", "vid": 208, "name": "users",
        "scope_type": "dcim.location",
        "scope": {"id": 1, "display": "row-a"}
    }"#);
    let view = VlanView::build(v, vec![], None);
    assert_eq!(view.scope.as_deref(), Some("row-a"));
    assert_eq!(view.scope_type.as_deref(), Some("location"));

    assert_eq!(view.scope.as_deref(), Some("row-a"));
    assert_eq!(view.scope_type.as_deref(), Some("location"));
}

#[test]
fn group_scope_is_surfaced_separately_from_the_vlan_scope() {
    // The VLAN has a group AND a direct site; the group is scoped to a
    // region. The VLAN's own `site` scope is unchanged, and the group's
    // scope is surfaced on the NEW additive fields.
    let v = vlan(r#"{
        "id": 3, "url": "u", "vid": 208, "name": "users",
        "site": {"id": 1, "display": "iad1"},
        "group": {"id": 9, "display": "iad1-campus"}
    }"#);
    let group = vlan_group(r#"{
        "id": 9, "name": "iad1-campus", "slug": "iad1-campus",
        "scope_type": "dcim.region",
        "scope": {"id": 5, "display": "us-east"}
    }"#);

    let view = VlanView::build(v, vec![], Some(group));
    // Existing fields untouched.
    assert_eq!(view.scope.as_deref(), Some("iad1"));
    assert_eq!(view.scope_type.as_deref(), Some("site"));
    assert_eq!(view.group.as_deref(), Some("iad1-campus"));
    // New additive fields populated from the group's scope.
    assert_eq!(view.group_scope.as_deref(), Some("us-east"));
    assert_eq!(view.group_scope_type.as_deref(), Some("region"));

    let plain = view.to_plain();
    assert!(plain.contains("group_scope: us-east"), "got: {plain}");
    assert!(plain.contains("group_scope_type: region"), "got: {plain}");
}

#[test]
fn no_group_omits_group_scope_fields() {
    let v = vlan(r#"{
        "id": 3, "url": "u", "vid": 208, "name": "users",
        "site": {"id": 1, "display": "iad1"}
    }"#);
    let view = VlanView::build(v, vec![], None);
    assert!(view.group_scope.is_none());
    assert!(view.group_scope_type.is_none());

    assert!(view.group_scope.is_none());
    assert!(view.group_scope_type.is_none());
    let plain = view.to_plain();
    assert!(!plain.contains("group_scope"), "got: {plain}");
}

#[test]
fn group_without_a_scope_omits_group_scope_fields() {
    // The VLAN has a group, but the group itself is not scoped → omit.
    let v = vlan(r#"{
        "id": 3, "url": "u", "vid": 208, "name": "users",
        "group": {"id": 9, "display": "campus"}
    }"#);
    let group = vlan_group(r#"{
        "id": 9, "name": "campus", "slug": "campus"
    }"#);
    let view = VlanView::build(v, vec![], Some(group));
    assert!(view.group_scope.is_none());
    assert!(view.group_scope_type.is_none());
}

// ===== vrf_view =====

#[test]
fn flattens_vrf() {
    let v = vrf(r#"{
        "id": 7, "url": "u", "name": "customer-prod",
        "rd": "65000:100",
        "tenant": {"id": 1, "display": "Acme Corp"},
        "enforce_unique": true,
        "import_targets": [{"id": 1, "name": "65000:100"}, {"id": 2, "name": "65000:200"}],
        "export_targets": [{"id": 1, "name": "65000:100"}],
        "prefix_count": 12,
        "ipaddress_count": 48,
        "tags": [{"id": 1, "name": "prod", "slug": "prod"}]
    }"#);
    let view = VrfView::from_model(v);
    assert_eq!(view.rd.as_deref(), Some("65000:100"));
    assert_eq!(view.tenant.as_deref(), Some("Acme Corp"));
    assert_eq!(view.enforce_unique, Some(true));
    assert_eq!(
        view.import_targets
            .iter()
            .map(|r| (r.id, r.name.as_str()))
            .collect::<Vec<_>>(),
        vec![(1, "65000:100"), (2, "65000:200")]
    );
    assert_eq!(view.export_targets.len(), 1);
    assert_eq!(view.prefix_count, Some(12));
    let plain = view.to_key_values().render();
    assert!(plain.contains("rd: 65000:100"));
    assert!(plain.contains("import_targets: 65000:100, 65000:200"));
    assert!(plain.contains("prefixes: 12"));
    assert!(plain.contains("tags: prod"));
}

#[test]
fn empty_optionals_dropped() {
    let v = vrf(r#"{
        "id": 1, "url": "u", "name": "global"
    }"#);
    let view = VrfView::from_model(v);
    assert!(view.rd.is_none());
    assert!(view.import_targets.is_empty());
    assert!(view.rd.is_none());
    assert!(view.import_targets.is_empty());
    assert!(!view.to_key_values().render().contains("rd:"));
}

// ===== interface_view =====

#[test]
fn flattens_interface_with_vlans_and_ips() {
    let iface = interface(r##"{
        "id": 42, "url": "u", "name": "xe-0/0/1",
        "device": {"id": 1, "display": "edge01"},
        "enabled": true,
        "type": {"value": "10gbase-x-sfpp", "label": "SFP+ (10GE)"},
        "mtu": 9000,
        "mode": {"value": "tagged", "label": "Tagged"},
        "untagged_vlan": {"id": 5, "display": "10 (mgmt)"},
        "tagged_vlans": [{"id": 6, "display": "20 (prod)"}, {"id": 7, "display": "30 (dev)"}],
        "cable": {"id": 3, "display": "#3"},
        "connected_endpoints": [{"id": 99, "display": "core01 xe-1/0/0"}],
        "tags": [{"id": 1, "name": "uplink", "slug": "uplink"}],
        "custom_fields": {}
    }"##);
    let ips = vec![
        ip_address(r#"{"id": 8, "url": "u", "address": "10.0.0.1/31"}"#),
    ];

    let view = InterfaceView::build(iface, ips, vec![]);
    assert!(view.trace.is_empty());
    assert_eq!(view.device.as_deref(), Some("edge01"));
    assert_eq!(view.type_.as_deref(), Some("SFP+ (10GE)"));
    assert_eq!(view.mode.as_deref(), Some("Tagged"));
    assert_eq!(view.untagged_vlan.as_deref(), Some("10 (mgmt)"));
    assert_eq!(view.tagged_vlans, vec!["20 (prod)", "30 (dev)"]);
    assert_eq!(view.connected_to, vec!["core01 xe-1/0/0"]);
    assert_eq!(view.tags, vec!["uplink"]);

    let plain = view.to_plain();
    assert!(plain.contains("name: xe-0/0/1"));
    assert!(plain.contains("tags: uplink"));
    assert!(plain.contains("Tagged VLANs\n  20 (prod)\n  30 (dev)"));
    assert!(plain.contains("Connected To\n  core01 xe-1/0/0"));
    assert!(plain.contains("IP Addresses\n  10.0.0.1/31"));
}

#[test]
fn interface_view_tags_dropped_when_empty() {
    let iface = interface(r#"{"id": 1, "url": "u", "name": "xe-0/0/0"}"#);
    let view = InterfaceView::build(iface, vec![], vec![]);
    assert!(view.tags.is_empty());
    assert!(!view.to_plain().contains("tags:"));
}

#[test]
fn renders_cable_trace_path() {
    let iface = interface(r#"{"id": 1, "url": "u", "name": "xe-0/0/0"}"#);
    // One hop: near interface --[cable]-- far interface (each side an array).
    let trace = vec![json(&parse(r#"[
        [{"display": "xe-0/0/0", "device": {"display": "edge01"}}],
        {"display": "Cable #3"},
        [{"display": "xe-1/0/0", "device": {"display": "core01"}}]
    ]"#))];

    let view = InterfaceView::build(iface, vec![], trace);
    // The flat, machine-readable trace is unchanged (the JSON contract).
    assert_eq!(
        view.trace,
        vec!["edge01 xe-0/0/0 --[Cable #3]-- core01 xe-1/0/0"]
    );
    // The diagram draws the same hop as a vertical A↔Z chain.
    assert_eq!(
        view.diagram,
        vec![
            "edge01 xe-0/0/0",
            "  │",
            "  ┿ Cable #3",
            "  │",
            "core01 xe-1/0/0",
        ]
    );
    // Plain output renders the diagram under the Cable Path heading.
    let plain = view.to_plain();
    assert!(plain.contains("Cable Path"));
    assert!(plain.contains("┿ Cable #3"));
    // The TUI summary body omits the cable path (it lives in the Path tab).
    assert!(!view.to_summary_plain().contains("Cable Path"));
}

#[test]
fn cable_diagram_includes_type_length_and_status() {
    let iface = interface(r#"{"id": 1, "url": "u", "name": "xe-0/0/0"}"#);
    let trace = vec![json(&parse(r##"[
        [{"display": "xe-0/0/0", "device": {"display": "edge01"}}],
        {
            "display": "#3",
            "type": {"value": "cat6", "label": "CAT6"},
            "status": {"value": "connected", "label": "Connected"},
            "length": 5, "length_unit": {"value": "m", "label": "Meters"}
        },
        [{"display": "xe-1/0/0", "device": {"display": "core01"}}]
    ]"##))];
    let view = InterfaceView::build(iface, vec![], trace);
    // The cable segment carries label · type · length(unit) · status.
    assert!(
        view.diagram
            .iter()
            .any(|l| l == "  ┿ #3 · CAT6 · 5m · Connected"),
        "got: {:?}",
        view.diagram
    );
}

#[test]
fn cable_diagram_chains_through_a_panel_without_doubling() {
    let iface = interface(r#"{"id": 1, "url": "u", "name": "xe-0/0/0"}"#);
    // Two hops through a patch panel: hop 2's near end repeats hop 1's far end.
    let trace = vec![
        json(&parse(r##"[
            [{"display": "xe-0/0/0", "device": {"display": "edge01"}}],
            {"display": "#3"},
            [{"display": "front1", "device": {"display": "panel-a"}}]
        ]"##)),
        json(&parse(r##"[
            [{"display": "front1", "device": {"display": "panel-a"}}],
            {"display": "#4"},
            [{"display": "xe-1/0/0", "device": {"display": "core01"}}]
        ]"##)),
    ];
    let view = InterfaceView::build(iface, vec![], trace);
    // The shared panel termination appears exactly once, not doubled.
    let panel_lines = view
        .diagram
        .iter()
        .filter(|l| l.as_str() == "panel-a front1")
        .count();
    assert_eq!(panel_lines, 1, "panel doubled: {:?}", view.diagram);
    // Both cables in the path are drawn.
    assert!(view.diagram.iter().any(|l| l.contains("┿ #3")));
    assert!(view.diagram.iter().any(|l| l.contains("┿ #4")));
}

// ===== ip_view =====

#[test]
fn most_specific_picks_longest_prefix() {
    let chosen = most_specific(vec![
        cidr("10.0.0.0/8"),
        cidr("10.44.208.0/24"),
        cidr("10.44.0.0/16"),
    ])
    .unwrap();
    assert_eq!(chosen.prefix, "10.44.208.0/24");
}

#[test]
fn most_specific_handles_empty_and_unparseable() {
    assert!(most_specific(vec![]).is_none());
    assert!(most_specific(vec![cidr("not-a-cidr")]).is_none());
}

#[test]
fn assigned_label_combines_device_and_interface() {
    let v = parse(r#"{"display": "xe-0/0/1", "device": {"display": "edge01"}}"#);
    assert_eq!(assigned_label(&json(&v)).as_deref(), Some("edge01 xe-0/0/1"));

    let bare = parse(r#"{"name": "eth0"}"#);
    assert_eq!(assigned_label(&json(&bare)).as_deref(), Some("eth0"));
}

#[test]
fn build_pulls_context_from_parent_prefix() {
    let ip = ip_address(r#"{
        "id": 7, "url": "http://nb/ip/7/", "address": "10.44.208.55/24",
        "status": {"value": "active", "label": "Active"},
        "dns_name": "printer-55.example.com",
        "tags": [{"id": 1, "name": "printer", "slug": "printer"}]
    }"#);
    let parent = prefix(r#"{
        "id": 5, "url": "http://nb/p/5/", "prefix": "10.44.208.0/24",
        "scope_type": "dcim.site",
        "scope": {"id": 1, "display": "iad1"},
        "vlan": {"id": 2, "display": "208 (users)"}
    }"#);

    let view = IpView::build(ip, Some(parent));
    assert_eq!(view.parent_prefix.as_deref(), Some("10.44.208.0/24"));
    assert_eq!(view.scope.as_deref(), Some("iad1"));
    assert_eq!(view.scope_type.as_deref(), Some("site"));
    assert_eq!(view.vlan.as_deref(), Some("208 (users)"));
    assert_eq!(view.dns_name.as_deref(), Some("printer-55.example.com"));
    assert_eq!(view.tags, vec!["printer"]);
    assert!(view.to_key_values().render().contains("tags: printer"));
}

#[test]
fn ip_view_tags_dropped_when_empty() {
    let ip = ip_address(r#"{
        "id": 7, "url": "http://nb/ip/7/", "address": "10.0.0.5/24"
    }"#);
    let view = IpView::build(ip, None);
    assert!(view.tags.is_empty());
    assert!(!view.to_key_values().render().contains("tags:"));
}

#[test]
fn build_renders_nat_inside_on_an_outside_ip() {
    // NetBox 4.6 embeds `nat_inside` (a brief IP ref) on the *outside* IP.
    // Addresses are RFC-reserved (TEST-NET-3 outside, CGNAT inside) — no live
    // infrastructure data.
    let ip = ip_address(r#"{
        "id": 4101, "url": "http://nb/ip/4101/", "address": "203.0.113.5/32",
        "nat_inside": {"id": 4100, "address": "100.64.0.9/30", "display": "100.64.0.9/30"}
    }"#);
    let view = IpView::build(ip, None);
    assert_eq!(view.nat_inside.as_deref(), Some("100.64.0.9/30"));
    assert!(view.nat_outside.is_empty());

    // JSON: `nat_inside` set, `nat_outside` omitted (empty Vec → skip).
    assert_eq!(view.nat_inside.as_deref(), Some("100.64.0.9/30"));
    assert!(
        view.nat_outside.is_empty(),
        "empty nat_outside must be omitted"
    );

    let kv = view.to_key_values().render();
    assert!(kv.contains("nat_inside: 100.64.0.9/30"), "got: {kv}");
    assert!(!kv.contains("nat_outside:"), "got: {kv}");
}

#[test]
fn build_renders_nat_outside_on_an_inside_ip() {
    // The reciprocal: NetBox 4.6 embeds `nat_outside` (an array of brief IP
    // refs) on the *inside* IP. Addresses are RFC-reserved (CGNAT inside,
    // TEST-NET-3 outside) — no live infrastructure data.
    let ip = ip_address(r#"{
        "id": 4100, "url": "http://nb/ip/4100/", "address": "100.64.0.9/30",
        "nat_outside": [
            {"id": 4101, "address": "203.0.113.5/32", "display": "203.0.113.5/32"},
            {"id": 4102, "address": "203.0.113.71/32", "display": "203.0.113.71/32"}
        ]
    }"#);
    let view = IpView::build(ip, None);
    assert!(view.nat_inside.is_none());
    assert_eq!(view.nat_outside, vec!["203.0.113.5/32", "203.0.113.71/32"]);

    assert!(
        view.nat_inside.is_none(),
        "nat_inside absent on an inside IP"
    );

    let kv = view.to_key_values().render();
    assert!(
        kv.contains("nat_outside: 203.0.113.5/32, 203.0.113.71/32"),
        "got: {kv}"
    );
    assert!(!kv.contains("nat_inside:"), "got: {kv}");
}

#[test]
fn build_omits_both_nat_fields_when_absent() {
    // A non-NAT IP carries neither field — both stay omitted (byte-identical
    // to pre-NAT output), so the enrichment can't disturb existing consumers.
    let ip = ip_address(r#"{
        "id": 7, "url": "http://nb/ip/7/", "address": "10.0.0.5/24"
    }"#);
    let view = IpView::build(ip, None);
    assert!(view.nat_inside.is_none());
    assert!(view.nat_outside.is_empty());
    assert!(view.nat_inside.is_none());
    assert!(view.nat_outside.is_empty());
}

#[test]
fn build_derives_non_site_scope_from_parent() {
    let ip = ip_address(r#"{
        "id": 7, "url": "http://nb/ip/7/", "address": "10.0.0.5/24"
    }"#);
    let parent = prefix(r#"{
        "id": 5, "url": "http://nb/p/5/", "prefix": "10.0.0.0/24",
        "scope_type": "dcim.region",
        "scope": {"id": 1, "display": "us-east"}
    }"#);

    let view = IpView::build(ip, Some(parent));
    assert_eq!(view.scope.as_deref(), Some("us-east"));
    assert_eq!(view.scope_type.as_deref(), Some("region"));

    // The JSON view must expose `scope`/`scope_type` and carry no `site` key.
    assert_eq!(view.scope.as_deref(), Some("us-east"));
    assert_eq!(view.scope_type.as_deref(), Some("region"));

    let kv = view.to_key_values().render();
    assert!(kv.contains("scope: us-east"), "got: {kv}");
    assert!(kv.contains("scope_type: region"), "got: {kv}");
    assert!(!kv.contains("site:"), "got: {kv}");
}

// ===== device_detail =====

#[test]
fn composes_sections_and_dedups_vlans() {
    let interfaces = vec![
        interface(r##"{
            "id": 1, "url": "u", "name": "xe-0/0/0", "enabled": true,
            "type": {"value": "x", "label": "SFP+"},
            "untagged_vlan": {"id": 10, "display": "10 (mgmt)"},
            "tagged_vlans": [{"id": 20, "display": "20 (prod)"}],
            "cable": {"id": 3, "display": "#3"},
            "connected_endpoints": [{"id": 9, "display": "core01 xe-1/0/0"}]
        }"##),
        interface(r#"{
            "id": 2, "url": "u", "name": "xe-0/0/1", "enabled": false,
            "tagged_vlans": [{"id": 20, "display": "20 (prod)"}]
        }"#),
    ];
    let ips = vec![
        ip_address(r#"{
            "id": 7, "url": "u", "address": "10.0.0.1/31",
            "assigned_object": {"name": "xe-0/0/0"}
        }"#),
    ];

    let detail = DeviceDetail::build(edge01(), interfaces, ips);
    assert_eq!(detail.interfaces.len(), 2);
    assert_eq!(detail.cables.len(), 1);
    // VLAN 20 appears on both interfaces but is deduped.
    assert_eq!(detail.vlans.len(), 2);
    assert_eq!(
        detail.ip_addresses[0].interface.as_deref(),
        Some("xe-0/0/0")
    );

    let plain = detail.to_plain();
    assert!(plain.starts_with("name: edge01"));
    assert!(plain.contains("Interfaces\n  xe-0/0/0  SFP+\n  xe-0/0/1  (disabled)"));
    assert!(plain.contains("IP Addresses\n  10.0.0.1/31  xe-0/0/0"));
    assert!(plain.contains("Cables\n  xe-0/0/0 -> core01 xe-1/0/0"));
    assert!(plain.contains("VLANs\n  10 (mgmt)\n  20 (prod)"));
}

// ===== history_view =====

#[test]
fn renders_update_with_fields_and_user() {
    let changes = vec![object_change(r#"{
        "id": 1,
        "action": {"value": "update", "label": "Updated"},
        "time": "2025-12-08T23:56:49.235526Z",
        "user_name": "neteng",
        "object_repr": "edge01",
        "message": "",
        "request_id": "bc44c7b8-ff00-4666-bf82-59f33c706155",
        "prechange_data": {"name": "edge01", "status": "active", "site_id": 1},
        "postchange_data": {"name": "edge01", "status": "decommissioned", "site_id": 2, "comments": "retired"}
    }"#)];
    let view = HistoryView::from_models(changes, false);
    let row = &view.entries[0];
    assert_eq!(row.action.as_deref(), Some("update"));
    assert_eq!(row.user.as_deref(), Some("neteng"));
    assert_eq!(row.object.as_deref(), Some("edge01"));
    // status (changed), site_id (changed), comments (added) — name unchanged.
    assert_eq!(row.fields_changed, vec!["comments", "site_id", "status"]);
    let plain = view.to_plain();
    assert!(plain.contains("Updated"), "got: {plain}");
    assert!(plain.contains("neteng"), "got: {plain}");
    assert!(plain.contains("edge01"), "got: {plain}");
    assert!(
        plain.contains("fields: comments, site_id, status"),
        "got: {plain}"
    );
}

#[test]
fn empty_history_is_explicit() {
    let view = HistoryView::from_models(vec![], false);
    assert_eq!(view.to_plain(), "no change history");
}

#[test]
fn create_lists_all_postchange_fields() {
    let changes = || vec![
        object_change(r#"{
            "id": 2,
            "action": {"value": "create", "label": "Created"},
            "time": "2025-12-24T14:58:30Z",
            "user_name": "fleetops",
            "object_repr": "edge02",
            "message": "",
            "prechange_data": null,
            "postchange_data": {"name": "edge02", "status": "active", "site_id": 5}
        }"#),
    ];
    let view = HistoryView::from_models(changes(), false);
    // prechange is null → no diff (only both-present objects are compared).
    assert!(view.entries[0].fields_changed.is_empty());
}

#[test]
fn user_falls_back_to_nested_user_object() {
    let changes = vec![ObjectChange {
        id: 3,
        action: Some(Choice {
            value: "delete".into(),
            label: "Deleted".into(),
        }),
        time: Some("2025-12-31T00:00:00Z".into()),
        user_name: None,
        user: Some(as_brief(&parse(r#"{"id": 307, "display": "neteng (Network Engineering)"}"#))),
        object_repr: Some("edge03".into()),
        message: String::new(),
        request_id: None,
        prechange_data: None,
        postchange_data: None,
    }];
    let view = HistoryView::from_models(changes, false);
    assert_eq!(
        view.entries[0].user.as_deref(),
        Some("neteng (Network Engineering)")
    );
}

/// `diff=true` populates the full `before`/`after` payloads (and still
/// derives `fields_changed` from them), while `diff=false` omits them so the
/// default list stays compact.
#[test]
fn diff_carries_full_before_after_payloads() {
    let changes = || vec![
        object_change(r#"{
            "id": 11,
            "action": {"value": "update", "label": "Updated"},
            "time": "2025-12-08T23:56:49Z",
            "user_name": "neteng",
            "object_repr": "edge01",
            "message": "retired",
            "request_id": "bc44-0002",
            "prechange_data": {"name": "edge01", "status": "active"},
            "postchange_data": {"name": "edge01", "status": "decommissioned", "site_id": 2}
        }"#),
    ];

    let compact = HistoryView::from_models(changes(), false);
    assert!(compact.entries[0].before.is_none());
    assert!(compact.entries[0].after.is_none());
    assert_eq!(compact.entries[0].fields_changed, vec!["site_id", "status"]);

    let full = HistoryView::from_models(changes(), true);
    assert_eq!(
        full.entries[0].before.as_ref().map(|p| p.raw.clone()),
        Some(parse(r#"{"name": "edge01", "status": "active"}"#))
    );
    assert_eq!(
        full.entries[0].after.as_ref().map(|p| p.raw.clone()),
        Some(parse(r#"{"name": "edge01", "status": "decommissioned", "site_id": 2}"#))
    );
    // fields_changed is still derived the same way.
    assert_eq!(full.entries[0].fields_changed, vec!["site_id", "status"]);
}

/// The plain render includes a `before:`/`after:` indented JSON block only
/// when the payloads are present (diff mode); the compact list is unchanged.
#[test]
fn diff_plain_render_includes_before_after_blocks() {
    let changes = || vec![
        object_change(r#"{
            "id": 12,
            "action": {"value": "update", "label": "Updated"},
            "time": "2025-12-08T23:56:49Z",
            "user_name": "neteng",
            "object_repr": "edge01",
            "message": "",
            "request_id": "bc44-0003",
            "prechange_data": {"status": "active"},
            "postchange_data": {"status": "decommissioned"}
        }"#),
    ];

    let compact_plain = HistoryView::from_models(changes(), false).to_plain();
    assert!(
        !compact_plain.contains("before:"),
        "compact render has no before block"
    );
    assert!(
        !compact_plain.contains("after:"),
        "compact render has no after block"
    );

    let diff_plain = HistoryView::from_models(changes(), true).to_plain();
    assert!(
        diff_plain.contains("before:"),
        "diff render has before block"
    );
    assert!(diff_plain.contains("after:"), "diff render has after block");
    assert!(
        diff_plain.contains("\"active\""),
        "diff render shows the pre value"
    );
    assert!(
        diff_plain.contains("\"decommissioned\""),
        "diff render shows the post value"
    );
}

// ===== util =====

#[test]
fn non_empty_drops_empty_string() {
    assert_eq!(non_empty(String::new()), None);
    assert_eq!(non_empty("x".to_string()), Some("x".to_string()));
}

#[test]
fn non_empty_composes_with_and_then() {
    let present: Option<String> = Some("kept".to_string());
    let blank: Option<String> = Some(String::new());
    let absent: Option<String> = None;
    assert_eq!(present.and_then(non_empty), Some("kept".to_string()));
    assert_eq!(blank.and_then(non_empty), None);
    assert_eq!(absent.and_then(non_empty), None);
}

#[test]
fn non_zero_drops_zero_and_none() {
    assert_eq!(non_zero(Some(3)), Some(3));
    assert_eq!(non_zero(Some(0)), None);
    assert_eq!(non_zero(None), None);
}

// ===== custom =====

#[test]
fn drops_null_and_empty_keeps_typed_values() {
    let cf = parse(r#"{
        "ticket": "INC-42",
        "owner": null,
        "notes": "",
        "monitored": true,
        "rack_units": 4
    }"#);
    let kept = fields(json(&cf));
    let shown = |key: &str| kept.iter().find(|m| m.name == key).map(|m| display(&m.value));
    assert_eq!(kept.len(), 3);
    assert_eq!(shown("ticket").as_deref(), Some("INC-42"));
    assert_eq!(shown("monitored").as_deref(), Some("true"));
    assert_eq!(shown("rack_units").as_deref(), Some("4"));
    assert!(shown("owner").is_none());
    assert!(shown("notes").is_none());
}

#[test]
fn non_object_yields_empty() {
    assert!(fields(json(&parse("null"))).is_empty());
}

