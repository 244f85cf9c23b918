//! Following a circuit termination's cable to the device it lands on.
//!
//! The walk goes from the termination's link peer through patch panels, from one
//! face of a panel to the other, until it reaches a device interface, a dead end,
//! a place it has seen, or its limit. Each step says what to read next; the next
//! step takes what was read.

use vstd::prelude::*;

use crate::domain::circuit_view::PathHop;
use crate::domain::virtual_circuit_view::DeviceRef;
use crate::json::{get_str, get_str_either, get_u64, string_at, string_at_either, whole_at, Json};
use crate::netbox::models::{id_text, label_of, opt_label, CircuitTermination};
use crate::split::{contains, occurs};
use crate::text::{cat3, copy_opt, opt_str, opt_text, same, Text};

verus! {

/// How far a walk goes.
pub const CIRCUIT_PATH_CAP: usize = 5;

/// What a cabled object is, by its URL.
#[derive(Debug, Clone, Copy, PartialEq, Eq, Structural)]
pub enum PortKind {
    Interface,
    FrontPort,
    RearPort,
    Other,
}

/// What the URL of a cabled object says it is.
pub open spec fn kind_of_url(url: Option<Text>) -> PortKind {
    match url {
        Some(u) => if occurs(u, "/interfaces/"@) {
            PortKind::Interface
        } else if occurs(u, "/front-ports/"@) {
            PortKind::FrontPort
        } else if occurs(u, "/rear-ports/"@) {
            PortKind::RearPort
        } else {
            PortKind::Other
        },
        None => PortKind::Other,
    }
}

/// Tells what a cabled object is.
pub fn port_kind(url: Option<&str>) -> (r: PortKind)
    ensures
        r == kind_of_url(opt_str(url)),
{
    match url {
        Some(u) => if contains(u, "/interfaces/") {
            PortKind::Interface
        } else if contains(u, "/front-ports/") {
            PortKind::FrontPort
        } else if contains(u, "/rear-ports/") {
            PortKind::RearPort
        } else {
            PortKind::Other
        },
        None => PortKind::Other,
    }
}

/// A stop reached by crossing a cable.
#[derive(Debug)]
pub struct NextHop {
    pub url: Option<String>,
    pub to: String,
    pub device: Option<DeviceRef>,
    pub id: u64,
    pub kind: PortKind,
    pub cable: Option<String>,
}

// ===== Reading ports =====================================================

/// The rear port that an element of a front port's mapping names: by number, or
/// as a nested object.
pub open spec fn mapped_rear(e: Json) -> Option<nat> {
    match e.at("rear_port"@) {
        Some(rp) => if rp.whole() is Some {
            rp.whole()
        } else {
            whole_at(rp, "id"@)
        },
        None => None,
    }
}

/// The numbers that are there, in order.
pub open spec fn mapped_rears(items: Seq<Json>) -> Seq<nat>
    decreases items.len(),
{
    if items.len() == 0 {
        Seq::empty()
    } else {
        match mapped_rear(items.last()) {
            Some(n) => mapped_rears(items.drop_last()).push(n),
            None => mapped_rears(items.drop_last()),
        }
    }
}

/// The nested rear port of a front port.
pub open spec fn single_rear(fp: Json) -> Seq<nat> {
    match fp.at("rear_port"@) {
        Some(rp) => match whole_at(rp, "id"@) {
            Some(n) => seq![n],
            None => Seq::empty(),
        },
        None => Seq::empty(),
    }
}

/// The rear ports that a front port is mapped to: the single one, then those of
/// the list.
pub open spec fn rear_ids(fp: Json) -> Seq<nat> {
    single_rear(fp) + match fp.at("rear_ports"@) {
        Some(list) => match list.array() {
            Some(items) => mapped_rears(items),
            None => Seq::empty(),
        },
        None => Seq::empty(),
    }
}

/// Ids as numbers.
pub open spec fn ids(v: Seq<u64>) -> Seq<nat> {
    Seq::new(v.len(), |i: int| v[i] as nat)
}

fn rear_of_element(e: &Json) -> (r: Option<u64>)
    ensures
        match r {
            Some(n) => mapped_rear(*e) == Some(n as nat),
            None => mapped_rear(*e) is None,
        },
{
    match e.get("rear_port") {
        Some(rp) => match rp.as_u64() {
            Some(n) => Some(n),
            None => get_u64(rp, "id"),
        },
        None => None,
    }
}

fn push_id(out: &mut Vec<u64>, n: u64)
    ensures
        ids(final(out)@) == ids(old(out)@).push(n as nat),
{
    let ghost before = ids(out@);
    out.push(n);
    proof {
        assert(ids(out@) =~= before.push(n as nat));
    }
}

/// The rear ports that a front port is mapped to.
pub fn front_rear_ids(fp: &Json) -> (r: Vec<u64>)
    ensures
        ids(r@) == rear_ids(*fp),
{
    let mut out: Vec<u64> = Vec::new();
    if let Some(rp) = fp.get("rear_port") {
        if let Some(n) = get_u64(rp, "id") {
            out.push(n);
        }
    }
    let ghost head = ids(out@);
    proof {
        assert(head =~= single_rear(*fp));
    }
    if let Some(list) = fp.get("rear_ports") {
        if let Some(items) = list.as_array() {
            let mut i: usize = 0;
            proof {
                assert(items@.take(0) =~= Seq::empty());
                assert(head + mapped_rears(items@.take(0)) =~= head);
            }
            while i < items.len()
                invariant
                    i <= items.len(),
                    ids(out@) == head + mapped_rears(items@.take(i as int)),
                decreases items.len() - i,
            {
                proof {
                    assert(items@.take(i as int + 1).drop_last() =~= items@.take(i as int));
                }
                if let Some(n) = rear_of_element(&items[i]) {
                    push_id(&mut out, n);
                    proof {
                        assert((head + mapped_rears(items@.take(i as int))).push(n as nat) =~= head
                            + mapped_rears(items@.take(i as int)).push(n as nat));
                    }
                }
                i = i + 1;
            }
            proof {
                assert(items@.take(i as int) =~= items@);
            }
            return out;
        }
    }
    proof {
        assert(head + Seq::<nat>::empty() =~= head);
    }
    out
}

/// The label of a cable: its display text or label, else `#<id>`.
pub open spec fn cable_name(v: Json) -> Option<Text> {
    if crate::text::is_some_nonempty(string_at_either(v, "display"@, "label"@)) {
        string_at_either(v, "display"@, "label"@)
    } else {
        match whole_at(v, "id"@) {
            Some(n) => Some("#"@ + crate::number::decimal_text(n)),
            None => None,
        }
    }
}

/// Names a cable.
pub fn cable_label_value(v: &Json) -> (r: Option<String>)
    ensures
        opt_text(r) == cable_name(*v),
{
    if let Some(s) = get_str_either(v, "display", "label") {
        if !s.is_empty() {
            return Some(s.to_owned());
        }
    }
    match get_u64(v, "id") {
        Some(n) => Some(id_text(n)),
        None => None,
    }
}

/// The string at the first of two keys that is present, or nothing.
pub open spec fn string_or_nothing(v: Json, first: Text, second: Text) -> Text {
    match string_at_either(v, first, second) {
        Some(s) => s,
        None => Seq::empty(),
    }
}

fn str_or_nothing(v: &Json, first: &str, second: &str) -> (r: String)
    ensures
        r@ == string_or_nothing(*v, first@, second@),
{
    match get_str_either(v, first, second) {
        Some(s) => s.to_owned(),
        None => String::new(),
    }
}

/// Whether a reference is the device that a JSON object describes.
pub open spec fn refers_to(r: Option<DeviceRef>, d: Json) -> bool {
    match whole_at(d, "id"@) {
        Some(n) => r is Some && r->0.id == n && r->0.name@ == string_or_nothing(
            d,
            "name"@,
            "display"@,
        ),
        None => r is None,
    }
}

/// The reference to the device that a JSON object describes.
pub fn device_ref_from_value(d: &Json) -> (r: Option<DeviceRef>)
    ensures
        refers_to(r, *d),
{
    match get_u64(d, "id") {
        Some(id) => Some(DeviceRef { id, name: str_or_nothing(d, "name", "display") }),
        None => None,
    }
}

/// The device of a port.
pub open spec fn port_device(r: Option<DeviceRef>, peer: Json) -> bool {
    match peer.at("device"@) {
        Some(d) => refers_to(r, d),
        None => r is None,
    }
}

/// Whether a hop is the stop that a link peer describes, over a cable.
pub open spec fn hop_is_peer(hop: NextHop, peer: Json, cable: Option<Text>) -> bool {
    let port = string_or_nothing(peer, "display"@, "name"@);
    &&& whole_at(peer, "id"@) == Some(hop.id as nat)
    &&& opt_text(hop.url) == string_at(peer, "url"@)
    &&& port_device(hop.device, peer)
    &&& hop.to@ == match hop.device {
        Some(d) => d.name@ + " "@ + port,
        None => port,
    }
    &&& hop.kind == kind_of_url(string_at(peer, "url"@))
    &&& opt_text(hop.cable) == cable
}

/// The stop that a link peer describes; none without an id.
pub fn next_hop_from_peer(peer: &Json, cable: Option<String>) -> (r: Option<NextHop>)
    ensures
        match r {
            Some(hop) => hop_is_peer(hop, *peer, opt_text(cable)),
            None => whole_at(*peer, "id"@) is None,
        },
{
    let id = match get_u64(peer, "id") {
        Some(n) => n,
        None => return None,
    };
    let url = match get_str(peer, "url") {
        Some(s) => Some(s.to_owned()),
        None => None,
    };
    let port = str_or_nothing(peer, "display", "name");
    let device = match peer.get("device") {
        Some(d) => device_ref_from_value(d),
        None => None,
    };
    let to = match &device {
        Some(d) => cat3(d.name.as_str(), " ", port.as_str()),
        None => port,
    };
    let kind = port_kind(crate::text::as_opt_str(&url));
    Some(NextHop { url, to, device, id, kind, cable })
}

/// The first link peer of a port.
pub open spec fn first_peer(port: Json) -> Option<Json> {
    match port.at("link_peers"@) {
        Some(list) => match list.array() {
            Some(items) => if items.len() > 0 {
                Some(items[0])
            } else {
                None
            },
            None => None,
        },
        None => None,
    }
}

fn peer_of(port: &Json) -> (r: Option<&Json>)
    ensures
        match r {
            Some(p) => first_peer(*port) == Some(*p),
            None => first_peer(*port) is None,
        },
{
    match port.get("link_peers") {
        Some(list) => match list.as_array() {
            Some(items) => if items.len() > 0 {
                Some(&items[0])
            } else {
                None
            },
            None => None,
        },
        None => None,
    }
}

/// The label of the cable on a port.
pub open spec fn port_cable(port: Json) -> Option<Text> {
    match port.at("cable"@) {
        Some(c) => cable_name(c),
        None => None,
    }
}

fn cable_of(port: &Json) -> (r: Option<String>)
    ensures
        opt_text(r) == port_cable(*port),
{
    match port.get("cable") {
        Some(c) => cable_label_value(c),
        None => None,
    }
}

/// Whether a hop is the stop across a port's cable; none when the port has no
/// peer, or one without an id.
pub open spec fn hop_is_across(hop: Option<NextHop>, port: Json) -> bool {
    match first_peer(port) {
        Some(peer) => match hop {
            Some(h) => hop_is_peer(h, peer, port_cable(port)),
            None => whole_at(peer, "id"@) is None,
        },
        None => hop is None,
    }
}

/// The stop across a rear port's cable.
pub fn across(port: &Json) -> (r: Option<NextHop>)
    ensures
        hop_is_across(r, *port),
{
    match peer_of(port) {
        Some(peer) => next_hop_from_peer(peer, cable_of(port)),
        None => None,
    }
}

/// The first front port, from a position on, that is mapped to a rear port and
/// has a peer.
pub open spec fn front_index(fronts: Seq<Json>, rear: nat) -> nat
    decreases fronts.len(),
{
    if fronts.len() == 0 || (rear_ids(fronts[0]).contains(rear) && first_peer(fronts[0]) is Some) {
        0
    } else {
        front_index(fronts.skip(1), rear) + 1
    }
}

fn maps_to(fp: &Json, rear: u64) -> (r: bool)
    ensures
        r == rear_ids(*fp).contains(rear as nat),
{
    let found = front_rear_ids(fp);
    let mut i: usize = 0;
    while i < found.len()
        invariant
            i <= found.len(),
            ids(found@) == rear_ids(*fp),
            forall|j: int| 0 <= j < i ==> (#[trigger] found@[j]) != rear,
        decreases found.len() - i,
    {
        if found[i] == rear {
            proof {
                assert(ids(found@)[i as int] == rear as nat);
            }
            return true;
        }
        i = i + 1;
    }
    proof {
        if rear_ids(*fp).contains(rear as nat) {
            let k = choose|k: int|
                0 <= k < rear_ids(*fp).len() && rear_ids(*fp)[k] == rear as nat;
            assert(ids(found@)[k] == found@[k] as nat);
        }
    }
    false
}

/// From the rear of a panel: the stop across the cable of the first front port
/// that is mapped to it and cabled.
pub fn front_for_rear(fronts: &Vec<Json>, rear_id: u64) -> (r: Option<NextHop>)
    ensures
        ({
            let n = front_index(fronts@, rear_id as nat);
            if n < fronts@.len() {
                hop_is_across(r, fronts@[n as int])
            } else {
                r is None
            }
        }),
{
    let mut i: usize = 0;
    proof {
        assert(fronts@.skip(0) =~= fronts@);
    }
    while i < fronts.len()
        invariant
            i <= fronts.len(),
            front_index(fronts@, rear_id as nat) == i + front_index(
                fronts@.skip(i as int),
                rear_id as nat,
            ),
        decreases fronts.len() - i,
    {
        let fp = &fronts[i];
        proof {
            assert(fronts@.skip(i as int).skip(1) =~= fronts@.skip(i as int + 1));
        }
        if maps_to(fp, rear_id) {
            if let Some(peer) = peer_of(fp) {
                return next_hop_from_peer(peer, cable_of(fp));
            }
        }
        i = i + 1;
    }
    None
}

/// From the front of a panel: the rear port that it is mapped to first.
pub fn rear_for_front(fp: &Json) -> (r: Option<u64>)
    ensures
        match r {
            Some(n) => rear_ids(*fp).len() > 0 && rear_ids(*fp)[0] == n,
            None => rear_ids(*fp).len() == 0,
        },
{
    let found = front_rear_ids(fp);
    if found.len() > 0 {
        proof {
            assert(ids(found@)[0] == found@[0] as nat);
        }
        Some(found[0])
    } else {
        None
    }
}

// ===== The walk ==========================================================

/// A walk under way: the hops so far, the last one standing at a panel, and the
/// URLs passed.
#[derive(Debug)]
pub struct Walk {
    pub hops: Vec<PathHop>,
    pub seen: Vec<String>,
}

impl Walk {
    /// Whether the walk has started, can go on, and has met no interface yet.
    pub open spec fn wf(self) -> bool {
        &&& 1 <= self.hops@.len() < CIRCUIT_PATH_CAP
        &&& forall|i: int| 0 <= i < self.hops@.len() ==> !(#[trigger] self.hops@[i]).endpoint
    }
}

/// What to do next on a walk.
#[derive(Debug)]
pub enum WalkStep {
    /// The walk is over; this is the path, the device end first.
    Done(Vec<PathHop>),
    /// Read the front ports of a device, to go on from this rear port.
    ReadFronts { walk: Walk, device_id: u64, rear_id: u64 },
    /// Read this front port, and then the rear port it is mapped to.
    ReadFront { walk: Walk, front_id: u64 },
}

/// Whether a path is one that a walk can end in: at most five hops, and only the
/// first of them an interface.
pub open spec fn is_path(path: Seq<PathHop>) -> bool {
    &&& path.len() <= CIRCUIT_PATH_CAP
    &&& forall|i: int| 0 < i < path.len() ==> !(#[trigger] path[i]).endpoint
}

/// Whether a hop of a path is a stop of the walk.
pub open spec fn hop_is_stop(h: PathHop, stop: NextHop) -> bool {
    &&& h.to == stop.to
    &&& h.cable == stop.cable
    &&& h.endpoint == (stop.kind == PortKind::Interface)
    &&& h.device == stop.device
}

/// Whether a URL was passed.
pub open spec fn passed(seen: Seq<String>, url: Option<String>) -> bool {
    url is Some && exists|i: int| 0 <= i < seen.len() && (#[trigger] seen[i])@ == url->0@
}

/// Whether a walk goes on from a stop, given the hops before it and the URLs
/// passed: not from an interface, nor from a place passed before, nor at the
/// limit, but from a rear port with a device and from a front port.
pub open spec fn goes_on(stop: NextHop, hops_before: nat, seen: Seq<String>) -> bool {
    &&& stop.kind != PortKind::Interface
    &&& !passed(seen, stop.url)
    &&& hops_before + 1 < CIRCUIT_PATH_CAP
    &&& (stop.kind == PortKind::FrontPort || (stop.kind == PortKind::RearPort
        && stop.device is Some))
}

fn was_passed(seen: &Vec<String>, url: &Option<String>) -> (r: bool)
    ensures
        r == passed(seen@, *url),
{
    match url {
        Some(u) => {
            let mut i: usize = 0;
            while i < seen.len()
                invariant
                    i <= seen.len(),
                    *url == Some(*u),
                    forall|j: int| 0 <= j < i ==> (#[trigger] seen@[j])@ != u@,
                decreases seen.len() - i,
            {
                if same(seen[i].as_str(), u.as_str()) {
                    return true;
                }
                i = i + 1;
            }
            false
        },
        None => false,
    }
}

fn reversed(hops: Vec<PathHop>) -> (r: Vec<PathHop>)
    ensures
        r@ == hops@.reverse(),
{
    let ghost all = hops@;
    let mut rest = hops;
    let mut out: Vec<PathHop> = Vec::new();
    while rest.len() > 0
        invariant
            rest@.len() <= all.len(),
            rest@ == all.take(rest@.len() as int),
            out@ == all.skip(rest@.len() as int).reverse(),
        decreases rest.len(),
    {
        let ghost n = rest@.len() as int;
        if let Some(h) = rest.pop() {
            out.push(h);
            proof {
                assert(rest@ =~= all.take(n - 1));
                assert(all.skip(n - 1).reverse() =~= all.skip(n).reverse().push(all[n - 1]));
            }
        }
    }
    proof {
        assert(all.skip(0) =~= all);
    }
    out
}

/// The hops of a walk after a stop was added: those before it, and the stop.
pub open spec fn extended(before: Seq<PathHop>, after: Seq<PathHop>, stop: NextHop) -> bool {
    after.len() == before.len() + 1 && after.drop_last() == before && hop_is_stop(
        after.last(),
        stop,
    )
}

/// Whether a step is the one that follows from arriving at a stop.
pub open spec fn step_from(
    step: WalkStep,
    before: Seq<PathHop>,
    seen: Seq<String>,
    stop: NextHop,
) -> bool {
    if goes_on(stop, before.len(), seen) {
        match step {
            WalkStep::ReadFronts { walk, device_id, rear_id } => {
                &&& stop.kind == PortKind::RearPort
                &&& device_id == stop.device->0.id
                &&& rear_id == stop.id
                &&& walk.wf()
                &&& extended(before, walk.hops@, stop)
                &&& walk.seen@ == with_url(seen, stop.url)
            },
            WalkStep::ReadFront { walk, front_id } => {
                &&& stop.kind == PortKind::FrontPort
                &&& front_id == stop.id
                &&& walk.wf()
                &&& extended(before, walk.hops@, stop)
                &&& walk.seen@ == with_url(seen, stop.url)
            },
            WalkStep::Done(path) => false,
        }
    } else {
        match step {
            WalkStep::Done(path) => is_path(path@) && extended(before, path@.reverse(), stop),
            _ => false,
        }
    }
}

/// The URLs passed, with one more.
pub open spec fn with_url(seen: Seq<String>, url: Option<String>) -> Seq<String> {
    match url {
        Some(u) => seen.push(u),
        None => seen,
    }
}

fn arrive(hops: Vec<PathHop>, seen: Vec<String>, stop: NextHop) -> (r: WalkStep)
    requires
        hops@.len() < CIRCUIT_PATH_CAP,
        forall|i: int| 0 <= i < hops@.len() ==> !(#[trigger] hops@[i]).endpoint,
    ensures
        step_from(r, hops@, seen@, stop),
{
    let ghost before = hops@;
    let ghost start = seen@;
    let endpoint = stop.kind == PortKind::Interface;
    let again = was_passed(&seen, &stop.url);
    let device_id: Option<u64> = match &stop.device {
        Some(d) => Some(d.id),
        None => None,
    };
    let mut path = hops;
    path.push(
        PathHop { to: stop.to, cable: stop.cable, endpoint, device: stop.device },
    );
    proof {
        assert(path@.drop_last() =~= before);
    }
    let mut places = seen;
    if endpoint || again || path.len() >= CIRCUIT_PATH_CAP {
        let ghost walked = path@;
        let out = reversed(path);
        proof {
            assert(out@.reverse() =~= walked);
            assert forall|i: int| 0 < i < out@.len() implies !(#[trigger] out@[i]).endpoint by {
                assert(out@[i] == walked[walked.len() - 1 - i]);
                assert(walked[walked.len() - 1 - i] == before[walked.len() - 1 - i]);
            }
        }
        return WalkStep::Done(out);
    }
    if let Some(u) = stop.url {
        places.push(u);
    }
    let ghost walked = path@;
    proof {
        assert(places@ =~= with_url(start, stop.url));
        assert forall|i: int| 0 <= i < walked.len() implies !(#[trigger] walked[i]).endpoint by {
            if i < before.len() {
                assert(walked[i] == before[i]);
            }
        }
    }
    if stop.kind == PortKind::FrontPort {
        return WalkStep::ReadFront {
            walk: Walk { hops: path, seen: places },
            front_id: stop.id,
        };
    }
    if stop.kind == PortKind::RearPort {
        if let Some(d) = device_id {
            return WalkStep::ReadFronts {
                walk: Walk { hops: path, seen: places },
                device_id: d,
                rear_id: stop.id,
            };
        }
    }
    let out = reversed(path);
    proof {
        assert(out@.reverse() =~= walked);
        assert forall|i: int| 0 < i < out@.len() implies !(#[trigger] out@[i]).endpoint by {
            assert(out@[i] == walked[walked.len() - 1 - i]);
        }
    }
    WalkStep::Done(out)
}

/// Whether a stop is the first one of a termination: its link peer, over its own
/// cable.
pub open spec fn is_first_stop(stop: NextHop, t: CircuitTermination) -> bool {
    let peer = t.link_peers@[0];
    &&& opt_text(stop.url) == opt_text(peer.url)
    &&& stop.to@ == peer.endpoint_text()
    &&& match peer.device {
        Some(d) => stop.device is Some && stop.device->0.id == d.id && stop.device->0.name@
            == d.name_text(),
        None => stop.device is None,
    }
    &&& stop.id == peer.id
    &&& stop.kind == kind_of_url(opt_text(peer.url))
    &&& opt_text(stop.cable) == opt_label(t.cable)
}

/// Starts a walk at a termination. One without a link peer has no path.
pub fn start_walk(t: &CircuitTermination) -> (r: WalkStep)
    ensures
        t.link_peers@.len() == 0 ==> r is Done && r->Done_0@.len() == 0,
        t.link_peers@.len() > 0 ==> exists|stop: NextHop| #[trigger]
            is_first_stop(stop, *t) && step_from(
                r,
                Seq::<PathHop>::empty(),
                Seq::<String>::empty(),
                stop,
            ),
{
    if t.link_peers.len() == 0 {
        return WalkStep::Done(Vec::new());
    }
    let peer = &t.link_peers[0];
    let device = match &peer.device {
        Some(d) => Some(DeviceRef::from_brief(d)),
        None => None,
    };
    let stop = NextHop {
        url: copy_opt(&peer.url),
        to: peer.endpoint_label(),
        device,
        id: peer.id,
        kind: port_kind(crate::text::as_opt_str(&peer.url)),
        cable: label_of(&t.cable),
    };
    proof {
        assert(is_first_stop(stop, *t));
    }
    arrive(Vec::new(), Vec::new(), stop)
}

/// Goes on with what was read. Nothing to go on with is a dead end.
pub fn continue_walk(walk: Walk, next: Option<NextHop>) -> (r: WalkStep)
    requires
        walk.wf(),
    ensures
        match next {
            Some(stop) => step_from(r, walk.hops@, walk.seen@, stop),
            None => r is Done && r->Done_0@ == walk.hops@.reverse() && is_path(r->Done_0@),
        },
{
    match next {
        Some(stop) => arrive(walk.hops, walk.seen, stop),
        None => {
            let ghost walked = walk.hops@;
            let out = reversed(walk.hops);
            proof {
                assert forall|i: int| 0 < i < out@.len() implies !(
                #[trigger] out@[i]).endpoint by {
                    assert(out@[i] == walked[walked.len() - 1 - i]);
                }
            }
            WalkStep::Done(out)
        },
    }
}

// ===== Laws ==============================================================

/// Every step of a walk adds a hop, so a walk ends after at most five; and the
/// path it ends in has at most five hops, of which only the first can be an
/// interface.
pub proof fn walks_end(walk: Walk, stop: NextHop, step: WalkStep)
    requires
        walk.wf(),
        step_from(step, walk.hops@, walk.seen@, stop),
    ensures
        match step {
            WalkStep::Done(path) => is_path(path@) && path@.len() == walk.hops@.len() + 1,
            WalkStep::ReadFronts { walk: w, device_id, rear_id } => w.wf() && w.hops@.len()
                == walk.hops@.len() + 1,
            WalkStep::ReadFront { walk: w, front_id } => w.wf() && w.hops@.len()
                == walk.hops@.len() + 1,
        },
{
}

proof fn mapped_rears_are(items: Seq<Json>, rear: nat)
    ensures
        mapped_rears(items).contains(rear) <==> exists|k: int|
            0 <= k < items.len() && mapped_rear(#[trigger] items[k]) == Some(rear),
    decreases items.len(),
{
    if items.len() > 0 {
        let front = items.drop_last();
        let rest = mapped_rears(front);
        let all = mapped_rears(items);
        mapped_rears_are(front, rear);
        if rest.contains(rear) {
            let k = choose|k: int|
                0 <= k < front.len() && mapped_rear(#[trigger] front[k]) == Some(rear);
            assert(items[k] == front[k]);
            let m = choose|m: int| 0 <= m < rest.len() && rest[m] == rear;
            assert(all[m] == rear);
        }
        if mapped_rear(items.last()) == Some(rear) {
            assert(items[items.len() - 1] == items.last());
            assert(all[rest.len() as int] == rear);
        }
        if all.contains(rear) && !rest.contains(rear) {
            let m = choose|m: int| 0 <= m < all.len() && all[m] == rear;
            if m < rest.len() {
                assert(rest[m] == rear);
            }
            assert(mapped_rear(items.last()) == Some(rear));
        }
        if exists|k: int| 0 <= k < items.len() && mapped_rear(#[trigger] items[k]) == Some(rear) {
            let k = choose|k: int|
                0 <= k < items.len() && mapped_rear(#[trigger] items[k]) == Some(rear);
            if k < front.len() {
                assert(front[k] == items[k]);
            }
        }
    }
}

/// A front port is mapped to exactly the rear ports that it names: the nested one by
/// its id, and those of its list, each by number or as a nested object by its id.
pub proof fn front_ports_name_their_rears(fp: Json, rear: nat)
    ensures
        rear_ids(fp).contains(rear) <==> {
            ||| {
                &&& fp.at("rear_port"@) is Some
                &&& fp.at("rear_port"@)->0.at("id"@) is Some
                &&& fp.at("rear_port"@)->0.at("id"@)->0.whole() == Some(rear)
            }
            ||| {
                &&& fp.at("rear_ports"@) is Some
                &&& fp.at("rear_ports"@)->0.array() is Some
                &&& exists|k: int|
                    #![trigger fp.at("rear_ports"@)->0.array()->0[k]]
                    {
                        let e = fp.at("rear_ports"@)->0.array()->0[k];
                        &&& 0 <= k < fp.at("rear_ports"@)->0.array()->0.len()
                        &&& e.at("rear_port"@) is Some
                        &&& {
                            ||| e.at("rear_port"@)->0.whole() == Some(rear)
                            ||| {
                                &&& e.at("rear_port"@)->0.whole() is None
                                &&& e.at("rear_port"@)->0.at("id"@) is Some
                                &&& e.at("rear_port"@)->0.at("id"@)->0.whole() == Some(rear)
                            }
                        }
                    }
            }
        },
{
    let one = single_rear(fp);
    let items = match fp.at("rear_ports"@) {
        Some(list) => match list.array() {
            Some(items) => items,
            None => Seq::empty(),
        },
        None => Seq::empty(),
    };
    let list = mapped_rears(items);
    mapped_rears_are(items, rear);
    assert(rear_ids(fp) =~= one + list);
    if one.contains(rear) {
        let m = choose|m: int| 0 <= m < one.len() && one[m] == rear;
        assert(rear_ids(fp)[m] == rear);
    }
    if one.len() == 1 {
        assert(one.contains(one[0]));
    }
    if list.contains(rear) {
        let m = choose|m: int| 0 <= m < list.len() && list[m] == rear;
        assert(rear_ids(fp)[one.len() + m] == rear);
        let k = choose|k: int| 0 <= k < items.len() && mapped_rear(#[trigger] items[k]) == Some(rear);
        assert(items[k].at("rear_port"@) is Some);
    }
    if rear_ids(fp).contains(rear) {
        let m = choose|m: int| 0 <= m < rear_ids(fp).len() && rear_ids(fp)[m] == rear;
        if m < one.len() {
            assert(one[m] == rear);
        } else {
            assert(list[m - one.len()] == rear);
        }
    }
}

/// The stop across a port is what its first link peer says: the peer's id and URL,
/// its device by id and name, its label behind the device's name, and the label of
/// the port's own cable. There is none only without a peer, or without the peer's id.
pub proof fn stops_are_read_off_the_peer(hop: Option<NextHop>, port: Json, peers: Seq<Json>)
    requires
        hop_is_across(hop, port),
        port.at("link_peers"@) is Some && port.at("link_peers"@)->0.array() == Some(peers),
    ensures
        hop is Some <==> peers.len() > 0 && peers[0].at("id"@) is Some
            && peers[0].at("id"@)->0.whole() is Some,
        hop is Some ==> {
            let h = hop->0;
            let peer = peers[0];
            let label = match peer.at("display"@) {
                Some(x) => x.string(),
                None => match peer.at("name"@) {
                    Some(x) => x.string(),
                    None => None,
                },
            };
            let port_label = match label {
                Some(l) => l,
                None => Seq::empty(),
            };
            let device_id = match peer.at("device"@) {
                Some(d) => match d.at("id"@) {
                    Some(x) => x.whole(),
                    None => None,
                },
                None => None,
            };
            let device_name = match peer.at("device"@)->0.at("name"@) {
                Some(x) => x.string(),
                None => match peer.at("device"@)->0.at("display"@) {
                    Some(x) => x.string(),
                    None => None,
                },
            };
            let url = match peer.at("url"@) {
                Some(x) => x.string(),
                None => None,
            };
            &&& peer.at("id"@)->0.whole() == Some(h.id as nat)
            &&& opt_text(h.url) == url
            &&& match device_id {
                Some(n) => {
                    &&& h.device is Some
                    &&& h.device->0.id == n
                    &&& h.device->0.name@ == match device_name {
                        Some(t) => t,
                        None => Seq::empty(),
                    }
                    &&& h.to@ == h.device->0.name@ + " "@ + port_label
                },
                None => h.device is None && h.to@ == port_label,
            }
            &&& h.kind == PortKind::Interface <==> url is Some && occurs(url->0, "/interfaces/"@)
            &&& h.kind == PortKind::FrontPort <==> url is Some && !occurs(url->0, "/interfaces/"@)
                && occurs(url->0, "/front-ports/"@)
            &&& h.kind == PortKind::RearPort <==> url is Some && !occurs(url->0, "/interfaces/"@)
                && !occurs(url->0, "/front-ports/"@) && occurs(url->0, "/rear-ports/"@)
            &&& match port.at("cable"@) {
                Some(c) => {
                    let named = match c.at("display"@) {
                        Some(x) => x.string(),
                        None => match c.at("label"@) {
                            Some(x) => x.string(),
                            None => None,
                        },
                    };
                    if named is Some && named->0.len() > 0 {
                        opt_text(h.cable) == named
                    } else if c.at("id"@) is Some && c.at("id"@)->0.whole() is Some {
                        opt_text(h.cable) == Some(
                            "#"@ + crate::number::decimal_text(c.at("id"@)->0.whole()->0),
                        )
                    } else {
                        h.cable is None
                    }
                },
                None => h.cable is None,
            }
        },
{
}

proof fn front_index_is(fronts: Seq<Json>, rear: nat)
    ensures
        front_index(fronts, rear) <= fronts.len(),
        forall|j: int|
            0 <= j < front_index(fronts, rear) ==> !(rear_ids(#[trigger] fronts[j]).contains(rear)
                && first_peer(fronts[j]) is Some),
        front_index(fronts, rear) < fronts.len() ==> {
            let fp = fronts[front_index(fronts, rear) as int];
            rear_ids(fp).contains(rear) && first_peer(fp) is Some
        },
    decreases fronts.len(),
{
    if fronts.len() > 0 && !(rear_ids(fronts[0]).contains(rear) && first_peer(fronts[0]) is Some) {
        let rest = fronts.skip(1);
        front_index_is(rest, rear);
        assert forall|j: int| 0 <= j < front_index(fronts, rear) implies !(rear_ids(
            #[trigger] fronts[j],
        ).contains(rear) && first_peer(fronts[j]) is Some) by {
            if j > 0 {
                assert(rest[j - 1] == fronts[j]);
            }
        }
    }
}

/// From a rear port a walk crosses the first front port of the panel that is mapped
/// to it and has a link peer, wherever in the list it stands and whatever stands
/// before it; and the walk ends at the panel only when no front port is such a one,
/// or the peer of the first has no id.
pub proof fn first_cabled_front_is_crossed(fronts: Seq<Json>, rear: nat, r: Option<NextHop>)
    requires
        ({
            let n = front_index(fronts, rear);
            if n < fronts.len() {
                hop_is_across(r, fronts[n as int])
            } else {
                r is None
            }
        }),
    ensures
        forall|i: int|
            {
                &&& 0 <= i < fronts.len()
                &&& rear_ids(#[trigger] fronts[i]).contains(rear)
                &&& fronts[i].at("link_peers"@) is Some
                &&& fronts[i].at("link_peers"@)->0.array() is Some
                &&& fronts[i].at("link_peers"@)->0.array()->0.len() > 0
                &&& forall|j: int|
                    0 <= j < i ==> {
                        ||| !rear_ids(#[trigger] fronts[j]).contains(rear)
                        ||| fronts[j].at("link_peers"@) is None
                        ||| fronts[j].at("link_peers"@)->0.array() is None
                        ||| fronts[j].at("link_peers"@)->0.array()->0.len() == 0
                    }
            } ==> {
                let peer = fronts[i].at("link_peers"@)->0.array()->0[0];
                &&& hop_is_across(r, fronts[i])
                &&& r is Some <==> peer.at("id"@) is Some && peer.at("id"@)->0.whole() is Some
                &&& r is Some ==> peer.at("id"@)->0.whole() == Some(r->0.id as nat)
            },
        r is Some ==> exists|i: int|
            {
                &&& 0 <= i < fronts.len()
                &&& rear_ids(#[trigger] fronts[i]).contains(rear)
                &&& fronts[i].at("link_peers"@) is Some
                &&& fronts[i].at("link_peers"@)->0.array() is Some
                &&& fronts[i].at("link_peers"@)->0.array()->0.len() > 0
            },
{
    front_index_is(fronts, rear);
    let n = front_index(fronts, rear) as int;
    assert forall|fp: Json| #[trigger] first_peer(fp) is Some <==> {
        &&& fp.at("link_peers"@) is Some
        &&& fp.at("link_peers"@)->0.array() is Some
        &&& fp.at("link_peers"@)->0.array()->0.len() > 0
    } by {}
    assert forall|i: int|
        {
            &&& 0 <= i < fronts.len()
            &&& rear_ids(#[trigger] fronts[i]).contains(rear)
            &&& fronts[i].at("link_peers"@) is Some
            &&& fronts[i].at("link_peers"@)->0.array() is Some
            &&& fronts[i].at("link_peers"@)->0.array()->0.len() > 0
            &&& forall|j: int|
                0 <= j < i ==> {
                    ||| !rear_ids(#[trigger] fronts[j]).contains(rear)
                    ||| fronts[j].at("link_peers"@) is None
                    ||| fronts[j].at("link_peers"@)->0.array() is None
                    ||| fronts[j].at("link_peers"@)->0.array()->0.len() == 0
                }
        } implies i == n by {
        assert(first_peer(fronts[i]) is Some);
        if i > n {
            assert(first_peer(fronts[n]) is Some);
        }
    }
    if n < fronts.len() {
        assert(first_peer(fronts[n]) is Some);
    }
}

/// The rear port that a walk goes on from behind a front port is the nested one when
/// it has an id, else the first that the front port's list names; there is none only
/// when the front port names none at all.
pub proof fn single_rear_comes_first(fp: Json, r: Option<u64>)
    requires
        match r {
            Some(n) => rear_ids(fp).len() > 0 && rear_ids(fp)[0] == n,
            None => rear_ids(fp).len() == 0,
        },
    ensures
        r is Some ==> rear_ids(fp).contains(r->0 as nat),
        r is None ==> forall|rear: nat| !(#[trigger] rear_ids(fp).contains(rear)),
        ({
            let single = fp.at("rear_port"@);
            single is Some && single->0.at("id"@) is Some && single->0.at("id"@)->0.whole() is Some
        }) ==> r is Some && fp.at("rear_port"@)->0.at("id"@)->0.whole() == Some(r->0 as nat),
{
}

/// A walk ends where it arrives at an interface, at a place it has passed, at its
/// fifth hop, at something that is no port, or at a rear port without a device; and
/// nowhere else. The path then leads from there back to where the walk began. From a
/// rear port it goes on through the front ports of that port's device, from a front
/// port through that port, with the place added to those passed.
pub proof fn walks_end_only_where_they_must(
    step: WalkStep,
    before: Seq<PathHop>,
    seen: Seq<String>,
    stop: NextHop,
)
    requires
        step_from(step, before, seen, stop),
    ensures
        step is Done <==> {
            ||| stop.kind == PortKind::Interface
            ||| stop.kind == PortKind::Other
            ||| (stop.kind == PortKind::RearPort && stop.device is None)
            ||| before.len() >= 4
            ||| (stop.url is Some && exists|i: int|
                0 <= i < seen.len() && (#[trigger] seen[i])@ == stop.url->0@)
        },
        step is Done ==> {
            let path = step->Done_0@;
            &&& path.len() == before.len() + 1
            &&& path[0].to == stop.to
            &&& path[0].cable == stop.cable
            &&& path[0].device == stop.device
            &&& path[0].endpoint <==> stop.kind == PortKind::Interface
            &&& forall|i: int|
                0 <= i < before.len() ==> (#[trigger] path[i + 1]) == before[before.len() - 1 - i]
        },
        step is ReadFronts <==> !(step is Done) && stop.kind == PortKind::RearPort,
        step is ReadFronts ==> {
            &&& step->device_id == stop.device->0.id
            &&& step->rear_id == stop.id
        },
        step is ReadFront <==> !(step is Done) && stop.kind == PortKind::FrontPort,
        step is ReadFront ==> step->front_id == stop.id,
        !(step is Done) ==> {
            let walk = if step is ReadFronts {
                step->ReadFronts_walk
            } else {
                step->ReadFront_walk
            };
            &&& walk.hops@.len() == before.len() + 1
            &&& forall|i: int| 0 <= i < before.len() ==> (#[trigger] walk.hops@[i]) == before[i]
            &&& walk.hops@[before.len() as int].to == stop.to
            &&& walk.hops@[before.len() as int].cable == stop.cable
            &&& walk.hops@[before.len() as int].device == stop.device
            &&& !walk.hops@[before.len() as int].endpoint
            &&& walk.seen@.len() == seen.len() + if stop.url is Some {
                1int
            } else {
                0int
            }
            &&& forall|i: int| 0 <= i < seen.len() ==> (#[trigger] walk.seen@[i]) == seen[i]
            &&& stop.url is Some ==> walk.seen@[seen.len() as int] == stop.url->0
        },
{
    if step is Done {
        let path = step->Done_0@;
        let walked = path.reverse();
        assert(path[0] == walked[walked.len() - 1]);
        assert forall|i: int| 0 <= i < before.len() implies (#[trigger] path[i + 1])
            == before[before.len() - 1 - i] by {
            assert(walked.drop_last()[before.len() - 1 - i] == walked[before.len() - 1 - i]);
            assert(walked[before.len() - 1 - i] == path[i + 1]);
        }
    } else {
        let walk = if step is ReadFronts {
            step->ReadFronts_walk
        } else {
            step->ReadFront_walk
        };
        assert forall|i: int| 0 <= i < before.len() implies (#[trigger] walk.hops@[i])
            == before[i] by {
            assert(walk.hops@.drop_last()[i] == walk.hops@[i]);
        }
    }
}

/// A circuit's path starts at the first peer of its termination: that peer's id, address
/// and label, its device, and the cable of the termination.
pub proof fn walks_start_at_the_first_peer(stop: NextHop, t: CircuitTermination)
    requires
        t.link_peers@.len() > 0,
        is_first_stop(stop, t),
    ensures
        ({
            let peer = t.link_peers@[0];
            &&& stop.id == peer.id
            &&& stop.url is Some <==> peer.url is Some
            &&& peer.url is Some ==> stop.url->0@ == peer.url->0@
            &&& peer.device is None ==> stop.device is None && stop.to@ == peer.label_text()
            &&& peer.device is Some ==> stop.device is Some && stop.device->0.id
                == peer.device->0.id && stop.device->0.name@ == peer.device->0.name_text()
                && stop.to@ == peer.device->0.name_text() + " "@ + peer.label_text()
            &&& stop.cable is Some <==> t.cable is Some
            &&& t.cable is Some ==> stop.cable->0@ == t.cable->0.label_text()
            &&& stop.kind == PortKind::Interface <==> peer.url is Some && occurs(
                peer.url->0@,
                "/interfaces/"@,
            )
            &&& stop.kind == PortKind::FrontPort ==> peer.url is Some && occurs(
                peer.url->0@,
                "/front-ports/"@,
            )
            &&& stop.kind == PortKind::RearPort ==> peer.url is Some && occurs(
                peer.url->0@,
                "/rear-ports/"@,
            )
            &&& peer.url is None ==> stop.kind == PortKind::Other
        }),
{
}

/// Nothing lies across a port that has no list of peers.
pub proof fn nothing_is_across_an_open_port(hop: Option<NextHop>, port: Json)
    requires
        hop_is_across(hop, port),
        port.at("link_peers"@) is None || port.at("link_peers"@)->0.array() is None,
    ensures
        hop is None,
{
}

} // verus!
