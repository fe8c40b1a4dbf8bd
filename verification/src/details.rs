//! The detail page of an instance: its fields one per row, then its
//! security groups and its network interfaces.
use vstd::prelude::*;
use crate::instance::{
    Ec2InstanceV, GroupV, Instance, InterfaceV, find_tag_ok, find_tag_spec, or_empty, unwrap_or_empty,
};
use crate::selection::tag_value;
use crate::text::{pad_left, pad_left_spec, push_all_str, push_char};

verus! {

/// The labels and values of the detail page, top to bottom.
pub open spec fn detail_pairs(v: Ec2InstanceV) -> Seq<(Seq<char>, Seq<char>)> {
    seq![
        ("instance-id"@, v.instance_id->0),
        ("name"@, or_empty(find_tag_spec("name"@, v.tags))),
        ("architecture"@, or_empty(v.architecture)),
        ("vpc-id"@, or_empty(v.vpc_id)),
        ("subnet_type"@, or_empty(v.subnet_id)),
        ("instance_type"@, or_empty(v.instance_type)),
        ("key_name"@, or_empty(v.key_name)),
        ("state"@, v.state->0.name->0),
        ("public ip"@, or_empty(v.public_ip_address)),
        ("public dns"@, or_empty(v.public_dns_name)),
        ("private ip"@, or_empty(v.private_ip_address)),
        ("private dns"@, or_empty(v.private_dns_name)),
        ("placement"@, v.placement->0->0),
        ("lifecycle"@, or_empty(v.instance_lifecycle)),
        ("image-id"@, or_empty(v.image_id)),
        ("ramdisk-id"@, or_empty(v.ramdisk_id)),
        ("root device"@, or_empty(v.root_device_name) + " ("@ + or_empty(v.root_device_type) + ")"@),
        ("state"@, v.state->0.name->0),
    ]
}

/// The field that the detail page shows under `label`, for each label it
/// uses; `None` for any other text.
pub open spec fn field_under_label(v: Ec2InstanceV, label: Seq<char>) -> Option<Seq<char>> {
    if label == "instance-id"@ {
        Some(v.instance_id->0)
    } else if label == "name"@ {
        Some(or_empty(find_tag_spec("name"@, v.tags)))
    } else if label == "architecture"@ {
        Some(or_empty(v.architecture))
    } else if label == "vpc-id"@ {
        Some(or_empty(v.vpc_id))
    } else if label == "subnet_type"@ {
        Some(or_empty(v.subnet_id))
    } else if label == "instance_type"@ {
        Some(or_empty(v.instance_type))
    } else if label == "key_name"@ {
        Some(or_empty(v.key_name))
    } else if label == "state"@ {
        Some(v.state->0.name->0)
    } else if label == "public ip"@ {
        Some(or_empty(v.public_ip_address))
    } else if label == "public dns"@ {
        Some(or_empty(v.public_dns_name))
    } else if label == "private ip"@ {
        Some(or_empty(v.private_ip_address))
    } else if label == "private dns"@ {
        Some(or_empty(v.private_dns_name))
    } else if label == "placement"@ {
        Some(v.placement->0->0)
    } else if label == "lifecycle"@ {
        Some(or_empty(v.instance_lifecycle))
    } else if label == "image-id"@ {
        Some(or_empty(v.image_id))
    } else if label == "ramdisk-id"@ {
        Some(or_empty(v.ramdisk_id))
    } else if label == "root device"@ {
        Some(or_empty(v.root_device_name) + " ("@ + or_empty(v.root_device_type) + ")"@)
    } else {
        None
    }
}

/// The instance has every field that the detail page shows without a default.
pub open spec fn details_ok(v: Ec2InstanceV) -> bool {
    &&& v.instance_id is Some
    &&& find_tag_ok("name"@, v.tags)
    &&& v.state matches Some(st) && st.name is Some
    &&& v.placement matches Some(p) && p is Some
    &&& v.security_groups matches Some(gs) && forall|i: int|
        0 <= i < gs.len() ==> (#[trigger] gs[i]).group_id is Some && gs[i].group_name is Some
    &&& v.network_interfaces matches Some(ns) && forall|i: int|
        0 <= i < ns.len() ==> (#[trigger] ns[i]).network_interface_id is Some && ns[i].description is Some
}

/// Whether `inst` has every field that the detail page shows without a default.
pub fn details_complete(inst: &Instance) -> (r: bool)
    ensures
        r == details_ok(inst@.instance),
{
    let v = &inst.instance;
    if v.instance_id.is_none() || !crate::selection::tag_lookup_ok(inst, "name") {
        return false;
    }
    match &v.state {
        Some(st) => if st.name.is_none() {
            return false;
        },
        None => return false,
    }
    match &v.placement {
        Some(p) => if p.group_name.is_none() {
            return false;
        },
        None => return false,
    }
    let ghost iv = inst@.instance;
    match &v.security_groups {
        None => return false,
        Some(gs) => {
            let mut i: usize = 0;
            while i < gs.len()
                invariant
                    iv == inst@.instance,
                    iv.security_groups is Some,
                    iv.security_groups->0 == gs@.map_values(|g: crate::instance::GroupIdentifier| g@),
                    i <= gs@.len(),
                    forall|k: int|
                        0 <= k < i ==> (#[trigger] iv.security_groups->0[k]).group_id is Some
                            && iv.security_groups->0[k].group_name is Some,
                decreases gs@.len() - i,
            {
                assert(iv.security_groups->0[i as int] == gs@[i as int]@);
                if gs[i].group_id.is_none() || gs[i].group_name.is_none() {
                    return false;
                }
                i = i + 1;
            }
        },
    }
    match &v.network_interfaces {
        None => return false,
        Some(ns) => {
            let mut i: usize = 0;
            while i < ns.len()
                invariant
                    iv == inst@.instance,
                    iv.network_interfaces is Some,
                    iv.network_interfaces->0 == ns@.map_values(|n: crate::instance::InstanceNetworkInterface| n@),
                    i <= ns@.len(),
                    forall|k: int|
                        0 <= k < i ==> (#[trigger] iv.network_interfaces->0[k]).network_interface_id is Some
                            && iv.network_interfaces->0[k].description is Some,
                decreases ns@.len() - i,
            {
                assert(iv.network_interfaces->0[i as int] == ns@[i as int]@);
                if ns[i].network_interface_id.is_none() || ns[i].description.is_none() {
                    return false;
                }
                i = i + 1;
            }
        },
    }
    true
}

/// A label as the page shows it: right-aligned in 20 columns, then a colon.
pub open spec fn label_text(l: Seq<char>) -> Seq<char> {
    pad_left_spec(l, 20).push(':')
}

/// A line of a list: the first text right-aligned in 20 columns, a colon, a
/// space and the second text.
pub open spec fn list_line(a: Seq<char>, b: Seq<char>) -> Seq<char> {
    pad_left_spec(a, 20) + ": "@ + b
}

/// A row of the detail page.
pub struct DetailRow {
    /// The label, formatted.
    pub label: String,
    /// The value, shown from column 22.
    pub value: String,
}

fn row(label: &str, value: String) -> (r: DetailRow)
    ensures
        r.label@ == label_text(label@),
        r.value@ == value@,
{
    let mut l = pad_left(label, 20);
    push_char(&mut l, ':');
    DetailRow { label: l, value }
}

fn list_text(a: &Option<String>, b: &Option<String>) -> (r: String)
    requires
        a is Some,
        b is Some,
    ensures
        r@ == list_line(a->0@, b->0@),
{
    let x = a.as_ref().unwrap();
    let y = b.as_ref().unwrap();
    let mut r = pad_left(x.as_str(), 20);
    push_all_str(&mut r, ": ");
    push_all_str(&mut r, y.as_str());
    r
}

/// The rows of the detail page of `inst`, top to bottom.
pub fn detail_rows(inst: &Instance) -> (r: Vec<DetailRow>)
    requires
        details_ok(inst@.instance),
    ensures
        r@.len() == detail_pairs(inst@.instance).len(),
        forall|i: int|
            0 <= i < r@.len() ==> (#[trigger] r@[i]).label@ == label_text(detail_pairs(inst@.instance)[i].0)
                && r@[i].value@ == detail_pairs(inst@.instance)[i].1,
        forall|i: int|
            0 <= i < r@.len() ==> field_under_label(inst@.instance, detail_pairs(inst@.instance)[i].0) == Some(
                (#[trigger] r@[i]).value@,
            ),
{
    proof {
        crate::laws::lemma_detail_rows_show_their_fields(inst@.instance);
    }
    let v = &inst.instance;
    let mut r: Vec<DetailRow> = Vec::new();
    r.push(row("instance-id", v.instance_id.as_ref().unwrap().clone()));
    r.push(row("name", tag_value(inst, "name")));
    r.push(row("architecture", unwrap_or_empty(&v.architecture)));
    r.push(row("vpc-id", unwrap_or_empty(&v.vpc_id)));
    r.push(row("subnet_type", unwrap_or_empty(&v.subnet_id)));
    r.push(row("instance_type", unwrap_or_empty(&v.instance_type)));
    r.push(row("key_name", unwrap_or_empty(&v.key_name)));
    let state_name = v.state.as_ref().unwrap().name.as_ref().unwrap().clone();
    r.push(row("state", state_name));
    r.push(row("public ip", unwrap_or_empty(&v.public_ip_address)));
    r.push(row("public dns", unwrap_or_empty(&v.public_dns_name)));
    r.push(row("private ip", unwrap_or_empty(&v.private_ip_address)));
    r.push(row("private dns", unwrap_or_empty(&v.private_dns_name)));
    let placement = v.placement.as_ref().unwrap().group_name.as_ref().unwrap().clone();
    r.push(row("placement", placement));
    r.push(row("lifecycle", unwrap_or_empty(&v.instance_lifecycle)));
    r.push(row("image-id", unwrap_or_empty(&v.image_id)));
    r.push(row("ramdisk-id", unwrap_or_empty(&v.ramdisk_id)));
    let mut device = unwrap_or_empty(&v.root_device_name);
    push_all_str(&mut device, " (");
    let device_type = unwrap_or_empty(&v.root_device_type);
    push_all_str(&mut device, device_type.as_str());
    push_all_str(&mut device, ")");
    r.push(row("root device", device));
    let state_name = v.state.as_ref().unwrap().name.as_ref().unwrap().clone();
    r.push(row("state", state_name));
    r
}

/// The security groups of `inst`, one line each.
pub fn group_lines(inst: &Instance) -> (r: Vec<String>)
    requires
        details_ok(inst@.instance),
    ensures
        r@.map_values(|s: String| s@) == inst@.instance.security_groups->0.map_values(
            |g: GroupV| list_line(g.group_id->0, g.group_name->0),
        ),
{
    let gs = inst.instance.security_groups.as_ref().unwrap();
    let ghost gv = inst@.instance.security_groups->0;
    let mut r: Vec<String> = Vec::new();
    let mut i: usize = 0;
    while i < gs.len()
        invariant
            gv == gs@.map_values(|g: crate::instance::GroupIdentifier| g@),
            forall|k: int| 0 <= k < gv.len() ==> (#[trigger] gv[k]).group_id is Some && gv[k].group_name is Some,
            i <= gs@.len(),
            r@.map_values(|s: String| s@) == gv.take(i as int).map_values(
                |g: GroupV| list_line(g.group_id->0, g.group_name->0),
            ),
        decreases gs@.len() - i,
    {
        assert(gv[i as int] == gs@[i as int]@);
        let t = list_text(&gs[i].group_id, &gs[i].group_name);
        assert(t@ == list_line(gv[i as int].group_id->0, gv[i as int].group_name->0));
        let ghost prev = r@;
        r.push(t);
        assert(r@ == prev.push(t));
        assert(r@.map_values(|s: String| s@) =~= prev.map_values(|s: String| s@).push(t@));
        assert(gv.take(i + 1) =~= gv.take(i as int).push(gv[i as int]));
        assert(r@.map_values(|s: String| s@) =~= gv.take(i + 1).map_values(
            |g: GroupV| list_line(g.group_id->0, g.group_name->0),
        ));
        i = i + 1;
    }
    assert(gv.take(gs@.len() as int) =~= gv);
    r
}

/// The network interfaces of `inst`, one line each.
pub fn interface_lines(inst: &Instance) -> (r: Vec<String>)
    requires
        details_ok(inst@.instance),
    ensures
        r@.map_values(|s: String| s@) == inst@.instance.network_interfaces->0.map_values(
            |n: InterfaceV| list_line(n.network_interface_id->0, n.description->0),
        ),
{
    let ns = inst.instance.network_interfaces.as_ref().unwrap();
    let ghost nv = inst@.instance.network_interfaces->0;
    let mut r: Vec<String> = Vec::new();
    let mut i: usize = 0;
    while i < ns.len()
        invariant
            nv == ns@.map_values(|n: crate::instance::InstanceNetworkInterface| n@),
            forall|k: int|
                0 <= k < nv.len() ==> (#[trigger] nv[k]).network_interface_id is Some && nv[k].description is Some,
            i <= ns@.len(),
            r@.map_values(|s: String| s@) == nv.take(i as int).map_values(
                |n: InterfaceV| list_line(n.network_interface_id->0, n.description->0),
            ),
        decreases ns@.len() - i,
    {
        assert(nv[i as int] == ns@[i as int]@);
        let t = list_text(&ns[i].network_interface_id, &ns[i].description);
        assert(t@ == list_line(nv[i as int].network_interface_id->0, nv[i as int].description->0));
        let ghost prev = r@;
        r.push(t);
        assert(r@ == prev.push(t));
        assert(r@.map_values(|s: String| s@) =~= prev.map_values(|s: String| s@).push(t@));
        assert(nv.take(i + 1) =~= nv.take(i as int).push(nv[i as int]));
        assert(r@.map_values(|s: String| s@) =~= nv.take(i + 1).map_values(
            |n: InterfaceV| list_line(n.network_interface_id->0, n.description->0),
        ));
        i = i + 1;
    }
    assert(nv.take(ns@.len() as int) =~= nv);
    r
}

/// The title of a page about `inst`: `name (instance-id)`.
pub fn instance_title(name: &str, inst: &Instance) -> (r: String)
    requires
        inst@.instance.instance_id is Some,
    ensures
        r@ == name@ + " ("@ + inst@.instance.instance_id->0 + ")"@,
{
    let mut r = name.to_owned();
    push_all_str(&mut r, " (");
    push_all_str(&mut r, inst.instance.instance_id.as_ref().unwrap().as_str());
    push_all_str(&mut r, ")");
    r
}


/// A text of the detail page, where it stands, and whether it is drawn in
/// the label style.
pub struct PlacedText {
    pub x: usize,
    pub y: usize,
    pub label: bool,
    pub text: String,
}

/// A placed text as column, row, label style and characters.
pub open spec fn placed(t: PlacedText) -> (int, int, bool, Seq<char>) {
    (t.x as int, t.y as int, t.label, t.text@)
}

/// The line of a security group on the detail page.
pub open spec fn group_line(g: GroupV) -> Seq<char> {
    list_line(g.group_id->0, g.group_name->0)
}

/// The line of a network interface on the detail page.
pub open spec fn interface_line(n: InterfaceV) -> Seq<char> {
    list_line(n.network_interface_id->0, n.description->0)
}

/// How many texts the detail page of `v` holds.
pub open spec fn detail_page_len(v: Ec2InstanceV) -> int {
    (2 * detail_pairs(v).len() + v.security_groups->0.len() + v.network_interfaces->0.len() + 2) as int
}

/// The `k`-th text of the detail page, top to bottom: each field's label at
/// column 0 and its value at column 22, one field per row from row 1; the
/// title "security groups" at row 22 and the groups below it, one per row;
/// a blank row; the title "network interfaces" and the interfaces below it.
pub open spec fn detail_item(v: Ec2InstanceV, k: int) -> (int, int, bool, Seq<char>) {
    let p = detail_pairs(v).len() as int;
    let gs = v.security_groups->0;
    let ns = v.network_interfaces->0;
    let g = gs.len() as int;
    if k < 2 * p {
        if k % 2 == 0 {
            (0, k / 2 + 1, true, label_text(detail_pairs(v)[k / 2].0))
        } else {
            (22, k / 2 + 1, false, detail_pairs(v)[k / 2].1)
        }
    } else if k == 2 * p {
        (0, 22, true, "security groups"@)
    } else if k < 2 * p + 1 + g {
        (0, 23 + (k - 2 * p - 1), false, group_line(gs[k - 2 * p - 1]))
    } else if k == 2 * p + 1 + g {
        (0, 24 + g, true, "network interfaces"@)
    } else {
        (0, 25 + g + (k - 2 * p - 2 - g), false, interface_line(ns[k - 2 * p - 2 - g]))
    }
}

/// The texts of the detail page of `inst` and where each stands. The rows
/// below the security groups are counted on from row 22, so that the count
/// of groups and interfaces must leave room in a `usize`.
pub fn detail_page(inst: &Instance) -> (r: Vec<PlacedText>)
    requires
        details_ok(inst@.instance),
        inst@.instance.security_groups->0.len() + inst@.instance.network_interfaces->0.len() + 25 <= usize::MAX,
    ensures
        r@.len() == detail_page_len(inst@.instance),
        forall|k: int| 0 <= k < r@.len() ==> placed(#[trigger] r@[k]) == detail_item(inst@.instance, k),
{
    let ghost v = inst@.instance;
    let ghost p = detail_pairs(v).len() as int;
    let rows = detail_rows(inst);
    let groups = group_lines(inst);
    let ifaces = interface_lines(inst);
    proof {
        assert(groups@.len() == groups@.map_values(|s: String| s@).len());
        assert(ifaces@.len() == ifaces@.map_values(|s: String| s@).len());
    }
    let mut r: Vec<PlacedText> = Vec::new();
    let mut i: usize = 0;
    while i < rows.len()
        invariant
            v == inst@.instance,
            p == detail_pairs(v).len(),
            rows@.len() == p,
            forall|j: int|
                0 <= j < rows@.len() ==> (#[trigger] rows@[j]).label@ == label_text(detail_pairs(v)[j].0)
                    && rows@[j].value@ == detail_pairs(v)[j].1,
            i <= rows@.len(),
            r@.len() == 2 * i,
            forall|k: int| 0 <= k < r@.len() ==> placed(#[trigger] r@[k]) == detail_item(v, k),
        decreases rows@.len() - i,
    {
        let row = &rows[i];
        r.push(PlacedText { x: 0, y: i + 1, label: true, text: row.label.clone() });
        r.push(PlacedText { x: 22, y: i + 1, label: false, text: row.value.clone() });
        proof {
            let ii = i as int;
            assert((2 * ii) / 2 == ii && (2 * ii) % 2 == 0) by (nonlinear_arith);
            assert((2 * ii + 1) / 2 == ii && (2 * ii + 1) % 2 == 1) by (nonlinear_arith);
        }
        i = i + 1;
    }
    r.push(PlacedText { x: 0, y: 22, label: true, text: "security groups".to_owned() });
    let mut y: usize = 23;
    let mut j: usize = 0;
    while j < groups.len()
        invariant
            v == inst@.instance,
            p == detail_pairs(v).len(),
            groups@.map_values(|s: String| s@) == v.security_groups->0.map_values(
                |g: GroupV| list_line(g.group_id->0, g.group_name->0),
            ),
            groups@.len() == v.security_groups->0.len(),
            v.security_groups->0.len() + v.network_interfaces->0.len() + 25 <= usize::MAX,
            j <= groups@.len(),
            y == 23 + j,
            r@.len() == 2 * p + 1 + j,
            forall|k: int| 0 <= k < r@.len() ==> placed(#[trigger] r@[k]) == detail_item(v, k),
        decreases groups@.len() - j,
    {
        proof {
            assert(groups@.map_values(|s: String| s@)[j as int] == groups@[j as int]@);
        }
        r.push(PlacedText { x: 0, y: y, label: false, text: groups[j].clone() });
        y = y + 1;
        j = j + 1;
    }
    y = y + 1;
    r.push(PlacedText { x: 0, y: y, label: true, text: "network interfaces".to_owned() });
    y = y + 1;
    let mut j: usize = 0;
    while j < ifaces.len()
        invariant
            v == inst@.instance,
            p == detail_pairs(v).len(),
            ifaces@.map_values(|s: String| s@) == v.network_interfaces->0.map_values(
                |n: InterfaceV| list_line(n.network_interface_id->0, n.description->0),
            ),
            ifaces@.len() == v.network_interfaces->0.len(),
            v.security_groups->0.len() + v.network_interfaces->0.len() + 25 <= usize::MAX,
            j <= ifaces@.len(),
            y == 25 + v.security_groups->0.len() + j,
            r@.len() == 2 * p + 2 + v.security_groups->0.len() + j,
            forall|k: int| 0 <= k < r@.len() ==> placed(#[trigger] r@[k]) == detail_item(v, k),
        decreases ifaces@.len() - j,
    {
        proof {
            assert(ifaces@.map_values(|s: String| s@)[j as int] == ifaces@[j as int]@);
        }
        r.push(PlacedText { x: 0, y: y, label: false, text: ifaces[j].clone() });
        y = y + 1;
        j = j + 1;
    }
    r
}

} // verus!
