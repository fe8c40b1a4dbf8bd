//! The EC2 instance as the application sees it: the fields that the
//! table, the filters, the search and the detail page read, together with
//! the profile and the region it was listed from.
use vstd::prelude::*;
use vstd::std_specs::cmp::PartialEqSpecImpl;
use crate::text::{eq_ignore_ascii_case, eq_ignore_ascii_case_spec};

verus! {

/// An optional string, seen as its characters.
pub open spec fn opt_view(o: Option<String>) -> Option<Seq<char>> {
    match o {
        Some(s) => Some(s@),
        None => None,
    }
}

/// The characters of an optional string, or nothing (as `unwrap_or_default`).
pub open spec fn or_empty(o: Option<Seq<char>>) -> Seq<char> {
    match o {
        Some(s) => s,
        None => Seq::<char>::empty(),
    }
}

/// A copy of an optional string.
pub fn clone_opt(o: &Option<String>) -> (r: Option<String>)
    ensures
        r == *o,
{
    match o {
        Some(s) => Some(s.clone()),
        None => None,
    }
}

/// An optional string, or the empty string.
pub fn unwrap_or_empty(o: &Option<String>) -> (r: String)
    ensures
        r@ == or_empty(opt_view(*o)),
{
    match o {
        Some(s) => s.clone(),
        None => String::new(),
    }
}

/// A key/value tag of an instance.
pub struct Tag {
    pub key: Option<String>,
    pub value: Option<String>,
}

pub struct TagV {
    pub key: Option<Seq<char>>,
    pub value: Option<Seq<char>>,
}

impl View for Tag {
    type V = TagV;

    open spec fn view(&self) -> TagV {
        TagV { key: opt_view(self.key), value: opt_view(self.value) }
    }
}

impl Clone for Tag {
    fn clone(&self) -> (r: Self)
        ensures
            r == *self,
    {
        Tag { key: clone_opt(&self.key), value: clone_opt(&self.value) }
    }
}

/// The state of an instance: its numeric code and its name.
pub struct InstanceState {
    pub code: Option<i64>,
    pub name: Option<String>,
}

impl Clone for InstanceState {
    fn clone(&self) -> (r: Self)
        ensures
            r == *self,
    {
        InstanceState { code: self.code, name: clone_opt(&self.name) }
    }
}

/// Where an instance is placed.
pub struct Placement {
    pub group_name: Option<String>,
}

impl Clone for Placement {
    fn clone(&self) -> (r: Self)
        ensures
            r == *self,
    {
        Placement { group_name: clone_opt(&self.group_name) }
    }
}

/// A security group of an instance.
pub struct GroupIdentifier {
    pub group_id: Option<String>,
    pub group_name: Option<String>,
}

impl Clone for GroupIdentifier {
    fn clone(&self) -> (r: Self)
        ensures
            r == *self,
    {
        GroupIdentifier { group_id: clone_opt(&self.group_id), group_name: clone_opt(&self.group_name) }
    }
}

/// A network interface of an instance.
pub struct InstanceNetworkInterface {
    pub network_interface_id: Option<String>,
    pub description: Option<String>,
}

impl Clone for InstanceNetworkInterface {
    fn clone(&self) -> (r: Self)
        ensures
            r == *self,
    {
        InstanceNetworkInterface {
            network_interface_id: clone_opt(&self.network_interface_id),
            description: clone_opt(&self.description),
        }
    }
}

fn clone_vec<T: Clone>(v: &Vec<T>) -> (r: Vec<T>)
    requires
        forall|a: T, b: T| cloned(a, b) ==> a == b,
    ensures
        r@ == v@,
{
    let mut r: Vec<T> = Vec::new();
    let mut i: usize = 0;
    while i < v.len()
        invariant
            i <= v.len(),
            r@ == v@.subrange(0, i as int),
            forall|a: T, b: T| cloned(a, b) ==> a == b,
        decreases v.len() - i,
    {
        let x = v[i].clone();
        assert(cloned(v@[i as int], x));
        r.push(x);
        assert(r@ =~= v@.subrange(0, i + 1));
        i = i + 1;
    }
    assert(v@.subrange(0, v.len() as int) =~= v@);
    r
}


pub fn clone_tags(v: &Vec<Tag>) -> (r: Vec<Tag>)
    ensures
        r@ == v@,
{
    assert forall|a: Tag, b: Tag| cloned(a, b) implies a == b by {}
    clone_vec(v)
}


/// A list of values, when present, seen through the values' views.
pub open spec fn opt_seq_view<T: View>(o: Option<Vec<T>>) -> Option<Seq<T::V>> {
    match o {
        Some(v) => Some(v@.map_values(|t: T| t@)),
        None => None,
    }
}

pub struct InstanceStateV {
    pub code: Option<i64>,
    pub name: Option<Seq<char>>,
}

impl View for InstanceState {
    type V = InstanceStateV;

    open spec fn view(&self) -> InstanceStateV {
        InstanceStateV { code: self.code, name: opt_view(self.name) }
    }
}

pub struct GroupV {
    pub group_id: Option<Seq<char>>,
    pub group_name: Option<Seq<char>>,
}

impl View for GroupIdentifier {
    type V = GroupV;

    open spec fn view(&self) -> GroupV {
        GroupV { group_id: opt_view(self.group_id), group_name: opt_view(self.group_name) }
    }
}

pub struct InterfaceV {
    pub network_interface_id: Option<Seq<char>>,
    pub description: Option<Seq<char>>,
}

impl View for InstanceNetworkInterface {
    type V = InterfaceV;

    open spec fn view(&self) -> InterfaceV {
        InterfaceV {
            network_interface_id: opt_view(self.network_interface_id),
            description: opt_view(self.description),
        }
    }
}

/// An EC2 instance description: the fields that the application shows,
/// and the whole description as text.
pub struct Ec2Instance {
    pub instance_id: Option<String>,
    pub tags: Option<Vec<Tag>>,
    pub architecture: Option<String>,
    pub vpc_id: Option<String>,
    pub subnet_id: Option<String>,
    pub instance_type: Option<String>,
    pub key_name: Option<String>,
    pub state: Option<InstanceState>,
    pub public_ip_address: Option<String>,
    pub public_dns_name: Option<String>,
    pub private_ip_address: Option<String>,
    pub private_dns_name: Option<String>,
    pub placement: Option<Placement>,
    pub instance_lifecycle: Option<String>,
    pub image_id: Option<String>,
    pub ramdisk_id: Option<String>,
    pub root_device_name: Option<String>,
    pub root_device_type: Option<String>,
    pub security_groups: Option<Vec<GroupIdentifier>>,
    pub network_interfaces: Option<Vec<InstanceNetworkInterface>>,
    /// The whole description as it was read, written out as text: two
    /// descriptions are equal exactly when their records are, so that the
    /// fields not listed above count in comparing two descriptions too.
    pub record: String,
}

pub struct Ec2InstanceV {
    pub instance_id: Option<Seq<char>>,
    pub tags: Option<Seq<TagV>>,
    pub architecture: Option<Seq<char>>,
    pub vpc_id: Option<Seq<char>>,
    pub subnet_id: Option<Seq<char>>,
    pub instance_type: Option<Seq<char>>,
    pub key_name: Option<Seq<char>>,
    pub state: Option<InstanceStateV>,
    pub public_ip_address: Option<Seq<char>>,
    pub public_dns_name: Option<Seq<char>>,
    pub private_ip_address: Option<Seq<char>>,
    pub private_dns_name: Option<Seq<char>>,
    /// The placement, when present, with its group name.
    pub placement: Option<Option<Seq<char>>>,
    pub instance_lifecycle: Option<Seq<char>>,
    pub image_id: Option<Seq<char>>,
    pub ramdisk_id: Option<Seq<char>>,
    pub root_device_name: Option<Seq<char>>,
    pub root_device_type: Option<Seq<char>>,
    pub security_groups: Option<Seq<GroupV>>,
    pub network_interfaces: Option<Seq<InterfaceV>>,
    pub record: Seq<char>,
}

impl View for Ec2Instance {
    type V = Ec2InstanceV;

    open spec fn view(&self) -> Ec2InstanceV {
        Ec2InstanceV {
            instance_id: opt_view(self.instance_id),
            tags: opt_seq_view(self.tags),
            architecture: opt_view(self.architecture),
            vpc_id: opt_view(self.vpc_id),
            subnet_id: opt_view(self.subnet_id),
            instance_type: opt_view(self.instance_type),
            key_name: opt_view(self.key_name),
            state: match self.state {
                Some(st) => Some(st@),
                None => None,
            },
            public_ip_address: opt_view(self.public_ip_address),
            public_dns_name: opt_view(self.public_dns_name),
            private_ip_address: opt_view(self.private_ip_address),
            private_dns_name: opt_view(self.private_dns_name),
            placement: match self.placement {
                Some(p) => Some(opt_view(p.group_name)),
                None => None,
            },
            instance_lifecycle: opt_view(self.instance_lifecycle),
            image_id: opt_view(self.image_id),
            ramdisk_id: opt_view(self.ramdisk_id),
            root_device_name: opt_view(self.root_device_name),
            root_device_type: opt_view(self.root_device_type),
            security_groups: opt_seq_view(self.security_groups),
            network_interfaces: opt_seq_view(self.network_interfaces),
            record: self.record@,
        }
    }
}

fn clone_opt_vec<T: Clone>(o: &Option<Vec<T>>) -> (r: Option<Vec<T>>)
    requires
        forall|a: T, b: T| cloned(a, b) ==> a == b,
    ensures
        r matches Some(rv) ==> (*o matches Some(ov) && rv@ == ov@),
        r is None <==> o is None,
{
    match o {
        Some(v) => Some(clone_vec(v)),
        None => None,
    }
}

impl Clone for Ec2Instance {
    fn clone(&self) -> (r: Self)
        ensures
            r@ == self@,
    {
        assert forall|a: Tag, b: Tag| cloned(a, b) implies a == b by {}
        assert forall|a: GroupIdentifier, b: GroupIdentifier| cloned(a, b) implies a == b by {}
        assert forall|a: InstanceNetworkInterface, b: InstanceNetworkInterface| cloned(a, b) implies a == b by {}
        let state = match &self.state {
            Some(st) => Some(st.clone()),
            None => None,
        };
        let placement = match &self.placement {
            Some(p) => Some(p.clone()),
            None => None,
        };
        let r = Ec2Instance {
            instance_id: clone_opt(&self.instance_id),
            tags: clone_opt_vec(&self.tags),
            architecture: clone_opt(&self.architecture),
            vpc_id: clone_opt(&self.vpc_id),
            subnet_id: clone_opt(&self.subnet_id),
            instance_type: clone_opt(&self.instance_type),
            key_name: clone_opt(&self.key_name),
            state,
            public_ip_address: clone_opt(&self.public_ip_address),
            public_dns_name: clone_opt(&self.public_dns_name),
            private_ip_address: clone_opt(&self.private_ip_address),
            private_dns_name: clone_opt(&self.private_dns_name),
            placement,
            instance_lifecycle: clone_opt(&self.instance_lifecycle),
            image_id: clone_opt(&self.image_id),
            ramdisk_id: clone_opt(&self.ramdisk_id),
            root_device_name: clone_opt(&self.root_device_name),
            root_device_type: clone_opt(&self.root_device_type),
            security_groups: clone_opt_vec(&self.security_groups),
            network_interfaces: clone_opt_vec(&self.network_interfaces),
            record: self.record.clone(),
        };
        assert(r@.tags =~= self@.tags);
        assert(r@.security_groups =~= self@.security_groups);
        assert(r@.network_interfaces =~= self@.network_interfaces);
        r
    }
}

/// An instance together with the profile and the region (by its name) it
/// was listed from.
pub struct Instance {
    pub instance: Ec2Instance,
    pub profile: String,
    pub region: String,
}

pub struct InstanceV {
    pub instance: Ec2InstanceV,
    pub profile: Seq<char>,
    pub region: Seq<char>,
}

impl View for Instance {
    type V = InstanceV;

    open spec fn view(&self) -> InstanceV {
        InstanceV { instance: self.instance@, profile: self.profile@, region: self.region@ }
    }
}

impl Clone for Instance {
    fn clone(&self) -> (r: Self)
        ensures
            r@ == self@,
    {
        Instance {
            instance: self.instance.clone(),
            profile: self.profile.clone(),
            region: self.region.clone(),
        }
    }
}


/// Comparison of two values by their views.
pub trait ViewEq: View + Sized {
    fn view_eq(&self, other: &Self) -> (r: bool)
        ensures
            r == (self@ == other@);
}

/// Whether two optional strings are equal.
pub fn opt_str_eq(a: &Option<String>, b: &Option<String>) -> (r: bool)
    ensures
        r == (opt_view(*a) == opt_view(*b)),
{
    match (a, b) {
        (Some(x), Some(y)) => String::eq(x, y),
        (None, None) => true,
        _ => false,
    }
}

impl ViewEq for Tag {
    fn view_eq(&self, other: &Self) -> (r: bool) {
        opt_str_eq(&self.key, &other.key) && opt_str_eq(&self.value, &other.value)
    }
}

impl ViewEq for GroupIdentifier {
    fn view_eq(&self, other: &Self) -> (r: bool) {
        opt_str_eq(&self.group_id, &other.group_id) && opt_str_eq(&self.group_name, &other.group_name)
    }
}

impl ViewEq for InstanceNetworkInterface {
    fn view_eq(&self, other: &Self) -> (r: bool) {
        opt_str_eq(&self.network_interface_id, &other.network_interface_id) && opt_str_eq(
            &self.description,
            &other.description,
        )
    }
}

impl ViewEq for InstanceState {
    fn view_eq(&self, other: &Self) -> (r: bool) {
        let same_code = match (self.code, other.code) {
            (Some(x), Some(y)) => x == y,
            (None, None) => true,
            _ => false,
        };
        same_code && opt_str_eq(&self.name, &other.name)
    }
}

fn vec_view_eq<T: ViewEq>(a: &Vec<T>, b: &Vec<T>) -> (r: bool)
    ensures
        r == (a@.map_values(|t: T| t@) == b@.map_values(|t: T| t@)),
{
    if a.len() != b.len() {
        assert(a@.map_values(|t: T| t@).len() != b@.map_values(|t: T| t@).len());
        return false;
    }
    let mut i: usize = 0;
    while i < a.len()
        invariant
            a.len() == b.len(),
            i <= a.len(),
            forall|k: int| 0 <= k < i ==> (#[trigger] a@[k])@ == b@[k]@,
        decreases a.len() - i,
    {
        if !a[i].view_eq(&b[i]) {
            assert(a@.map_values(|t: T| t@)[i as int] != b@.map_values(|t: T| t@)[i as int]);
            return false;
        }
        i = i + 1;
    }
    assert(a@.map_values(|t: T| t@) =~= b@.map_values(|t: T| t@));
    true
}

fn opt_vec_view_eq<T: ViewEq>(a: &Option<Vec<T>>, b: &Option<Vec<T>>) -> (r: bool)
    ensures
        r == (opt_seq_view(*a) == opt_seq_view(*b)),
{
    match (a, b) {
        (Some(x), Some(y)) => vec_view_eq(x, y),
        (None, None) => true,
        _ => false,
    }
}

impl ViewEq for Ec2Instance {
    fn view_eq(&self, other: &Self) -> (r: bool) {
        let same_state = match (&self.state, &other.state) {
            (Some(x), Some(y)) => x.view_eq(y),
            (None, None) => true,
            _ => false,
        };
        let same_placement = match (&self.placement, &other.placement) {
            (Some(x), Some(y)) => opt_str_eq(&x.group_name, &y.group_name),
            (None, None) => true,
            _ => false,
        };
        opt_str_eq(&self.instance_id, &other.instance_id)
            && opt_vec_view_eq(&self.tags, &other.tags)
            && opt_str_eq(&self.architecture, &other.architecture)
            && opt_str_eq(&self.vpc_id, &other.vpc_id)
            && opt_str_eq(&self.subnet_id, &other.subnet_id)
            && opt_str_eq(&self.instance_type, &other.instance_type)
            && opt_str_eq(&self.key_name, &other.key_name)
            && same_state
            && opt_str_eq(&self.public_ip_address, &other.public_ip_address)
            && opt_str_eq(&self.public_dns_name, &other.public_dns_name)
            && opt_str_eq(&self.private_ip_address, &other.private_ip_address)
            && opt_str_eq(&self.private_dns_name, &other.private_dns_name)
            && same_placement
            && opt_str_eq(&self.instance_lifecycle, &other.instance_lifecycle)
            && opt_str_eq(&self.image_id, &other.image_id)
            && opt_str_eq(&self.ramdisk_id, &other.ramdisk_id)
            && opt_str_eq(&self.root_device_name, &other.root_device_name)
            && opt_str_eq(&self.root_device_type, &other.root_device_type)
            && opt_vec_view_eq(&self.security_groups, &other.security_groups)
            && opt_vec_view_eq(&self.network_interfaces, &other.network_interfaces)
            && String::eq(&self.record, &other.record)
    }
}

impl ViewEq for Instance {
    fn view_eq(&self, other: &Self) -> (r: bool) {
        self.instance.view_eq(&other.instance) && String::eq(&self.profile, &other.profile)
            && String::eq(&self.region, &other.region)
    }
}

impl PartialEq for Instance {
    fn eq(&self, other: &Self) -> (r: bool) {
        self.view_eq(other)
    }
}

impl PartialEqSpecImpl for Instance {
    open spec fn obeys_eq_spec() -> bool {
        true
    }

    open spec fn eq_spec(&self, other: &Self) -> bool {
        self@ == other@
    }
}


/// A tag whose key is `key`, up to ASCII case.
pub open spec fn tag_matches(t: TagV, key: Seq<char>) -> bool {
    t.key matches Some(k) && eq_ignore_ascii_case_spec(k, key)
}

/// Scanning `tags` from `i` on for `key` reaches a match, or the end,
/// before it meets a tag without a key.
pub open spec fn tag_scan_ok(tags: Seq<TagV>, key: Seq<char>, i: int) -> bool
    decreases tags.len() - i,
{
    if i < 0 || i >= tags.len() {
        true
    } else if tags[i].key is None {
        false
    } else if tag_matches(tags[i], key) {
        true
    } else {
        tag_scan_ok(tags, key, i + 1)
    }
}

/// The value of the first tag from `i` on whose key is `key`.
pub open spec fn find_tag_from(tags: Seq<TagV>, key: Seq<char>, i: int) -> Option<Seq<char>>
    decreases tags.len() - i,
{
    if i < 0 || i >= tags.len() {
        None
    } else if tag_matches(tags[i], key) {
        tags[i].value
    } else {
        find_tag_from(tags, key, i + 1)
    }
}

/// Looking `key` up in `tags` meets no tag without a key before it ends.
pub open spec fn find_tag_ok(key: Seq<char>, tags: Option<Seq<TagV>>) -> bool {
    match tags {
        Some(t) => tag_scan_ok(t, key, 0),
        None => true,
    }
}

/// The value of the first tag whose key is `key` up to ASCII case, if any.
pub open spec fn find_tag_spec(key: Seq<char>, tags: Option<Seq<TagV>>) -> Option<Seq<char>> {
    match tags {
        Some(t) => find_tag_from(t, key, 0),
        None => None,
    }
}

/// The value of the first tag whose key equals `key` up to ASCII case;
/// tags without a key are passed over.
pub fn tag_value(tags: &Option<Vec<Tag>>, key: &str) -> (r: Option<String>)
    ensures
        opt_view(r) == find_tag_spec(key@, opt_seq_view(*tags)),
{
    let ghost full = opt_seq_view(*tags);
    match tags {
        Some(list) => {
            let ghost tv = full->0;
            let mut i: usize = 0;
            while i < list.len()
                invariant
                    full == opt_seq_view(*tags),
                    full == opt_seq_view(Some(*list)),
                    tv == full->0,
                    i <= list@.len(),
                    find_tag_from(tv, key@, 0) == find_tag_from(tv, key@, i as int),
                decreases list@.len() - i,
            {
                let t = &list[i];
                assert(tv[i as int] == t@);
                match &t.key {
                    Some(k) => {
                        if eq_ignore_ascii_case(k.as_str(), key) {
                            assert(tag_matches(tv[i as int], key@));
                            assert(find_tag_from(tv, key@, i as int) == tv[i as int].value);
                            return clone_opt(&t.value);
                        }
                    },
                    None => {},
                }
                i = i + 1;
            }
            None
        },
        None => None,
    }
}

/// The value of the first tag whose key equals `key` up to ASCII case.
pub fn find_tag(key: String, tags: Option<Vec<Tag>>) -> (r: Option<String>)
    requires
        find_tag_ok(key@, opt_seq_view(tags)),
    ensures
        opt_view(r) == find_tag_spec(key@, opt_seq_view(tags)),
{
    tag_value(&tags, key.as_str())
}

} // verus!
