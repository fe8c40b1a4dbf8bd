//! The columns of the instances table and how an instance fills them.
use vstd::prelude::*;
use core::cmp::Ordering;
use crate::instance::{
    Instance, InstanceState, InstanceV, find_tag, find_tag_ok, find_tag_spec, opt_view, or_empty, tag_value,
    unwrap_or_empty,
};
use crate::text::{lex_compare, lex_sign};
use crate::views::table_view::{CellStyle, Header, TableViewItem};

verus! {

/// A column of the instances table.
#[derive(PartialEq, Eq, Structural, Clone, Copy, Debug, Hash)]
pub enum BasicColumn {
    InstanceID,
    Name,
    Architecture,
    Region,
    Profile,
    VpcID,
    Type,
    Key,
    State,
    PublicIp,
    PrivateIp,
}

/// The title of a column.
pub open spec fn column_title(c: BasicColumn) -> Seq<char> {
    match c {
        BasicColumn::InstanceID => "instance-id"@,
        BasicColumn::Name => "name"@,
        BasicColumn::Architecture => "arch"@,
        BasicColumn::VpcID => "vpc-id"@,
        BasicColumn::Profile => "profile"@,
        BasicColumn::Region => "region"@,
        BasicColumn::Type => "type"@,
        BasicColumn::Key => "key"@,
        BasicColumn::State => "state"@,
        BasicColumn::PublicIp => "public-ip"@,
        BasicColumn::PrivateIp => "private-ip"@,
    }
}

/// The width of a column in a table `w` characters wide: the name takes a
/// quarter of the table and the key an eighth; the others are fixed.
pub open spec fn column_width(c: BasicColumn, w: usize) -> usize {
    match c {
        BasicColumn::InstanceID => 19,
        BasicColumn::Name => ((40 * w) / 160) as usize,
        BasicColumn::Architecture => 8,
        BasicColumn::VpcID => 22,
        BasicColumn::Profile => 12,
        BasicColumn::Region => 12,
        BasicColumn::Type => 12,
        BasicColumn::Key => ((20 * w) / 160) as usize,
        BasicColumn::State => 10,
        BasicColumn::PublicIp => 15,
        BasicColumn::PrivateIp => 15,
    }
}

impl Header for BasicColumn {
    open spec fn header_text(&self) -> Seq<char> {
        column_title(*self)
    }

    open spec fn header_width(&self, w: usize) -> usize {
        column_width(*self, w)
    }

    fn to_header(&self) -> (r: String) {
        match self {
            BasicColumn::InstanceID => "instance-id".to_owned(),
            BasicColumn::Name => "name".to_owned(),
            BasicColumn::Architecture => "arch".to_owned(),
            BasicColumn::VpcID => "vpc-id".to_owned(),
            BasicColumn::Profile => "profile".to_owned(),
            BasicColumn::Region => "region".to_owned(),
            BasicColumn::Type => "type".to_owned(),
            BasicColumn::Key => "key".to_owned(),
            BasicColumn::State => "state".to_owned(),
            BasicColumn::PublicIp => "public-ip".to_owned(),
            BasicColumn::PrivateIp => "private-ip".to_owned(),
        }
    }

    fn to_header_size(&self, w: usize) -> (r: usize) {
        match self {
            BasicColumn::InstanceID => 19,
            BasicColumn::Name => {
                assert((40 * w) / 160 == w / 4) by (nonlinear_arith);
                w / 4
            },
            BasicColumn::Architecture => 8,
            BasicColumn::VpcID => 22,
            BasicColumn::Profile => 12,
            BasicColumn::Region => 12,
            BasicColumn::Type => 12,
            BasicColumn::Key => {
                assert((20 * w) / 160 == w / 8) by (nonlinear_arith);
                w / 8
            },
            BasicColumn::State => 10,
            BasicColumn::PublicIp => 15,
            BasicColumn::PrivateIp => 15,
        }
    }
}

/// The text of an instance in a column.
pub open spec fn instance_column_text(i: InstanceV, c: BasicColumn) -> Seq<char> {
    match c {
        BasicColumn::InstanceID => or_empty(i.instance.instance_id),
        BasicColumn::Name => or_empty(find_tag_spec("name"@, i.instance.tags)),
        BasicColumn::Region => i.region,
        BasicColumn::Profile => i.profile,
        BasicColumn::Architecture => or_empty(i.instance.architecture),
        BasicColumn::VpcID => or_empty(i.instance.vpc_id),
        BasicColumn::Type => or_empty(i.instance.instance_type),
        BasicColumn::Key => or_empty(i.instance.key_name),
        BasicColumn::State => or_empty(i.instance.state->0.name),
        BasicColumn::PublicIp => or_empty(i.instance.public_ip_address),
        BasicColumn::PrivateIp => or_empty(i.instance.private_ip_address),
    }
}

/// The instance has what its text in column `c` is made from: the name
/// column needs a readable tag list, the state column a state.
pub open spec fn instance_column_ok(i: InstanceV, c: BasicColumn) -> bool {
    match c {
        BasicColumn::Name => find_tag_ok("name"@, i.instance.tags),
        BasicColumn::State => i.instance.state is Some,
        _ => true,
    }
}

/// The colour of an instance in a column: names in dark green, the state in
/// light green when running (code 16) and in light red otherwise.
pub open spec fn instance_column_color(i: InstanceV, c: BasicColumn) -> CellStyle {
    match c {
        BasicColumn::Name => CellStyle::DarkGreen,
        BasicColumn::State => if i.instance.state->0.code == Some(16i64) {
            CellStyle::LightGreen
        } else {
            CellStyle::LightRed
        },
        _ => CellStyle::Primary,
    }
}

/// An order from a sign: negative is less, zero equal, positive greater.
pub open spec fn order_of_sign(s: int) -> Ordering {
    if s < 0 {
        Ordering::Less
    } else if s == 0 {
        Ordering::Equal
    } else {
        Ordering::Greater
    }
}

/// The order of two optional strings: nothing comes first, then strings in
/// lexicographic order.
pub open spec fn opt_text_order(a: Option<Seq<char>>, b: Option<Seq<char>>) -> Ordering {
    match (a, b) {
        (None, None) => Ordering::Equal,
        (None, Some(_)) => Ordering::Less,
        (Some(_), None) => Ordering::Greater,
        (Some(x), Some(y)) => order_of_sign(lex_sign(x, y)),
    }
}

/// The text of an instance's state name, empty where it has no state or the
/// state no name.
pub open spec fn state_name_text(i: InstanceV) -> Seq<char> {
    match i.instance.state {
        Some(st) => or_empty(st.name),
        None => Seq::<char>::empty(),
    }
}

/// The text by which the name, state, region and profile columns order
/// instances: the name-tag text, the state name, the region and the profile.
pub open spec fn column_sort_text(i: InstanceV, c: BasicColumn) -> Seq<char> {
    match c {
        BasicColumn::Name => instance_column_text(i, BasicColumn::Name),
        BasicColumn::State => state_name_text(i),
        BasicColumn::Region => i.region,
        BasicColumn::Profile => i.profile,
        _ => Seq::<char>::empty(),
    }
}

/// The field by which the other columns order instances.
pub open spec fn column_sort_field(i: InstanceV, c: BasicColumn) -> Option<Seq<char>> {
    match c {
        BasicColumn::InstanceID => i.instance.instance_id,
        BasicColumn::Architecture => i.instance.architecture,
        BasicColumn::VpcID => i.instance.vpc_id,
        BasicColumn::Type => i.instance.instance_type,
        BasicColumn::Key => i.instance.key_name,
        BasicColumn::PublicIp => i.instance.public_ip_address,
        BasicColumn::PrivateIp => i.instance.private_ip_address,
        _ => None,
    }
}

/// How two instances compare by a column: by the column's value. The name
/// column compares the name-tag texts and the state column the state names,
/// as text, as do the region and profile columns; the other columns compare
/// the field shown, a missing one first.
pub open spec fn instance_column_order(a: InstanceV, b: InstanceV, c: BasicColumn) -> Ordering {
    match c {
        BasicColumn::Name | BasicColumn::State | BasicColumn::Region | BasicColumn::Profile => order_of_sign(
            lex_sign(column_sort_text(a, c), column_sort_text(b, c)),
        ),
        _ => opt_text_order(column_sort_field(a, c), column_sort_field(b, c)),
    }
}

/// The state name of an instance, empty where it has no state or the state
/// no name.
fn state_name(st: &Option<InstanceState>) -> (r: String)
    ensures
        r@ == match st {
            Some(s) => or_empty(opt_view(s.name)),
            None => Seq::<char>::empty(),
        },
{
    match st {
        Some(s) => unwrap_or_empty(&s.name),
        None => String::new(),
    }
}

/// The lexicographic order of two strings.
pub fn text_order(a: &str, b: &str) -> (r: Ordering)
    ensures
        r == order_of_sign(lex_sign(a@, b@)),
{
    let s = lex_compare(a, b);
    if s < 0 {
        Ordering::Less
    } else if s == 0 {
        Ordering::Equal
    } else {
        Ordering::Greater
    }
}

/// The order of two optional strings.
pub fn opt_text_compare(a: &Option<String>, b: &Option<String>) -> (r: Ordering)
    ensures
        r == opt_text_order(opt_view(*a), opt_view(*b)),
{
    match (a, b) {
        (None, None) => Ordering::Equal,
        (None, Some(_)) => Ordering::Less,
        (Some(_), None) => Ordering::Greater,
        (Some(x), Some(y)) => text_order(x.as_str(), y.as_str()),
    }
}

impl TableViewItem<BasicColumn> for Instance {
    open spec fn column_ok(&self, column: BasicColumn) -> bool {
        instance_column_ok(self@, column)
    }

    open spec fn column_text(&self, column: BasicColumn) -> Seq<char> {
        instance_column_text(self@, column)
    }

    open spec fn color_ok(&self, column: BasicColumn) -> bool {
        column == BasicColumn::State ==> self@.instance.state is Some
    }

    open spec fn column_color(&self, column: BasicColumn) -> CellStyle {
        instance_column_color(self@, column)
    }

    open spec fn column_order(&self, other: &Self, column: BasicColumn) -> Ordering {
        instance_column_order(self@, other@, column)
    }

    fn to_column(&self, column: BasicColumn) -> (r: String) {
        let inst = &self.instance;
        match column {
            BasicColumn::InstanceID => unwrap_or_empty(&inst.instance_id),
            BasicColumn::Name => {
                let tags = match &inst.tags {
                    Some(v) => Some(crate::instance::clone_tags(v)),
                    None => None,
                };
                assert(crate::instance::opt_seq_view(tags) == self@.instance.tags);
                let found = find_tag("name".to_owned(), tags);
                unwrap_or_empty(&found)
            },
            BasicColumn::Region => self.region.clone(),
            BasicColumn::Profile => self.profile.clone(),
            BasicColumn::Architecture => unwrap_or_empty(&inst.architecture),
            BasicColumn::VpcID => unwrap_or_empty(&inst.vpc_id),
            BasicColumn::Type => unwrap_or_empty(&inst.instance_type),
            BasicColumn::Key => unwrap_or_empty(&inst.key_name),
            BasicColumn::State => {
                let st = inst.state.as_ref().unwrap();
                unwrap_or_empty(&st.name)
            },
            BasicColumn::PublicIp => unwrap_or_empty(&inst.public_ip_address),
            BasicColumn::PrivateIp => unwrap_or_empty(&inst.private_ip_address),
        }
    }

    fn to_column_color(&self, column: BasicColumn) -> (r: CellStyle) {
        match column {
            BasicColumn::Name => CellStyle::DarkGreen,
            BasicColumn::State => {
                let st = self.instance.state.as_ref().unwrap();
                match st.code {
                    Some(16) => CellStyle::LightGreen,
                    _ => CellStyle::LightRed,
                }
            },
            _ => CellStyle::Primary,
        }
    }

    fn cmp(&self, other: &Self, column: BasicColumn) -> (r: Ordering) {
        let a = &self.instance;
        let b = &other.instance;
        match column {
            BasicColumn::Name => {
                let x = unwrap_or_empty(&tag_value(&a.tags, "name"));
                let y = unwrap_or_empty(&tag_value(&b.tags, "name"));
                text_order(x.as_str(), y.as_str())
            },
            BasicColumn::InstanceID => opt_text_compare(&a.instance_id, &b.instance_id),
            BasicColumn::Region => text_order(self.region.as_str(), other.region.as_str()),
            BasicColumn::Profile => text_order(self.profile.as_str(), other.profile.as_str()),
            BasicColumn::Architecture => opt_text_compare(&a.architecture, &b.architecture),
            BasicColumn::VpcID => opt_text_compare(&a.vpc_id, &b.vpc_id),
            BasicColumn::Type => opt_text_compare(&a.instance_type, &b.instance_type),
            BasicColumn::Key => opt_text_compare(&a.key_name, &b.key_name),
            BasicColumn::State => {
                let x = state_name(&a.state);
                let y = state_name(&b.state);
                proof {
                    assert(x@ == state_name_text(self@));
                    assert(y@ == state_name_text(other@));
                }
                text_order(x.as_str(), y.as_str())
            },
            BasicColumn::PublicIp => opt_text_compare(&a.public_ip_address, &b.public_ip_address),
            BasicColumn::PrivateIp => opt_text_compare(&a.private_ip_address, &b.private_ip_address),
        }
    }
}

} // verus!
