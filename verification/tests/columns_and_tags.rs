use cloudman_rs::columns::BasicColumn;
use cloudman_rs::instance::{find_tag, Ec2Instance, Instance, InstanceState, Tag};
use cloudman_rs::views::table_view::{CellStyle, Header, TableViewItem};
use std::cmp::Ordering;

fn some(s: &str) -> Option<String> {
    Some(s.to_string())
}

fn tag(k: &str, v: &str) -> Tag {
    Tag { key: some(k), value: some(v) }
}

fn inst(id: Option<&str>, name: Option<&str>, code: i64, key: Option<&str>) -> Instance {
    Instance {
        instance: Ec2Instance {
            record: String::new(),
            instance_id: id.map(|s| s.to_string()),
            tags: name.map(|n| vec![tag("env", "prod"), tag("Name", n)]),
            architecture: some("x86_64"),
            vpc_id: some("vpc-1"),
            subnet_id: None,
            instance_type: some("t3.micro"),
            key_name: key.map(|s| s.to_string()),
            state: Some(InstanceState { code: Some(code), name: some("running") }),
            public_ip_address: some("1.2.3.4"),
            public_dns_name: None,
            private_ip_address: None,
            private_dns_name: None,
            placement: None,
            instance_lifecycle: None,
            image_id: None,
            ramdisk_id: None,
            root_device_name: None,
            root_device_type: None,
            security_groups: None,
            network_interfaces: None,
        },
        profile: "default".to_string(),
        region: "eu-west-1".to_string(),
    }
}

#[test]
fn find_tag_ignores_key_case_and_takes_first() {
    let tags = vec![tag("env", "prod"), tag("NAME", "web"), tag("name", "other")];
    assert_eq!(find_tag("name".to_string(), Some(tags.clone())), some("web"));
    assert_eq!(find_tag("Env".to_string(), Some(tags.clone())), some("prod"));
    assert_eq!(find_tag("owner".to_string(), Some(tags)), None);
    assert_eq!(find_tag("name".to_string(), None), None);
    let valueless = vec![Tag { key: some("Name"), value: None }];
    assert_eq!(find_tag("name".to_string(), Some(valueless)), None);
}

#[test]
fn column_texts() {
    let i = inst(Some("i-1"), Some("web"), 16, Some("deploy"));
    assert_eq!(i.to_column(BasicColumn::InstanceID), "i-1");
    assert_eq!(i.to_column(BasicColumn::Name), "web");
    assert_eq!(i.to_column(BasicColumn::Region), "eu-west-1");
    assert_eq!(i.to_column(BasicColumn::Profile), "default");
    assert_eq!(i.to_column(BasicColumn::Architecture), "x86_64");
    assert_eq!(i.to_column(BasicColumn::VpcID), "vpc-1");
    assert_eq!(i.to_column(BasicColumn::Type), "t3.micro");
    assert_eq!(i.to_column(BasicColumn::Key), "deploy");
    assert_eq!(i.to_column(BasicColumn::State), "running");
    assert_eq!(i.to_column(BasicColumn::PublicIp), "1.2.3.4");
    assert_eq!(i.to_column(BasicColumn::PrivateIp), "");
    let unnamed = inst(None, None, 80, None);
    assert_eq!(unnamed.to_column(BasicColumn::Name), "");
    assert_eq!(unnamed.to_column(BasicColumn::InstanceID), "");
}

#[test]
fn column_colors() {
    let running = inst(Some("i-1"), Some("web"), 16, None);
    let stopped = inst(Some("i-2"), Some("db"), 80, None);
    assert_eq!(running.to_column_color(BasicColumn::Name), CellStyle::DarkGreen);
    assert_eq!(running.to_column_color(BasicColumn::State), CellStyle::LightGreen);
    assert_eq!(stopped.to_column_color(BasicColumn::State), CellStyle::LightRed);
    assert_eq!(stopped.to_column_color(BasicColumn::Region), CellStyle::Primary);
}

#[test]
fn headers() {
    assert_eq!(BasicColumn::InstanceID.to_header(), "instance-id");
    assert_eq!(BasicColumn::Architecture.to_header(), "arch");
    assert_eq!(BasicColumn::PrivateIp.to_header(), "private-ip");
    assert_eq!(BasicColumn::Name.to_header_size(160), 40);
    assert_eq!(BasicColumn::Name.to_header_size(100), 25);
    assert_eq!(BasicColumn::Key.to_header_size(160), 20);
    assert_eq!(BasicColumn::Key.to_header_size(7), 0);
    assert_eq!(BasicColumn::VpcID.to_header_size(1), 22);
    assert_eq!(BasicColumn::State.to_header_size(1000), 10);
}

#[test]
fn column_order() {
    let a = inst(Some("i-1"), Some("web"), 16, Some("a"));
    let b = inst(Some("i-2"), Some("db"), 16, Some("b"));
    let none = inst(None, None, 16, None);
    assert_eq!(a.cmp(&b, BasicColumn::InstanceID), Ordering::Less);
    assert_eq!(b.cmp(&a, BasicColumn::InstanceID), Ordering::Greater);
    assert_eq!(a.cmp(&b, BasicColumn::Name), Ordering::Greater);
    assert_eq!(a.cmp(&a, BasicColumn::Region), Ordering::Equal);
    assert_eq!(none.cmp(&a, BasicColumn::InstanceID), Ordering::Less);
    assert_eq!(a.cmp(&none, BasicColumn::Key), Ordering::Greater);
    assert_eq!(a.cmp(&b, BasicColumn::State), Ordering::Equal);
    assert_eq!(a.cmp(&b, BasicColumn::PrivateIp), Ordering::Equal);
}

#[test]
fn name_and_state_columns_compare_their_texts() {
    // Ids and key names in one order, names and states in the other.
    let mut a = inst(Some("a"), Some("z"), 16, Some("a"));
    let mut b = inst(Some("b"), Some("a"), 16, Some("b"));
    assert_eq!(a.cmp(&b, BasicColumn::Name), Ordering::Greater);
    assert_eq!(b.cmp(&a, BasicColumn::Name), Ordering::Less);
    assert_eq!(a.cmp(&b, BasicColumn::InstanceID), Ordering::Less);
    a.instance.state = Some(InstanceState { code: Some(16), name: some("z") });
    b.instance.state = Some(InstanceState { code: Some(16), name: some("a") });
    assert_eq!(a.cmp(&b, BasicColumn::State), Ordering::Greater);
    assert_eq!(a.cmp(&b, BasicColumn::Key), Ordering::Less);
    assert_eq!(
        a.cmp(&b, BasicColumn::State),
        a.to_column(BasicColumn::State).cmp(&b.to_column(BasicColumn::State))
    );
    assert_eq!(
        a.cmp(&b, BasicColumn::Name),
        a.to_column(BasicColumn::Name).cmp(&b.to_column(BasicColumn::Name))
    );
}

#[test]
fn missing_name_or_state_compares_as_empty_text() {
    let a = inst(Some("a"), Some("web"), 16, None);
    let nameless = inst(Some("b"), None, 16, None);
    assert_eq!(nameless.cmp(&a, BasicColumn::Name), Ordering::Less);
    assert_eq!(nameless.cmp(&nameless, BasicColumn::Name), Ordering::Equal);
    let mut stateless = inst(Some("c"), Some("web"), 16, None);
    stateless.instance.state = None;
    assert_eq!(stateless.cmp(&a, BasicColumn::State), Ordering::Less);
    let mut unnamed_state = inst(Some("d"), Some("web"), 16, None);
    unnamed_state.instance.state = Some(InstanceState { code: Some(0), name: None });
    assert_eq!(unnamed_state.cmp(&stateless, BasicColumn::State), Ordering::Equal);
    // A tag without a key before the name tag is passed over.
    let mut keyless = inst(Some("e"), Some("web"), 16, None);
    keyless.instance.tags = Some(vec![Tag { key: None, value: some("x") }, tag("Name", "web")]);
    assert_eq!(keyless.cmp(&a, BasicColumn::Name), Ordering::Equal);
}

#[test]
fn every_column_orders_as_an_order() {
    let mut items = vec![
        inst(Some("i-1"), Some("web"), 16, Some("a")),
        inst(Some("i-2"), Some("db"), 80, None),
        inst(None, None, 16, Some("b")),
        inst(Some("i-0"), Some("web"), 16, Some("a")),
    ];
    items[1].instance.state = Some(InstanceState { code: Some(80), name: some("stopped") });
    items[2].instance.state = None;
    items[3].region = "us-east-1".to_string();
    let columns = [
        BasicColumn::InstanceID,
        BasicColumn::Name,
        BasicColumn::Architecture,
        BasicColumn::Region,
        BasicColumn::Profile,
        BasicColumn::VpcID,
        BasicColumn::Type,
        BasicColumn::Key,
        BasicColumn::State,
        BasicColumn::PublicIp,
        BasicColumn::PrivateIp,
    ];
    for c in columns.iter() {
        for a in items.iter() {
            assert_eq!(a.cmp(a, *c), Ordering::Equal);
            for b in items.iter() {
                assert_eq!(a.cmp(b, *c), b.cmp(a, *c).reverse());
                for d in items.iter() {
                    if a.cmp(b, *c) != Ordering::Greater && b.cmp(d, *c) != Ordering::Greater {
                        assert_ne!(a.cmp(d, *c), Ordering::Greater);
                    }
                }
            }
        }
    }
}
