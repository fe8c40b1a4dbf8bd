use cloudman_rs::instance::{
    Ec2Instance, GroupIdentifier, Instance, InstanceNetworkInterface, InstanceState, Placement, Tag,
};

fn some(s: &str) -> Option<String> {
    Some(s.to_string())
}

fn bare() -> Ec2Instance {
    Ec2Instance {
        record: String::new(),
        instance_id: None,
        tags: None,
        architecture: None,
        vpc_id: None,
        subnet_id: None,
        instance_type: None,
        key_name: None,
        state: None,
        public_ip_address: None,
        public_dns_name: None,
        private_ip_address: None,
        private_dns_name: None,
        placement: None,
        instance_lifecycle: None,
        image_id: None,
        ramdisk_id: None,
        root_device_name: None,
        root_device_type: None,
        security_groups: None,
        network_interfaces: None,
    }
}

fn named(id: &str, name: &str, code: i64) -> Instance {
    let mut e = bare();
    e.instance_id = some(id);
    e.tags = Some(vec![Tag { key: some("Name"), value: some(name) }]);
    e.state = Some(InstanceState { code: Some(code), name: some(if code == 16 { "running" } else { "stopped" }) });
    e.key_name = some("deploy");
    Instance { instance: e, profile: "default".to_string(), region: "eu-west-1".to_string() }
}

#[test]
fn model_equality_compares_all_fields() {
    let a = named("i-1", "web", 16);
    let b = named("i-1", "web", 16);
    let c = named("i-1", "web", 80);
    assert!(a == b);
    assert!(a != c);
    let mut d = named("i-1", "web", 16);
    d.profile = "prod".to_string();
    assert!(a != d);
}

#[test]
fn model_clone_is_equal() {
    let mut a = named("i-2", "db", 16);
    a.instance.security_groups = Some(vec![GroupIdentifier { group_id: some("sg-1"), group_name: some("base") }]);
    a.instance.network_interfaces =
        Some(vec![InstanceNetworkInterface { network_interface_id: some("eni-1"), description: some("main") }]);
    a.instance.placement = Some(Placement { group_name: some("") });
    let b = a.clone();
    assert!(a == b);
}

#[test]
fn model_equality_counts_the_whole_record() {
    let mut a = named("i-1", "web", 16);
    let mut b = named("i-1", "web", 16);
    a.instance.record = "Instance { launch_time: Some(\"2021-01-01\") }".to_string();
    b.instance.record = "Instance { launch_time: Some(\"2022-02-02\") }".to_string();
    assert!(a != b);
    b.instance.record = a.instance.record.clone();
    assert!(a == b);
    assert!(a.clone() == a);
}
