use cloudman_rs::actions::{action_choices, action_menu_title, action_request, action_texts, session_command, Actions};
use cloudman_rs::details::{detail_rows, group_lines, instance_title, interface_lines};
use cloudman_rs::instance::{
    Ec2Instance, GroupIdentifier, Instance, InstanceNetworkInterface, InstanceState, Placement, Tag,
};
use cloudman_rs::state::{
    canonical_region_name, canonical_region_names, checked_region_names_from_args, offered_region_names,
    profiles_from_args, region_index, region_names_from_args, ReturnValues,
};
use cloudman_rs::views::bottombar_view::{BarStyle, BottomBarView};

fn some(s: &str) -> Option<String> {
    Some(s.to_string())
}

fn full() -> Instance {
    Instance {
        instance: Ec2Instance {
            record: String::new(),
            instance_id: some("i-42"),
            tags: Some(vec![Tag { key: some("name"), value: some("web") }]),
            architecture: some("arm64"),
            vpc_id: some("vpc-9"),
            subnet_id: some("subnet-1"),
            instance_type: some("t4g.small"),
            key_name: None,
            state: Some(InstanceState { code: Some(16), name: some("running") }),
            public_ip_address: some("1.2.3.4"),
            public_dns_name: None,
            private_ip_address: some("10.0.0.1"),
            private_dns_name: None,
            placement: Some(Placement { group_name: some("") }),
            instance_lifecycle: None,
            image_id: some("ami-1"),
            ramdisk_id: None,
            root_device_name: some("/dev/xvda"),
            root_device_type: some("ebs"),
            security_groups: Some(vec![GroupIdentifier { group_id: some("sg-1"), group_name: some("base") }]),
            network_interfaces: Some(vec![InstanceNetworkInterface {
                network_interface_id: some("eni-1"),
                description: some("primary"),
            }]),
        },
        profile: "default".to_string(),
        region: "eu-west-1".to_string(),
    }
}

#[test]
fn bar_follows_state() {
    let mut st = ReturnValues::with_region("eu-west-1".to_string());
    assert_eq!(st.profiles, vec!["default".to_string()]);
    let mut bar = BottomBarView::new("", vec![]);
    st.begin_search();
    st.record_search("we", false);
    st.update_bottom_bar(&mut bar);
    let segs = bar.layout();
    assert_eq!((segs[6].text.as_str(), segs[6].style), ("we", BarStyle::Invalid));
    assert_eq!(bar.status(), "eu-west-1 (default)");
    st.end_search();
    st.begin_filter();
    st.set_filter("db");
    st.update_bottom_bar(&mut bar);
    let segs = bar.layout();
    assert_eq!((segs[6].text.as_str(), segs[5].text.as_str()), ("db", "Filter: "));
    st.clear_filter();
    st.update_bottom_bar(&mut bar);
    assert_eq!(bar.layout().len(), 18);
    assert!(st.keeps_region("eu-west-1"));
    assert!(!st.keeps_region("us-east-1"));
}

#[test]
fn options_split_at_commas() {
    assert_eq!(profiles_from_args(&vec![]), vec!["default".to_string()]);
    assert_eq!(
        profiles_from_args(&vec!["a,b".to_string(), "c".to_string()]),
        vec!["a".to_string(), "b".to_string(), "c".to_string()]
    );
    assert_eq!(region_names_from_args(&vec![]), None);
    assert_eq!(
        region_names_from_args(&vec!["eu-west-1,us-east-1".to_string()]),
        Some(vec!["eu-west-1".to_string(), "us-east-1".to_string()])
    );
    assert_eq!(
        region_names_from_args(&vec!["EU-West-1,useast1".to_string(), "apsouth1".to_string()]),
        Some(vec!["eu-west-1".to_string(), "us-east-1".to_string(), "ap-south-1".to_string()])
    );
    let offered = vec!["ap-east-1".to_string(), "eu-west-1".to_string()];
    assert_eq!(region_index(&offered, "eu-west-1"), Some(1));
    assert_eq!(region_index(&offered, "mars-1"), None);
}

#[test]
fn detail_page() {
    let i = full();
    let rows = detail_rows(&i);
    assert_eq!(rows.len(), 18);
    assert_eq!(rows[0].label, format!("{:>20}:", "instance-id"));
    assert_eq!(rows[0].value, "i-42");
    assert_eq!(rows[1].value, "web");
    assert_eq!(rows[4].label, format!("{:>20}:", "subnet_type"));
    assert_eq!(rows[6].value, "");
    assert_eq!(rows[7].value, "running");
    assert_eq!(rows[16].value, "/dev/xvda (ebs)");
    assert_eq!(group_lines(&i), vec![format!("{:>20}: {:}", "sg-1", "base")]);
    assert_eq!(interface_lines(&i), vec![format!("{:>20}: {:}", "eni-1", "primary")]);
    assert_eq!(instance_title("cloudman", &i), "cloudman (i-42)");
}

#[test]
fn actions() {
    let r = action_request(Actions::Stop, &full(), true);
    assert_eq!(r.action, Actions::Stop);
    assert_eq!(r.dry_run, Some(true));
    assert_eq!(r.instance_ids, vec!["i-42".to_string()]);
    let t = action_texts(Actions::Terminate);
    assert_eq!(t.title, "Stop instance");
    assert_eq!(t.message, "The instance will be terminated.");
    assert_eq!(t.failure, "Could not terminate instance.");
    assert_eq!(action_texts(Actions::Reboot).message, "The instance will reboot.");
    let menu = action_choices();
    assert_eq!(menu.len(), 4);
    assert_eq!(menu[2], ("terminate".to_string(), Actions::Terminate));
    assert_eq!(action_menu_title(&full()), "Action (i-42)");
}

#[test]
fn region_names_are_read_as_the_regions_own() {
    assert_eq!(canonical_region_name("eu-west-1"), Some("eu-west-1".to_string()));
    assert_eq!(canonical_region_name("EU-WEST-1"), Some("eu-west-1".to_string()));
    assert_eq!(canonical_region_name("uswest2"), Some("us-west-2".to_string()));
    assert_eq!(canonical_region_name("mars-1"), None);
    assert_eq!(canonical_region_name(""), None);
    assert_eq!(
        canonical_region_names(&vec!["cnnorth1".to_string(), "AF-SOUTH-1".to_string()]),
        Ok(vec!["cn-north-1".to_string(), "af-south-1".to_string()])
    );
    assert_eq!(
        canonical_region_names(&vec!["eu-west-1".to_string(), "mars-1".to_string(), "venus-2".to_string()]),
        Err("mars-1".to_string())
    );
    assert_eq!(canonical_region_names(&vec![]), Ok(vec![]));
}

#[test]
fn region_options_are_checked() {
    assert_eq!(checked_region_names_from_args(&vec![]), Ok(None));
    assert_eq!(
        checked_region_names_from_args(&vec!["eu-west-1,USEAST2".to_string()]),
        Ok(Some(vec!["eu-west-1".to_string(), "us-east-2".to_string()]))
    );
    assert_eq!(
        checked_region_names_from_args(&vec!["eu-west-1".to_string(), "us-east-1,nowhere".to_string()]),
        Err("nowhere".to_string())
    );
    assert_eq!(checked_region_names_from_args(&vec!["eu-west-1,".to_string()]), Err("".to_string()));
}

#[test]
fn detail_page_places_every_text() {
    let mut i = full();
    i.instance.security_groups = Some(vec![
        GroupIdentifier { group_id: some("sg-1"), group_name: some("base") },
        GroupIdentifier { group_id: some("sg-2"), group_name: some("web") },
    ]);
    let page = cloudman_rs::details::detail_page(&i);
    assert_eq!(page.len(), 2 * 18 + 2 + 1 + 2);
    assert_eq!((page[0].x, page[0].y, page[0].label), (0, 1, true));
    assert_eq!(page[0].text, format!("{:>20}:", "instance-id"));
    assert_eq!((page[1].x, page[1].y, page[1].label), (22, 1, false));
    assert_eq!(page[1].text, "i-42");
    assert_eq!((page[35].x, page[35].y), (22, 18));
    assert_eq!(page[35].text, "running");
    assert_eq!((page[36].x, page[36].y, page[36].label), (0, 22, true));
    assert_eq!(page[36].text, "security groups");
    assert_eq!((page[37].y, page[37].label), (23, false));
    assert_eq!(page[37].text, format!("{:>20}: {:}", "sg-1", "base"));
    assert_eq!(page[38].y, 24);
    assert_eq!(page[38].text, format!("{:>20}: {:}", "sg-2", "web"));
    assert_eq!((page[39].x, page[39].y, page[39].label), (0, 26, true));
    assert_eq!(page[39].text, "network interfaces");
    assert_eq!((page[40].x, page[40].y, page[40].label), (0, 27, false));
    assert_eq!(page[40].text, format!("{:>20}: {:}", "eni-1", "primary"));
}

#[test]
fn offered_regions_in_order() {
    let names = offered_region_names();
    assert_eq!(names.len(), 23);
    assert_eq!(names[0], "ap-east-1");
    assert_eq!(names[1], "af-south-1");
    assert_eq!(names[22], "cn-northwest-1");
    assert_eq!(region_index(&names, "eu-west-1"), Some(9));
    for n in names.iter() {
        assert_eq!(canonical_region_name(n).as_deref(), Some(n.as_str()));
    }
}

#[test]
fn session_command_text() {
    let mut i = full();
    assert_eq!(
        session_command(&i),
        r#"aws ssm start-session --profile ""default"" --region ""eu-west-1"" --target "i-42"; read -n 1 -s -r -p "Press any key to continue""#
    );
    i.profile = "my \"team\"".to_string();
    assert_eq!(
        session_command(&i),
        r#"aws ssm start-session --profile ""my \"team\""" --region ""eu-west-1"" --target "i-42"; read -n 1 -s -r -p "Press any key to continue""#
    );
}
