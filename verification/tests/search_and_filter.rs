use cloudman_rs::columns::BasicColumn;
use cloudman_rs::controller::{filter_changed, filter_reset, refreshed, region_switched, search_changed, search_next_requested};
use cloudman_rs::instance::{Ec2Instance, Instance, InstanceState, Tag};
use cloudman_rs::selection::{filter_instances, refresh_filter, search_first, search_next};
use cloudman_rs::state::ReturnValues;
use cloudman_rs::views::table_view::InstancesView;

fn inst(id: &str, name: &str, region: &str, profile: &str) -> Instance {
    Instance {
        instance: Ec2Instance {
            record: String::new(),
            instance_id: Some(id.to_string()),
            tags: Some(vec![Tag { key: Some("Name".to_string()), value: Some(name.to_string()) }]),
            architecture: None,
            vpc_id: None,
            subnet_id: None,
            instance_type: None,
            key_name: None,
            state: Some(InstanceState { code: Some(16), name: Some("running".to_string()) }),
            public_ip_address: None,
            public_dns_name: None,
            private_ip_address: None,
            private_dns_name: None,
            placement: None,
            instance_lifecycle: None,
            image_id: None,
            ramdisk_id: None,
            root_device_name: None,
            root_device_type: None,
            security_groups: None,
            network_interfaces: None,
        },
        profile: profile.to_string(),
        region: region.to_string(),
    }
}

fn fleet() -> Vec<Instance> {
    vec![
        inst("i-0", "web-1", "eu-west-1", "default"),
        inst("i-1", "db-1", "eu-west-1", "prod"),
        inst("i-2", "Web-2", "us-east-1", "default"),
        inst("i-3", "cache", "us-east-1", "prod"),
    ]
}

fn ids(v: &[Instance]) -> Vec<String> {
    v.iter().map(|i| i.instance.instance_id.clone().unwrap()).collect()
}

#[test]
fn filter_matches_name_region_or_profile() {
    let all = fleet();
    assert_eq!(ids(&filter_instances(&all, "web")), vec!["i-0"]);
    assert_eq!(ids(&filter_instances(&all, "us-east")), vec!["i-2", "i-3"]);
    assert_eq!(ids(&filter_instances(&all, "prod")), vec!["i-1", "i-3"]);
    assert_eq!(ids(&filter_instances(&all, "")), vec!["i-0", "i-1", "i-2", "i-3"]);
    assert_eq!(ids(&filter_instances(&all, "nothing")), Vec::<String>::new());
}

#[test]
fn refresh_filter_uses_name_only() {
    assert_eq!(ids(&refresh_filter(fleet(), "")), vec!["i-0", "i-1", "i-2", "i-3"]);
    assert_eq!(ids(&refresh_filter(fleet(), "1")), vec!["i-0", "i-1"]);
    assert_eq!(ids(&refresh_filter(fleet(), "prod")), Vec::<String>::new());
}

#[test]
fn search_ignores_case_and_wraps() {
    let all = fleet();
    assert_eq!(search_first(&all, "WEB"), Some(0));
    assert_eq!(search_first(&all, "cache"), Some(3));
    assert_eq!(search_first(&all, "zzz"), None);
    assert_eq!(search_next(&all, "web", 0), Some(2));
    assert_eq!(search_next(&all, "web", 2), Some(0));
    assert_eq!(search_next(&all, "zzz", 1), None);
    assert_eq!(search_next(&all, "db", 10), Some(1));
}

#[test]
fn search_lowers_non_ascii_letters() {
    let all = vec![inst("i-0", "web", "eu-west-1", "default"), inst("i-1", "ÄRGER-Ö", "eu-west-1", "default")];
    assert_eq!(search_first(&all, "ärger-ö"), Some(1));
    assert_eq!(search_first(&all, "ÄRG"), Some(1));
    assert_eq!(search_next(&all, "ö", 1), Some(1));
}

fn app() -> (InstancesView<Instance, BasicColumn>, ReturnValues) {
    let mut st = ReturnValues::with_region("eu-west-1".to_string());
    st.instances = fleet();
    let t = InstancesView::scrollable(&fleet()).column(BasicColumn::Name);
    (t, st)
}

#[test]
fn search_selects_and_records() {
    let (mut t, mut st) = app();
    search_changed(&mut t, &mut st, "cache");
    assert_eq!(t.selected_item(), Some(3));
    assert!(st.search_found);
    assert_eq!(st.search, "cache");
    search_changed(&mut t, &mut st, "none");
    assert_eq!(t.selected_item(), Some(3));
    assert!(!st.search_found);
    t.set_selected_item(0);
    search_next_requested(&mut t, "web");
    assert_eq!(t.selected_item(), Some(2));
    search_next_requested(&mut t, "web");
    assert_eq!(t.selected_item(), Some(0));
}

#[test]
fn filter_keeps_selected_instance() {
    let (mut t, mut st) = app();
    t.set_selected_item(3);
    filter_changed(&mut t, &mut st, "prod");
    assert_eq!(ids(t.items()), vec!["i-1", "i-3"]);
    assert_eq!(t.selected_item(), Some(1));
    assert_eq!(st.filter, "prod");
    filter_changed(&mut t, &mut st, "web");
    assert_eq!(ids(t.items()), vec!["i-0"]);
    assert_eq!(t.selected_item(), Some(0));
    filter_reset(&mut t, &mut st);
    assert_eq!(ids(t.items()), vec!["i-0", "i-1", "i-2", "i-3"]);
    assert_eq!(t.selected_item(), Some(0));
    assert_eq!(st.filter, "");
    assert!(!st.filtering);
}

#[test]
fn refresh_and_region_switch() {
    let (mut t, mut st) = app();
    t.set_selected_item(2);
    refreshed(&mut t, &st, fleet());
    assert_eq!(t.selected_item(), Some(2));
    st.filter = "db".to_string();
    refreshed(&mut t, &st, fleet());
    assert_eq!(ids(t.items()), vec!["i-1"]);
    assert_eq!(t.selected_item(), Some(0));
    region_switched(&mut t, &mut st, "us-east-1".to_string(), vec![inst("i-9", "x", "us-east-1", "default")]);
    assert_eq!(ids(t.items()), vec!["i-9"]);
    assert_eq!(st.regions, vec!["us-east-1"]);
    assert_eq!(ids(&st.instances), vec!["i-9"]);
}

#[test]
fn longer_filter_shows_no_more() {
    let all = fleet();
    let w = ids(&filter_instances(&all, "e"));
    let we = ids(&filter_instances(&all, "we"));
    let web = ids(&filter_instances(&all, "web-"));
    assert_eq!(w, vec!["i-0", "i-1", "i-2", "i-3"]);
    assert_eq!(we, vec!["i-0", "i-1"]);
    assert_eq!(web, vec!["i-0"]);
    assert!(web.iter().all(|x| we.contains(x)) && we.iter().all(|x| w.contains(x)));
}

#[test]
fn dry_run_and_search_outcome_are_kept() {
    let (mut t, mut st) = app();
    st.dry_run = true;
    search_changed(&mut t, &mut st, "cache");
    assert!(st.search_found);
    assert!(st.dry_run);
    filter_changed(&mut t, &mut st, "prod");
    assert!(st.search_found && st.dry_run);
    filter_reset(&mut t, &mut st);
    assert!(st.search_found && st.dry_run);
    region_switched(&mut t, &mut st, "us-east-1".to_string(), fleet());
    assert!(st.search_found && st.dry_run);
    st.dry_run = false;
    st.search_found = false;
    filter_changed(&mut t, &mut st, "web");
    filter_reset(&mut t, &mut st);
    search_changed(&mut t, &mut st, "zzz");
    region_switched(&mut t, &mut st, "eu-west-1".to_string(), fleet());
    assert!(!st.search_found && !st.dry_run);
}
