use cloudman_rs::columns::BasicColumn;
use cloudman_rs::instance::{Ec2Instance, Instance, InstanceState, Tag};
use cloudman_rs::views::event::{Event, Key};
use cloudman_rs::views::table_view::{placed_cells, CellStyle, InstancesView, TableEventResult};

fn inst(id: &str, name: &str) -> Instance {
    Instance {
        instance: Ec2Instance {
            record: String::new(),
            instance_id: Some(id.to_string()),
            tags: Some(vec![Tag { key: Some("Name".to_string()), value: Some(name.to_string()) }]),
            architecture: None,
            vpc_id: None,
            subnet_id: None,
            instance_type: None,
            key_name: None,
            state: Some(InstanceState { code: Some(16), name: Some("running".to_string()) }),
            public_ip_address: None,
            public_dns_name: None,
            private_ip_address: None,
            private_dns_name: None,
            placement: None,
            instance_lifecycle: None,
            image_id: None,
            ramdisk_id: None,
            root_device_name: None,
            root_device_type: None,
            security_groups: None,
            network_interfaces: None,
        },
        profile: "default".to_string(),
        region: "eu-west-1".to_string(),
    }
}

fn table(n: usize) -> InstancesView<Instance, BasicColumn> {
    let items: Vec<Instance> = (0..n).map(|i| inst(&format!("i-{}", i), &format!("host{}", i))).collect();
    InstancesView::scrollable(&items)
}

#[test]
fn new_table_is_empty() {
    let t: InstancesView<Instance, BasicColumn> = InstancesView::new();
    assert_eq!(t.items().len(), 0);
    assert_eq!(t.selected_item(), Some(0));
    assert!(t.item().is_none());
    let d: InstancesView<Instance, BasicColumn> = Default::default();
    assert_eq!(d.items().len(), 0);
}

#[test]
fn arrows_move_within_rows() {
    let mut t = table(3);
    assert_eq!(t.on_event(Event::Key(Key::Up)), TableEventResult::Consumed);
    assert_eq!(t.selected_item(), Some(0));
    t.on_event(Event::Key(Key::Down));
    t.on_event(Event::Key(Key::Down));
    assert_eq!(t.selected_item(), Some(2));
    t.on_event(Event::Key(Key::Down));
    assert_eq!(t.selected_item(), Some(2));
    t.on_event(Event::Key(Key::Up));
    assert_eq!(t.selected_item(), Some(1));
    assert_eq!(t.item().unwrap().instance.instance_id, Some("i-1".to_string()));
}

#[test]
fn paging_and_ends() {
    let mut t = table(25);
    t.on_event(Event::Key(Key::PageDown));
    assert_eq!(t.selected_item(), Some(10));
    t.on_event(Event::Key(Key::PageDown));
    t.on_event(Event::Key(Key::PageDown));
    assert_eq!(t.selected_item(), Some(24));
    t.on_event(Event::Key(Key::PageUp));
    assert_eq!(t.selected_item(), Some(14));
    t.on_event(Event::Key(Key::PageUp));
    t.on_event(Event::Key(Key::PageUp));
    assert_eq!(t.selected_item(), Some(0));
    t.on_event(Event::Key(Key::End));
    assert_eq!(t.selected_item(), Some(24));
    t.on_event(Event::Shift(Key::Home));
    assert_eq!(t.selected_item(), Some(0));
    t.on_event(Event::Char('H'));
    assert_eq!(t.selected_item(), Some(24));
    t.on_event(Event::Key(Key::Home));
    assert_eq!(t.selected_item(), Some(0));
    t.on_event(Event::Shift(Key::End));
    assert_eq!(t.selected_item(), Some(24));
}

#[test]
fn other_keys() {
    let mut t = table(2);
    assert_eq!(t.on_event(Event::Key(Key::Enter)), TableEventResult::Submit);
    assert_eq!(t.on_event(Event::Char('g')), TableEventResult::ScrollTop);
    assert_eq!(t.on_event(Event::Char('x')), TableEventResult::Ignored);
    assert_eq!(t.on_event(Event::Other), TableEventResult::Ignored);
    assert_eq!(t.selected_item(), Some(0));
}

#[test]
fn up_on_empty_table_does_not_move() {
    let mut t: InstancesView<Instance, BasicColumn> = InstancesView::new();
    t.on_event(Event::Key(Key::Up));
    t.on_event(Event::Key(Key::Down));
    t.on_event(Event::Key(Key::PageUp));
    assert_eq!(t.selected_item(), Some(0));
}

#[test]
fn set_item_selects_first_equal_row() {
    let mut t = table(4);
    t.set_item(&inst("i-2", "host2"));
    assert_eq!(t.selected_item(), Some(2));
    t.set_item(&inst("i-9", "host9"));
    assert_eq!(t.selected_item(), Some(0));
    t.set_selected_item(3);
    assert_eq!(t.item().unwrap().instance.instance_id, Some("i-3".to_string()));
    t.set_instances(vec![inst("i-7", "x")]);
    assert_eq!(t.selected_item(), Some(0));
    assert_eq!(t.items().len(), 1);
}

#[test]
fn header_and_rows_text() {
    let t = table(2).column(BasicColumn::InstanceID).column(BasicColumn::Name);
    assert_eq!(t.header_texts(160), vec![format!("{:<19} ", "instance-id"), format!("{:<40} ", "name")]);
    assert_eq!(t.row_texts(1, 160), vec![format!("{:<19} ", "i-1"), format!("{:<40} ", "host1")]);
    assert_eq!(t.row_texts(0, 8), vec![format!("{:<19} ", "i-0"), "ho ".to_string()]);
    assert_eq!(t.row_style(0, true), CellStyle::Highlight);
    assert_eq!(t.row_style(0, false), CellStyle::HighlightInactive);
    assert_eq!(t.row_style(1, true), CellStyle::Primary);
    assert_eq!(t.cell_style(1, 1, true), CellStyle::DarkGreen);
    assert_eq!(t.cell_style(0, 1, true), CellStyle::Highlight);
}

#[test]
fn rows_need_only_the_shown_columns() {
    let mut stateless = inst("i-5", "host5");
    stateless.instance.state = None;
    stateless.instance.tags = Some(vec![Tag { key: None, value: Some("x".to_string()) }]);
    let t = InstancesView::scrollable(&vec![stateless]).column(BasicColumn::InstanceID);
    assert_eq!(t.row_texts(0, 160), vec![format!("{:<19} ", "i-5")]);
    assert_eq!(t.cell_style(0, 0, false), CellStyle::HighlightInactive);
}

#[test]
fn set_item_tells_records_apart() {
    let mut a = inst("i-1", "host1");
    a.instance.record = "first".to_string();
    let mut b = inst("i-1", "host1");
    b.instance.record = "second".to_string();
    let mut t = InstancesView::scrollable(&vec![inst("i-0", "host0"), a.clone()]);
    t.set_item(&a);
    assert_eq!(t.selected_item(), Some(1));
    t.set_selected_item(0);
    t.set_item(&b);
    assert_eq!(t.selected_item(), Some(0));
}

#[test]
fn cells_are_placed_by_bytes() {
    let texts = vec!["ab ".to_string(), "äö ".to_string(), "".to_string(), "x".to_string()];
    let placed = placed_cells(&texts);
    assert_eq!(
        placed,
        vec![(0, "ab ".to_string()), (3, "äö ".to_string()), (8, "".to_string()), (8, "x".to_string())]
    );
    assert_eq!(placed_cells(&vec![]), vec![]);
    let t = table(2).column(BasicColumn::InstanceID).column(BasicColumn::Name);
    let row = placed_cells(&t.row_texts(1, 160));
    assert_eq!(row[0].0, 0);
    assert_eq!(row[1], (20, format!("{:<40} ", "host1")));
}
