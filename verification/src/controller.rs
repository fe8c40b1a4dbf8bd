//! What the search and filter overlays, a refresh and a region switch do to
//! the table and to the application's state.
use vstd::prelude::*;
use vstd::std_specs::cmp::PartialEqSpec;
use crate::columns::BasicColumn;
use crate::instance::{Instance, InstanceV};
use crate::selection::{
    all_tags_ok, filter_instances, filter_keeps, first_match_from, refresh_filter, refresh_keeps,
    search_first, search_next, views_of, lemma_first_match_from,
};
use crate::state::ReturnValues;
use crate::views::table_view::InstancesView;

verus! {

/// The instances table of the application.
pub type InstanceTable = InstancesView<Instance, BasicColumn>;

/// Copies of `v`.
pub fn clone_instances(v: &Vec<Instance>) -> (r: Vec<Instance>)
    ensures
        views_of(r@) == views_of(v@),
{
    let mut r: Vec<Instance> = Vec::new();
    let mut i: usize = 0;
    while i < v.len()
        invariant
            i <= v@.len(),
            views_of(r@) == views_of(v@.subrange(0, i as int)),
        decreases v@.len() - i,
    {
        let c = v[i].clone();
        let ghost prev = r@;
        r.push(c);
        assert(r@ == prev.push(c));
        assert(views_of(r@) =~= views_of(prev).push(c@));
        assert(v@.subrange(0, i + 1) =~= v@.subrange(0, i as int).push(v@[i as int]));
        assert(views_of(r@) =~= views_of(v@.subrange(0, i + 1)));
        i = i + 1;
    }
    assert(v@.subrange(0, v@.len() as int) =~= v@);
    r
}

/// After the rows of a table are replaced by `rows`: where the row selected
/// before (of view `before`) is among them, the first row equal to it is
/// selected; else the first row.
pub open spec fn reselected(rows: Seq<InstanceV>, before: Option<InstanceV>, sel: usize) -> bool {
    match before {
        Some(b) => {
            ||| {
                &&& sel < rows.len()
                &&& rows[sel as int] == b
                &&& forall|j: int| 0 <= j < sel ==> rows[j] != b
            }
            ||| {
                &&& sel == 0
                &&& forall|j: int| 0 <= j < rows.len() ==> rows[j] != b
            }
        },
        None => sel == 0,
    }
}

/// The view of the selected item of a table, if the selection is a row.
pub open spec fn selected_view(t: InstanceTable) -> Option<InstanceV> {
    if t.selection() < t.rows().len() {
        Some(t.rows()[t.selection() as int]@)
    } else {
        None
    }
}

/// Replaces the rows of `table` and selects again the row that was selected.
pub fn replace_rows(table: &mut InstanceTable, rows: Vec<Instance>)
    ensures
        final(table).rows() == rows@,
        final(table).shown_columns() == old(table).shown_columns(),
        reselected(views_of(rows@), selected_view(*old(table)), final(table).selection()),
{
    let before = match table.item() {
        Some(item) => Some(item.clone()),
        None => None,
    };
    match before {
        Some(item) => {
            table.set_instances(rows);
            table.set_item(&item);
            assert forall|j: int| 0 <= j < table.rows().len() implies (#[trigger] table.rows()[j]).eq_spec(&item) == (views_of(table.rows())[j] == item@) by {}
        },
        None => {
            table.set_instances(rows);
        },
    }
}

/// The search overlay's text became `ss`: the first instance that matches
/// is selected, and the state records the text and whether it matched.
pub fn search_changed(table: &mut InstanceTable, st: &mut ReturnValues, ss: &str)
    requires
        all_tags_ok(views_of(old(table).rows()), "Name"@),
    ensures
        final(table).rows() == old(table).rows(),
        final(table).shown_columns() == old(table).shown_columns(),
        match first_match_from(views_of(old(table).rows()), ss@, 0) {
            Some(k) => final(table).selection() == k && final(st).search_found,
            None => final(table).selection() == old(table).selection() && !final(st).search_found,
        },
        final(st).search@ == ss@,
        final(st).dry_run == old(st).dry_run,
        final(st).searching == old(st).searching,
        final(st).filter == old(st).filter,
        final(st).filtering == old(st).filtering,
        final(st).instances == old(st).instances,
        final(st).profiles == old(st).profiles,
        final(st).regions == old(st).regions,
{
    proof {
        lemma_first_match_from(views_of(table.rows()), ss@, 0);
    }
    proof {
        table.lemma_rows_fit();
    }
    let found = search_first(table.items(), ss);
    match found {
        Some(idx) => {
            table.set_selected_item(idx);
            st.record_search(ss, true);
        },
        None => {
            st.record_search(ss, false);
        },
    }
}

/// The search overlay asks for the next match of `ss`: the next matching
/// instance below the selected row, or else from the top, is selected.
pub fn search_next_requested(table: &mut InstanceTable, ss: &str)
    requires
        all_tags_ok(views_of(old(table).rows()), "Name"@),
        old(table).selection() < usize::MAX,
    ensures
        final(table).rows() == old(table).rows(),
        final(table).shown_columns() == old(table).shown_columns(),
        match first_match_from(views_of(old(table).rows()), ss@, old(table).selection() + 1) {
            Some(k) => final(table).selection() == k,
            None => match first_match_from(views_of(old(table).rows()), ss@, 0) {
                Some(k) => final(table).selection() == k,
                None => final(table).selection() == old(table).selection(),
            },
        },
{
    proof {
        lemma_first_match_from(views_of(table.rows()), ss@, 0);
        lemma_first_match_from(views_of(table.rows()), ss@, table.selection() + 1);
        table.lemma_rows_fit();
    }
    let selected = table.selected_item().unwrap();
    match search_next(table.items(), ss, selected) {
        Some(idx) => table.set_selected_item(idx),
        None => {},
    }
}

/// The filter overlay's text became `ss`: the table shows the listed
/// instances that the filter keeps, with the selected instance kept
/// selected where it is among them.
pub fn filter_changed(table: &mut InstanceTable, st: &mut ReturnValues, ss: &str)
    requires
        all_tags_ok(views_of(old(st).instances@), "Name"@),
    ensures
        views_of(final(table).rows()) == views_of(old(st).instances@).filter(filter_keeps(ss@)),
        final(table).shown_columns() == old(table).shown_columns(),
        reselected(views_of(final(table).rows()), selected_view(*old(table)), final(table).selection()),
        final(st).filter@ == ss@,
        final(st).search_found == old(st).search_found,
        final(st).dry_run == old(st).dry_run,
        final(st).filtering == old(st).filtering,
        final(st).search == old(st).search,
        final(st).searching == old(st).searching,
        final(st).instances == old(st).instances,
        final(st).profiles == old(st).profiles,
        final(st).regions == old(st).regions,
{
    st.set_filter(ss);
    let filtered = filter_instances(&st.instances, ss);
    replace_rows(table, filtered);
}

/// The filter is cleared: the table shows all listed instances again, with
/// the selected instance kept selected.
pub fn filter_reset(table: &mut InstanceTable, st: &mut ReturnValues)
    ensures
        views_of(final(table).rows()) == views_of(old(st).instances@),
        final(table).shown_columns() == old(table).shown_columns(),
        reselected(views_of(final(table).rows()), selected_view(*old(table)), final(table).selection()),
        final(st).filter@.len() == 0,
        !final(st).filtering,
        final(st).search_found == old(st).search_found,
        final(st).dry_run == old(st).dry_run,
        final(st).search == old(st).search,
        final(st).searching == old(st).searching,
        final(st).instances == old(st).instances,
        final(st).profiles == old(st).profiles,
        final(st).regions == old(st).regions,
{
    st.clear_filter();
    let all = clone_instances(&st.instances);
    replace_rows(table, all);
}

/// The instances were listed again as `fetched`: the table shows those that
/// the filter keeps (all when there is no filter), with the selected
/// instance kept selected.
pub fn refreshed(table: &mut InstanceTable, st: &ReturnValues, fetched: Vec<Instance>)
    requires
        st.filter@.len() > 0 ==> all_tags_ok(views_of(fetched@), "name"@),
    ensures
        st.filter@.len() == 0 ==> final(table).rows() == fetched@,
        st.filter@.len() > 0 ==> views_of(final(table).rows()) == views_of(fetched@).filter(refresh_keeps(st.filter@)),
        final(table).shown_columns() == old(table).shown_columns(),
        reselected(views_of(final(table).rows()), selected_view(*old(table)), final(table).selection()),
{
    let rows = refresh_filter(fetched, st.filter.as_str());
    replace_rows(table, rows);
}

/// The application switched to region `region`, listed as `instances`: the
/// table shows them from the first row, and the state holds them.
pub fn region_switched(table: &mut InstanceTable, st: &mut ReturnValues, region: String, instances: Vec<Instance>)
    ensures
        views_of(final(table).rows()) == views_of(instances@),
        final(table).selection() == 0,
        final(table).shown_columns() == old(table).shown_columns(),
        final(st).regions@ == seq![region],
        final(st).instances == instances,
        final(st).profiles == old(st).profiles,
        final(st).filter == old(st).filter,
        final(st).filtering == old(st).filtering,
        final(st).search == old(st).search,
        final(st).searching == old(st).searching,
        final(st).search_found == old(st).search_found,
        final(st).dry_run == old(st).dry_run,
{
    let copy = clone_instances(&instances);
    table.set_instances(copy);
    st.switch_region(region, instances);
}

} // verus!
