//! The application's state between key presses: the profiles and regions in
//! use, the instances listed, and the search and filter in progress; and
//! what the bottom bar shows of it.
use vstd::prelude::*;
use core::str::FromStr;
use crate::instance::{Instance, opt_view};
use crate::selection::views_of;
use crate::text::{split_chars, split_pieces};
use crate::views::bottombar_view::{BottomBarType, BottomBarView, BottomBarV};

verus! {

/// The state of the application.
pub struct ReturnValues {
    pub profiles: Vec<String>,
    pub regions: Vec<String>,
    pub search: String,
    pub search_found: bool,
    pub searching: bool,
    pub filter: String,
    pub filtering: bool,
    pub instances: Vec<Instance>,
    pub dry_run: bool,
}

/// The names in a list of strings.
pub open spec fn names(v: Seq<String>) -> Seq<Seq<char>> {
    v.map_values(|s: String| s@)
}

/// What the bottom bar shows for a state: the search while searching, else the
/// filter while filtering, else the function keys; always with the regions and
/// profiles in use. The bar's other fields are kept.
pub open spec fn bar_for(st: &ReturnValues, bar: BottomBarV) -> BottomBarV {
    if st.searching {
        BottomBarV {
            content: st.search@,
            valid: st.search_found,
            regions: names(st.regions@),
            profiles: names(st.profiles@),
            kind: BottomBarType::Search,
        }
    } else if st.filtering {
        BottomBarV {
            content: st.filter@,
            regions: names(st.regions@),
            profiles: names(st.profiles@),
            kind: BottomBarType::Filter,
            ..bar
        }
    } else {
        BottomBarV {
            regions: names(st.regions@),
            profiles: names(st.profiles@),
            kind: BottomBarType::Standard,
            ..bar
        }
    }
}

fn clone_strings(v: &Vec<String>) -> (r: Vec<String>)
    ensures
        r@ == v@,
{
    let mut r: Vec<String> = Vec::new();
    let mut i: usize = 0;
    while i < v.len()
        invariant
            i <= v@.len(),
            r@ == v@.subrange(0, i as int),
        decreases v@.len() - i,
    {
        r.push(v[i].clone());
        assert(r@ =~= v@.subrange(0, i + 1));
        i = i + 1;
    }
    assert(v@.subrange(0, v@.len() as int) =~= v@);
    r
}

impl ReturnValues {
    /// The state at start: the `default` profile, the given region, no
    /// instances, no search and no filter, and dry runs.
    pub fn with_region(region: String) -> (r: Self)
        ensures
            names(r.profiles@) == seq!["default"@],
            r.regions@ == seq![region],
            r.search@.len() == 0,
            !r.search_found,
            !r.searching,
            r.filter@.len() == 0,
            !r.filtering,
            r.instances@.len() == 0,
            !r.dry_run,
    {
        let mut profiles: Vec<String> = Vec::new();
        profiles.push("default".to_owned());
        let mut regions: Vec<String> = Vec::new();
        regions.push(region);
        let r = ReturnValues {
            profiles,
            regions,
            search: String::new(),
            search_found: false,
            searching: false,
            filter: String::new(),
            filtering: false,
            instances: Vec::new(),
            dry_run: false,
        };
        assert(names(r.profiles@) =~= seq!["default"@]);
        assert(r.regions@ =~= seq![region]);
        r
    }

    /// Shows the state on the bottom bar.
    pub fn update_bottom_bar(&self, bar: &mut BottomBarView)
        ensures
            final(bar)@ == bar_for(self, old(bar)@),
            final(bar)@.regions == names(self.regions@),
            final(bar)@.profiles == names(self.profiles@),
    {
        if self.searching {
            bar.set_content(self.search.as_str());
            bar.set_valid(self.search_found);
            bar.set_region(clone_strings(&self.regions));
            bar.set_profile(clone_strings(&self.profiles));
            bar.set_type(BottomBarType::Search);
        } else if self.filtering {
            bar.set_content(self.filter.as_str());
            bar.set_region(clone_strings(&self.regions));
            bar.set_profile(clone_strings(&self.profiles));
            bar.set_type(BottomBarType::Filter);
        } else {
            bar.set_region(clone_strings(&self.regions));
            bar.set_profile(clone_strings(&self.profiles));
            bar.set_type(BottomBarType::Standard);
        }
    }

    /// A search starts: nothing searched for yet.
    pub fn begin_search(&mut self)
        ensures
            final(self).search@.len() == 0,
            final(self).searching,
            final(self).search_found == old(self).search_found,
            final(self).filter == old(self).filter,
            final(self).filtering == old(self).filtering,
            final(self).profiles == old(self).profiles,
            final(self).regions == old(self).regions,
            final(self).instances == old(self).instances,
            final(self).dry_run == old(self).dry_run,
    {
        self.search = String::new();
        self.searching = true;
    }

    /// The search text is now `ss`; `found` says whether it matched.
    pub fn record_search(&mut self, ss: &str, found: bool)
        ensures
            final(self).search@ == ss@,
            final(self).search_found == found,
            final(self).searching == old(self).searching,
            final(self).filter == old(self).filter,
            final(self).filtering == old(self).filtering,
            final(self).profiles == old(self).profiles,
            final(self).regions == old(self).regions,
            final(self).instances == old(self).instances,
            final(self).dry_run == old(self).dry_run,
    {
        self.search = ss.to_owned();
        self.search_found = found;
    }

    /// The search ends (closed or cancelled); its text stays.
    pub fn end_search(&mut self)
        ensures
            !final(self).searching,
            final(self).search == old(self).search,
            final(self).search_found == old(self).search_found,
            final(self).filter == old(self).filter,
            final(self).filtering == old(self).filtering,
            final(self).profiles == old(self).profiles,
            final(self).regions == old(self).regions,
            final(self).instances == old(self).instances,
            final(self).dry_run == old(self).dry_run,
    {
        self.searching = false;
    }

    /// Filtering starts, from the filter text as it is.
    pub fn begin_filter(&mut self)
        ensures
            final(self).filtering,
            final(self).filter == old(self).filter,
            final(self).search == old(self).search,
            final(self).search_found == old(self).search_found,
            final(self).searching == old(self).searching,
            final(self).profiles == old(self).profiles,
            final(self).regions == old(self).regions,
            final(self).instances == old(self).instances,
            final(self).dry_run == old(self).dry_run,
    {
        self.filtering = true;
    }

    /// The filter text is now `ss`.
    pub fn set_filter(&mut self, ss: &str)
        ensures
            final(self).filter@ == ss@,
            final(self).filtering == old(self).filtering,
            final(self).search == old(self).search,
            final(self).search_found == old(self).search_found,
            final(self).searching == old(self).searching,
            final(self).profiles == old(self).profiles,
            final(self).regions == old(self).regions,
            final(self).instances == old(self).instances,
            final(self).dry_run == old(self).dry_run,
    {
        self.filter = ss.to_owned();
    }

    /// Filtering ends with the filter kept.
    pub fn end_filter(&mut self)
        ensures
            !final(self).filtering,
            final(self).filter == old(self).filter,
            final(self).search == old(self).search,
            final(self).search_found == old(self).search_found,
            final(self).searching == old(self).searching,
            final(self).profiles == old(self).profiles,
            final(self).regions == old(self).regions,
            final(self).instances == old(self).instances,
            final(self).dry_run == old(self).dry_run,
    {
        self.filtering = false;
    }

    /// Filtering ends and the filter is cleared.
    pub fn clear_filter(&mut self)
        ensures
            !final(self).filtering,
            final(self).filter@.len() == 0,
            final(self).search == old(self).search,
            final(self).search_found == old(self).search_found,
            final(self).searching == old(self).searching,
            final(self).profiles == old(self).profiles,
            final(self).regions == old(self).regions,
            final(self).instances == old(self).instances,
            final(self).dry_run == old(self).dry_run,
    {
        self.filtering = false;
        self.filter = String::new();
    }

    /// Whether choosing region `name` keeps the first region in use (so that
    /// nothing is listed again).
    pub fn keeps_region(&self, name: &str) -> (r: bool)
        requires
            self.regions@.len() > 0,
        ensures
            r == (self.regions@[0]@ == name@),
    {
        let n = name.to_owned();
        String::eq(&self.regions[0], &n)
    }

    /// The application now shows region `region` alone, with `instances`.
    pub fn switch_region(&mut self, region: String, instances: Vec<Instance>)
        ensures
            final(self).regions@ == seq![region],
            final(self).instances == instances,
            final(self).profiles == old(self).profiles,
            final(self).search == old(self).search,
            final(self).search_found == old(self).search_found,
            final(self).searching == old(self).searching,
            final(self).filter == old(self).filter,
            final(self).filtering == old(self).filtering,
            final(self).dry_run == old(self).dry_run,
    {
        let mut regions: Vec<String> = Vec::new();
        regions.push(region);
        self.regions = regions;
        self.instances = instances;
        assert(self.regions@ =~= seq![region]);
    }
}

/// The first index of `names` holding `current`.
pub open spec fn first_index_of(names: Seq<Seq<char>>, current: Seq<char>, i: int) -> Option<int>
    decreases names.len() - i,
{
    if i < 0 || i >= names.len() {
        None
    } else if names[i] == current {
        Some(i)
    } else {
        first_index_of(names, current, i + 1)
    }
}

/// The regions offered when switching region, in the order shown.
pub open spec fn offered_regions() -> Seq<Seq<char>> {
    seq![
        "ap-east-1"@,
        "af-south-1"@,
        "ap-northeast-1"@,
        "ap-northeast-2"@,
        "ap-south-1"@,
        "ap-southeast-1"@,
        "ap-southeast-2"@,
        "ca-central-1"@,
        "eu-central-1"@,
        "eu-west-1"@,
        "eu-west-2"@,
        "eu-west-3"@,
        "eu-north-1"@,
        "eu-south-1"@,
        "sa-east-1"@,
        "us-east-1"@,
        "us-east-2"@,
        "us-west-1"@,
        "us-west-2"@,
        "us-gov-east-1"@,
        "us-gov-west-1"@,
        "cn-north-1"@,
        "cn-northwest-1"@,
    ]
}

/// The names of the regions offered when switching region, in the order
/// shown.
pub fn offered_region_names() -> (r: Vec<String>)
    ensures
        names(r@) == offered_regions(),
{
    let mut r: Vec<String> = Vec::new();
    r.push("ap-east-1".to_owned());
    r.push("af-south-1".to_owned());
    r.push("ap-northeast-1".to_owned());
    r.push("ap-northeast-2".to_owned());
    r.push("ap-south-1".to_owned());
    r.push("ap-southeast-1".to_owned());
    r.push("ap-southeast-2".to_owned());
    r.push("ca-central-1".to_owned());
    r.push("eu-central-1".to_owned());
    r.push("eu-west-1".to_owned());
    r.push("eu-west-2".to_owned());
    r.push("eu-west-3".to_owned());
    r.push("eu-north-1".to_owned());
    r.push("eu-south-1".to_owned());
    r.push("sa-east-1".to_owned());
    r.push("us-east-1".to_owned());
    r.push("us-east-2".to_owned());
    r.push("us-west-1".to_owned());
    r.push("us-west-2".to_owned());
    r.push("us-gov-east-1".to_owned());
    r.push("us-gov-west-1".to_owned());
    r.push("cn-north-1".to_owned());
    r.push("cn-northwest-1".to_owned());
    assert(names(r@) =~= offered_regions());
    r
}

/// Where `current` stands in the list of region names offered.
pub fn region_index(offered: &Vec<String>, current: &str) -> (r: Option<usize>)
    ensures
        match first_index_of(names(offered@), current@, 0) {
            Some(k) => r == Some(k as usize),
            None => r is None,
        },
{
    let ghost nv = names(offered@);
    let c = current.to_owned();
    let mut i: usize = 0;
    while i < offered.len()
        invariant
            nv == names(offered@),
            c@ == current@,
            i <= offered@.len(),
            first_index_of(nv, current@, 0) == first_index_of(nv, current@, i as int),
        decreases offered@.len() - i,
    {
        if String::eq(&offered[i], &c) {
            return Some(i);
        }
        i = i + 1;
    }
    None
}

/// The pieces of every argument split at commas, in order.
pub open spec fn split_all(args: Seq<Seq<char>>) -> Seq<Seq<char>>
    decreases args.len(),
{
    if args.len() == 0 {
        Seq::<Seq<char>>::empty()
    } else {
        split_all(args.drop_last()) + split_pieces(args.last(), ',')
    }
}

/// The values given to an option that can be repeated and can hold several
/// values separated by commas, each in turn.
pub fn comma_separated(args: &Vec<String>) -> (r: Vec<String>)
    ensures
        names(r@) == split_all(names(args@)),
{
    let ghost av = names(args@);
    let mut r: Vec<String> = Vec::new();
    let mut i: usize = 0;
    while i < args.len()
        invariant
            av == names(args@),
            i <= args@.len(),
            names(r@) == split_all(av.take(i as int)),
        decreases args@.len() - i,
    {
        let pieces = split_chars(args[i].as_str(), ',');
        let mut j: usize = 0;
        let ghost before = names(r@);
        while j < pieces.len()
            invariant
                j <= pieces@.len(),
                names(r@) == before + names(pieces@).take(j as int),
            decreases pieces@.len() - j,
        {
            let p = pieces[j].clone();
            let ghost prev = r@;
            r.push(p);
            assert(r@ == prev.push(p));
            assert(names(r@) =~= names(prev).push(p@));
            assert(names(pieces@).take(j + 1) =~= names(pieces@).take(j as int).push(pieces@[j as int]@));
            assert(names(r@) =~= before + names(pieces@).take(j + 1));
            j = j + 1;
        }
        assert(names(pieces@).take(pieces@.len() as int) =~= names(pieces@));
        assert(av.take(i + 1).drop_last() =~= av.take(i as int));
        assert(av.take(i + 1).last() == args@[i as int]@);
        assert(names(pieces@) =~= pieces@.map_values(|p: String| p@));
        i = i + 1;
    }
    assert(av.take(args@.len() as int) =~= av);
    r
}

/// The profiles to list: the `default` profile when none is given, else
/// the given ones, split at commas.
pub fn profiles_from_args(args: &Vec<String>) -> (r: Vec<String>)
    ensures
        args@.len() == 0 ==> names(r@) == seq!["default"@],
        args@.len() > 0 ==> names(r@) == split_all(names(args@)),
{
    if args.len() == 0 {
        let mut r: Vec<String> = Vec::new();
        r.push("default".to_owned());
        assert(names(r@) =~= seq!["default"@]);
        r
    } else {
        comma_separated(args)
    }
}

/// A name for the region that `rusoto_core::Region::from_str` reads in
/// `name`, given by that region's own name (`Region::name`); `None` where
/// `name` names no region.
pub uninterp spec fn region_named(name: Seq<char>) -> Option<Seq<char>>;

/// Reads a region name with `rusoto_core::Region::from_str` (which accepts
/// each region's name, or the name without hyphens, in any case) and gives
/// back the region's own name. The table of regions is not restated here:
/// the result is named `region_named(name)`, a function of the name alone.
#[verifier::external_body]
fn parse_region(name: &str) -> (r: Option<String>)
    ensures
        opt_view(r) == region_named(name@),
{
    match rusoto_core::Region::from_str(name) {
        Ok(region) => Some(region.name().to_string()),
        Err(_) => None,
    }
}

/// The name of the region called `name`, as the region itself gives it, or
/// `None` where no region is called so.
pub fn canonical_region_name(name: &str) -> (r: Option<String>)
    ensures
        opt_view(r) == region_named(name@),
{
    parse_region(name)
}

/// Every name of `v` names a region.
pub open spec fn all_regions_known(v: Seq<Seq<char>>) -> bool {
    forall|i: int| 0 <= i < v.len() ==> (#[trigger] region_named(v[i])) is Some
}

/// The regions' own names for the names of `v`, where each names a region.
pub open spec fn region_names_of(v: Seq<Seq<char>>) -> Seq<Seq<char>> {
    v.map_values(|n: Seq<char>| region_named(n)->0)
}

/// The regions' own names for the names of `v`, in order; or the first name
/// of `v` that names no region.
pub fn canonical_region_names(v: &Vec<String>) -> (r: Result<Vec<String>, String>)
    ensures
        r is Ok <==> all_regions_known(names(v@)),
        r matches Ok(w) ==> names(w@) == region_names_of(names(v@)),
        r matches Err(n) ==> exists|k: int|
            0 <= k < v@.len() && (#[trigger] v@[k])@ == n@ && region_named(n@) is None
                && all_regions_known(names(v@).take(k)),
{
    let ghost nv = names(v@);
    let mut w: Vec<String> = Vec::new();
    let mut i: usize = 0;
    while i < v.len()
        invariant
            nv == names(v@),
            i <= v@.len(),
            all_regions_known(nv.take(i as int)),
            names(w@) == region_names_of(nv.take(i as int)),
        decreases v@.len() - i,
    {
        assert(nv[i as int] == v@[i as int]@);
        match parse_region(v[i].as_str()) {
            Some(c) => {
                let ghost before = w@;
                assert(c@ == region_named(nv[i as int])->0);
                w.push(c);
                assert(nv.take(i + 1) =~= nv.take(i as int).push(nv[i as int]));
                assert(names(w@) =~= names(before).push(c@));
                assert(region_names_of(nv.take(i + 1)) =~= region_names_of(nv.take(i as int)).push(c@));
                assert(names(w@) =~= region_names_of(nv.take(i + 1)));
                assert(all_regions_known(nv.take(i + 1))) by {
                    assert forall|j: int| 0 <= j < i + 1 implies (#[trigger] region_named(nv.take(i + 1)[j])) is Some by {
                        if j < i {
                            assert(nv.take(i + 1)[j] == nv.take(i as int)[j]);
                        }
                    }
                }
                i = i + 1;
            },
            None => {
                let n = v[i].clone();
                assert(!all_regions_known(nv)) by {
                    assert(region_named(nv[i as int]) is None);
                }
                assert(v@[i as int]@ == n@);
                return Err(n);
            },
        }
    }
    assert(nv.take(v@.len() as int) =~= nv);
    Ok(w)
}

/// The regions to list: `None` when none is given, where the default region
/// is meant; else the regions' own names for the given names, split at
/// commas. Every given name must name a region.
pub fn region_names_from_args(args: &Vec<String>) -> (r: Option<Vec<String>>)
    requires
        all_regions_known(split_all(names(args@))),
    ensures
        args@.len() == 0 ==> r is None,
        args@.len() > 0 ==> (r matches Some(v) && names(v@) == region_names_of(split_all(names(args@)))),
{
    if args.len() == 0 {
        None
    } else {
        let pieces = comma_separated(args);
        match canonical_region_names(&pieces) {
            Ok(w) => Some(w),
            Err(_) => {
                assert(false);
                None
            },
        }
    }
}

/// The regions to list, as `region_names_from_args` gives them, where every
/// given name names a region; else the first given name (split at commas)
/// that names none.
pub fn checked_region_names_from_args(args: &Vec<String>) -> (r: Result<Option<Vec<String>>, String>)
    ensures
        r is Ok <==> all_regions_known(split_all(names(args@))),
        args@.len() == 0 ==> r == Ok::<Option<Vec<String>>, String>(None),
        args@.len() > 0 && all_regions_known(split_all(names(args@))) ==> (r matches Ok(Some(v)) && names(v@)
            == region_names_of(split_all(names(args@)))),
        r matches Err(n) ==> region_named(n@) is None && split_all(names(args@)).contains(n@),
{
    let pieces = comma_separated(args);
    match canonical_region_names(&pieces) {
        Ok(_) => Ok(region_names_from_args(args)),
        Err(n) => {
            proof {
                let k = choose|k: int|
                    0 <= k < pieces@.len() && (#[trigger] pieces@[k])@ == n@ && region_named(n@) is None
                        && all_regions_known(names(pieces@).take(k));
                assert(names(pieces@)[k] == n@);
            }
            Err(n)
        },
    }
}

} // verus!
