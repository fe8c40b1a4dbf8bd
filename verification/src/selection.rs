//! Which instances a filter keeps, and which one a search selects.
use vstd::prelude::*;
use crate::instance::{Instance, InstanceV, find_tag, find_tag_ok, find_tag_spec, or_empty, unwrap_or_empty, clone_tags, opt_seq_view, tag_scan_ok, TagV};
use crate::text::eq_ignore_ascii_case;
use crate::text::{has_infix, lowercase, lowercase_chars, str_contains};

verus! {

/// The views of a list of instances.
pub open spec fn views_of(v: Seq<Instance>) -> Seq<InstanceV> {
    v.map_values(|i: Instance| i@)
}

/// The value of the instance's tag `key` (up to ASCII case), or nothing.
pub open spec fn tag_text(v: InstanceV, key: Seq<char>) -> Seq<char> {
    or_empty(find_tag_spec(key, v.instance.tags))
}

/// Every instance of `v` has a tag list that can be searched for `key`.
pub open spec fn all_tags_ok(v: Seq<InstanceV>, key: Seq<char>) -> bool {
    forall|i: int| 0 <= i < v.len() ==> find_tag_ok(key, (#[trigger] v[i]).instance.tags)
}

/// The filter typed in the bottom bar keeps an instance when its `Name` tag,
/// its region or its profile contains the filter text.
pub open spec fn filter_keeps(q: Seq<char>) -> spec_fn(InstanceV) -> bool {
    |v: InstanceV| has_infix(tag_text(v, "Name"@), q) || has_infix(v.region, q) || has_infix(v.profile, q)
}

/// A refresh keeps an instance when its `name` tag contains the filter text.
pub open spec fn refresh_keeps(q: Seq<char>) -> spec_fn(InstanceV) -> bool {
    |v: InstanceV| has_infix(tag_text(v, "name"@), q)
}

/// A search matches an instance when its `Name` tag, lower-cased, contains
/// the search text, lower-cased.
pub open spec fn search_matches(v: InstanceV, q: Seq<char>) -> bool {
    has_infix(lowercase_chars(tag_text(v, "Name"@)), lowercase_chars(q))
}

/// The first index from `start` on whose instance the search matches.
pub open spec fn first_match_from(v: Seq<InstanceV>, q: Seq<char>, start: int) -> Option<int>
    decreases v.len() - start,
{
    if start < 0 || start >= v.len() {
        None
    } else if search_matches(v[start], q) {
        Some(start)
    } else {
        first_match_from(v, q, start + 1)
    }
}

/// A search from `start` finds the first matching instance at or after
/// `start`, and finds one whenever there is one.
pub proof fn lemma_first_match_from(v: Seq<InstanceV>, q: Seq<char>, start: int)
    requires
        0 <= start,
    ensures
        match first_match_from(v, q, start) {
            Some(k) => start <= k < v.len() && search_matches(v[k], q) && forall|j: int|
                start <= j < k ==> !search_matches(#[trigger] v[j], q),
            None => forall|j: int| start <= j < v.len() ==> !search_matches(#[trigger] v[j], q),
        },
    decreases v.len() - start,
{
    if start < v.len() && !search_matches(v[start], q) {
        lemma_first_match_from(v, q, start + 1);
    }
}

/// Whether the tags of `inst` can be searched for `key`: no tag without a
/// key comes before the first tag whose key is `key`.
pub fn tag_lookup_ok(inst: &Instance, key: &str) -> (r: bool)
    ensures
        r == find_tag_ok(key@, inst@.instance.tags),
{
    match &inst.instance.tags {
        None => true,
        Some(tags) => {
            let ghost tv: Seq<TagV> = inst@.instance.tags->0;
            let mut i: usize = 0;
            while i < tags.len()
                invariant
                    tv == tags@.map_values(|t: crate::instance::Tag| t@),
                    inst@.instance.tags == Some(tv),
                    i <= tags@.len(),
                    tag_scan_ok(tv, key@, 0) == tag_scan_ok(tv, key@, i as int),
                decreases tags@.len() - i,
            {
                assert(tv[i as int] == tags@[i as int]@);
                match &tags[i].key {
                    None => return false,
                    Some(k) => {
                        if eq_ignore_ascii_case(k.as_str(), key) {
                            return true;
                        }
                    },
                }
                i = i + 1;
            }
            true
        },
    }
}

/// Whether the tags of every instance of `v` can be searched for `key`.
pub fn all_tag_lookups_ok(v: &Vec<Instance>, key: &str) -> (r: bool)
    ensures
        r == all_tags_ok(views_of(v@), key@),
{
    let ghost vs = views_of(v@);
    let mut i: usize = 0;
    while i < v.len()
        invariant
            vs == views_of(v@),
            i <= v@.len(),
            forall|j: int| 0 <= j < i ==> find_tag_ok(key@, (#[trigger] vs[j]).instance.tags),
        decreases v@.len() - i,
    {
        assert(vs[i as int] == v@[i as int]@);
        if !tag_lookup_ok(&v[i], key) {
            return false;
        }
        i = i + 1;
    }
    true
}

/// The text of the instance's tag `key`, or the empty string.
pub fn tag_value(inst: &Instance, key: &str) -> (r: String)
    requires
        find_tag_ok(key@, inst@.instance.tags),
    ensures
        r@ == tag_text(inst@, key@),
{
    let tags = match &inst.instance.tags {
        Some(v) => Some(clone_tags(v)),
        None => None,
    };
    assert(opt_seq_view(tags) == inst@.instance.tags);
    let found = find_tag(key.to_owned(), tags);
    unwrap_or_empty(&found)
}

fn keep_by_filter(inst: &Instance, q: &str) -> (r: bool)
    requires
        find_tag_ok("Name"@, inst@.instance.tags),
    ensures
        r == filter_keeps(q@)(inst@),
{
    let name = tag_value(inst, "Name");
    str_contains(name.as_str(), q) || str_contains(inst.region.as_str(), q) || str_contains(
        inst.profile.as_str(),
        q,
    )
}

fn keep_by_refresh(inst: &Instance, q: &str) -> (r: bool)
    requires
        find_tag_ok("name"@, inst@.instance.tags),
    ensures
        r == refresh_keeps(q@)(inst@),
{
    let name = tag_value(inst, "name");
    str_contains(name.as_str(), q)
}

/// The instances that the filter `q` keeps, in their order.
pub fn filter_instances(instances: &Vec<Instance>, q: &str) -> (r: Vec<Instance>)
    requires
        all_tags_ok(views_of(instances@), "Name"@),
    ensures
        views_of(r@) == views_of(instances@).filter(filter_keeps(q@)),
{
    let ghost vs = views_of(instances@);
    let mut r: Vec<Instance> = Vec::new();
    let mut i: usize = 0;
    while i < instances.len()
        invariant
            vs == views_of(instances@),
            all_tags_ok(vs, "Name"@),
            i <= instances@.len(),
            views_of(r@) == vs.take(i as int).filter(filter_keeps(q@)),
        decreases instances@.len() - i,
    {
        assert(vs[i as int] == instances@[i as int]@);
        assert(vs.take(i + 1) =~= vs.take(i as int).push(vs[i as int]));
        proof {
            vs.take(i as int).lemma_filter_push(vs[i as int], filter_keeps(q@));
        }
        if keep_by_filter(&instances[i], q) {
            let c = instances[i].clone();
            r.push(c);
            assert(views_of(r@) =~= views_of(r@.drop_last()).push(c@));
        }
        i = i + 1;
    }
    assert(vs.take(instances@.len() as int) =~= vs);
    r
}

/// The instances kept after a refresh: those whose `name` tag contains
/// `filter` when a filter is set, else all of them.
pub fn refresh_filter(instances: Vec<Instance>, filter: &str) -> (r: Vec<Instance>)
    requires
        filter@.len() > 0 ==> all_tags_ok(views_of(instances@), "name"@),
    ensures
        filter@.len() == 0 ==> r@ == instances@,
        filter@.len() > 0 ==> views_of(r@) == views_of(instances@).filter(refresh_keeps(filter@)),
{
    if filter.is_empty() {
        return instances;
    }
    let ghost vs = views_of(instances@);
    let mut r: Vec<Instance> = Vec::new();
    let mut i: usize = 0;
    while i < instances.len()
        invariant
            vs == views_of(instances@),
            all_tags_ok(vs, "name"@),
            i <= instances@.len(),
            views_of(r@) == vs.take(i as int).filter(refresh_keeps(filter@)),
        decreases instances@.len() - i,
    {
        assert(vs[i as int] == instances@[i as int]@);
        assert(vs.take(i + 1) =~= vs.take(i as int).push(vs[i as int]));
        proof {
            vs.take(i as int).lemma_filter_push(vs[i as int], refresh_keeps(filter@));
        }
        if keep_by_refresh(&instances[i], filter) {
            let c = instances[i].clone();
            r.push(c);
            assert(views_of(r@) =~= views_of(r@.drop_last()).push(c@));
        }
        i = i + 1;
    }
    assert(vs.take(instances@.len() as int) =~= vs);
    r
}

fn search_hit(inst: &Instance, lowered_query: &str, q: Ghost<Seq<char>>) -> (r: bool)
    requires
        find_tag_ok("Name"@, inst@.instance.tags),
        lowered_query@ == lowercase_chars(q@),
    ensures
        r == search_matches(inst@, q@),
{
    let name = tag_value(inst, "Name");
    let lowered = lowercase(name.as_str());
    str_contains(lowered.as_str(), lowered_query)
}

fn first_match(instances: &Vec<Instance>, q: &str, start: usize) -> (r: Option<usize>)
    requires
        all_tags_ok(views_of(instances@), "Name"@),
    ensures
        match first_match_from(views_of(instances@), q@, start as int) {
            Some(k) => r == Some(k as usize),
            None => r is None,
        },
{
    let ghost vs = views_of(instances@);
    let lq = lowercase(q);
    let mut i: usize = start;
    if i >= instances.len() {
        return None;
    }
    while i < instances.len()
        invariant
            vs == views_of(instances@),
            all_tags_ok(vs, "Name"@),
            start <= i <= instances@.len(),
            lq@ == lowercase_chars(q@),
            first_match_from(vs, q@, start as int) == first_match_from(vs, q@, i as int),
        decreases instances@.len() - i,
    {
        assert(vs[i as int] == instances@[i as int]@);
        if search_hit(&instances[i], lq.as_str(), Ghost(q@)) {
            return Some(i);
        }
        i = i + 1;
    }
    None
}

/// The first instance, from the top, that the search `q` matches.
pub fn search_first(instances: &Vec<Instance>, q: &str) -> (r: Option<usize>)
    requires
        all_tags_ok(views_of(instances@), "Name"@),
    ensures
        match first_match_from(views_of(instances@), q@, 0) {
            Some(k) => r == Some(k as usize),
            None => r is None,
        },
{
    first_match(instances, q, 0)
}

/// The next instance below row `selected` that the search `q` matches,
/// going round to the top when there is none below.
pub fn search_next(instances: &Vec<Instance>, q: &str, selected: usize) -> (r: Option<usize>)
    requires
        all_tags_ok(views_of(instances@), "Name"@),
        selected < usize::MAX,
    ensures
        match first_match_from(views_of(instances@), q@, selected + 1) {
            Some(k) => r == Some(k as usize),
            None => match first_match_from(views_of(instances@), q@, 0) {
                Some(k) => r == Some(k as usize),
                None => r is None,
            },
        },
{
    match first_match(instances, q, selected + 1) {
        Some(k) => Some(k),
        None => first_match(instances, q, 0),
    }
}

} // verus!
