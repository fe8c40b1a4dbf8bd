//! Properties that hold across the library's operations.
use vstd::prelude::*;
use crate::controller::reselected;
use crate::instance::{InstanceV, TagV, find_tag_from, tag_matches, tag_scan_ok};
use crate::selection::{filter_keeps, first_match_from, lemma_first_match_from, search_matches};
use crate::text::{ascii_lower_code, cell_spec, eq_ignore_ascii_case_spec, has_infix, lex_sign, split_pieces};
use crate::views::bottombar_view::join;
use crate::views::event::{Event, Key};
use crate::views::foo_view::text_after;
use crate::views::key_codes::last_entries;
use crate::views::log_view::{LogScroll, TermAction, log_run, log_scroll_for, printed_chars};
use crate::actions::{Actions, action_menu, action_name};
use crate::details::{detail_pairs, field_under_label};
use crate::instance::Ec2InstanceV;
use crate::state::{ReturnValues, bar_for, names};
use crate::views::bottombar_view::BottomBarV;
use crate::columns::{
    BasicColumn, column_sort_field, column_sort_text, instance_column_ok, instance_column_order, instance_column_text,
    opt_text_order, order_of_sign,
};
use core::cmp::Ordering;
use crate::views::table_view::{next_selection, table_event_ok};

verus! {

/// Every key keeps the selection on a row of a table that has rows.
pub proof fn lemma_selection_stays_on_rows(idx: usize, len: nat, e: Event)
    requires
        idx < len,
        table_event_ok(len, e),
    ensures
        0 <= next_selection(idx, len, e) < len,
{
}

/// Down then Up comes back to the row, when there is a row below it.
pub proof fn lemma_down_then_up(idx: usize, len: nat)
    requires
        idx + 1 < len,
        len <= usize::MAX,
    ensures
        next_selection(next_selection(idx, len, Event::Key(Key::Down)) as usize, len, Event::Key(Key::Up)) == idx,
{
}

/// Up then Down comes back to the row, when there is a row above it.
pub proof fn lemma_up_then_down(idx: usize, len: nat)
    requires
        0 < idx < len,
    ensures
        next_selection(next_selection(idx, len, Event::Key(Key::Up)) as usize, len, Event::Key(Key::Down)) == idx,
{
}

/// Home goes to the first row and End to the last, from any row.
pub proof fn lemma_home_and_end(idx: usize, len: nat)
    requires
        len > 0,
    ensures
        next_selection(idx, len, Event::Key(Key::Home)) == 0,
        next_selection(idx, len, Event::Shift(Key::Home)) == 0,
        next_selection(idx, len, Event::Key(Key::End)) == len - 1,
        next_selection(idx, len, Event::Shift(Key::End)) == len - 1,
{
}

/// When the rows of a table are replaced and the row selected before is
/// among the new rows, that row is selected again.
pub proof fn lemma_selection_survives_replacement(rows: Seq<InstanceV>, before: InstanceV, sel: usize)
    requires
        rows.contains(before),
        reselected(rows, Some(before), sel),
    ensures
        sel < rows.len(),
        rows[sel as int] == before,
{
}

/// A filter keeps exactly the instances it matches, in their order: every
/// instance shown passes it, and every listed instance that passes it is shown.
pub proof fn lemma_filter_shows_exactly_the_matches(all: Seq<InstanceV>, q: Seq<char>)
    ensures
        forall|i: int| 0 <= i < all.filter(filter_keeps(q)).len() ==> filter_keeps(q)(#[trigger] all.filter(filter_keeps(q))[i]),
        forall|i: int| 0 <= i < all.len() && filter_keeps(q)(all[i]) ==> #[trigger] all.filter(filter_keeps(q)).contains(all[i]),
        all.filter(filter_keeps(q)).len() <= all.len(),
{
    broadcast use vstd::seq_lib::group_filter_ensures;
}

proof fn lemma_filter_all(s: Seq<InstanceV>, p: spec_fn(InstanceV) -> bool)
    requires
        forall|v: InstanceV| #[trigger] p(v),
    ensures
        s.filter(p) == s,
    decreases s.len(),
{
    reveal_with_fuel(Seq::filter, 1);
    if s.len() > 0 {
        lemma_filter_all(s.drop_last(), p);
        assert(s.drop_last().push(s.last()) =~= s);
    }
}

/// An empty filter shows every listed instance.
pub proof fn lemma_empty_filter_shows_all(all: Seq<InstanceV>)
    ensures
        all.filter(filter_keeps(Seq::<char>::empty())) == all,
{
    let e = Seq::<char>::empty();
    assert forall|v: InstanceV| #[trigger] filter_keeps(e)(v) by {
        assert(v.region.subrange(0int, 0int + e.len()) =~= e);
        assert(has_infix(v.region, e));
    }
    lemma_filter_all(all, filter_keeps(Seq::<char>::empty()));
}

/// Filtering keeps the selected instance selected when it passes the filter.
pub proof fn lemma_filter_keeps_selection(all: Seq<InstanceV>, q: Seq<char>, before: InstanceV, sel: usize)
    requires
        all.contains(before),
        filter_keeps(q)(before),
        reselected(all.filter(filter_keeps(q)), Some(before), sel),
    ensures
        sel < all.filter(filter_keeps(q)).len(),
        all.filter(filter_keeps(q))[sel as int] == before,
{
    broadcast use vstd::seq_lib::group_filter_ensures;

    let i = choose|i: int| 0 <= i < all.len() && all[i] == before;
    assert(all.filter(filter_keeps(q)).contains(all[i]));
}

/// Searching for the next match finds one whenever any instance matches:
/// below the selected row, or else from the top.
pub proof fn lemma_search_next_finds_any_match(v: Seq<InstanceV>, q: Seq<char>, sel: int, j: int)
    requires
        0 <= sel,
        0 <= j < v.len(),
        search_matches(v[j], q),
    ensures
        first_match_from(v, q, sel + 1) is Some || first_match_from(v, q, 0) is Some,
{
    lemma_first_match_from(v, q, 0);
}

/// Deleting a character just typed gives back the text as it was.
pub proof fn lemma_delete_undoes_insert(t: Seq<char>, c: char)
    ensures
        text_after(text_after(t, Event::Char(c)), Event::Key(Key::Backspace)) == t,
{
    assert(t.push(c).drop_last() =~= t);
}

/// The key log keeps at most its capacity of lines, the newest last.
pub proof fn lemma_key_log_bounded(h: Seq<Seq<char>>, line: Seq<char>, n: nat)
    requires
        h.len() <= n,
    ensures
        last_entries(h.push(line), n).len() == if h.len() < n { h.len() + 1 } else { n },
        n > 0 ==> last_entries(h.push(line), n).last() == line,
{
}

/// The console log holds no empty line.
pub proof fn lemma_log_lines_not_empty(acts: Seq<TermAction>)
    ensures
        forall|i: int| 0 <= i < log_run(acts).lines.len() ==> (#[trigger] log_run(acts).lines[i]).len() > 0,
    decreases acts.len(),
{
    if acts.len() > 0 {
        lemma_log_lines_not_empty(acts.drop_last());
        let prev = log_run(acts.drop_last());
        let now = log_run(acts);
        assert forall|i: int| 0 <= i < now.lines.len() implies (#[trigger] now.lines[i]).len() > 0 by {
            if i < prev.lines.len() {
                assert(now.lines[i] == prev.lines[i]);
            }
        }
    }
}

/// Output without control bytes ends no line.
pub proof fn lemma_no_control_no_lines(acts: Seq<TermAction>)
    requires
        forall|i: int| 0 <= i < acts.len() ==> (#[trigger] acts[i]) is Print,
    ensures
        log_run(acts).lines.len() == 0,
    decreases acts.len(),
{
    if acts.len() > 0 {
        lemma_no_control_no_lines(acts.drop_last());
    }
}

/// Joining the pieces of a split with the separator gives back the text.
pub proof fn lemma_split_then_join(s: Seq<char>, sep: char)
    ensures
        join(split_pieces(s, sep), seq![sep]) == s,
    decreases s.len(),
{
    crate::text::lemma_split_pieces_nonempty(s, sep);
    if s.len() > 0 {
        let rest = split_pieces(s.drop_last(), sep);
        lemma_split_then_join(s.drop_last(), sep);
        crate::text::lemma_split_pieces_nonempty(s.drop_last(), sep);
        if s.last() == sep {
            assert(rest.push(Seq::<char>::empty()).drop_last() =~= rest);
            assert(s =~= s.drop_last() + seq![sep] + Seq::<char>::empty());
        } else {
            let upd = rest.update(rest.len() - 1, rest.last().push(s.last()));
            if rest.len() == 1 {
                assert(s =~= rest[0].push(s.last()));
            } else {
                assert(upd.drop_last() =~= rest.drop_last());
                assert(join(rest, seq![sep]) == join(rest.drop_last(), seq![sep]) + seq![sep] + rest.last());
                assert(s =~= s.drop_last().push(s.last()));
                assert(join(upd, seq![sep]) == join(upd.drop_last(), seq![sep]) + seq![sep] + upd.last());
                assert(upd.last() == rest.last().push(s.last()));
                assert(s =~= join(rest.drop_last(), seq![sep]) + seq![sep] + rest.last().push(s.last()));
            }
        }
    }
}

/// A table cell is as wide as its column, plus the space after it.
pub proof fn lemma_cell_width(s: Seq<char>, w: nat)
    ensures
        cell_spec(s, w).len() == w + 1,
{
}

/// The order of strings is antisymmetric: swapping the two negates it.
pub proof fn lemma_order_antisymmetric(a: Seq<char>, b: Seq<char>)
    ensures
        lex_sign(a, b) == -lex_sign(b, a),
    decreases a.len(),
{
    if a.len() > 0 && b.len() > 0 && (a[0] as u32) == (b[0] as u32) {
        lemma_order_antisymmetric(a.drop_first(), b.drop_first());
    }
}

/// A string is equal to itself in the order of strings.
pub proof fn lemma_order_reflexive(a: Seq<char>)
    ensures
        lex_sign(a, a) == 0,
    decreases a.len(),
{
    if a.len() > 0 {
        lemma_order_reflexive(a.drop_first());
    }
}

/// Looking a tag up does not depend on the ASCII case of the key asked for.
pub proof fn lemma_tag_lookup_ignores_case(tags: Seq<TagV>, k1: Seq<char>, k2: Seq<char>, i: int)
    requires
        eq_ignore_ascii_case_spec(k1, k2),
    ensures
        find_tag_from(tags, k1, i) == find_tag_from(tags, k2, i),
        tag_scan_ok(tags, k1, i) == tag_scan_ok(tags, k2, i),
    decreases tags.len() - i,
{
    if 0 <= i < tags.len() {
        if let Some(k) = tags[i].key {
            assert(eq_ignore_ascii_case_spec(k, k1) == eq_ignore_ascii_case_spec(k, k2));
        }
        assert(tag_matches(tags[i], k1) == tag_matches(tags[i], k2));
        lemma_tag_lookup_ignores_case(tags, k1, k2, i + 1);
    }
}

/// The lines gathered from the console output, followed by the line still
/// being gathered, spell out exactly the characters printed: control bytes
/// only break lines, and no printed character is lost.
pub proof fn lemma_log_keeps_every_printed_char(acts: Seq<TermAction>)
    ensures
        log_run(acts).lines.flatten() + log_run(acts).current == printed_chars(acts),
    decreases acts.len(),
{
    if acts.len() > 0 {
        lemma_log_keeps_every_printed_char(acts.drop_last());
        let prev = log_run(acts.drop_last());
        match acts.last() {
            TermAction::Print(c) => {
                assert(prev.lines.flatten() + prev.current.push(c) =~= (prev.lines.flatten()
                    + prev.current).push(c));
            },
            TermAction::Execute(_) => {
                if prev.current.len() > 0 {
                    prev.lines.lemma_flatten_push(prev.current);
                    assert(prev.lines.push(prev.current).flatten() + Seq::<char>::empty()
                        =~= prev.lines.flatten() + prev.current);
                }
            },
        }
    }
}

/// The order of strings is transitive: what comes no later than a string
/// that comes no later than a third comes no later than the third, and
/// likewise for coming strictly earlier.
pub proof fn lemma_order_transitive(a: Seq<char>, b: Seq<char>, c: Seq<char>)
    ensures
        lex_sign(a, b) <= 0 && lex_sign(b, c) <= 0 ==> lex_sign(a, c) <= 0,
        lex_sign(a, b) < 0 && lex_sign(b, c) < 0 ==> lex_sign(a, c) < 0,
    decreases a.len(),
{
    if a.len() > 0 && b.len() > 0 && c.len() > 0 {
        lemma_order_transitive(a.drop_first(), b.drop_first(), c.drop_first());
    }
}

/// A filter text that another one contains keeps every instance the other
/// keeps: typing more of a filter never shows more instances.
pub proof fn lemma_longer_filter_keeps_less(short: Seq<char>, long: Seq<char>, v: InstanceV)
    requires
        has_infix(long, short),
        filter_keeps(long)(v),
    ensures
        filter_keeps(short)(v),
{
    let k = choose|k: int| 0 <= k && k + short.len() <= long.len() && #[trigger] long.subrange(k, k + short.len()) == short;
    assert forall|hay: Seq<char>| has_infix(hay, long) implies has_infix(hay, short) by {
        let i = choose|i: int| 0 <= i && i + long.len() <= hay.len() && #[trigger] hay.subrange(i, i + long.len()) == long;
        assert(hay.subrange(i + k, i + k + short.len()) =~= long.subrange(k, k + short.len()));
    }
}

/// By the name, state, region and profile columns, two instances compare as
/// the texts shown in those columns do, wherever the texts can be shown.
pub proof fn lemma_order_follows_column_text(a: InstanceV, b: InstanceV, c: BasicColumn)
    requires
        c == BasicColumn::Name || c == BasicColumn::State || c == BasicColumn::Region || c == BasicColumn::Profile,
        instance_column_ok(a, c),
        instance_column_ok(b, c),
    ensures
        instance_column_order(a, b, c) == order_of_sign(
            lex_sign(instance_column_text(a, c), instance_column_text(b, c)),
        ),
{
}

/// Comparing a string with itself gives `Equal`; swapping the two swaps
/// `Less` and `Greater`; and the order is transitive.
pub proof fn lemma_text_order_is_an_order(a: Seq<char>, b: Seq<char>, c: Seq<char>)
    ensures
        order_of_sign(lex_sign(a, a)) == Ordering::Equal,
        (order_of_sign(lex_sign(a, b)) == Ordering::Less) == (order_of_sign(lex_sign(b, a)) == Ordering::Greater),
        (order_of_sign(lex_sign(a, b)) == Ordering::Equal) == (order_of_sign(lex_sign(b, a)) == Ordering::Equal),
        order_of_sign(lex_sign(a, b)) != Ordering::Greater && order_of_sign(lex_sign(b, c)) != Ordering::Greater
            ==> order_of_sign(lex_sign(a, c)) != Ordering::Greater,
        order_of_sign(lex_sign(a, b)) == Ordering::Less && order_of_sign(lex_sign(b, c)) == Ordering::Less
            ==> order_of_sign(lex_sign(a, c)) == Ordering::Less,
{
    lemma_order_reflexive(a);
    lemma_order_antisymmetric(a, b);
    lemma_order_transitive(a, b, c);
}

/// The order of optional strings, with nothing first, is an order in the
/// same sense.
pub proof fn lemma_opt_text_order_is_an_order(a: Option<Seq<char>>, b: Option<Seq<char>>, c: Option<Seq<char>>)
    ensures
        opt_text_order(a, a) == Ordering::Equal,
        (opt_text_order(a, b) == Ordering::Less) == (opt_text_order(b, a) == Ordering::Greater),
        (opt_text_order(a, b) == Ordering::Equal) == (opt_text_order(b, a) == Ordering::Equal),
        opt_text_order(a, b) != Ordering::Greater && opt_text_order(b, c) != Ordering::Greater
            ==> opt_text_order(a, c) != Ordering::Greater,
        opt_text_order(a, b) == Ordering::Less && opt_text_order(b, c) == Ordering::Less
            ==> opt_text_order(a, c) == Ordering::Less,
{
    match (a, b, c) {
        (Some(x), Some(y), Some(z)) => lemma_text_order_is_an_order(x, y, z),
        (Some(x), Some(y), None) => lemma_text_order_is_an_order(x, y, x),
        (Some(x), None, Some(z)) => lemma_text_order_is_an_order(x, z, x),
        (None, Some(y), Some(z)) => lemma_text_order_is_an_order(y, z, y),
        (Some(x), None, None) => lemma_text_order_is_an_order(x, x, x),
        (None, Some(y), None) => lemma_text_order_is_an_order(y, y, y),
        (None, None, Some(z)) => lemma_text_order_is_an_order(z, z, z),
        (None, None, None) => {},
    }
}

/// How the table orders its rows by any column is an order: every instance
/// compares `Equal` with itself, swapping two instances swaps `Less` and
/// `Greater`, and the order is transitive.
pub proof fn lemma_column_order_is_an_order(a: InstanceV, b: InstanceV, d: InstanceV, c: BasicColumn)
    ensures
        instance_column_order(a, a, c) == Ordering::Equal,
        (instance_column_order(a, b, c) == Ordering::Less) == (instance_column_order(b, a, c) == Ordering::Greater),
        (instance_column_order(a, b, c) == Ordering::Equal) == (instance_column_order(b, a, c) == Ordering::Equal),
        instance_column_order(a, b, c) != Ordering::Greater && instance_column_order(b, d, c) != Ordering::Greater
            ==> instance_column_order(a, d, c) != Ordering::Greater,
        instance_column_order(a, b, c) == Ordering::Less && instance_column_order(b, d, c) == Ordering::Less
            ==> instance_column_order(a, d, c) == Ordering::Less,
{
    match c {
        BasicColumn::Name | BasicColumn::State | BasicColumn::Region | BasicColumn::Profile => {
            lemma_text_order_is_an_order(
                column_sort_text(a, c),
                column_sort_text(b, c),
                column_sort_text(d, c),
            );
        },
        _ => {
            lemma_opt_text_order_is_an_order(
                column_sort_field(a, c),
                column_sort_field(b, c),
                column_sort_field(d, c),
            );
        },
    }
}

/// The order of strings is lexicographic. Where `a` and `b` agree on their
/// first `k` characters: a smaller code point at position `k` puts its
/// string first, whatever the lengths; a string that ends at `k` while the
/// other goes on comes first; and two strings that both end there are equal.
pub proof fn lemma_text_order_is_lexicographic(a: Seq<char>, b: Seq<char>, k: int)
    requires
        0 <= k <= a.len(),
        k <= b.len(),
        a.take(k) == b.take(k),
    ensures
        k < a.len() && k < b.len() && (a[k] as u32) < (b[k] as u32) ==> lex_sign(a, b) == -1,
        k < a.len() && k < b.len() && (a[k] as u32) > (b[k] as u32) ==> lex_sign(a, b) == 1,
        k == a.len() && k < b.len() ==> lex_sign(a, b) == -1,
        k < a.len() && k == b.len() ==> lex_sign(a, b) == 1,
        k == a.len() && k == b.len() ==> lex_sign(a, b) == 0,
    decreases k,
{
    if k > 0 {
        assert(a[0] == a.take(k)[0]);
        assert(b[0] == b.take(k)[0]);
        assert(a.drop_first().take(k - 1) =~= a.take(k).drop_first());
        assert(b.drop_first().take(k - 1) =~= b.take(k).drop_first());
        lemma_text_order_is_lexicographic(a.drop_first(), b.drop_first(), k - 1);
        if k < a.len() {
            assert(a.drop_first()[k - 1] == a[k]);
        }
        if k < b.len() {
            assert(b.drop_first()[k - 1] == b[k]);
        }
    }
}

/// Each row of the detail page shows the field its label names: the row
/// labelled "public ip" shows the public address, the row labelled
/// "private ip" the private one, and so on for every row.
pub proof fn lemma_detail_rows_show_their_fields(v: Ec2InstanceV)
    ensures
        forall|i: int|
            0 <= i < detail_pairs(v).len() ==> field_under_label(v, (#[trigger] detail_pairs(v)[i]).0) == Some(
                detail_pairs(v)[i].1,
            ),
{
    reveal_strlit("instance-id");
    reveal_strlit("name");
    reveal_strlit("architecture");
    reveal_strlit("vpc-id");
    reveal_strlit("subnet_type");
    reveal_strlit("instance_type");
    reveal_strlit("key_name");
    reveal_strlit("state");
    reveal_strlit("public ip");
    reveal_strlit("public dns");
    reveal_strlit("private ip");
    reveal_strlit("private dns");
    reveal_strlit("placement");
    reveal_strlit("lifecycle");
    reveal_strlit("image-id");
    reveal_strlit("ramdisk-id");
    reveal_strlit("root device");
    assert("instance-id"@.len() == 11 && "instance-id"@[0] == 'i' && "instance-id"@[1] == 'n');
    assert("name"@.len() == 4 && "name"@[0] == 'n' && "name"@[1] == 'a');
    assert("architecture"@.len() == 12 && "architecture"@[0] == 'a' && "architecture"@[1] == 'r');
    assert("vpc-id"@.len() == 6 && "vpc-id"@[0] == 'v' && "vpc-id"@[1] == 'p');
    assert("subnet_type"@.len() == 11 && "subnet_type"@[0] == 's' && "subnet_type"@[1] == 'u');
    assert("instance_type"@.len() == 13 && "instance_type"@[0] == 'i' && "instance_type"@[1] == 'n');
    assert("key_name"@.len() == 8 && "key_name"@[0] == 'k' && "key_name"@[1] == 'e');
    assert("state"@.len() == 5 && "state"@[0] == 's' && "state"@[1] == 't');
    assert("public ip"@.len() == 9 && "public ip"@[0] == 'p' && "public ip"@[1] == 'u');
    assert("public dns"@.len() == 10 && "public dns"@[0] == 'p' && "public dns"@[1] == 'u');
    assert("private ip"@.len() == 10 && "private ip"@[0] == 'p' && "private ip"@[1] == 'r');
    assert("private dns"@.len() == 11 && "private dns"@[0] == 'p' && "private dns"@[1] == 'r');
    assert("placement"@.len() == 9 && "placement"@[0] == 'p' && "placement"@[1] == 'l');
    assert("lifecycle"@.len() == 9 && "lifecycle"@[0] == 'l' && "lifecycle"@[1] == 'i');
    assert("image-id"@.len() == 8 && "image-id"@[0] == 'i' && "image-id"@[1] == 'm');
    assert("ramdisk-id"@.len() == 10 && "ramdisk-id"@[0] == 'r' && "ramdisk-id"@[1] == 'a');
    assert("root device"@.len() == 11 && "root device"@[0] == 'r' && "root device"@[1] == 'o');
    assert(field_under_label(v, detail_pairs(v)[0].0) == Some(detail_pairs(v)[0].1));
    assert(field_under_label(v, detail_pairs(v)[1].0) == Some(detail_pairs(v)[1].1));
    assert(field_under_label(v, detail_pairs(v)[2].0) == Some(detail_pairs(v)[2].1));
    assert(field_under_label(v, detail_pairs(v)[3].0) == Some(detail_pairs(v)[3].1));
    assert(field_under_label(v, detail_pairs(v)[4].0) == Some(detail_pairs(v)[4].1));
    assert(field_under_label(v, detail_pairs(v)[5].0) == Some(detail_pairs(v)[5].1));
    assert(field_under_label(v, detail_pairs(v)[6].0) == Some(detail_pairs(v)[6].1));
    assert(field_under_label(v, detail_pairs(v)[7].0) == Some(detail_pairs(v)[7].1));
    assert(field_under_label(v, detail_pairs(v)[8].0) == Some(detail_pairs(v)[8].1));
    assert(field_under_label(v, detail_pairs(v)[9].0) == Some(detail_pairs(v)[9].1));
    assert(field_under_label(v, detail_pairs(v)[10].0) == Some(detail_pairs(v)[10].1));
    assert(field_under_label(v, detail_pairs(v)[11].0) == Some(detail_pairs(v)[11].1));
    assert(field_under_label(v, detail_pairs(v)[12].0) == Some(detail_pairs(v)[12].1));
    assert(field_under_label(v, detail_pairs(v)[13].0) == Some(detail_pairs(v)[13].1));
    assert(field_under_label(v, detail_pairs(v)[14].0) == Some(detail_pairs(v)[14].1));
    assert(field_under_label(v, detail_pairs(v)[15].0) == Some(detail_pairs(v)[15].1));
    assert(field_under_label(v, detail_pairs(v)[16].0) == Some(detail_pairs(v)[16].1));
    assert(field_under_label(v, detail_pairs(v)[17].0) == Some(detail_pairs(v)[17].1));
    assert forall|i: int| 0 <= i < detail_pairs(v).len() implies field_under_label(v, (#[trigger] detail_pairs(v)[i]).0)
        == Some(detail_pairs(v)[i].1) by {
        assert(0 <= i < 18);
    }
}

/// Each entry of the action menu does what its label names, and every
/// action is offered.
pub proof fn lemma_action_menu_labels_name_their_actions(a: Actions)
    ensures
        forall|i: int| 0 <= i < action_menu().len() ==> (#[trigger] action_menu()[i]).0 == action_name(action_menu()[i].1),
        exists|i: int| 0 <= i < action_menu().len() && (#[trigger] action_menu()[i]).1 == a,
{
    match a {
        Actions::Start => assert(action_menu()[0].1 == a),
        Actions::Stop => assert(action_menu()[1].1 == a),
        Actions::Terminate => assert(action_menu()[2].1 == a),
        Actions::Reboot => assert(action_menu()[3].1 == a),
    }
}

/// Whatever the mode, the bottom bar shows the regions and the profiles in
/// use after it is brought up to date.
pub proof fn lemma_bar_shows_regions_and_profiles(st: &ReturnValues, bar: BottomBarV)
    ensures
        bar_for(st, bar).regions == names(st.regions@),
        bar_for(st, bar).profiles == names(st.profiles@),
{
}

/// Which way a key points in the log: down (1), up (-1), or neither (0).
pub open spec fn key_direction(k: Key) -> int {
    match k {
        Key::Down | Key::PageDown | Key::End => 1,
        Key::Up | Key::PageUp | Key::Home => -1,
        _ => 0,
    }
}

/// How far a key reaches: a line (1), a screen (2), or the end (3).
pub open spec fn key_reach(k: Key) -> int {
    match k {
        Key::Up | Key::Down => 1,
        Key::PageUp | Key::PageDown => 2,
        Key::Home | Key::End => 3,
        _ => 0,
    }
}

/// Which way a scroll moves: down (1), up (-1), or not at all (0).
pub open spec fn scroll_direction(s: LogScroll) -> int {
    match s {
        LogScroll::LineDown | LogScroll::PageDown | LogScroll::Bottom => 1,
        LogScroll::LineUp | LogScroll::PageUp | LogScroll::Top => -1,
        _ => 0,
    }
}

/// How far a scroll reaches: a line (1), a screen (2), or the end (3).
pub open spec fn scroll_reach(s: LogScroll) -> int {
    match s {
        LogScroll::LineUp | LogScroll::LineDown => 1,
        LogScroll::PageUp | LogScroll::PageDown => 2,
        LogScroll::Top | LogScroll::Bottom => 3,
        _ => 0,
    }
}

/// The log scrolls the way a key points and as far as it reaches: the
/// arrows by a line, the page keys by a screen, Home and End (also with
/// shift) to the first and the last line.
pub proof fn lemma_log_scrolls_as_keys_point(k: Key)
    ensures
        key_direction(k) != 0 ==> scroll_direction(log_scroll_for(Event::Key(k))) == key_direction(k)
            && scroll_reach(log_scroll_for(Event::Key(k))) == key_reach(k),
        (k == Key::Home || k == Key::End) ==> log_scroll_for(Event::Shift(k)) == log_scroll_for(Event::Key(k)),
{
}

} // verus!
