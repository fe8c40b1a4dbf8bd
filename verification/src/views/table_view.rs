//! The instances table: a list of items, the columns shown, and the
//! selected row, moved by the arrow and paging keys.
use vstd::prelude::*;
use core::cmp::Ordering;
use vstd::std_specs::cmp::PartialEqSpec;
use crate::views::event::{Event, Key};
use crate::text::{byte_len, cell_spec, cell_text, utf8_len};

verus! {

/// The colours of a table cell.
#[derive(PartialEq, Eq, Structural, Clone, Copy, Debug)]
pub enum CellStyle {
    /// The terminal's primary colours.
    Primary,
    /// Dark green on the terminal's background.
    DarkGreen,
    /// Light green on the terminal's background.
    LightGreen,
    /// Light red on the terminal's background.
    LightRed,
    /// Black on the header's green.
    Header,
    /// The highlight of the selected row in a focused table.
    Highlight,
    /// The highlight of the selected row in a table without focus.
    HighlightInactive,
}

/// A column of the table.
pub trait Header: Copy {
    /// The title of the column.
    spec fn header_text(&self) -> Seq<char>;

    /// The width of the column in a table `w` characters wide.
    spec fn header_width(&self, w: usize) -> usize;

    fn to_header(&self) -> (r: String)
        ensures
            r@ == self.header_text(),
    ;

    fn to_header_size(&self, w: usize) -> (r: usize)
        ensures
            r == self.header_width(w),
    ;
}

/// An item shown as a row of the table.
pub trait TableViewItem<H: Header>: Clone + Sized {
    /// Whether the item has what the text of `column` is made from.
    spec fn column_ok(&self, column: H) -> bool;

    /// The text of the item in `column`.
    spec fn column_text(&self, column: H) -> Seq<char>;

    /// Whether the item has what the colour of `column` is made from.
    spec fn color_ok(&self, column: H) -> bool;

    /// The colour of the item in `column`.
    spec fn column_color(&self, column: H) -> CellStyle;

    /// How the item compares with `other` by `column`.
    spec fn column_order(&self, other: &Self, column: H) -> Ordering;

    fn to_column(&self, column: H) -> (r: String)
        requires
            self.column_ok(column),
        ensures
            r@ == self.column_text(column),
    ;

    fn to_column_color(&self, column: H) -> (r: CellStyle)
        requires
            self.color_ok(column),
        ensures
            r == self.column_color(column),
    ;

    fn cmp(&self, other: &Self, column: H) -> (r: Ordering)
        ensures
            r == self.column_order(other, column),
    ;
}


/// What the table asks of its surroundings after a key press.
#[derive(PartialEq, Eq, Structural, Clone, Copy, Debug)]
pub enum TableEventResult {
    /// The key was handled.
    Consumed,
    /// The key was handled: run the submit callback, if one is set.
    Submit,
    /// The key was handled: scroll the view back to its top.
    ScrollTop,
    /// The key is not the table's.
    Ignored,
}

/// How many bytes the texts of `v` take together in UTF-8.
pub open spec fn byte_total(v: Seq<Seq<char>>) -> nat
    decreases v.len(),
{
    if v.len() == 0 {
        0
    } else {
        byte_total(v.drop_last()) + utf8_len(v.last())
    }
}

/// The texts of a list of strings.
pub open spec fn texts_of(v: Seq<String>) -> Seq<Seq<char>> {
    v.map_values(|t: String| t@)
}

/// The first texts of a list take no more bytes than the whole list.
pub proof fn lemma_byte_total_of_prefix(v: Seq<Seq<char>>, k: int)
    requires
        0 <= k <= v.len(),
    ensures
        byte_total(v.take(k)) <= byte_total(v),
    decreases v.len(),
{
    if k < v.len() {
        assert(v.drop_last().take(k) =~= v.take(k));
        lemma_byte_total_of_prefix(v.drop_last(), k);
    } else {
        assert(v.take(k) =~= v);
    }
}

/// The texts of a line of cells, each with the column it starts at: the
/// bytes of the texts before it, as a printer places them one after another.
pub fn placed_cells(texts: &Vec<String>) -> (r: Vec<(usize, String)>)
    requires
        byte_total(texts_of(texts@)) <= usize::MAX,
    ensures
        r@.len() == texts@.len(),
        forall|k: int|
            0 <= k < r@.len() ==> (#[trigger] r@[k]).0 == byte_total(texts_of(texts@).take(k)) && r@[k].1@
                == texts@[k]@,
{
    let ghost tv = texts_of(texts@);
    let mut r: Vec<(usize, String)> = Vec::new();
    let mut x: usize = 0;
    let mut i: usize = 0;
    assert(tv.take(0) =~= Seq::<Seq<char>>::empty());
    while i < texts.len()
        invariant
            tv == texts_of(texts@),
            byte_total(tv) <= usize::MAX,
            i <= texts@.len(),
            r@.len() == i,
            x == byte_total(tv.take(i as int)),
            forall|k: int| 0 <= k < i ==> (#[trigger] r@[k]).0 == byte_total(tv.take(k)) && r@[k].1@ == texts@[k]@,
        decreases texts@.len() - i,
    {
        let t = texts[i].clone();
        let n = byte_len(texts[i].as_str());
        proof {
            assert(tv.take(i + 1).drop_last() =~= tv.take(i as int));
            assert(tv.take(i + 1).last() == texts@[i as int]@);
            lemma_byte_total_of_prefix(tv, i + 1);
        }
        r.push((x, t));
        x = x + n;
        i = i + 1;
    }
    r
}

/// Whether the table can handle `e` with `len` rows: the keys that go to the
/// last row need a row to go to.
pub open spec fn table_event_ok(len: nat, e: Event) -> bool {
    (e == Event::Key(Key::PageDown) || e == Event::Key(Key::End) || e == Event::Shift(Key::End)
        || e == Event::Char('H')) ==> len > 0
}

/// Whether `e` goes to the last row, and so needs a row to go to.
pub fn event_needs_rows(e: Event) -> (r: bool)
    ensures
        r == !table_event_ok(0, e),
        forall|len: nat| table_event_ok(len, e) == (r ==> len > 0),
{
    match e {
        Event::Key(Key::PageDown) | Event::Key(Key::End) | Event::Shift(Key::End) => true,
        Event::Char(c) => c == 'H',
        _ => false,
    }
}

/// The selected row after `e`, from row `idx` of `len` rows.
pub open spec fn next_selection(idx: usize, len: nat, e: Event) -> int {
    match e {
        Event::Key(Key::Up) => if idx > 0 { idx - 1 } else { idx as int },
        Event::Key(Key::Down) => if idx + 1 < len { idx + 1 } else { idx as int },
        Event::Key(Key::PageUp) => if idx < 10 { 0 } else { idx - 10 },
        Event::Key(Key::PageDown) => if len - 1 <= idx + 10 { len - 1 } else { idx + 10 },
        Event::Key(Key::Home) => 0,
        Event::Shift(Key::Home) => 0,
        Event::Key(Key::End) => len - 1,
        Event::Shift(Key::End) => len - 1,
        Event::Char(c) => if c == 'H' { len - 1 } else { idx as int },
        _ => idx as int,
    }
}

/// What the table answers to `e`.
pub open spec fn table_event_result(e: Event) -> TableEventResult {
    match e {
        Event::Key(Key::Up) | Event::Key(Key::Down) | Event::Key(Key::PageUp) | Event::Key(
            Key::PageDown,
        ) | Event::Key(Key::Home) | Event::Key(Key::End) | Event::Shift(Key::Home) | Event::Shift(
            Key::End,
        ) => TableEventResult::Consumed,
        Event::Key(Key::Enter) => TableEventResult::Submit,
        Event::Char(c) => if c == 'H' {
            TableEventResult::Consumed
        } else if c == 'g' {
            TableEventResult::ScrollTop
        } else {
            TableEventResult::Ignored
        },
        _ => TableEventResult::Ignored,
    }
}

/// The header row: the title of each column as a cell of the column's width,
/// in a table `w` characters wide.
pub open spec fn header_cells<H: Header>(cols: Seq<H>, w: usize) -> Seq<Seq<char>> {
    cols.map_values(|c: H| cell_spec(c.header_text(), c.header_width(w) as nat))
}

/// The cells of `item` in a table `w` characters wide.
pub open spec fn row_cells<T: TableViewItem<H>, H: Header>(item: T, cols: Seq<H>, w: usize) -> Seq<Seq<char>> {
    cols.map_values(|c: H| cell_spec(item.column_text(c), c.header_width(w) as nat))
}

/// The style of the cells of a row: the highlight where the row is selected,
/// else `own`.
pub open spec fn selected_style(selected: bool, focused: bool, own: CellStyle) -> CellStyle {
    if selected {
        if focused { CellStyle::Highlight } else { CellStyle::HighlightInactive }
    } else {
        own
    }
}

/// A table of items of type `T` with columns of type `H`, and the index of
/// the selected row.
pub struct InstancesView<T, H> {
    instances: Vec<T>,
    current_index: usize,
    columns: Vec<H>,
}

impl<T: TableViewItem<H> + PartialEq, H: Header> Default for InstancesView<T, H> {
    fn default() -> (r: Self)
        ensures
            r.rows().len() == 0,
            r.selection() == 0,
            r.shown_columns().len() == 0,
    {
        Self::new()
    }
}

impl<T: TableViewItem<H> + PartialEq, H: Header> InstancesView<T, H> {
    /// The rows of the table.
    pub closed spec fn rows(&self) -> Seq<T> {
        self.instances@
    }

    /// The index of the selected row.
    pub closed spec fn selection(&self) -> usize {
        self.current_index
    }

    /// The columns of the table, left to right.
    pub closed spec fn shown_columns(&self) -> Seq<H> {
        self.columns@
    }

    /// A table holds at most `usize::MAX` rows.
    pub proof fn lemma_rows_fit(&self)
        ensures
            self.rows().len() <= usize::MAX,
    {
        assert(self.instances.len() == self.instances@.len());
    }

    /// An empty table without columns.
    pub fn new() -> (r: Self)
        ensures
            r.rows().len() == 0,
            r.selection() == 0,
            r.shown_columns().len() == 0,
    {
        InstancesView { instances: Vec::new(), current_index: 0, columns: Vec::new() }
    }

    /// A table of copies of `instances`, without columns, with the first row selected.
    pub fn scrollable(instances: &[T]) -> (r: Self)
        ensures
            r.rows().len() == instances@.len(),
            forall|i: int| 0 <= i < instances@.len() ==> cloned(instances@[i], #[trigger] r.rows()[i]),
            r.selection() == 0,
            r.shown_columns().len() == 0,
    {
        let mut v: Vec<T> = Vec::new();
        let mut i: usize = 0;
        while i < instances.len()
            invariant
                i <= instances@.len(),
                v@.len() == i,
                forall|k: int| 0 <= k < i ==> cloned(instances@[k], #[trigger] v@[k]),
            decreases instances@.len() - i,
        {
            let x = instances[i].clone();
            v.push(x);
            i = i + 1;
        }
        InstancesView { instances: v, current_index: 0, columns: Vec::new() }
    }

    /// The table with `column` added on the right.
    pub fn column(self, column: H) -> (r: Self)
        ensures
            r.rows() == self.rows(),
            r.selection() == self.selection(),
            r.shown_columns() == self.shown_columns().push(column),
    {
        let mut s = self;
        s.columns.push(column);
        s
    }

    /// The selected row's index (always present).
    pub fn selected_item(&self) -> (r: Option<usize>)
        ensures
            r == Some(self.selection()),
    {
        Some(self.current_index)
    }

    /// Selects row `i`.
    pub fn set_selected_item(&mut self, i: usize)
        ensures
            final(self).selection() == i,
            final(self).rows() == old(self).rows(),
            final(self).shown_columns() == old(self).shown_columns(),
    {
        self.current_index = i;
    }

    /// The selected item, if the selection is a row of the table.
    pub fn item(&self) -> (r: Option<&T>)
        ensures
            self.selection() < self.rows().len() ==> r == Some(&self.rows()[self.selection() as int]),
            self.selection() >= self.rows().len() ==> r is None,
    {
        if self.current_index < self.instances.len() {
            Some(&self.instances[self.current_index])
        } else {
            None
        }
    }

    /// Selects the first row equal to `item`, or the first row when none is.
    pub fn set_item(&mut self, item: &T)
        ensures
            final(self).rows() == old(self).rows(),
            final(self).shown_columns() == old(self).shown_columns(),
            T::obeys_eq_spec() ==> {
                ||| {
                    &&& final(self).selection() < old(self).rows().len()
                    &&& old(self).rows()[final(self).selection() as int].eq_spec(item)
                    &&& forall|j: int|
                        0 <= j < final(self).selection() ==> !(#[trigger] old(self).rows()[j]).eq_spec(item)
                }
                ||| {
                    &&& final(self).selection() == 0
                    &&& forall|j: int|
                        0 <= j < old(self).rows().len() ==> !(#[trigger] old(self).rows()[j]).eq_spec(item)
                }
            },
    {
        let mut i: usize = 0;
        while i < self.instances.len()
            invariant
                i <= self.instances@.len(),
                self.instances@ == old(self).instances@,
                self.columns@ == old(self).columns@,
                T::obeys_eq_spec() ==> forall|j: int| 0 <= j < i ==> !(#[trigger] self.instances@[j]).eq_spec(item),
            decreases self.instances@.len() - i,
        {
            if self.instances[i].eq(item) {
                self.set_selected_item(i);
                return;
            }
            i = i + 1;
        }
        self.set_selected_item(0);
    }

    /// The rows of the table.
    pub fn items(&self) -> (r: &Vec<T>)
        ensures
            r@ == self.rows(),
    {
        &self.instances
    }

    /// Replaces the rows and selects the first one.
    pub fn set_instances(&mut self, instances: Vec<T>)
        ensures
            final(self).rows() == instances@,
            final(self).selection() == 0,
            final(self).shown_columns() == old(self).shown_columns(),
    {
        self.instances = instances;
        self.set_selected_item(0);
    }

    /// The texts of the header row, left to right, in a table `width` characters wide.
    pub fn header_texts(&self, width: usize) -> (r: Vec<String>)
        ensures
            r@.map_values(|t: String| t@) == header_cells(self.shown_columns(), width),
    {
        let mut r: Vec<String> = Vec::new();
        let mut i: usize = 0;
        while i < self.columns.len()
            invariant
                i <= self.columns@.len(),
                r@.map_values(|t: String| t@) == header_cells(self.columns@.subrange(0, i as int), width),
            decreases self.columns@.len() - i,
        {
            let c = self.columns[i];
            let title = c.to_header();
            let w = c.to_header_size(width);
            let t = cell_text(title.as_str(), w);
            r.push(t);
            assert(header_cells(self.columns@.subrange(0, i + 1), width) =~= header_cells(
                self.columns@.subrange(0, i as int),
                width,
            ).push(t@));
            assert(r@.map_values(|t: String| t@) =~= header_cells(self.columns@.subrange(0, i as int), width).push(t@));
            i = i + 1;
        }
        assert(self.columns@.subrange(0, self.columns@.len() as int) =~= self.columns@);
        r
    }

    /// The columns shown, left to right.
    pub fn columns(&self) -> (r: &Vec<H>)
        ensures
            r@ == self.shown_columns(),
    {
        &self.columns
    }

    /// The texts of the cells of row `row`, left to right, in a table `width`
    /// characters wide.
    pub fn row_texts(&self, row: usize, width: usize) -> (r: Vec<String>)
        requires
            row < self.rows().len(),
            forall|k: int|
                0 <= k < self.shown_columns().len() ==> self.rows()[row as int].column_ok(
                    #[trigger] self.shown_columns()[k],
                ),
        ensures
            r@.map_values(|t: String| t@) == row_cells(self.rows()[row as int], self.shown_columns(), width),
    {
        let item = &self.instances[row];
        assert forall|k: int| 0 <= k < self.columns@.len() implies item.column_ok(#[trigger] self.columns@[k]) by {
            assert(self.shown_columns()[k] == self.columns@[k]);
        }
        let mut r: Vec<String> = Vec::new();
        let mut i: usize = 0;
        while i < self.columns.len()
            invariant
                i <= self.columns@.len(),
                row < self.instances@.len(),
                *item == self.instances@[row as int],
                forall|k: int| 0 <= k < self.columns@.len() ==> item.column_ok(#[trigger] self.columns@[k]),
                r@.map_values(|t: String| t@) == row_cells(*item, self.columns@.subrange(0, i as int), width),
            decreases self.columns@.len() - i,
        {
            let c = self.columns[i];
            let text = item.to_column(c);
            let w = c.to_header_size(width);
            let t = cell_text(text.as_str(), w);
            r.push(t);
            assert(row_cells(*item, self.columns@.subrange(0, i + 1), width) =~= row_cells(
                *item,
                self.columns@.subrange(0, i as int),
                width,
            ).push(t@));
            assert(r@.map_values(|t: String| t@) =~= row_cells(*item, self.columns@.subrange(0, i as int), width).push(t@));
            i = i + 1;
        }
        assert(self.columns@.subrange(0, self.columns@.len() as int) =~= self.columns@);
        r
    }

    /// The style that the background of row `row` is filled with.
    pub fn row_style(&self, row: usize, focused: bool) -> (r: CellStyle)
        ensures
            r == selected_style(row == self.selection(), focused, CellStyle::Primary),
    {
        if row == self.current_index {
            if focused { CellStyle::Highlight } else { CellStyle::HighlightInactive }
        } else {
            CellStyle::Primary
        }
    }

    /// The style of the cell of row `row` in the `col`-th column.
    pub fn cell_style(&self, row: usize, col: usize, focused: bool) -> (r: CellStyle)
        requires
            row < self.rows().len(),
            col < self.shown_columns().len(),
            self.rows()[row as int].color_ok(self.shown_columns()[col as int]),
        ensures
            r == selected_style(
                row == self.selection(),
                focused,
                self.rows()[row as int].column_color(self.shown_columns()[col as int]),
            ),
    {
        if row == self.current_index {
            if focused { CellStyle::Highlight } else { CellStyle::HighlightInactive }
        } else {
            self.instances[row].to_column_color(self.columns[col])
        }
    }

    /// Moves the selection as key `event` asks, and says what else is to be done.
    pub fn on_event(&mut self, event: Event) -> (r: TableEventResult)
        requires
            table_event_ok(old(self).rows().len(), event),
        ensures
            r == table_event_result(event),
            final(self).selection() == next_selection(old(self).selection(), old(self).rows().len(), event),
            final(self).rows() == old(self).rows(),
            final(self).shown_columns() == old(self).shown_columns(),
    {
        let len = self.instances.len();
        match event {
            Event::Key(Key::Up) => {
                if self.current_index > 0 {
                    self.current_index = self.current_index - 1;
                }
                TableEventResult::Consumed
            },
            Event::Key(Key::Down) => {
                if self.current_index < len && len - self.current_index > 1 {
                    self.current_index = self.current_index + 1;
                }
                TableEventResult::Consumed
            },
            Event::Key(Key::PageUp) => {
                if self.current_index < 10 {
                    self.current_index = 0;
                } else {
                    self.current_index = self.current_index - 10;
                }
                TableEventResult::Consumed
            },
            Event::Key(Key::PageDown) => {
                let last = len - 1;
                if self.current_index >= last || last - self.current_index <= 10 {
                    self.current_index = last;
                } else {
                    self.current_index = self.current_index + 10;
                }
                TableEventResult::Consumed
            },
            Event::Key(Key::Home) | Event::Shift(Key::Home) => {
                self.current_index = 0;
                TableEventResult::Consumed
            },
            Event::Key(Key::End) | Event::Shift(Key::End) => {
                self.current_index = len - 1;
                TableEventResult::Consumed
            },
            Event::Key(Key::Enter) => TableEventResult::Submit,
            Event::Char(c) => {
                if c == 'H' {
                    self.current_index = len - 1;
                    TableEventResult::Consumed
                } else if c == 'g' {
                    TableEventResult::ScrollTop
                } else {
                    TableEventResult::Ignored
                }
            },
            _ => TableEventResult::Ignored,
        }
    }
}

} // verus!
