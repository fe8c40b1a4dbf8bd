//! The bottom bar: the function keys with what they do, the text being
//! searched for or filtered by, and the regions and profiles in use.
use vstd::prelude::*;
use crate::text::{pad_right, pad_right_spec, push_all_str};

verus! {

/// A function key and what it does.
pub struct Column {
    pub key: String,
    pub name: String,
}

/// What the bottom bar shows.
#[derive(PartialEq, Eq, Structural, Clone, Copy, Debug)]
pub enum BottomBarType {
    /// The function keys.
    Standard,
    /// The keys of a search and the text searched for.
    Search,
    /// The keys of a filter and the filter text.
    Filter,
}

/// The colours of a piece of the bottom bar.
#[derive(PartialEq, Eq, Structural, Clone, Copy, Debug)]
pub enum BarStyle {
    /// The terminal's default colours (the keys).
    Key,
    /// Black on the bar's colour (the labels and texts).
    Label,
    /// Red on the bar's colour (a search text that matched nothing).
    Invalid,
}

/// A piece of text drawn on the bar at column `x`.
pub struct BarSegment {
    pub x: usize,
    pub text: String,
    pub style: BarStyle,
}

pub struct BarSegmentV {
    pub x: int,
    pub text: Seq<char>,
    pub style: BarStyle,
}

impl View for BarSegment {
    type V = BarSegmentV;

    open spec fn view(&self) -> BarSegmentV {
        BarSegmentV { x: self.x as int, text: self.text@, style: self.style }
    }
}

/// The keys and labels shown for a bar of type `t`, left to right.
pub open spec fn bar_columns(t: BottomBarType) -> Seq<(Seq<char>, Seq<char>)> {
    match t {
        BottomBarType::Search => seq![("F3"@, "Next  "@), ("Esc"@, "Cancel "@), ("  "@, "Search: "@)],
        BottomBarType::Filter => seq![("Enter"@, "Done  "@), ("Esc"@, "Clear "@), ("  "@, "Filter: "@)],
        BottomBarType::Standard => seq![
            ("F1"@, pad_right_spec("Help  "@, 6)),
            ("F2"@, pad_right_spec("Connect"@, 6)),
            ("F3"@, pad_right_spec("Search"@, 6)),
            ("F4"@, pad_right_spec("Filter"@, 6)),
            ("F5"@, pad_right_spec("Refresh"@, 6)),
            ("F6"@, pad_right_spec("Actions"@, 6)),
            ("F7"@, pad_right_spec("Region"@, 6)),
            ("F10"@, pad_right_spec("Quit"@, 6)),
            ("L"@, pad_right_spec("Log"@, 6)),
        ],
    }
}

/// Where column `k` starts: the widths of the keys and labels before it.
pub open spec fn column_offset(cols: Seq<(Seq<char>, Seq<char>)>, k: int) -> int
    decreases k,
{
    if k <= 0 {
        0
    } else {
        column_offset(cols, k - 1) + cols[k - 1].0.len() + cols[k - 1].1.len()
    }
}

/// The keys, each at the start of its column.
pub open spec fn key_segments(cols: Seq<(Seq<char>, Seq<char>)>) -> Seq<BarSegmentV> {
    Seq::new(cols.len(), |k: int| BarSegmentV { x: column_offset(cols, k), text: cols[k].0, style: BarStyle::Key })
}

/// The labels, each after its key.
pub open spec fn label_segments(cols: Seq<(Seq<char>, Seq<char>)>) -> Seq<BarSegmentV> {
    Seq::new(
        cols.len(),
        |k: int| BarSegmentV { x: column_offset(cols, k) + cols[k].0.len(), text: cols[k].1, style: BarStyle::Label },
    )
}

/// `parts` joined with `sep` between them.
pub open spec fn join(parts: Seq<Seq<char>>, sep: Seq<char>) -> Seq<char>
    decreases parts.len(),
{
    if parts.len() == 0 {
        Seq::<char>::empty()
    } else if parts.len() == 1 {
        parts[0]
    } else {
        join(parts.drop_last(), sep) + sep + parts.last()
    }
}

proof fn lemma_column_offset_bound(cols: Seq<(Seq<char>, Seq<char>)>, k: int, b: int)
    requires
        0 <= k <= cols.len(),
        b >= 0,
        forall|j: int| 0 <= j < cols.len() ==> (#[trigger] cols[j]).0.len() + cols[j].1.len() <= b,
    ensures
        0 <= column_offset(cols, k) <= k * b,
    decreases k,
{
    if k > 0 {
        lemma_column_offset_bound(cols, k - 1, b);
        assert((k - 1) * b + b == k * b) by (nonlinear_arith);
    }
}

/// The bottom bar's state.
pub struct BottomBarView {
    s: String,
    valid: bool,
    profiles: Vec<String>,
    r: Vec<String>,
    type_: BottomBarType,
}

pub struct BottomBarV {
    pub content: Seq<char>,
    pub valid: bool,
    pub profiles: Seq<Seq<char>>,
    pub regions: Seq<Seq<char>>,
    pub kind: BottomBarType,
}

impl View for BottomBarView {
    type V = BottomBarV;

    closed spec fn view(&self) -> BottomBarV {
        BottomBarV {
            content: self.s@,
            valid: self.valid,
            profiles: self.profiles@.map_values(|p: String| p@),
            regions: self.r@.map_values(|p: String| p@),
            kind: self.type_,
        }
    }
}

/// The pieces of the bar, left to right: the keys, then the labels, then the
/// search or filter text after the last label.
pub open spec fn bar_layout(b: BottomBarV) -> Seq<BarSegmentV> {
    let cols = bar_columns(b.kind);
    let end = column_offset(cols, cols.len() as int);
    let fixed = key_segments(cols) + label_segments(cols);
    match b.kind {
        BottomBarType::Standard => fixed,
        BottomBarType::Search => fixed.push(
            BarSegmentV {
                x: end,
                text: b.content,
                style: if b.valid { BarStyle::Label } else { BarStyle::Invalid },
            },
        ),
        BottomBarType::Filter => fixed.push(BarSegmentV { x: end, text: b.content, style: BarStyle::Label }),
    }
}

/// The status at the right of the bar: the regions and, in brackets, the
/// profiles, each list joined with commas.
pub open spec fn bar_status(b: BottomBarV) -> Seq<char> {
    join(b.regions, ","@) + " ("@ + join(b.profiles, ","@) + ")"@
}

/// `parts` joined with `sep` between them.
pub fn join_strings(parts: &Vec<String>, sep: &str) -> (r: String)
    ensures
        r@ == join(parts@.map_values(|p: String| p@), sep@),
{
    let ghost pv = parts@.map_values(|p: String| p@);
    let mut r = String::new();
    let mut i: usize = 0;
    while i < parts.len()
        invariant
            pv == parts@.map_values(|p: String| p@),
            i <= parts@.len(),
            r@ == join(pv.take(i as int), sep@),
        decreases parts@.len() - i,
    {
        assert(pv.take(i + 1).drop_last() =~= pv.take(i as int));
        assert(pv.take(i + 1).last() == parts@[i as int]@);
        if i != 0 {
            push_all_str(&mut r, sep);
        } else {
            assert(pv.take(i as int).len() == 0);
        }
        push_all_str(&mut r, parts[i].as_str());
        i = i + 1;
    }
    assert(pv.take(parts@.len() as int) =~= pv);
    r
}

/// Where text of `n` bytes (its length as `str::len` gives it) ends one column before the right edge of a bar
/// `width` columns wide; `None` where it does not fit, and so is not drawn.
pub open spec fn right_aligned_at(width: usize, n: nat) -> Option<int> {
    if n + 1 <= width { Some(width - n - 1) } else { None }
}

fn lit(s: &str) -> (r: String)
    ensures
        r@ == s@,
{
    s.to_owned()
}

fn col(key: &str, name: &str) -> (c: Column)
    ensures
        c.key@ == key@,
        c.name@ == name@,
{
    Column { key: lit(key), name: lit(name) }
}

fn padded_col(key: &str, name: &str) -> (c: Column)
    ensures
        c.key@ == key@,
        c.name@ == pad_right_spec(name@, 6),
{
    Column { key: lit(key), name: pad_right(name, 6) }
}

fn columns_of(t: BottomBarType) -> (v: Vec<Column>)
    ensures
        v@.len() == bar_columns(t).len(),
        forall|k: int|
            0 <= k < v@.len() ==> (#[trigger] v@[k]).key@ == bar_columns(t)[k].0 && v@[k].name@ == bar_columns(t)[k].1,
{
    let mut v: Vec<Column> = Vec::new();
    match t {
        BottomBarType::Search => {
            v.push(col("F3", "Next  "));
            v.push(col("Esc", "Cancel "));
            v.push(col("  ", "Search: "));
        },
        BottomBarType::Filter => {
            v.push(col("Enter", "Done  "));
            v.push(col("Esc", "Clear "));
            v.push(col("  ", "Filter: "));
        },
        BottomBarType::Standard => {
            v.push(padded_col("F1", "Help  "));
            v.push(padded_col("F2", "Connect"));
            v.push(padded_col("F3", "Search"));
            v.push(padded_col("F4", "Filter"));
            v.push(padded_col("F5", "Refresh"));
            v.push(padded_col("F6", "Actions"));
            v.push(padded_col("F7", "Region"));
            v.push(padded_col("F10", "Quit"));
            v.push(padded_col("L", "Log"));
        },
    }
    v
}

proof fn lemma_bar_columns_short(t: BottomBarType)
    ensures
        bar_columns(t).len() <= 9,
        forall|j: int|
            0 <= j < bar_columns(t).len() ==> (#[trigger] bar_columns(t)[j]).0.len() + bar_columns(t)[j].1.len() <= 16,
{
    reveal_strlit("F1");
    reveal_strlit("F2");
    reveal_strlit("F3");
    reveal_strlit("F4");
    reveal_strlit("F5");
    reveal_strlit("F6");
    reveal_strlit("F7");
    reveal_strlit("F10");
    reveal_strlit("L");
    reveal_strlit("Esc");
    reveal_strlit("Enter");
    reveal_strlit("  ");
    reveal_strlit("Next  ");
    reveal_strlit("Cancel ");
    reveal_strlit("Search: ");
    reveal_strlit("Done  ");
    reveal_strlit("Clear ");
    reveal_strlit("Filter: ");
    reveal_strlit("Help  ");
    reveal_strlit("Connect");
    reveal_strlit("Search");
    reveal_strlit("Filter");
    reveal_strlit("Refresh");
    reveal_strlit("Actions");
    reveal_strlit("Region");
    reveal_strlit("Quit");
    reveal_strlit("Log");
}

impl BottomBarView {
    /// A standard bar with text `s`, regions `r` and one empty profile.
    pub fn new(s: &str, r: Vec<String>) -> (b: Self)
        ensures
            b@.content == s@,
            b@.valid,
            b@.profiles == seq![Seq::<char>::empty()],
            b@.regions == r@.map_values(|p: String| p@),
            b@.kind == BottomBarType::Standard,
    {
        let mut profiles: Vec<String> = Vec::new();
        profiles.push(String::new());
        let b = BottomBarView { s: lit(s), valid: true, profiles, r, type_: BottomBarType::Standard };
        assert(b@.profiles =~= seq![Seq::<char>::empty()]);
        b
    }

    /// Shows the bar of type `t`.
    pub fn set_type(&mut self, t: BottomBarType)
        ensures
            final(self)@ == (BottomBarV { kind: t, ..old(self)@ }),
    {
        self.type_ = t;
    }

    /// Sets the profiles shown.
    pub fn set_profile(&mut self, p: Vec<String>)
        ensures
            final(self)@ == (BottomBarV { profiles: p@.map_values(|q: String| q@), ..old(self)@ }),
    {
        self.profiles = p;
    }

    /// Sets the regions shown.
    pub fn set_region(&mut self, r: Vec<String>)
        ensures
            final(self)@ == (BottomBarV { regions: r@.map_values(|q: String| q@), ..old(self)@ }),
    {
        self.r = r;
    }

    /// Says whether the search text matched.
    pub fn set_valid(&mut self, s: bool)
        ensures
            final(self)@ == (BottomBarV { valid: s, ..old(self)@ }),
    {
        self.valid = s;
    }

    /// Sets the search or filter text.
    pub fn set_content(&mut self, s: &str)
        ensures
            final(self)@ == (BottomBarV { content: s@, ..old(self)@ }),
    {
        self.s = lit(s);
    }

    /// The status at the right of the bar.
    pub fn status(&self) -> (r: String)
        ensures
            r@ == bar_status(self@),
    {
        let mut r = join_strings(&self.r, ",");
        push_all_str(&mut r, " (");
        let p = join_strings(&self.profiles, ",");
        push_all_str(&mut r, p.as_str());
        push_all_str(&mut r, ")");
        r
    }

    /// The column where the status starts in a bar `width` columns wide.
    pub fn status_position(status: &str, width: usize) -> (r: Option<usize>)
        ensures
            match right_aligned_at(width, status.len() as nat) {
                Some(x) => r == Some(x as usize),
                None => r is None,
            },
    {
        let n = status.len();
        if n < width {
            Some(width - n - 1)
        } else {
            None
        }
    }

    /// The pieces of the bar, left to right, with their columns and colours.
    pub fn layout(&self) -> (segs: Vec<BarSegment>)
        ensures
            segs@.map_values(|g: BarSegment| g@) == bar_layout(self@),
    {
        let cols = columns_of(self.type_);
        let ghost sc = bar_columns(self.type_);
        proof {
            lemma_bar_columns_short(self.type_);
        }
        let mut segs: Vec<BarSegment> = Vec::new();
        let mut x: usize = 0;
        let mut k: usize = 0;
        while k < cols.len()
            invariant
                sc == bar_columns(self.type_),
                cols@.len() == sc.len(),
                sc.len() <= 9,
                forall|j: int| 0 <= j < sc.len() ==> (#[trigger] sc[j]).0.len() + sc[j].1.len() <= 16,
                forall|j: int| 0 <= j < cols@.len() ==> (#[trigger] cols@[j]).key@ == sc[j].0 && cols@[j].name@ == sc[j].1,
                k <= cols@.len(),
                x == column_offset(sc, k as int),
                segs@.map_values(|g: BarSegment| g@) == key_segments(sc).take(k as int),
            decreases cols@.len() - k,
        {
            proof {
                lemma_column_offset_bound(sc, k as int, 16);
            }
            let c = &cols[k];
            let kl = c.key.as_str().unicode_len();
            let nl = c.name.as_str().unicode_len();
            let seg = BarSegment { x, text: c.key.clone(), style: BarStyle::Key };
            assert(seg@ == key_segments(sc)[k as int]);
            let ghost before = segs@;
            segs.push(seg);
            assert(segs@ == before.push(seg));
            assert(segs@.map_values(|g: BarSegment| g@) =~= before.map_values(|g: BarSegment| g@).push(seg@));
            assert(key_segments(sc).take(k + 1) =~= key_segments(sc).take(k as int).push(key_segments(sc)[k as int]));
            x = x + kl + nl;
            k = k + 1;
        }
        assert(key_segments(sc).take(cols@.len() as int) =~= key_segments(sc));
        let mut x: usize = 0;
        let mut k: usize = 0;
        while k < cols.len()
            invariant
                sc == bar_columns(self.type_),
                cols@.len() == sc.len(),
                sc.len() <= 9,
                forall|j: int| 0 <= j < sc.len() ==> (#[trigger] sc[j]).0.len() + sc[j].1.len() <= 16,
                forall|j: int| 0 <= j < cols@.len() ==> (#[trigger] cols@[j]).key@ == sc[j].0 && cols@[j].name@ == sc[j].1,
                k <= cols@.len(),
                x == column_offset(sc, k as int),
                segs@.map_values(|g: BarSegment| g@) == key_segments(sc) + label_segments(sc).take(k as int),
            decreases cols@.len() - k,
        {
            proof {
                lemma_column_offset_bound(sc, k as int, 16);
            }
            let c = &cols[k];
            let kl = c.key.as_str().unicode_len();
            let nl = c.name.as_str().unicode_len();
            let seg = BarSegment { x: x + kl, text: c.name.clone(), style: BarStyle::Label };
            assert(seg@ == label_segments(sc)[k as int]);
            let ghost before = segs@;
            segs.push(seg);
            assert(segs@ == before.push(seg));
            assert(segs@.map_values(|g: BarSegment| g@) =~= before.map_values(|g: BarSegment| g@).push(seg@));
            assert(label_segments(sc).take(k + 1) =~= label_segments(sc).take(k as int).push(label_segments(sc)[k as int]));
            assert(key_segments(sc) + label_segments(sc).take(k + 1) =~= (key_segments(sc) + label_segments(sc).take(k as int)).push(label_segments(sc)[k as int]));
            x = x + kl + nl;
            k = k + 1;
        }
        assert(label_segments(sc).take(cols@.len() as int) =~= label_segments(sc));
        match self.type_ {
            BottomBarType::Standard => {},
            BottomBarType::Search => {
                let style = if self.valid { BarStyle::Label } else { BarStyle::Invalid };
                segs.push(BarSegment { x, text: self.s.clone(), style });
            },
            BottomBarType::Filter => {
                segs.push(BarSegment { x, text: self.s.clone(), style: BarStyle::Label });
            },
        }
        assert(segs@.map_values(|g: BarSegment| g@) =~= bar_layout(self@));
        segs
    }
}

} // verus!
