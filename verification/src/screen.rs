//! The screen as data: what the three regions of the screen show for a
//! selection state. Drawing it on a terminal is left to the caller.

use crate::record::{record_views, NodeRecord, RecordView};
use crate::selection::{indices, lemma_matching_indices, App, AppView};
use crate::text::{decimal, pad_right, padded, push_decimal};
use vstd::prelude::*;

verus! {

/// The width of the name column, in characters.
pub const NAME_WIDTH: usize = 55;

/// The width of the address column, in characters.
pub const IP_WIDTH: usize = 20;

/// The height of the header region, in rows.
pub const HEADER_HEIGHT: u16 = 3;

/// The least height of the list region, in rows.
pub const LIST_MIN_HEIGHT: u16 = 3;

/// The height of the footer region, in rows.
pub const FOOTER_HEIGHT: u16 = 3;

/// The margin around the three regions, in cells.
pub const MARGIN: u16 = 1;

/// The title line of the header.
pub const TITLE: &'static str = "Tailscale SSH - Select a Node";

/// The notice shown in place of the rows when the filter lets nothing
/// through.
pub const NO_MATCHES: &'static str = "No nodes match your filter";

/// The legend of the key bindings in the footer.
pub const LEGEND: &'static str =
    "Enter: Connect  Esc: Clear filter  \u{2191}/\u{2193}: Navigate  Ctrl+C: Exit";

/// One row of the list: the name and the address, each filled up with
/// spaces to the width of its column, the status, and whether the status
/// is shown as reachable.
#[derive(Debug, PartialEq, Eq)]
pub struct Row {
    pub name: String,
    pub ip: String,
    pub status: String,
    pub active: bool,
}

/// What the list region shows.
#[derive(Debug, PartialEq, Eq)]
pub enum ListArea {
    /// The rows from top to bottom, and the index of the highlighted one.
    Rows { rows: Vec<Row>, highlighted: usize },
    /// The notice that the filter lets nothing through.
    NoMatches,
    /// Nothing: there are no records and no filter text.
    Empty,
}

/// The contents of the screen.
#[derive(Debug, PartialEq, Eq)]
pub struct Screen {
    /// The title line of the header.
    pub title: String,
    /// The count line of the header.
    pub count: String,
    /// The list region.
    pub list: ListArea,
    /// The line of the footer that shows the filter text.
    pub search: String,
    /// The legend of the key bindings.
    pub legend: String,
}

/// A row as character sequences.
pub struct RowView {
    pub name: Seq<char>,
    pub ip: Seq<char>,
    pub status: Seq<char>,
    pub active: bool,
}

/// The list region as mathematics.
pub enum ListView {
    Rows { rows: Seq<RowView>, highlighted: int },
    NoMatches,
    Empty,
}

/// The screen as mathematics.
pub struct ScreenView {
    pub title: Seq<char>,
    pub count: Seq<char>,
    pub list: ListView,
    pub search: Seq<char>,
    pub legend: Seq<char>,
}

impl View for Row {
    type V = RowView;

    open spec fn view(&self) -> RowView {
        RowView { name: self.name@, ip: self.ip@, status: self.status@, active: self.active }
    }
}

/// The views of a sequence of rows.
pub open spec fn row_views(rows: Seq<Row>) -> Seq<RowView> {
    rows.map_values(|r: Row| r@)
}

impl View for ListArea {
    type V = ListView;

    open spec fn view(&self) -> ListView {
        match self {
            ListArea::Rows { rows, highlighted } => ListView::Rows {
                rows: row_views(rows@),
                highlighted: *highlighted as int,
            },
            ListArea::NoMatches => ListView::NoMatches,
            ListArea::Empty => ListView::Empty,
        }
    }
}

impl View for Screen {
    type V = ScreenView;

    open spec fn view(&self) -> ScreenView {
        ScreenView {
            title: self.title@,
            count: self.count@,
            list: self.list@,
            search: self.search@,
            legend: self.legend@,
        }
    }
}

/// The row of a record.
pub open spec fn row_of(node: RecordView) -> RowView {
    RowView {
        name: padded(node.name, NAME_WIDTH as nat),
        ip: padded(node.ip, IP_WIDTH as nat),
        status: node.status,
        active: node.active(),
    }
}

/// The rows of the list from top to bottom: one for each record that the
/// filter lets through, in the reverse of their order, so that the first
/// record stands at the bottom.
pub open spec fn rows_of(s: AppView) -> Seq<RowView> {
    Seq::new(
        s.filtered().len(),
        |k: int| row_of(s.nodes[s.filtered()[s.filtered().len() - 1 - k]]),
    )
}

/// The count line: the number of all records, whatever the filter holds.
pub open spec fn count_line(total: nat) -> Seq<char> {
    "Found "@ + decimal(total) + " nodes"@
}

/// The screen of a selection state. The highlighted row is counted from the
/// top, the selection from the bottom.
pub open spec fn screen_of(s: AppView) -> ScreenView {
    ScreenView {
        title: TITLE@,
        count: count_line(s.nodes.len()),
        list: if s.filtered().len() > 0 {
            ListView::Rows {
                rows: rows_of(s),
                highlighted: s.filtered().len() - 1 - s.selection,
            }
        } else if s.filter.len() > 0 {
            ListView::NoMatches
        } else {
            ListView::Empty
        },
        search: "Search: "@ + s.filter,
        legend: LEGEND@,
    }
}

/// The row of a record.
pub fn row_for(node: &NodeRecord) -> (row: Row)
    ensures
        row@ == row_of(node@),
{
    Row {
        name: pad_right(node.name(), NAME_WIDTH),
        ip: pad_right(node.ip(), IP_WIDTH),
        status: node.status().to_owned(),
        active: node.is_active(),
    }
}

/// The count line for `total` records.
pub fn count_text(total: usize) -> (line: String)
    ensures
        line@ == count_line(total as nat),
{
    let mut line = "Found ".to_owned();
    push_decimal(&mut line, total);
    line.append(" nodes");
    line
}

/// The contents of the screen for a selection state.
pub fn render(app: &App) -> (screen: Screen)
    ensures
        screen@ == screen_of(app@),
{
    let nodes = app.nodes();
    let shown = app.filtered_nodes();
    let selection = app.selection();
    let ghost s = app@;
    proof {
        lemma_matching_indices(s.nodes, s.filter);
    }
    let list = if shown.len() > 0 {
        let mut rows: Vec<Row> = Vec::new();
        let mut left: usize = shown.len();
        assert(row_views(rows@) =~= rows_of(s).take(0));
        while left > 0
            invariant
                left <= shown.len(),
                indices(shown@) == s.filtered(),
                record_views(nodes@) == s.nodes,
                forall|k: int|
                    0 <= k < s.filtered().len() ==> 0 <= #[trigger] s.filtered()[k]
                        < s.nodes.len(),
                row_views(rows@) == rows_of(s).take(shown.len() - left),
            decreases left,
        {
            left -= 1;
            let index = shown[left];
            assert(indices(shown@)[left as int] == index);
            let row = row_for(&nodes[index]);
            proof {
                let done = shown.len() - left - 1;
                assert(row@ == rows_of(s)[done]);
                assert(row_views(rows@.push(row)) =~= row_views(rows@).push(row@));
                assert(rows_of(s).take(done + 1) =~= rows_of(s).take(done).push(rows_of(s)[done]));
            }
            rows.push(row);
        }
        assert(rows_of(s).take(shown.len() as int) =~= rows_of(s));
        ListArea::Rows { rows, highlighted: shown.len() - 1 - selection }
    } else if !app.filter().is_empty() {
        ListArea::NoMatches
    } else {
        ListArea::Empty
    };
    let mut search = "Search: ".to_owned();
    search.append(app.filter());
    Screen {
        title: TITLE.to_owned(),
        count: count_text(nodes.len()),
        list,
        search,
        legend: LEGEND.to_owned(),
    }
}

} // verus!
