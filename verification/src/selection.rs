//! The selection model: the records, the filter text, the records that the
//! filter lets through, and the position of the selection among them.

use crate::record::{record_views, NodeRecord, RecordView};
use crate::text::{chars_of, contains_chars, contains_ignoring_case, lowercase};
use vstd::prelude::*;

verus! {

/// Whether a record of this name passes the filter: every name passes the
/// empty filter, and otherwise the name has to contain the filter text,
/// letter case ignored.
pub open spec fn name_matches(name: Seq<char>, filter: Seq<char>) -> bool {
    filter.len() == 0 || contains_ignoring_case(name, filter)
}

/// The indices below `n` of the records whose name passes the filter, in
/// rising order.
pub open spec fn matching_below(nodes: Seq<RecordView>, filter: Seq<char>, n: int) -> Seq<int>
    decreases n,
{
    if n <= 0 {
        Seq::empty()
    } else if name_matches(nodes[n - 1].name, filter) {
        matching_below(nodes, filter, n - 1).push(n - 1)
    } else {
        matching_below(nodes, filter, n - 1)
    }
}

/// The indices of the records whose name passes the filter, in the order of
/// the records.
pub open spec fn matching_indices(nodes: Seq<RecordView>, filter: Seq<char>) -> Seq<int> {
    matching_below(nodes, filter, nodes.len() as int)
}

/// A position brought into a list of `len` entries: the last entry where the
/// position lies beyond it, and 0 for an empty list. A position is never
/// raised.
pub open spec fn clamped(position: int, len: int) -> int {
    if len <= 0 {
        0
    } else if position >= len {
        len - 1
    } else {
        position
    }
}

/// A position brought into `0..len` from either side.
pub open spec fn saturated(position: int, len: int) -> int {
    if position < 0 {
        0
    } else if position >= len {
        len - 1
    } else {
        position
    }
}

/// The indices held by a vector, as integers.
pub open spec fn indices(v: Seq<usize>) -> Seq<int> {
    v.map_values(|i: usize| i as int)
}

/// A change of the filter text by one key.
#[derive(Clone, Copy, Debug, PartialEq, Eq)]
pub enum FilterEdit {
    /// Append a character.
    Push(char),
    /// Remove the last character, if there is one.
    Backspace,
    /// Remove all characters.
    Clear,
}

impl FilterEdit {
    /// The text that the edit makes of `text`.
    pub open spec fn applied(self, text: Seq<char>) -> Seq<char> {
        match self {
            FilterEdit::Push(c) => text.push(c),
            FilterEdit::Backspace => if text.len() > 0 {
                text.drop_last()
            } else {
                text
            },
            FilterEdit::Clear => Seq::empty(),
        }
    }
}

/// The state of the selection as mathematics: the filtered list is not part
/// of it, because the records and the filter text determine it.
pub struct AppView {
    pub nodes: Seq<RecordView>,
    pub filter: Seq<char>,
    pub selection: int,
}

impl AppView {
    /// The indices of the records that the filter lets through.
    pub open spec fn filtered(self) -> Seq<int> {
        matching_indices(self.nodes, self.filter)
    }

    /// The selection points into the filtered list, or is 0 where that list
    /// is empty.
    pub open spec fn wf(self) -> bool {
        if self.filtered().len() == 0 {
            self.selection == 0
        } else {
            0 <= self.selection < self.filtered().len()
        }
    }

    /// The state with all records shown and the first one selected.
    pub open spec fn initial(nodes: Seq<RecordView>) -> AppView {
        AppView { nodes, filter: Seq::empty(), selection: 0 }
    }

    /// The state after the filter text became `text`: the selection stays
    /// where it is unless it has to come down into the new filtered list.
    pub open spec fn with_filter(self, text: Seq<char>) -> AppView {
        AppView {
            nodes: self.nodes,
            filter: text,
            selection: clamped(self.selection, matching_indices(self.nodes, text).len() as int),
        }
    }

    /// The state after the selection moved by `delta` positions, stopping at
    /// either end of the filtered list. Nothing moves in an empty list.
    pub open spec fn shifted(self, delta: int) -> AppView {
        if self.filtered().len() == 0 {
            self
        } else {
            AppView {
                selection: saturated(self.selection + delta, self.filtered().len() as int),
                ..self
            }
        }
    }

    /// The state after `n` moves by `delta` positions each.
    pub open spec fn shifted_repeatedly(self, delta: int, n: nat) -> AppView
        decreases n,
    {
        if n == 0 {
            self
        } else {
            self.shifted(delta).shifted_repeatedly(delta, (n - 1) as nat)
        }
    }

    /// The state with the selection on the first entry of the filtered list.
    pub open spec fn at_start(self) -> AppView {
        AppView { selection: 0, ..self }
    }

    /// The state with the selection on the last entry of the filtered list.
    pub open spec fn at_end(self) -> AppView {
        if self.filtered().len() == 0 {
            self
        } else {
            AppView { selection: self.filtered().len() - 1, ..self }
        }
    }

    /// The selected record, if the filtered list has any.
    pub open spec fn selected(self) -> Option<RecordView> {
        if self.filtered().len() == 0 {
            None
        } else {
            Some(self.nodes[self.filtered()[self.selection]])
        }
    }
}

/// The position that a session starts on: that of the first record of the
/// remembered name, or 0 where no name is remembered or no record has it.
pub open spec fn remembered_position(nodes: Seq<RecordView>, name: Seq<char>) -> int {
    if name.len() > 0 && exists|i: int| 0 <= i < nodes.len() && nodes[i].name == name {
        choose|i: int|
            0 <= i < nodes.len() && nodes[i].name == name && forall|j: int|
                0 <= j < i ==> nodes[j].name != name
    } else {
        0
    }
}

/// The selection state of one interactive session.
pub struct App {
    nodes: Vec<NodeRecord>,
    filtered_nodes: Vec<usize>,
    filter: String,
    selection: usize,
}

impl View for App {
    type V = AppView;

    closed spec fn view(&self) -> AppView {
        AppView {
            nodes: record_views(self.nodes@),
            filter: self.filter@,
            selection: self.selection as int,
        }
    }
}

/// The indices of the records whose name passes the filter.
fn matching(nodes: &Vec<NodeRecord>, filter: &str) -> (found: Vec<usize>)
    ensures
        indices(found@) == matching_indices(record_views(nodes@), filter@),
{
    let ghost views = record_views(nodes@);
    let show_all = filter.is_empty();
    let wanted = chars_of(filter.to_lowercase().as_str());
    let mut found: Vec<usize> = Vec::new();
    let mut i: usize = 0;
    assert(indices(found@) =~= matching_below(views, filter@, 0));
    while i < nodes.len()
        invariant
            i <= nodes.len(),
            views == record_views(nodes@),
            show_all == (filter@.len() == 0),
            wanted@ == lowercase(filter@),
            indices(found@) == matching_below(views, filter@, i as int),
        decreases nodes.len() - i,
    {
        let passes = if show_all {
            true
        } else {
            let name = chars_of(nodes[i].name().to_lowercase().as_str());
            contains_chars(&name, &wanted)
        };
        assert(passes == name_matches(views[i as int].name, filter@));
        if passes {
            assert(indices(found@.push(i)) =~= indices(found@).push(i as int));
            found.push(i);
        }
        i += 1;
    }
    found
}

impl App {
    /// What holds of every state: the list of filtered indices that it
    /// keeps is the one that its records and its filter text determine, and
    /// the selection points into it.
    #[verifier::type_invariant]
    pub closed spec fn consistent(&self) -> bool {
        &&& indices(self.filtered_nodes@) == self@.filtered()
        &&& self@.wf()
    }

    /// A consistent state is well-formed.
    pub proof fn lemma_consistent(&self)
        requires
            self.consistent(),
        ensures
            self@.wf(),
    {
    }

    /// A state without records.
    fn empty() -> (app: App)
        ensures
            app@ == AppView::initial(Seq::empty()),
            app@.filtered() == Seq::<int>::empty(),
            app@.wf(),
    {
        let nodes: Vec<NodeRecord> = Vec::new();
        let filtered_nodes: Vec<usize> = Vec::new();
        let filter = String::new();
        proof {
            assert(record_views(nodes@) =~= Seq::<RecordView>::empty());
            assert(indices(filtered_nodes@) =~= Seq::<int>::empty());
            assert(matching_indices(record_views(nodes@), filter@) =~= Seq::<int>::empty());
        }
        App { nodes, filtered_nodes, filter, selection: 0 }
    }

    /// The state at the start of a session: all records shown, in their
    /// order, no filter text, the first record selected.
    pub fn new(nodes: Vec<NodeRecord>) -> (app: App)
        ensures
            app@ == AppView::initial(record_views(nodes@)),
            app@.wf(),
    {
        let filtered_nodes = matching(&nodes, "");
        let filter = String::new();
        proof {
            reveal_strlit("");
            assert(""@ =~= filter@);
        }
        App { nodes, filtered_nodes, filter, selection: 0 }
    }

    /// The state at the start of a session that remembers the name chosen
    /// last time: as `new`, with the selection on the first record of that
    /// name where there is one.
    pub fn with_remembered(nodes: Vec<NodeRecord>, last_selected_node: &str) -> (app: App)
        ensures
            app@ == (AppView {
                selection: remembered_position(record_views(nodes@), last_selected_node@),
                ..AppView::initial(record_views(nodes@))
            }),
            app@.wf(),
    {
        let ghost views = record_views(nodes@);
        let position = match first_named(&nodes, last_selected_node) {
            Some(i) => i,
            None => 0,
        };
        proof {
            lemma_matching_indices(views, Seq::empty());
        }
        let filtered_nodes = matching(&nodes, "");
        let filter = String::new();
        proof {
            reveal_strlit("");
            assert(""@ =~= filter@);
        }
        App { nodes, filtered_nodes, filter, selection: position }
    }

    /// All records, in their order.
    pub fn nodes(&self) -> (nodes: &Vec<NodeRecord>)
        ensures
            record_views(nodes@) == self@.nodes,
    {
        &self.nodes
    }

    /// The indices of the records that the filter lets through, in rising
    /// order.
    pub fn filtered_nodes(&self) -> (found: &Vec<usize>)
        ensures
            indices(found@) == self@.filtered(),
            indices(found@) == matching_indices(self@.nodes, self@.filter),
    {
        proof {
            use_type_invariant(self);
        }
        &self.filtered_nodes
    }

    /// The filter text.
    pub fn filter(&self) -> (text: &str)
        ensures
            text@ == self@.filter,
    {
        self.filter.as_str()
    }

    /// The position of the selection in the filtered list.
    pub fn selection(&self) -> (position: usize)
        ensures
            position == self@.selection,
            self@.wf(),
    {
        proof {
            use_type_invariant(self);
        }
        self.selection
    }

    /// Replaces the filter text, brings the filtered list up to it, and
    /// brings the selection down into the new list where it lies beyond.
    pub fn set_filter(&mut self, text: String)
        ensures
            final(self)@ == old(self)@.with_filter(text@),
            final(self)@.filtered() == matching_indices(old(self)@.nodes, text@),
            final(self)@.wf(),
    {
        proof {
            use_type_invariant(&*self);
        }
        let found = matching(&self.nodes, text.as_str());
        let selection = if found.len() == 0 {
            0
        } else if self.selection >= found.len() {
            found.len() - 1
        } else {
            self.selection
        };
        let mut state = App::empty();
        std::mem::swap(self, &mut state);
        let App { nodes, filtered_nodes: _, filter: _, selection: _ } = state;
        *self = App { nodes, filtered_nodes: found, filter: text, selection };
    }

    /// Changes the filter text by one key, then brings the filtered list and
    /// the selection up to the new text.
    pub fn apply_filter(&mut self, edit: FilterEdit)
        ensures
            final(self)@ == old(self)@.with_filter(edit.applied(old(self)@.filter)),
            final(self)@.filtered() == matching_indices(
                old(self)@.nodes,
                edit.applied(old(self)@.filter),
            ),
            final(self)@.wf(),
    {
        let mut text = self.filter.clone();
        match edit {
            FilterEdit::Push(c) => {
                text.push(c);
            },
            FilterEdit::Backspace => {
                text.pop();
            },
            FilterEdit::Clear => {
                text = String::new();
            },
        }
        self.set_filter(text);
    }

    /// Moves the selection one entry towards the end of the filtered list,
    /// which the screen shows as one row up; it stays on the last entry.
    pub fn move_selection_up(&mut self)
        ensures
            final(self)@ == old(self)@.shifted(1),
            final(self)@.wf(),
    {
        proof {
            use_type_invariant(&*self);
        }
        if self.filtered_nodes.len() > 0 && self.selection + 1 < self.filtered_nodes.len() {
            self.selection += 1;
        }
    }

    /// Moves the selection one entry towards the start of the filtered list,
    /// which the screen shows as one row down; it stays on the first entry.
    pub fn move_selection_down(&mut self)
        ensures
            final(self)@ == old(self)@.shifted(-1),
            final(self)@.wf(),
    {
        proof {
            use_type_invariant(&*self);
        }
        if self.filtered_nodes.len() > 0 && self.selection > 0 {
            self.selection -= 1;
        }
    }

    /// Moves the selection `page_size` entries towards the start of the
    /// filtered list, and no further than its first entry.
    pub fn move_page_up(&mut self, page_size: usize)
        ensures
            final(self)@ == old(self)@.shifted(-(page_size as int)),
            final(self)@.wf(),
    {
        proof {
            use_type_invariant(&*self);
        }
        if self.filtered_nodes.len() == 0 {
            return ;
        }
        if self.selection >= page_size {
            self.selection -= page_size;
        } else {
            self.selection = 0;
        }
    }

    /// Moves the selection `page_size` entries towards the end of the
    /// filtered list, and no further than its last entry.
    pub fn move_page_down(&mut self, page_size: usize)
        ensures
            final(self)@ == old(self)@.shifted(page_size as int),
            final(self)@.wf(),
    {
        proof {
            use_type_invariant(&*self);
        }
        if self.filtered_nodes.len() == 0 {
            return ;
        }
        if page_size < self.filtered_nodes.len() - self.selection {
            self.selection += page_size;
        } else {
            self.selection = self.filtered_nodes.len() - 1;
        }
    }

    /// Puts the selection on the first entry of the filtered list.
    pub fn move_to_start(&mut self)
        ensures
            final(self)@ == old(self)@.at_start(),
            final(self)@.wf(),
    {
        proof {
            use_type_invariant(&*self);
        }
        if self.filtered_nodes.len() > 0 {
            self.selection = 0;
        }
    }

    /// Puts the selection on the last entry of the filtered list.
    pub fn move_to_end(&mut self)
        ensures
            final(self)@ == old(self)@.at_end(),
            final(self)@.wf(),
    {
        proof {
            use_type_invariant(&*self);
        }
        if self.filtered_nodes.len() > 0 {
            self.selection = self.filtered_nodes.len() - 1;
        }
    }

    /// The selected record; there is none exactly when the filtered list is
    /// empty.
    pub fn get_selected_node(&self) -> (node: Option<&NodeRecord>)
        ensures
            node is None <==> self@.filtered().len() == 0,
            match node {
                Some(n) => self@.selected() == Some(n@),
                None => self@.selected() is None,
            },
    {
        proof {
            use_type_invariant(self);
            lemma_matching_indices(self@.nodes, self@.filter);
        }
        if self.filtered_nodes.len() == 0 {
            None
        } else {
            let index = self.filtered_nodes[self.selection];
            assert(indices(self.filtered_nodes@)[self.selection as int] == index);
            Some(&self.nodes[index])
        }
    }
}

/// The position of the first record of a name, where the name is not
/// empty and a record has it.
fn first_named(nodes: &Vec<NodeRecord>, name: &str) -> (found: Option<usize>)
    ensures
        match found {
            Some(i) => i < nodes.len() && i == remembered_position(record_views(nodes@), name@),
            None => remembered_position(record_views(nodes@), name@) == 0,
        },
{
    let ghost views = record_views(nodes@);
    if name.is_empty() {
        return None;
    }
    let wanted = name.to_owned();
    let mut i: usize = 0;
    while i < nodes.len()
        invariant
            i <= nodes.len(),
            views == record_views(nodes@),
            wanted@ == name@,
            name@.len() > 0,
            forall|j: int| 0 <= j < i ==> views[j].name != name@,
        decreases nodes.len() - i,
    {
        if nodes[i].has_name(&wanted) {
            assert(views[i as int].name == name@);
            return Some(i);
        }
        i += 1;
    }
    None
}

/// The list below `n` holds exactly the indices below `n` whose record
/// passes the filter, each once and in rising order.
pub proof fn lemma_matching_below(nodes: Seq<RecordView>, filter: Seq<char>, n: int)
    requires
        0 <= n <= nodes.len(),
    ensures
        matching_below(nodes, filter, n).len() <= n,
        forall|k: int|
            0 <= k < matching_below(nodes, filter, n).len() ==> {
                let i = #[trigger] matching_below(nodes, filter, n)[k];
                0 <= i < n && name_matches(nodes[i].name, filter)
            },
        forall|j: int, k: int|
            0 <= j < k < matching_below(nodes, filter, n).len() ==> matching_below(
                nodes,
                filter,
                n,
            )[j] < matching_below(nodes, filter, n)[k],
        forall|i: int|
            0 <= i < n && name_matches(nodes[i].name, filter) ==> matching_below(
                nodes,
                filter,
                n,
            ).contains(i),
    decreases n,
{
    if n > 0 {
        lemma_matching_below(nodes, filter, n - 1);
        let before = matching_below(nodes, filter, n - 1);
        let now = matching_below(nodes, filter, n);
        assert forall|i: int| 0 <= i < n && name_matches(nodes[i].name, filter) implies now.contains(
            i,
        ) by {
            if i < n - 1 {
                assert(before.contains(i));
                let k = choose|k: int| 0 <= k < before.len() && before[k] == i;
                assert(now[k] == i);
            } else {
                assert(now[now.len() - 1] == i);
            }
        }
    }
}

/// The filtered list is exactly the indices of the records whose lowercase
/// name contains the lowercase filter text, in the order of the records and
/// each once; the empty filter lets every index through.
pub proof fn lemma_matching_indices(nodes: Seq<RecordView>, filter: Seq<char>)
    ensures
        matching_indices(nodes, filter).len() <= nodes.len(),
        forall|k: int|
            0 <= k < matching_indices(nodes, filter).len() ==> {
                let i = #[trigger] matching_indices(nodes, filter)[k];
                0 <= i < nodes.len() && name_matches(nodes[i].name, filter)
            },
        forall|j: int, k: int|
            0 <= j < k < matching_indices(nodes, filter).len() ==> matching_indices(
                nodes,
                filter,
            )[j] < matching_indices(nodes, filter)[k],
        forall|i: int|
            0 <= i < nodes.len() && name_matches(nodes[i].name, filter)
                ==> matching_indices(nodes, filter).contains(i),
        filter.len() == 0 ==> matching_indices(nodes, filter) == Seq::new(
            nodes.len(),
            |i: int| i,
        ),
{
    lemma_matching_below(nodes, filter, nodes.len() as int);
    if filter.len() == 0 {
        lemma_empty_filter_below(nodes, filter, nodes.len() as int);
    }
}

proof fn lemma_empty_filter_below(nodes: Seq<RecordView>, filter: Seq<char>, n: int)
    requires
        filter.len() == 0,
        0 <= n,
    ensures
        matching_below(nodes, filter, n) == Seq::new(n as nat, |i: int| i),
    decreases n,
{
    if n > 0 {
        lemma_empty_filter_below(nodes, filter, n - 1);
    }
    assert(matching_below(nodes, filter, n) =~= Seq::new(n as nat, |i: int| i));
}

/// Setting the same filter text twice in a row gives the filtered list and
/// the selection that setting it once gives.
pub proof fn lemma_filter_idempotent(s: AppView, text: Seq<char>)
    ensures
        s.with_filter(text).with_filter(text) == s.with_filter(text),
        s.with_filter(text).with_filter(text).filtered() == s.with_filter(text).filtered(),
{
}

/// Moves stop at the ends and never wrap: from the last entry any number of
/// moves towards the end changes nothing, and from the first entry any
/// number of moves towards the start changes nothing.
pub proof fn lemma_moves_saturate(s: AppView, n: nat)
    requires
        s.wf(),
    ensures
        s.selection == s.filtered().len() - 1 ==> s.shifted_repeatedly(1, n) == s,
        s.selection == 0 ==> s.shifted_repeatedly(-1, n) == s,
    decreases n,
{
    if n > 0 {
        lemma_moves_saturate(s, (n - 1) as nat);
    }
}

/// A move keeps the selection inside the filtered list, whatever its
/// length, and leaves the records and the filter text alone.
pub proof fn lemma_shift_keeps_wf(s: AppView, delta: int)
    requires
        s.wf(),
    ensures
        s.shifted(delta).wf(),
        s.shifted(delta).nodes == s.nodes,
        s.shifted(delta).filter == s.filter,
        s.at_start().wf(),
        s.at_end().wf(),
{
}

/// A change of the filter only ever lowers the selection: where the new
/// filtered list has `len > 0` entries and the selection lay at `len` or
/// beyond, it becomes `len - 1`; where it lay inside, it stays; where the
/// new list is empty, it becomes 0.
pub proof fn lemma_filter_clamps(s: AppView, text: Seq<char>)
    requires
        s.wf(),
    ensures
        ({
            let len = matching_indices(s.nodes, text).len();
            let after = s.with_filter(text);
            &&& after.wf()
            &&& after.selection <= s.selection
            &&& len > 0 && s.selection >= len ==> after.selection == len - 1
            &&& len > 0 && s.selection < len ==> after.selection == s.selection
            &&& len == 0 ==> after.selection == 0
        }),
{
}

/// After a move to the end of a filtered list that is not empty, the
/// selected record is the one at the last filtered index.
pub proof fn lemma_end_selects_last(s: AppView)
    requires
        s.wf(),
        s.filtered().len() > 0,
    ensures
        s.at_end().selected() == Some(s.nodes[s.filtered().last()]),
        s.at_start().selected() == Some(s.nodes[s.filtered().first()]),
{
}

} // verus!
