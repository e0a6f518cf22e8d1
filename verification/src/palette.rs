//! The command palette: a catalog of actions with labels, the entries that
//! a typed query selects, and a cursor over them.
//!
//! An entry matches a query when the query, in lower case, begins the
//! entry's label in lower case. Matches keep the catalog's order.

use crate::action::Action;
use vstd::prelude::*;
use vstd::string::StrSliceExecFns;

verus! {

/// One line of the catalog: an action and the text that stands for it.
#[derive(Debug, PartialEq, Eq)]
pub struct PaletteEntry {
    pub label: String,
    pub action: Action,
}

/// The lower-case form that the standard library gives a text.
pub uninterp spec fn lowercase(text: Seq<char>) -> Seq<char>;

/// Calls `str::to_lowercase`. Nothing is proved of it: the contract only
/// gives the result its name, as a function of the text.
#[verifier::external_body]
fn to_lowercase(text: &str) -> (lowered: String)
    ensures
        lowered@ == lowercase(text@),
{
    text.to_lowercase()
}

/// Whether `text` begins with `prefix`, character by character.
pub fn starts_with(text: &str, prefix: &str) -> (yes: bool)
    ensures
        yes == prefix@.is_prefix_of(text@),
{
    let n = prefix.unicode_len();
    if n > text.unicode_len() {
        return false;
    }
    let mut i: usize = 0;
    while i < n
        invariant
            i <= n,
            n == prefix@.len(),
            n <= text@.len(),
            forall|k: int| 0 <= k < i ==> prefix@[k] == text@[k],
        decreases n - i,
    {
        if prefix.get_char(i) != text.get_char(i) {
            assert(text@.subrange(0, n as int)[i as int] == text@[i as int]);
            return false;
        }
        i = i + 1;
    }
    assert(prefix@ =~= text@.subrange(0, n as int));
    true
}

/// Whether a query selects a label: the empty query selects every label,
/// any other by its lower-case form beginning the label's.
pub open spec fn label_matches(label: Seq<char>, query: Seq<char>) -> bool {
    query.len() == 0 || lowercase(query).is_prefix_of(lowercase(label))
}

/// The positions below `upto` of the labels that the query selects, in
/// rising order.
pub open spec fn matching_among(labels: Seq<Seq<char>>, query: Seq<char>, upto: nat) -> Seq<usize>
    decreases upto,
{
    if upto == 0 {
        Seq::empty()
    } else {
        let before = matching_among(labels, query, (upto - 1) as nat);
        if label_matches(labels[upto - 1], query) {
            before.push((upto - 1) as usize)
        } else {
            before
        }
    }
}

/// The positions of all labels that the query selects, in rising order.
pub open spec fn matching(labels: Seq<Seq<char>>, query: Seq<char>) -> Seq<usize> {
    matching_among(labels, query, labels.len())
}

/// The labels of a catalog.
pub open spec fn labels_of(catalog: Seq<PaletteEntry>) -> Seq<Seq<char>> {
    catalog.map_values(|entry: PaletteEntry| entry.label@)
}

/// Whether `query` selects `label`, given the query's lower-case form.
fn entry_matches(label: &str, query: &str, lowered_query: &str) -> (yes: bool)
    requires
        lowered_query@ == lowercase(query@),
    ensures
        yes == label_matches(label@, query@),
{
    if query.unicode_len() == 0 {
        return true;
    }
    let lowered_label = to_lowercase(label);
    starts_with(lowered_label.as_str(), lowered_query)
}

/// The positions of the catalog's entries that `query` selects, in the
/// catalog's order.
pub fn find_matches(catalog: &Vec<PaletteEntry>, query: &str) -> (found: Vec<usize>)
    ensures
        found@ == matching(labels_of(catalog@), query@),
{
    let lowered_query = to_lowercase(query);
    let mut found: Vec<usize> = Vec::new();
    let mut i: usize = 0;
    while i < catalog.len()
        invariant
            i <= catalog.len(),
            lowered_query@ == lowercase(query@),
            found@ == matching_among(labels_of(catalog@), query@, i as nat),
        decreases catalog.len() - i,
    {
        let hit = entry_matches(catalog[i].label.as_str(), query, lowered_query.as_str());
        assert(labels_of(catalog@)[i as int] == catalog@[i as int].label@);
        if hit {
            found.push(i);
        }
        i = i + 1;
    }
    found
}

/// Where the cursor stands after one step up among `count` matches: one
/// lower, and from the first match on to the last.
pub open spec fn cursor_up(selected: int, count: int) -> int {
    if count <= 0 {
        0
    } else if selected <= 0 {
        count - 1
    } else {
        selected - 1
    }
}

/// Where the cursor stands after one step down among `count` matches: one
/// higher, and from the last match back to the first.
pub open spec fn cursor_down(selected: int, count: int) -> int {
    if count <= 0 {
        0
    } else if selected + 1 >= count {
        0
    } else {
        selected + 1
    }
}

/// Where the cursor stands after `times` steps up.
pub open spec fn cursor_up_times(selected: int, count: int, times: nat) -> int
    decreases times,
{
    if times == 0 {
        selected
    } else {
        cursor_up(cursor_up_times(selected, count, (times - 1) as nat), count)
    }
}

/// The palette as a plain value.
pub struct PaletteModel {
    pub labels: Seq<Seq<char>>,
    pub actions: Seq<Action>,
    pub query: Seq<char>,
    pub selected: int,
}

impl PaletteModel {
    /// The positions in the catalog of the entries that the query selects.
    pub open spec fn matches(self) -> Seq<usize> {
        matching(self.labels, self.query)
    }

    /// Every label has its action, and the cursor stands on a match, or at
    /// zero where nothing matches.
    pub open spec fn valid(self) -> bool {
        &&& self.labels.len() == self.actions.len()
        &&& 0 <= self.selected
        &&& self.matches().len() > 0 ==> self.selected < self.matches().len()
        &&& self.matches().len() == 0 ==> self.selected == 0
    }

    /// The action of the match at `position`, if there is such a match.
    pub open spec fn action_at(self, position: int) -> Option<Action> {
        if 0 <= position < self.matches().len() {
            Some(self.actions[self.matches()[position] as int])
        } else {
            None
        }
    }

    /// The action under the cursor, if anything matches.
    pub open spec fn selected_action(self) -> Option<Action> {
        self.action_at(self.selected)
    }
}

/// The command palette.
#[derive(Debug)]
pub struct Palette {
    catalog: Vec<PaletteEntry>,
    query: String,
    matches: Vec<usize>,
    selected: usize,
}

impl View for Palette {
    type V = PaletteModel;

    closed spec fn view(&self) -> PaletteModel {
        PaletteModel {
            labels: labels_of(self.catalog@),
            actions: self.catalog@.map_values(|entry: PaletteEntry| entry.action),
            query: self.query@,
            selected: self.selected as int,
        }
    }
}

impl Palette {
    /// The positions that the palette keeps as its matches.
    pub closed spec fn listed(&self) -> Seq<usize> {
        self.matches@
    }

    /// The invariant of the palette: the model is valid, and the matches
    /// kept are those that the query selects.
    pub open spec fn wf(&self) -> bool {
        &&& self@.valid()
        &&& self.listed() == self@.matches()
    }

    /// A palette over `catalog` with an empty query, which selects every
    /// entry, and the cursor on the first.
    pub fn new(catalog: Vec<PaletteEntry>) -> (palette: Palette)
        ensures
            palette.wf(),
            palette@.labels == labels_of(catalog@),
            palette@.actions == catalog@.map_values(|entry: PaletteEntry| entry.action),
            palette@.query.len() == 0,
            palette@.selected == 0,
    {
        let query = String::new();
        let matches = find_matches(&catalog, query.as_str());
        Palette { catalog, query, matches, selected: 0 }
    }

    /// The number of entries in the catalog.
    pub fn len(&self) -> (n: usize)
        ensures
            n == self@.labels.len(),
    {
        self.catalog.len()
    }

    /// The entry at `index` of the catalog, if there is one.
    pub fn entry(&self, index: usize) -> (found: Option<&PaletteEntry>)
        ensures
            index < self@.labels.len() ==> found.is_some() && found.unwrap().label@
                == self@.labels[index as int] && found.unwrap().action == self@.actions[index as int],
            index >= self@.labels.len() ==> found.is_none(),
    {
        if index < self.catalog.len() {
            Some(&self.catalog[index])
        } else {
            None
        }
    }

    /// The query as typed.
    pub fn query(&self) -> (text: &str)
        ensures
            text@ == self@.query,
    {
        self.query.as_str()
    }

    /// Replaces the query, selects anew, and puts the cursor back on the
    /// first match.
    pub fn set_query(&mut self, query: String)
        ensures
            final(self).wf(),
            final(self)@ == (PaletteModel { query: query@, selected: 0, ..old(self)@ }),
    {
        self.matches = find_matches(&self.catalog, query.as_str());
        self.query = query;
        self.selected = 0;
    }

    /// The positions in the catalog of the matching entries, in the
    /// catalog's order.
    pub fn matches(&self) -> (found: &Vec<usize>)
        requires
            self.wf(),
        ensures
            found@ == self@.matches(),
    {
        &self.matches
    }

    /// The position of the cursor among the matches.
    pub fn selected(&self) -> (index: usize)
        ensures
            index == self@.selected,
    {
        self.selected
    }

    /// Moves the cursor one match up, from the first on to the last.
    pub fn move_up(&mut self)
        requires
            old(self).wf(),
        ensures
            final(self).wf(),
            final(self)@ == (PaletteModel {
                selected: cursor_up(old(self)@.selected, old(self)@.matches().len() as int),
                ..old(self)@
            }),
    {
        let count = self.matches.len();
        if count == 0 {
            return ;
        }
        if self.selected == 0 {
            self.selected = count - 1;
        } else {
            self.selected = self.selected - 1;
        }
    }

    /// Moves the cursor one match down, from the last back to the first.
    pub fn move_down(&mut self)
        requires
            old(self).wf(),
        ensures
            final(self).wf(),
            final(self)@ == (PaletteModel {
                selected: cursor_down(old(self)@.selected, old(self)@.matches().len() as int),
                ..old(self)@
            }),
    {
        let count = self.matches.len();
        if count == 0 {
            return ;
        }
        if self.selected + 1 >= count {
            self.selected = 0;
        } else {
            self.selected = self.selected + 1;
        }
    }

    /// The action under the cursor, if anything matches.
    pub fn selected_action(&self) -> (found: Option<&Action>)
        requires
            self.wf(),
        ensures
            found.is_some() == self@.selected_action().is_some(),
            found matches Some(action) ==> Some(*action) == self@.selected_action(),
    {
        self.action_at(self.selected)
    }

    /// The action of the match at `position`, if there is such a match.
    pub fn action_at(&self, position: usize) -> (found: Option<&Action>)
        requires
            self.wf(),
        ensures
            found.is_some() == self@.action_at(position as int).is_some(),
            found matches Some(action) ==> Some(*action) == self@.action_at(position as int),
    {
        if position >= self.matches.len() {
            return None;
        }
        let at = self.matches[position];
        let n = self.catalog.len();
        proof {
            assert(self@.labels.len() == n);
            lemma_matching_among(self@.labels, self@.query, n as nat);
        }
        Some(&self.catalog[at].action)
    }
}

/// What `matching_among` lists: no more positions than `upto`, each of them
/// below `upto` with a label that the query selects, in strictly rising
/// order, and every such position below `upto`.
pub proof fn lemma_matching_among(labels: Seq<Seq<char>>, query: Seq<char>, upto: nat)
    requires
        upto <= usize::MAX,
    ensures
        matching_among(labels, query, upto).len() <= upto,
        forall|k: int|
            0 <= k < matching_among(labels, query, upto).len() ==> {
                let at = #[trigger] matching_among(labels, query, upto)[k];
                at < upto && label_matches(labels[at as int], query)
            },
        forall|j: int, k: int|
            0 <= j < k < matching_among(labels, query, upto).len() ==> (#[trigger] matching_among(
                labels,
                query,
                upto,
            )[j]) < (#[trigger] matching_among(labels, query, upto)[k]),
        forall|at: int|
            0 <= at < upto && label_matches(#[trigger] labels[at], query) ==> matching_among(
                labels,
                query,
                upto,
            ).contains(at as usize),
    decreases upto,
{
    if upto > 0 {
        let before = matching_among(labels, query, (upto - 1) as nat);
        let now = matching_among(labels, query, upto);
        lemma_matching_among(labels, query, (upto - 1) as nat);
        assert forall|at: int| 0 <= at < upto && label_matches(#[trigger] labels[at], query) implies now.contains(
            at as usize,
        ) by {
            if at < upto - 1 {
                assert(before.contains(at as usize));
                let k = choose|k: int| 0 <= k < before.len() && before[k] == at as usize;
                assert(now[k] == at as usize);
            } else {
                assert(now[now.len() - 1] == at as usize);
            }
        }
    }
}

/// The matches are a selection from the catalog in the catalog's order:
/// each listed position holds a label that the query selects, the positions
/// rise strictly, and no position with such a label is left out.
pub proof fn lemma_matches_are_filtered(labels: Seq<Seq<char>>, query: Seq<char>)
    requires
        labels.len() <= usize::MAX,
    ensures
        matching(labels, query).len() <= labels.len(),
        forall|k: int|
            0 <= k < matching(labels, query).len() ==> {
                let at = #[trigger] matching(labels, query)[k];
                at < labels.len() && label_matches(labels[at as int], query)
            },
        forall|j: int, k: int|
            0 <= j < k < matching(labels, query).len() ==> (#[trigger] matching(labels, query)[j])
                < (#[trigger] matching(labels, query)[k]),
        forall|at: int|
            0 <= at < labels.len() && label_matches(#[trigger] labels[at], query) ==> matching(
                labels,
                query,
            ).contains(at as usize),
{
    lemma_matching_among(labels, query, labels.len());
}

/// The empty query selects the whole catalog, in its order.
pub proof fn lemma_empty_query_selects_all(labels: Seq<Seq<char>>, query: Seq<char>)
    requires
        labels.len() <= usize::MAX,
        query.len() == 0,
    ensures
        matching(labels, query) == Seq::new(labels.len(), |i: int| i as usize),
{
    lemma_empty_query_among(labels, query, labels.len());
}

proof fn lemma_empty_query_among(labels: Seq<Seq<char>>, query: Seq<char>, upto: nat)
    requires
        query.len() == 0,
    ensures
        matching_among(labels, query, upto) == Seq::new(upto, |i: int| i as usize),
    decreases upto,
{
    if upto > 0 {
        lemma_empty_query_among(labels, query, (upto - 1) as nat);
    }
    assert(matching_among(labels, query, upto) =~= Seq::new(upto, |i: int| i as usize));
}

/// Stepping up from the first of `count` matches goes to the last, then
/// down one match at a time, and is back at the first after `count` steps.
pub proof fn lemma_cursor_up_cycles(count: int, times: nat)
    requires
        count >= 1,
        times <= count,
    ensures
        cursor_up_times(0, count, times) == (if times == 0 {
            0
        } else {
            count - times
        }),
    decreases times,
{
    if times > 0 {
        lemma_cursor_up_cycles(count, (times - 1) as nat);
    }
}

/// A step down undoes a step up, and a step up a step down, wherever the
/// cursor stands among the matches.
pub proof fn lemma_cursor_steps_undo(selected: int, count: int)
    requires
        0 <= selected < count,
    ensures
        cursor_down(cursor_up(selected, count), count) == selected,
        cursor_up(cursor_down(selected, count), count) == selected,
{
}

} // verus!
