//! The table of open tabs and the position of the focused one.
//!
//! The table hands out the identifiers of its tabs itself, counting upwards,
//! so an identifier that has left the table never names a tab again.

use crate::label::{terminal_name, terminal_title};
use vstd::prelude::*;

verus! {

/// What a tab shows.
#[derive(Clone, Copy, Debug, PartialEq, Eq, Structural)]
pub enum TabType {
    /// A terminal with a pseudo-terminal behind it.
    Terminal,
    /// The settings pane.
    Menu,
    /// The plugin pane.
    PluginMenu,
}

/// One open tab.
#[derive(Debug, PartialEq, Eq)]
pub struct Tab {
    /// The identifier that the table gave this tab.
    pub id: u64,
    /// The title shown on the tab.
    pub name: String,
    pub tab_type: TabType,
    /// Handle of the pseudo-terminal; empty where the tab is no terminal.
    pub pty: String,
}

/// A tab as a plain value.
pub struct TabModel {
    pub id: u64,
    pub name: Seq<char>,
    pub tab_type: TabType,
    pub pty: Seq<char>,
}

impl View for Tab {
    type V = TabModel;

    open spec fn view(&self) -> TabModel {
        TabModel { id: self.id, name: self.name@, tab_type: self.tab_type, pty: self.pty@ }
    }
}

impl Tab {
    /// A terminal tab for the position `index`, titled by that position.
    pub fn new(id: u64, index: usize, pty: String) -> (tab: Tab)
        ensures
            tab@ == (TabModel {
                id,
                name: terminal_title(index as nat),
                tab_type: TabType::Terminal,
                pty: pty@,
            }),
    {
        Tab { id, name: terminal_name(index), tab_type: TabType::Terminal, pty }
    }

    /// A copy of this tab.
    pub fn duplicate(&self) -> (copy: Tab)
        ensures
            copy@ == self@,
    {
        Tab {
            id: self.id,
            name: self.name.clone(),
            tab_type: self.tab_type,
            pty: self.pty.clone(),
        }
    }
}

impl Clone for Tab {
    fn clone(&self) -> (copy: Tab)
        ensures
            copy@ == self@,
    {
        self.duplicate()
    }
}

/// The table of tabs as a plain value: the tabs in tab order, the position
/// of the focused one, and the identifier that the next new tab will get.
pub struct RegistryModel {
    pub tabs: Seq<TabModel>,
    pub focus: int,
    pub next_id: int,
}

impl RegistryModel {
    /// The focus points at a tab (or is zero where there is none), no
    /// identifier occurs twice, and none has reached the counter.
    pub open spec fn valid(self) -> bool {
        &&& 0 <= self.focus
        &&& self.tabs.len() > 0 ==> self.focus < self.tabs.len()
        &&& self.tabs.len() == 0 ==> self.focus == 0
        &&& 0 <= self.next_id <= u64::MAX
        &&& forall|i: int| 0 <= i < self.tabs.len() ==> (#[trigger] self.tabs[i]).id < self.next_id
        &&& forall|i: int, j: int|
            0 <= i < j < self.tabs.len() ==> (#[trigger] self.tabs[i]).id != (
            #[trigger] self.tabs[j]).id
    }

    /// Whether a tab carries this identifier.
    pub open spec fn has_id(self, id: u64) -> bool {
        exists|i: int| 0 <= i < self.tabs.len() && (#[trigger] self.tabs[i]).id == id
    }

    /// Where the focus stands once the tab at `index` has left: one lower
    /// when that tab stood at or before the focus, and never below zero.
    pub open spec fn focus_after_close(self, index: int) -> int {
        if index <= self.focus && self.focus > 0 {
            self.focus - 1
        } else {
            self.focus
        }
    }

    /// The table without the tab at `index`; unchanged where there is no
    /// such tab.
    pub open spec fn close(self, index: int) -> RegistryModel {
        if 0 <= index < self.tabs.len() {
            RegistryModel {
                tabs: self.tabs.remove(index),
                focus: self.focus_after_close(index),
                next_id: self.next_id,
            }
        } else {
            self
        }
    }

    /// The table with one more tab at its end, which gets the counter's
    /// value as its identifier. The focus stays.
    pub open spec fn create(self, tab_type: TabType, name: Seq<char>, pty: Seq<char>) -> RegistryModel
        recommends
            self.next_id < u64::MAX,
    {
        RegistryModel {
            tabs: self.tabs.push(TabModel { id: self.next_id as u64, name, tab_type, pty }),
            focus: self.focus,
            next_id: self.next_id + 1,
        }
    }

    /// The table with the focus at `index`; unchanged where there is no
    /// such tab.
    pub open spec fn focus_on(self, index: int) -> RegistryModel {
        if 0 <= index < self.tabs.len() {
            RegistryModel { focus: index, ..self }
        } else {
            self
        }
    }

    /// The focus one tab further, from the last tab back to the first.
    pub open spec fn next(self) -> RegistryModel {
        if self.tabs.len() == 0 {
            self
        } else if self.focus + 1 >= self.tabs.len() {
            RegistryModel { focus: 0, ..self }
        } else {
            RegistryModel { focus: self.focus + 1, ..self }
        }
    }

    /// The focus one tab back, from the first tab on to the last.
    pub open spec fn previous(self) -> RegistryModel {
        if self.tabs.len() == 0 {
            self
        } else if self.focus <= 0 {
            RegistryModel { focus: self.tabs.len() - 1, ..self }
        } else {
            RegistryModel { focus: self.focus - 1, ..self }
        }
    }

    /// The table in which the tab with this identifier has a new title;
    /// unchanged where no tab has the identifier.
    pub open spec fn rename(self, id: u64, name: Seq<char>) -> RegistryModel {
        RegistryModel {
            tabs: Seq::new(
                self.tabs.len(),
                |i: int|
                    if self.tabs[i].id == id {
                        TabModel { name, ..self.tabs[i] }
                    } else {
                        self.tabs[i]
                    },
            ),
            ..self
        }
    }
}

/// What closing a tab came to.
#[derive(Debug, PartialEq, Eq)]
pub enum CloseOutcome {
    /// There is no tab at that position; nothing changed.
    Ignored,
    /// The tab left and others remain.
    Closed(Tab),
    /// The tab left and the table is now empty.
    Emptied(Tab),
}

/// The table of open tabs, in tab order, with the focus.
#[derive(Debug)]
pub struct Registry {
    tabs: Vec<Tab>,
    focus: usize,
    next_id: u64,
}

impl View for Registry {
    type V = RegistryModel;

    closed spec fn view(&self) -> RegistryModel {
        RegistryModel {
            tabs: self.tabs@.map_values(|t: Tab| t@),
            focus: self.focus as int,
            next_id: self.next_id as int,
        }
    }
}

impl Registry {
    /// The invariant of the table.
    pub open spec fn wf(&self) -> bool {
        self@.valid()
    }

    /// An empty table.
    pub fn new() -> (registry: Registry)
        ensures
            registry.wf(),
            registry@.tabs.len() == 0,
            registry@.focus == 0,
            registry@.next_id == 0,
    {
        Registry { tabs: Vec::new(), focus: 0, next_id: 0 }
    }

    /// The number of tabs.
    pub fn len(&self) -> (n: usize)
        ensures
            n == self@.tabs.len(),
    {
        self.tabs.len()
    }

    /// Whether no tab is open.
    pub fn is_empty(&self) -> (empty: bool)
        ensures
            empty == (self@.tabs.len() == 0),
    {
        self.tabs.len() == 0
    }

    /// The tabs in tab order.
    pub fn tabs(&self) -> (tabs: &Vec<Tab>)
        ensures
            tabs@.map_values(|t: Tab| t@) == self@.tabs,
    {
        &self.tabs
    }

    /// The position of the focused tab.
    pub fn current_tab(&self) -> (index: usize)
        ensures
            index == self@.focus,
    {
        self.focus
    }

    /// The tab at `index`, if there is one.
    pub fn tab(&self, index: usize) -> (found: Option<&Tab>)
        ensures
            index < self@.tabs.len() ==> found.is_some() && found.unwrap()@ == self@.tabs[index as int],
            index >= self@.tabs.len() ==> found.is_none(),
    {
        if index < self.tabs.len() {
            Some(&self.tabs[index])
        } else {
            None
        }
    }

    /// The focused tab, if any tab is open.
    pub fn focused(&self) -> (found: Option<&Tab>)
        requires
            self.wf(),
        ensures
            self@.tabs.len() > 0 ==> found.is_some() && found.unwrap()@ == self@.tabs[self@.focus],
            self@.tabs.len() == 0 ==> found.is_none(),
    {
        self.tab(self.focus)
    }

    /// Appends a tab and returns its new identifier. The focus stays where
    /// it is. Returns `None`, and changes nothing, once every identifier
    /// has been handed out.
    pub fn create(&mut self, tab_type: TabType, name: String, pty: String) -> (id: Option<u64>)
        requires
            old(self).wf(),
        ensures
            final(self).wf(),
            old(self)@.next_id < u64::MAX ==> id == Some(old(self)@.next_id as u64)
                && final(self)@ == old(self)@.create(tab_type, name@, pty@),
            old(self)@.next_id >= u64::MAX ==> id.is_none() && final(self)@ == old(self)@,
    {
        if self.next_id == u64::MAX {
            return None;
        }
        let id = self.next_id;
        self.push_tab(Tab { id, name, tab_type, pty });
        Some(id)
    }

    /// Appends a terminal tab for the pseudo-terminal `pty`, titled by its
    /// position, and returns its new identifier. The focus stays where it
    /// is. Returns `None`, and changes nothing, once every identifier has
    /// been handed out.
    pub fn open_terminal(&mut self, pty: String) -> (id: Option<u64>)
        requires
            old(self).wf(),
        ensures
            final(self).wf(),
            old(self)@.next_id < u64::MAX ==> id == Some(old(self)@.next_id as u64)
                && final(self)@ == old(self)@.create(
                TabType::Terminal,
                terminal_title(old(self)@.tabs.len()),
                pty@,
            ),
            old(self)@.next_id >= u64::MAX ==> id.is_none() && final(self)@ == old(self)@,
    {
        if self.next_id == u64::MAX {
            return None;
        }
        let id = self.next_id;
        let index = self.tabs.len();
        self.push_tab(Tab::new(id, index, pty));
        Some(id)
    }

    fn push_tab(&mut self, tab: Tab)
        requires
            old(self).wf(),
            old(self)@.next_id < u64::MAX,
            tab.id == old(self)@.next_id,
        ensures
            final(self).wf(),
            final(self)@ == old(self)@.create(tab.tab_type, tab.name@, tab.pty@),
    {
        let ghost before = self@;
        let ghost model = tab@;
        self.next_id = tab.id + 1;
        self.tabs.push(tab);
        proof {
            assert(self@.tabs =~= before.create(model.tab_type, model.name, model.pty).tabs);
        }
    }

    /// Removes the tab at `index` and hands it back. A tab that stood at or
    /// before the focus takes the focus one down with it, never below zero.
    /// Where there is no tab at `index`, nothing changes.
    pub fn close(&mut self, index: usize) -> (outcome: CloseOutcome)
        requires
            old(self).wf(),
        ensures
            final(self).wf(),
            final(self)@ == old(self)@.close(index as int),
            index >= old(self)@.tabs.len() <==> outcome is Ignored,
            outcome matches CloseOutcome::Closed(tab) ==> tab@ == old(self)@.tabs[index as int]
                && final(self)@.tabs.len() > 0,
            outcome matches CloseOutcome::Emptied(tab) ==> tab@ == old(self)@.tabs[index as int]
                && final(self)@.tabs.len() == 0,
    {
        if index >= self.tabs.len() {
            return CloseOutcome::Ignored;
        }
        let ghost before = self@;
        let tab = self.tabs.remove(index);
        if index <= self.focus && self.focus > 0 {
            self.focus = self.focus - 1;
        }
        proof {
            assert(self@.tabs =~= before.close(index as int).tabs);
        }
        if self.tabs.len() == 0 {
            CloseOutcome::Emptied(tab)
        } else {
            CloseOutcome::Closed(tab)
        }
    }

    /// Closes the focused tab.
    pub fn close_current(&mut self) -> (outcome: CloseOutcome)
        requires
            old(self).wf(),
        ensures
            final(self).wf(),
            final(self)@ == old(self)@.close(old(self)@.focus),
            old(self)@.tabs.len() == 0 <==> outcome is Ignored,
            outcome matches CloseOutcome::Closed(tab) ==> tab@ == old(self)@.tabs[old(self)@.focus]
                && final(self)@.tabs.len() > 0,
            outcome matches CloseOutcome::Emptied(tab) ==> tab@ == old(self)@.tabs[old(self)@.focus]
                && final(self)@.tabs.len() == 0,
    {
        let index = self.focus;
        self.close(index)
    }

    /// Moves the focus to `index`. Returns whether there is such a tab;
    /// where there is none, nothing changes.
    pub fn focus(&mut self, index: usize) -> (moved: bool)
        requires
            old(self).wf(),
        ensures
            final(self).wf(),
            moved == (index < old(self)@.tabs.len()),
            final(self)@ == old(self)@.focus_on(index as int),
    {
        if index < self.tabs.len() {
            self.focus = index;
            true
        } else {
            false
        }
    }

    /// Moves the focus to the last tab, if any tab is open.
    pub fn focus_last(&mut self)
        requires
            old(self).wf(),
        ensures
            final(self).wf(),
            final(self)@ == old(self)@.focus_on(old(self)@.tabs.len() - 1),
    {
        let n = self.tabs.len();
        if n > 0 {
            self.focus = n - 1;
        }
    }

    /// Moves the focus one tab on, from the last tab back to the first.
    pub fn next(&mut self)
        requires
            old(self).wf(),
        ensures
            final(self).wf(),
            final(self)@ == old(self)@.next(),
    {
        let n = self.tabs.len();
        if n == 0 {
            return ;
        }
        if self.focus + 1 >= n {
            self.focus = 0;
        } else {
            self.focus = self.focus + 1;
        }
    }

    /// Moves the focus one tab back, from the first tab on to the last.
    pub fn previous(&mut self)
        requires
            old(self).wf(),
        ensures
            final(self).wf(),
            final(self)@ == old(self)@.previous(),
    {
        let n = self.tabs.len();
        if n == 0 {
            return ;
        }
        if self.focus == 0 {
            self.focus = n - 1;
        } else {
            self.focus = self.focus - 1;
        }
    }

    /// The position of the tab with this identifier, if one is open.
    pub fn position_of(&self, id: u64) -> (found: Option<usize>)
        requires
            self.wf(),
        ensures
            found matches Some(i) ==> i < self@.tabs.len() && self@.tabs[i as int].id == id,
            found.is_none() <==> !self@.has_id(id),
    {
        let mut i: usize = 0;
        while i < self.tabs.len()
            invariant
                i <= self.tabs.len(),
                forall|k: int| 0 <= k < i ==> (#[trigger] self@.tabs[k]).id != id,
            decreases self.tabs.len() - i,
        {
            if self.tabs[i].id == id {
                assert(self@.tabs[i as int].id == id);
                return Some(i);
            }
            i = i + 1;
        }
        None
    }

    /// Gives the tab with this identifier a new title. Returns whether such
    /// a tab is open; where none is, nothing changes.
    pub fn rename(&mut self, id: u64, name: String) -> (renamed: bool)
        requires
            old(self).wf(),
        ensures
            final(self).wf(),
            renamed == old(self)@.has_id(id),
            final(self)@ == old(self)@.rename(id, name@),
    {
        let ghost before = self@;
        match self.position_of(id) {
            Some(i) => {
                let old_tab = &self.tabs[i];
                let tab = Tab { id: old_tab.id, name, tab_type: old_tab.tab_type, pty: old_tab.pty.clone() };
                self.tabs.set(i, tab);
                proof {
                    assert(self@.tabs =~= before.rename(id, name@).tabs);
                }
                true
            },
            None => {
                proof {
                    assert(self@.tabs =~= before.rename(id, name@).tabs);
                }
                false
            },
        }
    }
}

/// Closing a tab keeps the table valid, whatever the position asked for.
pub proof fn lemma_close_keeps_valid(registry: RegistryModel, index: int)
    requires
        registry.valid(),
    ensures
        registry.close(index).valid(),
{
    if 0 <= index < registry.tabs.len() {
        let after = registry.close(index);
        assert forall|i: int| 0 <= i < after.tabs.len() implies (#[trigger] after.tabs[i]).id
            < after.next_id by {
            if i < index {
                assert(after.tabs[i] == registry.tabs[i]);
            } else {
                assert(after.tabs[i] == registry.tabs[i + 1]);
            }
        }
        assert forall|i: int, j: int| 0 <= i < j < after.tabs.len() implies (
        #[trigger] after.tabs[i]).id != (#[trigger] after.tabs[j]).id by {
            let from_i = if i < index {
                i
            } else {
                i + 1
            };
            let from_j = if j < index {
                j
            } else {
                j + 1
            };
            assert(after.tabs[i] == registry.tabs[from_i]);
            assert(after.tabs[j] == registry.tabs[from_j]);
        }
    }
}

/// Closing one of several tabs leaves one tab fewer, all others in their
/// order, and the focus on one of them.
pub proof fn lemma_close_one_of_several(registry: RegistryModel, index: int)
    requires
        registry.valid(),
        registry.tabs.len() > 1,
        0 <= index < registry.tabs.len(),
    ensures
        registry.close(index).tabs.len() == registry.tabs.len() - 1,
        0 <= registry.close(index).focus < registry.tabs.len() - 1,
        forall|i: int| 0 <= i < index ==> registry.close(index).tabs[i] == registry.tabs[i],
        forall|i: int|
            index <= i < registry.tabs.len() - 1 ==> registry.close(index).tabs[i]
                == registry.tabs[i + 1],
{
}

/// Closing a tab behind the focus leaves the focus on the tab it was on;
/// closing one before it moves the focus down with that tab.
pub proof fn lemma_close_keeps_focused_tab(registry: RegistryModel, index: int)
    requires
        registry.valid(),
        0 <= index < registry.tabs.len(),
        index != registry.focus,
    ensures
        registry.close(index).tabs[registry.close(index).focus] == registry.tabs[registry.focus],
{
}

/// A step on and a step back return the focus to where it was, and so do a
/// step back and a step on, at both ends of the table too.
pub proof fn lemma_next_previous_undo(registry: RegistryModel)
    requires
        registry.valid(),
    ensures
        registry.next().previous() == registry,
        registry.previous().next() == registry,
        registry.next().valid(),
        registry.previous().valid(),
{
}

} // verus!
