//! The dispatcher: one entry point that takes an action and the state of
//! the application, changes the state, and says what is left for the caller
//! to do outside it.
//!
//! The dispatcher never spawns, writes or closes a window itself. It hands
//! back an [`Effect`]; the caller carries it out and, for a spawn, reports
//! the outcome with [`attach_terminal`].

use crate::action::Action;
use crate::label::terminal_title;
use crate::palette::{Palette, PaletteEntry, PaletteModel};
use crate::registry::{CloseOutcome, Registry, RegistryModel, TabType};
use vstd::prelude::*;
use vstd::string::StringExecFns;

verus! {

/// What the caller has to do after an action was dispatched.
#[derive(Debug, PartialEq, Eq)]
pub enum Effect {
    /// Nothing.
    Nothing,
    /// Send `text` to the input of the pseudo-terminal `pty`.
    Write { pty: String, text: String },
    /// Spawn a terminal session with this start command, then report the
    /// outcome with [`attach_terminal`].
    Spawn { command: Option<String> },
    /// Close the window.
    Shutdown,
    /// Open the developer tools.
    DevTools,
    /// The action has no effect yet.
    Unimplemented,
}

/// An effect as a plain value.
pub enum EffectModel {
    Nothing,
    Write { pty: Seq<char>, text: Seq<char> },
    Spawn { command: Option<Seq<char>> },
    Shutdown,
    DevTools,
    Unimplemented,
}

impl View for Effect {
    type V = EffectModel;

    open spec fn view(&self) -> EffectModel {
        match self {
            Effect::Nothing => EffectModel::Nothing,
            Effect::Write { pty, text } => EffectModel::Write { pty: pty@, text: text@ },
            Effect::Spawn { command } => EffectModel::Spawn {
                command: match command {
                    Some(text) => Some(text@),
                    None => None,
                },
            },
            Effect::Shutdown => EffectModel::Shutdown,
            Effect::DevTools => EffectModel::DevTools,
            Effect::Unimplemented => EffectModel::Unimplemented,
        }
    }
}

/// Why no terminal tab was opened.
#[derive(Debug, PartialEq, Eq)]
pub enum SpawnError {
    /// The spawner failed; its message is kept.
    Failed(String),
    /// Every identifier has been handed out.
    Exhausted,
}

/// The state of the application as a plain value.
pub struct AppModel {
    pub registry: RegistryModel,
    pub palette: PaletteModel,
    pub palette_open: bool,
    pub start_up_command: Seq<char>,
}

/// The title of the settings tab.
pub open spec fn settings_title() -> Seq<char> {
    seq!['S', 'e', 't', 't', 'i', 'n', 'g', 's']
}

/// The title of the plugin tab.
pub open spec fn plugins_title() -> Seq<char> {
    seq!['P', 'l', 'u', 'g', 'i', 'n', 's']
}

/// The start command that a spawn is given: the configured command where
/// that is empty, and none where it is not.
pub open spec fn start_command(configured: Seq<char>) -> Option<Seq<char>> {
    if configured.len() == 0 {
        Some(configured)
    } else {
        None
    }
}

/// The table with one more tab, which has the focus; unchanged once every
/// identifier has been handed out.
pub open spec fn opened(
    registry: RegistryModel,
    tab_type: TabType,
    name: Seq<char>,
    pty: Seq<char>,
) -> RegistryModel {
    if registry.next_id < u64::MAX {
        registry.create(tab_type, name, pty).focus_on(registry.tabs.len() as int)
    } else {
        registry
    }
}

impl AppModel {
    /// Whether the focused tab is a terminal.
    pub open spec fn terminal_focused(self) -> bool {
        self.registry.tabs.len() > 0 && self.registry.tabs[self.registry.focus].tab_type
            == TabType::Terminal
    }

    /// The state after `action` was dispatched.
    pub open spec fn after(self, action: Action) -> AppModel {
        match action {
            Action::CloseTab => AppModel {
                registry: self.registry.close(self.registry.focus),
                ..self
            },
            Action::CloseTabAt(index) => AppModel {
                registry: self.registry.close(index as int),
                ..self
            },
            Action::OpenSettings => AppModel {
                registry: opened(self.registry, TabType::Menu, settings_title(), Seq::empty()),
                ..self
            },
            Action::OpenPluginMenu => AppModel {
                registry: opened(self.registry, TabType::PluginMenu, plugins_title(), Seq::empty()),
                ..self
            },
            Action::ToggleCommandPalette => AppModel { palette_open: !self.palette_open, ..self },
            Action::NextTab => AppModel { registry: self.registry.next(), ..self },
            Action::PreviousTab => AppModel { registry: self.registry.previous(), ..self },
            _ => self,
        }
    }

    /// What is left for the caller to do when `action` is dispatched in
    /// this state.
    pub open spec fn effect_of(self, action: Action) -> EffectModel {
        match action {
            Action::Write(text) => if self.terminal_focused() {
                EffectModel::Write { pty: self.registry.tabs[self.registry.focus].pty, text: text@ }
            } else {
                EffectModel::Nothing
            },
            Action::NewTab => EffectModel::Spawn { command: start_command(self.start_up_command) },
            Action::CloseTab => if self.registry.tabs.len() == 1 {
                EffectModel::Shutdown
            } else {
                EffectModel::Nothing
            },
            Action::CloseTabAt(index) => if self.registry.tabs.len() == 1 && index == 0 {
                EffectModel::Shutdown
            } else {
                EffectModel::Nothing
            },
            Action::Quit => EffectModel::Shutdown,
            Action::OpenDevTools => EffectModel::DevTools,
            Action::OpenSettings => EffectModel::Nothing,
            Action::OpenPluginMenu => EffectModel::Nothing,
            Action::ToggleCommandPalette => EffectModel::Nothing,
            Action::NextTab => EffectModel::Nothing,
            Action::PreviousTab => EffectModel::Nothing,
            Action::NoAction => EffectModel::Nothing,
            _ => EffectModel::Unimplemented,
        }
    }

    /// The state after an action that a key produced: with the palette
    /// shown the key belongs to the palette, and nothing is dispatched.
    pub open spec fn after_key(self, action: Action) -> AppModel {
        if self.palette_open {
            self
        } else {
            self.after(action)
        }
    }

    /// What is left for the caller to do after an action that a key
    /// produced.
    pub open spec fn effect_of_key(self, action: Action) -> EffectModel {
        if self.palette_open {
            EffectModel::Nothing
        } else {
            self.effect_of(action)
        }
    }

    /// The state once a spawned terminal was attached: a terminal tab at
    /// the end, titled by its position, with the focus.
    pub open spec fn attached(self, pty: Seq<char>) -> AppModel {
        AppModel {
            registry: opened(
                self.registry,
                TabType::Terminal,
                terminal_title(self.registry.tabs.len()),
                pty,
            ),
            ..self
        }
    }

    /// The state after the match at `position` was picked: its action was
    /// dispatched and the palette is closed. Where there is no such match,
    /// the state stays as it is.
    pub open spec fn after_pick(self, position: int) -> AppModel {
        match self.palette.action_at(position) {
            Some(action) => AppModel { palette_open: false, ..self.after(action) },
            None => self,
        }
    }

    /// What is left for the caller to do when the match at `position` is
    /// picked.
    pub open spec fn effect_of_pick(self, position: int) -> EffectModel {
        match self.palette.action_at(position) {
            Some(action) => self.effect_of(action),
            None => EffectModel::Nothing,
        }
    }

    /// The state after the entry under the palette's cursor was confirmed:
    /// its action was dispatched and the palette is closed. Where nothing
    /// matches, the state stays as it is.
    pub open spec fn after_confirm(self) -> AppModel {
        self.after_pick(self.palette.selected)
    }

    /// What is left for the caller to do when the entry under the palette's
    /// cursor is confirmed.
    pub open spec fn effect_of_confirm(self) -> EffectModel {
        self.effect_of_pick(self.palette.selected)
    }
}

/// The state of the application: the tabs, the palette and whether it is
/// shown, and the configured start command.
#[derive(Debug)]
pub struct AppState {
    registry: Registry,
    palette: Palette,
    palette_open: bool,
    start_up_command: String,
}

impl View for AppState {
    type V = AppModel;

    closed spec fn view(&self) -> AppModel {
        AppModel {
            registry: self.registry@,
            palette: self.palette@,
            palette_open: self.palette_open,
            start_up_command: self.start_up_command@,
        }
    }
}

impl AppState {
    /// The palette that the state holds.
    pub closed spec fn spec_palette(&self) -> Palette {
        self.palette
    }

    /// The invariant of the state: those of its table and of its palette.
    pub open spec fn wf(&self) -> bool {
        &&& self@.registry.valid()
        &&& self.spec_palette().wf()
        &&& self.spec_palette()@ == self@.palette
    }

    /// A state with no tab yet, the palette closed over `catalog`, and the
    /// configured start command.
    pub fn new(start_up_command: String, catalog: Vec<PaletteEntry>) -> (state: AppState)
        ensures
            state.wf(),
            state@.registry.tabs.len() == 0,
            state@.registry.focus == 0,
            state@.registry.next_id == 0,
            state@.palette.labels == crate::palette::labels_of(catalog@),
            state@.palette.actions == catalog@.map_values(|entry: PaletteEntry| entry.action),
            state@.palette.query.len() == 0,
            state@.palette.selected == 0,
            !state@.palette_open,
            state@.start_up_command == start_up_command@,
    {
        AppState {
            registry: Registry::new(),
            palette: Palette::new(catalog),
            palette_open: false,
            start_up_command,
        }
    }

    /// The table of tabs.
    pub fn registry(&self) -> (registry: &Registry)
        ensures
            registry@ == self@.registry,
    {
        &self.registry
    }

    /// The palette.
    pub fn palette(&self) -> (palette: &Palette)
        ensures
            *palette == self.spec_palette(),
            palette@ == self@.palette,
    {
        &self.palette
    }

    /// Whether the palette is shown.
    pub fn palette_open(&self) -> (open: bool)
        ensures
            open == self@.palette_open,
    {
        self.palette_open
    }
}

/// The start command to hand to the spawner of terminal sessions: the
/// configured command where that is empty, and none where it is not.
pub fn spawn_new(start_up_command: &str) -> (command: Option<String>)
    ensures
        match command {
            Some(text) => Some(text@),
            None => None,
        } == start_command(start_up_command@),
{
    if start_up_command.is_empty() {
        Some(String::from_str(start_up_command))
    } else {
        None
    }
}

/// Dispatches one action: changes the state as the action asks and returns
/// what is left for the caller to do. Every action has a defined outcome in
/// every state; none fails.
pub fn handle_action(state: &mut AppState, action: Action) -> (effect: Effect)
    requires
        old(state).wf(),
    ensures
        final(state).wf(),
        final(state)@ == old(state)@.after(action),
        effect@ == old(state)@.effect_of(action),
{
    match action {
        Action::Write(text) => {
            match state.registry.focused() {
                Some(tab) => {
                    if tab.tab_type == TabType::Terminal {
                        Effect::Write { pty: tab.pty.clone(), text }
                    } else {
                        Effect::Nothing
                    }
                },
                None => Effect::Nothing,
            }
        },
        Action::NewTab => Effect::Spawn { command: spawn_new(state.start_up_command.as_str()) },
        Action::CloseTab => {
            match state.registry.close_current() {
                CloseOutcome::Emptied(_) => Effect::Shutdown,
                _ => Effect::Nothing,
            }
        },
        Action::CloseTabAt(index) => {
            match state.registry.close(index) {
                CloseOutcome::Emptied(_) => Effect::Shutdown,
                _ => Effect::Nothing,
            }
        },
        Action::Quit => Effect::Shutdown,
        Action::OpenSettings => {
            proof {
                reveal_strlit("Settings");
            }
            let name = String::from_str("Settings");
            assert(name@ =~= settings_title());
            open_pane(state, TabType::Menu, name);
            Effect::Nothing
        },
        Action::OpenPluginMenu => {
            proof {
                reveal_strlit("Plugins");
            }
            let name = String::from_str("Plugins");
            assert(name@ =~= plugins_title());
            open_pane(state, TabType::PluginMenu, name);
            Effect::Nothing
        },
        Action::ToggleCommandPalette => {
            state.palette_open = !state.palette_open;
            Effect::Nothing
        },
        Action::OpenDevTools => Effect::DevTools,
        Action::NextTab => {
            state.registry.next();
            Effect::Nothing
        },
        Action::PreviousTab => {
            state.registry.previous();
            Effect::Nothing
        },
        Action::NoAction => Effect::Nothing,
        Action::PasteText => Effect::Unimplemented,
        Action::CopyText => Effect::Unimplemented,
        Action::ClearBuffer => Effect::Unimplemented,
        Action::CloseOtherTabs => Effect::Unimplemented,
        Action::ScrollUp => Effect::Unimplemented,
        Action::ScrollUpPage => Effect::Unimplemented,
        Action::ScrollDown => Effect::Unimplemented,
        Action::ScrollDownPage => Effect::Unimplemented,
        Action::ScrollToBottom => Effect::Unimplemented,
        Action::ScrollToTop => Effect::Unimplemented,
    }
}

/// Dispatches an action that a key produced. While the palette is shown the
/// key belongs to the palette: nothing is dispatched and nothing changes.
pub fn handle_key(state: &mut AppState, action: Action) -> (effect: Effect)
    requires
        old(state).wf(),
    ensures
        final(state).wf(),
        final(state)@ == old(state)@.after_key(action),
        effect@ == old(state)@.effect_of_key(action),
{
    if state.palette_open {
        Effect::Nothing
    } else {
        handle_action(state, action)
    }
}

/// Takes the outcome of a spawn. A spawned terminal gets a tab at the end
/// of the table, titled by its position, and the focus; its identifier is
/// returned. A failed spawn changes nothing and its message comes back as
/// the error, as does the exhaustion of identifiers.
pub fn attach_terminal(state: &mut AppState, spawned: Result<String, String>) -> (attached: Result<
    u64,
    SpawnError,
>)
    requires
        old(state).wf(),
    ensures
        final(state).wf(),
        match spawned {
            Ok(pty) => {
                if old(state)@.registry.next_id < u64::MAX {
                    &&& attached == Ok::<u64, SpawnError>(old(state)@.registry.next_id as u64)
                    &&& final(state)@ == old(state)@.attached(pty@)
                } else {
                    &&& attached == Err::<u64, SpawnError>(SpawnError::Exhausted)
                    &&& final(state)@ == old(state)@
                }
            },
            Err(message) => {
                &&& attached == Err::<u64, SpawnError>(SpawnError::Failed(message))
                &&& final(state)@ == old(state)@
            },
        },
{
    match spawned {
        Ok(pty) => {
            match state.registry.open_terminal(pty) {
                Some(id) => {
                    state.registry.focus_last();
                    Ok(id)
                },
                None => Err(SpawnError::Exhausted),
            }
        },
        Err(message) => Err(SpawnError::Failed(message)),
    }
}

/// Confirms the entry under the palette's cursor: dispatches its action and
/// closes the palette. Where nothing matches, nothing is dispatched and the
/// palette stays as it is.
pub fn confirm_palette(state: &mut AppState) -> (effect: Effect)
    requires
        old(state).wf(),
    ensures
        final(state).wf(),
        final(state)@ == old(state)@.after_confirm(),
        effect@ == old(state)@.effect_of_confirm(),
{
    let position = state.palette.selected();
    pick_match(state, position)
}

/// Picks the match at `position`, as a click on it does: dispatches its
/// action and closes the palette. Where there is no such match, nothing is
/// dispatched and the palette stays as it is.
pub fn pick_match(state: &mut AppState, position: usize) -> (effect: Effect)
    requires
        old(state).wf(),
    ensures
        final(state).wf(),
        final(state)@ == old(state)@.after_pick(position as int),
        effect@ == old(state)@.effect_of_pick(position as int),
{
    let chosen = match state.palette.action_at(position) {
        Some(action) => Some(action.duplicate()),
        None => None,
    };
    match chosen {
        Some(action) => {
            let effect = handle_action(state, action);
            state.palette_open = false;
            effect
        },
        None => Effect::Nothing,
    }
}

impl AppState {
    /// Replaces the palette's query; the matches follow and the cursor
    /// goes back to the first of them.
    pub fn set_palette_query(&mut self, query: String)
        requires
            old(self).wf(),
        ensures
            final(self).wf(),
            final(self)@ == (AppModel {
                palette: PaletteModel { query: query@, selected: 0, ..old(self)@.palette },
                ..old(self)@
            }),
    {
        self.palette.set_query(query);
    }

    /// Moves the palette's cursor one match up, wrapping at the first.
    pub fn palette_up(&mut self)
        requires
            old(self).wf(),
        ensures
            final(self).wf(),
            final(self)@ == (AppModel {
                palette: PaletteModel {
                    selected: crate::palette::cursor_up(
                        old(self)@.palette.selected,
                        old(self)@.palette.matches().len() as int,
                    ),
                    ..old(self)@.palette
                },
                ..old(self)@
            }),
    {
        self.palette.move_up();
    }

    /// Moves the palette's cursor one match down, wrapping at the last.
    pub fn palette_down(&mut self)
        requires
            old(self).wf(),
        ensures
            final(self).wf(),
            final(self)@ == (AppModel {
                palette: PaletteModel {
                    selected: crate::palette::cursor_down(
                        old(self)@.palette.selected,
                        old(self)@.palette.matches().len() as int,
                    ),
                    ..old(self)@.palette
                },
                ..old(self)@
            }),
    {
        self.palette.move_down();
    }

    /// Gives the focus to the tab at `index`. Returns whether there is such
    /// a tab; where there is none, nothing changes.
    pub fn focus_tab(&mut self, index: usize) -> (moved: bool)
        requires
            old(self).wf(),
        ensures
            final(self).wf(),
            moved == (index < old(self)@.registry.tabs.len()),
            final(self)@ == (AppModel {
                registry: old(self)@.registry.focus_on(index as int),
                ..old(self)@
            }),
    {
        self.registry.focus(index)
    }

    /// Gives the tab with this identifier the title that its terminal
    /// reported. Returns whether such a tab is open; where none is, nothing
    /// changes.
    pub fn set_title(&mut self, id: u64, title: String) -> (renamed: bool)
        requires
            old(self).wf(),
        ensures
            final(self).wf(),
            renamed == old(self)@.registry.has_id(id),
            final(self)@ == (AppModel {
                registry: old(self)@.registry.rename(id, title@),
                ..old(self)@
            }),
    {
        self.registry.rename(id, title)
    }
}

/// Appends a tab that is no terminal and gives it the focus.
fn open_pane(state: &mut AppState, tab_type: TabType, name: String)
    requires
        old(state).wf(),
    ensures
        final(state).wf(),
        final(state)@ == (AppModel {
            registry: opened(old(state)@.registry, tab_type, name@, Seq::empty()),
            ..old(state)@
        }),
{
    let created = state.registry.create(tab_type, name, String::new());
    if created.is_some() {
        state.registry.focus_last();
    }
}

/// Closing a tab asks for the window to be closed exactly when it empties
/// the table.
pub proof fn lemma_shutdown_when_emptied(state: AppModel, index: usize)
    requires
        state.registry.valid(),
    ensures
        state.effect_of(Action::CloseTab) is Shutdown <==> state.registry.tabs.len() > 0
            && state.after(Action::CloseTab).registry.tabs.len() == 0,
        state.effect_of(Action::CloseTabAt(index)) is Shutdown <==> state.registry.tabs.len() > 0
            && state.after(Action::CloseTabAt(index)).registry.tabs.len() == 0,
{
}

/// Closing the last tab asks once for the window to be closed: the close
/// that empties the table does, and no close of the empty table that
/// follows does again or changes anything.
pub proof fn lemma_last_close_asks_once(state: AppModel, index: usize)
    requires
        state.registry.valid(),
        state.registry.tabs.len() == 1,
    ensures
        state.effect_of(Action::CloseTab) is Shutdown,
        state.effect_of(Action::CloseTabAt(0)) is Shutdown,
        state.after(Action::CloseTab) == state.after(Action::CloseTabAt(0)),
        state.after(Action::CloseTab).registry.tabs.len() == 0,
        state.after(Action::CloseTab).effect_of(Action::CloseTab) is Nothing,
        state.after(Action::CloseTab).effect_of(Action::CloseTabAt(index)) is Nothing,
        state.after(Action::CloseTab).after(Action::CloseTab) == state.after(Action::CloseTab),
        state.after(Action::CloseTab).after(Action::CloseTabAt(index)) == state.after(
            Action::CloseTab,
        ),
{
}

/// A step to the next tab and one to the previous return the focus to
/// where it was, and leave nothing for the caller to do.
pub proof fn lemma_next_then_previous(state: AppModel)
    requires
        state.registry.valid(),
    ensures
        state.after(Action::NextTab).after(Action::PreviousTab) == state,
        state.after(Action::PreviousTab).after(Action::NextTab) == state,
        state.effect_of(Action::NextTab) is Nothing,
        state.effect_of(Action::PreviousTab) is Nothing,
{
    crate::registry::lemma_next_previous_undo(state.registry);
}

/// Text is written only to a focused terminal: with a pane focused, or no
/// tab open, a write changes nothing and leaves nothing to do.
pub proof fn lemma_write_needs_terminal(state: AppModel, text: String)
    ensures
        state.after(Action::Write(text)) == state,
        !state.terminal_focused() ==> state.effect_of(Action::Write(text)) is Nothing,
        state.terminal_focused() ==> state.effect_of(Action::Write(text)) == (EffectModel::Write {
            pty: state.registry.tabs[state.registry.focus].pty,
            text: text@,
        }),
{
}

/// Every action has its outcome: one that the dispatcher gives no effect
/// of its own is reported as such and changes nothing, and no other is.
pub proof fn lemma_unwired_actions_are_reported(state: AppModel, action: Action)
    ensures
        !action.is_wired() ==> state.effect_of(action) is Unimplemented && state.after(action)
            == state,
        action.is_wired() ==> !(state.effect_of(action) is Unimplemented),
{
}

/// Whatever is dispatched, the table stays valid: the focus points at a
/// tab while there is one, and no identifier occurs twice.
pub proof fn lemma_dispatch_keeps_valid(state: AppModel, action: Action)
    requires
        state.registry.valid(),
    ensures
        state.after(action).registry.valid(),
        state.after_key(action).registry.valid(),
{
    match action {
        Action::CloseTab => {
            crate::registry::lemma_close_keeps_valid(state.registry, state.registry.focus);
        },
        Action::CloseTabAt(index) => {
            crate::registry::lemma_close_keeps_valid(state.registry, index as int);
        },
        Action::OpenSettings => {
            lemma_opened_keeps_valid(state.registry, TabType::Menu, settings_title(), Seq::empty());
        },
        Action::OpenPluginMenu => {
            lemma_opened_keeps_valid(
                state.registry,
                TabType::PluginMenu,
                plugins_title(),
                Seq::empty(),
            );
        },
        _ => {},
    }
}

/// Opening a tab keeps the table valid, gives the new tab the focus and
/// leaves the tabs before it as they were.
pub proof fn lemma_opened_keeps_valid(
    registry: RegistryModel,
    tab_type: TabType,
    name: Seq<char>,
    pty: Seq<char>,
)
    requires
        registry.valid(),
    ensures
        opened(registry, tab_type, name, pty).valid(),
        registry.next_id < u64::MAX ==> {
            let after = opened(registry, tab_type, name, pty);
            &&& after.tabs.len() == registry.tabs.len() + 1
            &&& after.focus == registry.tabs.len()
            &&& after.tabs[after.focus].id == registry.next_id
            &&& after.tabs[after.focus].tab_type == tab_type
            &&& forall|i: int| 0 <= i < registry.tabs.len() ==> after.tabs[i] == registry.tabs[i]
        },
{
}

} // verus!
