//! The tab of the runners: choose a runner, choose what to do to it, and
//! commit the change.
//!
//! While the loading popup is shown, the keys that commit and Escape are
//! held back, so no second command can be committed before the refresh that
//! answers the first has arrived; the cursor, the filter and the way back
//! stay free. While a typing popup is shown, keys edit the typed text,
//! commit it or cancel the popup, and do nothing else.

use crate::backend::BackendMessage;
use crate::backend::CommandView;
use crate::cache::pointee;
use crate::runners::Runner;
use crate::text::pop_char;
use crate::text::push_char;
use crate::ui::at_first;
use crate::ui::held_back;
use crate::ui::clamped;
use crate::ui::item_texts;
use crate::ui::loading_popup;
use crate::ui::matching;
use crate::ui::moved_down;
use crate::ui::moved_up;
use crate::ui::at_last;
use crate::ui::popup_view;
use crate::ui::typing_popup;
use crate::ui::DisplayText;
use crate::ui::FilterableList;
use crate::ui::Handled;
use crate::ui::KeyCode;
use crate::ui::KeyEvent;
use crate::ui::ListEntry;
use crate::ui::PopupInfo;
use crate::ui::PopupView;
use crate::ui::RunnerOperation;
use crate::ui::SelectableList;
use vstd::prelude::*;
use vstd::string::StringExecFns;

verus! {

/// The steps of the tab.
#[derive(Debug, Clone, Copy, PartialEq, Eq, Structural)]
pub enum Stage {
    SelectRunner,
    SelectOp,
    RemoveLabels,
    AddToGroup,
}

/// The tab of the runners.
pub struct RunnersTab {
    runners: FilterableList<Runner>,
    operations: SelectableList<RunnerOperation>,
    dynamic_list: SelectableList<ListEntry>,
    stage: Stage,
    input_buffer: String,
    popup_content: Option<PopupInfo>,
}

/// The state of the tab as the contracts see it.
pub struct RunnersTabView {
    pub stage: Stage,
    pub popup: Option<PopupView>,
    /// The text typed into the popup.
    pub input: Seq<char>,
    pub runners: Seq<Runner>,
    /// The positions in `runners` of the runners that the filter shows.
    pub visible: Seq<usize>,
    /// The position in `visible` of the highlighted runner.
    pub cursor: Option<usize>,
    pub filter: Seq<char>,
    /// The operations on offer.
    pub ops: Seq<RunnerOperation>,
    /// The position of the highlighted operation.
    pub op_cursor: Option<usize>,
    /// The labels offered for removal.
    pub entries: Seq<ListEntry>,
    pub entry_cursor: Option<usize>,
}

/// What one key does: the state after it, whether the application is to
/// end, and the command that the key committed.
pub struct Stepped {
    pub state: RunnersTabView,
    pub exit: bool,
    pub command: Option<CommandView>,
}

/// The key changes the state and nothing else.
pub open spec fn moved(state: RunnersTabView) -> Stepped {
    Stepped { state, exit: false, command: None }
}

/// The highlighted runner, where there is one.
pub open spec fn chosen(v: RunnersTabView) -> Runner {
    v.runners[v.visible[v.cursor.unwrap() as int] as int]
}

/// A text without its last character; the empty text as it is.
pub open spec fn erased(text: Seq<char>) -> Seq<char> {
    if text.len() == 0 {
        text
    } else {
        text.drop_last()
    }
}

/// The labels of a runner as the entries of a list.
pub open spec fn label_entries(labels: Seq<String>) -> Seq<ListEntry> {
    Seq::new(labels.len(), |i: int| ListEntry::Label(labels[i]))
}

/// The state under another filter text: the runners that the text shows,
/// and the cursor as far as they reach.
pub open spec fn refiltered(v: RunnersTabView, filter: Seq<char>) -> RunnersTabView {
    let visible = matching(item_texts(v.runners), filter);
    RunnersTabView { filter, visible, cursor: clamped(v.cursor, visible.len()), ..v }
}

/// A key while a typing popup is open.
pub open spec fn typing(v: RunnersTabView, key: KeyCode) -> Stepped {
    match key {
        KeyCode::Esc => moved(RunnersTabView { popup: None, ..v }),
        KeyCode::Char(c) => moved(RunnersTabView { input: v.input.push(c), ..v }),
        KeyCode::Backspace => moved(RunnersTabView { input: erased(v.input), ..v }),
        KeyCode::Right | KeyCode::Enter => if v.cursor.is_some() {
            Stepped {
                state: RunnersTabView { popup: Some(loading_popup()), input: Seq::empty(), ..v },
                exit: false,
                command: Some(CommandView::AddLabel(chosen(v).id, v.input)),
            }
        } else {
            moved(v)
        },
        _ => moved(v),
    }
}

/// A key while a runner is being chosen.
pub open spec fn selecting_runner(v: RunnersTabView, key: KeyCode) -> Stepped {
    match key {
        KeyCode::Esc => Stepped { state: v, exit: true, command: None },
        KeyCode::Left => moved(RunnersTabView { cursor: None, ..v }),
        KeyCode::Down => moved(RunnersTabView { cursor: moved_down(v.cursor, v.visible.len()), ..v }),
        KeyCode::Up => moved(RunnersTabView { cursor: moved_up(v.cursor, v.visible.len()), ..v }),
        KeyCode::Home => moved(RunnersTabView { cursor: at_first(v.visible.len()), ..v }),
        KeyCode::End => moved(RunnersTabView { cursor: at_last(v.visible.len()), ..v }),
        KeyCode::Right | KeyCode::Enter => if v.cursor.is_some() {
            moved(RunnersTabView { stage: Stage::SelectOp, ..v })
        } else {
            moved(v)
        },
        KeyCode::Backspace => moved(refiltered(v, erased(v.filter))),
        KeyCode::Char(c) => moved(refiltered(v, v.filter.push(c))),
        _ => moved(v),
    }
}

/// A key while an operation is being chosen.
pub open spec fn selecting_op(v: RunnersTabView, key: KeyCode) -> Stepped {
    match key {
        KeyCode::Esc | KeyCode::Left => moved(RunnersTabView { stage: Stage::SelectRunner, ..v }),
        KeyCode::Up => moved(RunnersTabView { op_cursor: moved_up(v.op_cursor, v.ops.len()), ..v }),
        KeyCode::Down => moved(RunnersTabView { op_cursor: moved_down(v.op_cursor, v.ops.len()), ..v }),
        KeyCode::Backspace => moved(RunnersTabView { input: erased(v.input), ..v }),
        KeyCode::Right | KeyCode::Enter => if v.cursor.is_none() || v.op_cursor.is_none() {
            moved(v)
        } else {
            match v.ops[v.op_cursor.unwrap() as int] {
                RunnerOperation::AddLabel => moved(
                    RunnersTabView { popup: Some(typing_popup("Input new label:"@)), ..v },
                ),
                RunnerOperation::RemoveLabel => moved(
                    RunnersTabView {
                        stage: Stage::RemoveLabels,
                        entries: label_entries(chosen(v).labels@),
                        entry_cursor: None,
                        ..v
                    },
                ),
                RunnerOperation::ChangeGroup => moved(RunnersTabView { stage: Stage::AddToGroup, ..v }),
            }
        },
        _ => moved(v),
    }
}

/// A key while a label is being chosen for removal.
pub open spec fn removing_labels(v: RunnersTabView, key: KeyCode) -> Stepped {
    match key {
        KeyCode::Esc | KeyCode::Left => moved(RunnersTabView { stage: Stage::SelectOp, ..v }),
        KeyCode::Up => moved(RunnersTabView { entry_cursor: moved_up(v.entry_cursor, v.entries.len()), ..v }),
        KeyCode::Down => moved(RunnersTabView { entry_cursor: moved_down(v.entry_cursor, v.entries.len()), ..v }),
        KeyCode::Enter => if v.cursor.is_some() && v.entry_cursor.is_some() {
            Stepped {
                state: RunnersTabView { popup: Some(loading_popup()), ..v },
                exit: false,
                command: Some(
                    CommandView::DeleteLabel(chosen(v).id, v.entries[v.entry_cursor.unwrap() as int].text()),
                ),
            }
        } else {
            moved(v)
        },
        _ => moved(v),
    }
}

/// A key at the stage that the tab is at, the popup apart.
pub open spec fn browsing(v: RunnersTabView, key: KeyCode) -> Stepped {
    match v.stage {
        Stage::SelectRunner => selecting_runner(v, key),
        Stage::SelectOp => selecting_op(v, key),
        Stage::RemoveLabels => removing_labels(v, key),
        Stage::AddToGroup => match key {
            KeyCode::Esc | KeyCode::Left => moved(RunnersTabView { stage: Stage::SelectOp, ..v }),
            _ => moved(v),
        },
    }
}

/// What one key does to the tab. Escape cancels a typing popup; without a
/// popup it steps back one stage, and at the first stage it ends the
/// application. Under the loading popup the keys that commit and Escape do
/// nothing, and every other key does what it does without a popup: the
/// popup stays until the refresh arrives.
pub open spec fn step(v: RunnersTabView, key: KeyCode) -> Stepped {
    match v.popup {
        Some(popup) => if popup.is_loading {
            if held_back(key) {
                moved(v)
            } else {
                browsing(v, key)
            }
        } else {
            typing(v, key)
        },
        None => browsing(v, key),
    }
}

/// The state after fresh runners have arrived: the list is replaced and
/// filtered by the filter text as it stands, a loading popup is closed, and
/// the tab is back at its first stage.
pub open spec fn refreshed(v: RunnersTabView, runners: Seq<Runner>) -> RunnersTabView {
    let fresh = refiltered(RunnersTabView { runners, ..v }, v.filter);
    RunnersTabView { stage: Stage::SelectRunner, popup: without_loading(v.popup), ..fresh }
}

/// A popup, unless it is the loading popup.
pub open spec fn without_loading(popup: Option<PopupView>) -> Option<PopupView> {
    match popup {
        Some(p) => if p.is_loading {
            None
        } else {
            Some(p)
        },
        None => None,
    }
}

/// The tab as it opens over `runners`: at its first stage, with every
/// runner visible, the first runner and the first operation highlighted,
/// and no popup.
pub open spec fn opened(runners: Seq<Runner>) -> RunnersTabView {
    RunnersTabView {
        stage: Stage::SelectRunner,
        popup: None,
        input: Seq::empty(),
        runners,
        visible: crate::ui::all_positions(runners.len()),
        cursor: at_first(runners.len()),
        filter: Seq::empty(),
        ops: RunnerOperation::offered(),
        op_cursor: Some(0usize),
        entries: Seq::empty(),
        entry_cursor: None,
    }
}

/// What is compared of an optional command.
pub open spec fn command_view(command: Option<BackendMessage>) -> Option<CommandView> {
    match command {
        Some(c) => Some(c@),
        None => None,
    }
}

/// Committing on a highlighted runner leads to the choice of an operation
/// with that runner remembered: no key pressed after it, at any stage but
/// the first, changes the runners, the filter or the cursor.
pub proof fn lemma_commit_remembers_runner(v: RunnersTabView, key: KeyCode)
    requires
        v.popup.is_none(),
        v.stage == Stage::SelectRunner,
        v.cursor.is_some(),
    ensures
        step(v, KeyCode::Enter).state.stage == Stage::SelectOp,
        step(v, KeyCode::Enter).command.is_none(),
        !step(v, KeyCode::Enter).exit,
        chosen(step(v, KeyCode::Enter).state) == chosen(v),
        step(v, KeyCode::Right) == step(v, KeyCode::Enter),
        chosen(step(step(v, KeyCode::Enter).state, key).state) == chosen(v),
{
}

/// At every stage but the first, a key leaves the runners, the filter and
/// the cursor as they are, whichever operation it chooses.
pub proof fn lemma_later_stages_keep_runner(v: RunnersTabView, key: KeyCode)
    requires
        v.stage != Stage::SelectRunner,
    ensures
        step(v, key).state.runners == v.runners,
        step(v, key).state.visible == v.visible,
        step(v, key).state.cursor == v.cursor,
        step(v, key).state.filter == v.filter,
{
}

/// A key commits a command only where no popup is loading, and then opens
/// the loading popup: until that popup is closed, no key commits another,
/// closes the popup or ends the application.
pub proof fn lemma_commit_blocks_until_refresh(v: RunnersTabView, key: KeyCode, next: KeyCode)
    requires
        step(v, key).command.is_some(),
    ensures
        v.popup != Some(loading_popup()),
        step(v, key).state.popup == Some(loading_popup()),
        step(step(v, key).state, next).command.is_none(),
        step(step(v, key).state, next).state.popup == Some(loading_popup()),
        !step(step(v, key).state, next).exit,
{
}

/// While the loading popup is shown, no key commits a command, closes the
/// popup, opens another or ends the application.
pub proof fn lemma_loading_holds_commits_back(v: RunnersTabView, key: KeyCode)
    requires
        v.popup.is_some(),
        v.popup.unwrap().is_loading,
    ensures
        step(v, key).command.is_none(),
        step(v, key).state.popup == v.popup,
        !step(v, key).exit,
{
}

impl View for RunnersTab {
    type V = RunnersTabView;

    closed spec fn view(&self) -> RunnersTabView {
        RunnersTabView {
            stage: self.stage,
            popup: popup_view(self.popup_content),
            input: self.input_buffer@,
            runners: self.runners.items(),
            visible: self.runners.visible(),
            cursor: self.runners.cursor(),
            filter: self.runners.input(),
            ops: self.operations.items(),
            op_cursor: self.operations.cursor(),
            entries: self.dynamic_list.items(),
            entry_cursor: self.dynamic_list.cursor(),
        }
    }
}

/// The labels of a runner as the entries of a list.
fn entries_of(labels: &Vec<String>) -> (entries: Vec<ListEntry>)
    ensures
        entries@ == label_entries(labels@),
{
    let mut entries: Vec<ListEntry> = Vec::new();
    let mut i: usize = 0;
    while i < labels.len()
        invariant
            i <= labels.len(),
            entries.len() == i,
            forall|k: int| 0 <= k < i ==> #[trigger] entries@[k] == ListEntry::Label(labels@[k]),
        decreases labels.len() - i,
    {
        entries.push(ListEntry::Label(labels[i].clone()));
        i = i + 1;
    }
    assert(entries@ =~= label_entries(labels@));
    entries
}

impl RunnersTab {
    /// The lists are in order: every cursor points into its list, and the
    /// visible runners are those that the filter text shows.
    pub closed spec fn wf(&self) -> bool {
        &&& self.runners.wf()
        &&& self.runners.in_sync()
        &&& self.operations.wf()
        &&& self.dynamic_list.wf()
    }

    /// The tab at its first stage, with the first runner and the first
    /// operation highlighted.
    pub fn new(runners: Vec<Runner>) -> (tab: RunnersTab)
        ensures
            tab.wf(),
            tab@ == opened(runners@),
    {
        let tab = RunnersTab {
            runners: FilterableList::new(runners).with_first_selected(),
            operations: SelectableList::new(RunnerOperation::all()).with_first_selected(),
            stage: Stage::SelectRunner,
            dynamic_list: SelectableList::new(Vec::new()),
            input_buffer: String::new(),
            popup_content: None,
        };
        assert(tab@.visible.len() == runners@.len());
        tab
    }

    /// Closes the loading popup, if it is the one that is open.
    fn toggle_loading(&mut self)
        ensures
            final(self).wf() == old(self).wf(),
            final(self)@ == (RunnersTabView { popup: without_loading(old(self)@.popup), ..old(self)@ }),
    {
        let loading = match &self.popup_content {
            Some(popup) => popup.is_loading,
            None => false,
        };
        if loading {
            self.popup_content = None;
        }
    }

    /// Takes in fresh runners.
    pub fn set_runners(&mut self, runners: Vec<Runner>)
        requires
            old(self).wf(),
        ensures
            final(self).wf(),
            final(self)@ == refreshed(old(self)@, runners@),
    {
        self.runners.set_items(runners);
        self.toggle_loading();
        self.stage = Stage::SelectRunner;
    }

    /// The highlighted runner, if any.
    pub fn selected(&self) -> (runner: Option<&Runner>)
        requires
            self.wf(),
        ensures
            runner.is_some() == self@.cursor.is_some(),
            runner.is_some() ==> *runner.unwrap() == chosen(self@),
    {
        self.runners.selected()
    }

    /// The stage the tab is at.
    pub fn stage(&self) -> (stage: Stage)
        ensures
            stage == self@.stage,
    {
        self.stage
    }

    /// The popup, if one is open.
    pub fn popup(&self) -> (popup: &Option<PopupInfo>)
        ensures
            popup_view(*popup) == self@.popup,
    {
        &self.popup_content
    }

    /// The text typed into the popup.
    pub fn input(&self) -> (input: &String)
        ensures
            input@ == self@.input,
    {
        &self.input_buffer
    }

    /// The list of the runners.
    pub fn runners(&self) -> (list: &FilterableList<Runner>)
        ensures
            list.items() == self@.runners,
            list.visible() == self@.visible,
            list.cursor() == self@.cursor,
            list.input() == self@.filter,
            self.wf() ==> list.wf() && list.in_sync(),
    {
        &self.runners
    }

    /// The list of the operations.
    pub fn operations(&self) -> (list: &SelectableList<RunnerOperation>)
        ensures
            list.cursor() == self@.op_cursor,
            list.items() == self@.ops,
            self.wf() ==> list.wf(),
    {
        &self.operations
    }

    /// The list of the labels offered for removal.
    pub fn dynamic_list(&self) -> (list: &SelectableList<ListEntry>)
        ensures
            list.items() == self@.entries,
            list.cursor() == self@.entry_cursor,
            self.wf() ==> list.wf(),
    {
        &self.dynamic_list
    }

    /// The id of the runner that is to change its group, once the operator
    /// has chosen that operation: the tab of the groups then picks the
    /// target.
    pub fn pending_group_change(&self) -> (runner_id: Option<usize>)
        requires
            self.wf(),
        ensures
            runner_id == (if self@.stage == Stage::AddToGroup && self@.cursor.is_some() {
                Some(chosen(self@).id)
            } else {
                None
            }),
    {
        match self.stage {
            Stage::AddToGroup => match self.runners.selected() {
                Some(runner) => Some(runner.id),
                None => None,
            },
            _ => None,
        }
    }

    /// The title over the list that the stage shows.
    pub fn title(&self) -> (title: String)
        requires
            self.wf(),
        ensures
            title@ == (match self@.stage {
                Stage::SelectRunner => "Runners - "@ + self@.filter,
                Stage::SelectOp => if self@.cursor.is_some() {
                    "Select operation - "@ + chosen(self@).name@
                } else {
                    "Select operation - "@
                },
                Stage::RemoveLabels => if self@.cursor.is_some() {
                    "Remove labels - "@ + chosen(self@).name@
                } else {
                    "Remove labels - "@
                },
                Stage::AddToGroup => Seq::empty(),
            }),
    {
        match self.stage {
            Stage::SelectRunner => {
                let mut title = String::from_str("Runners - ");
                title.append(self.runners.input_buffer().as_str());
                title
            },
            Stage::SelectOp => {
                let mut title = String::from_str("Select operation - ");
                match self.runners.selected() {
                    Some(runner) => title.append(runner.name.as_str()),
                    None => {},
                }
                title
            },
            Stage::RemoveLabels => {
                let mut title = String::from_str("Remove labels - ");
                match self.runners.selected() {
                    Some(runner) => title.append(runner.name.as_str()),
                    None => {},
                }
                title
            },
            Stage::AddToGroup => String::new(),
        }
    }

    fn add_to_input(&mut self, c: char)
        ensures
            final(self).wf() == old(self).wf(),
            final(self)@ == (RunnersTabView { input: old(self)@.input.push(c), ..old(self)@ }),
    {
        push_char(&mut self.input_buffer, c);
    }

    fn remove_last_input(&mut self)
        ensures
            final(self).wf() == old(self).wf(),
            final(self)@ == (RunnersTabView { input: erased(old(self)@.input), ..old(self)@ }),
    {
        let _ = pop_char(&mut self.input_buffer);
    }

    /// Commits the typed label for the highlighted runner.
    fn add_label(&mut self) -> (command: Option<BackendMessage>)
        requires
            old(self).wf(),
        ensures
            final(self).wf(),
            old(self)@.cursor.is_some() ==> command_view(command) == Some(
                CommandView::AddLabel(chosen(old(self)@).id, old(self)@.input),
            ) && final(self)@ == (RunnersTabView {
                popup: Some(loading_popup()),
                input: Seq::empty(),
                ..old(self)@
            }),
            old(self)@.cursor.is_none() ==> command.is_none() && final(self)@ == old(self)@,
    {
        let runner_id = match self.runners.selected() {
            Some(runner) => runner.id,
            None => {
                return None;
            },
        };
        self.popup_content = Some(PopupInfo::loading());
        let mut input = String::new();
        std::mem::swap(&mut self.input_buffer, &mut input);
        Some(BackendMessage::AddLabel(runner_id, input))
    }

    /// Commits the removal of the highlighted label from the highlighted
    /// runner.
    fn remove_label(&mut self) -> (command: Option<BackendMessage>)
        requires
            old(self).wf(),
        ensures
            final(self).wf(),
            command_view(command) == removing_labels(old(self)@, KeyCode::Enter).command,
            final(self)@ == removing_labels(old(self)@, KeyCode::Enter).state,
    {
        let runner_id = match self.runners.selected() {
            Some(runner) => runner.id,
            None => {
                return None;
            },
        };
        let label = match self.dynamic_list.selected() {
            Some(entry) => entry.display(),
            None => {
                return None;
            },
        };
        self.popup_content = Some(PopupInfo::loading());
        Some(BackendMessage::DeleteLabel(runner_id, label))
    }

    /// Acts on the highlighted operation.
    fn choose_operation(&mut self)
        requires
            old(self).wf(),
        ensures
            final(self).wf(),
            final(self)@ == selecting_op(old(self)@, KeyCode::Enter).state,
    {
        let operation = match self.operations.selected() {
            Some(op) => *op,
            None => {
                return ;
            },
        };
        let labels = match self.runners.selected() {
            Some(runner) => entries_of(&runner.labels),
            None => {
                return ;
            },
        };
        match operation {
            RunnerOperation::AddLabel => {
                self.popup_content = Some(PopupInfo::new_dynamic(String::from_str("Input new label:")));
            },
            RunnerOperation::RemoveLabel => {
                self.dynamic_list.set_items(labels);
                self.stage = Stage::RemoveLabels;
            },
            RunnerOperation::ChangeGroup => {
                self.stage = Stage::AddToGroup;
            },
        }
    }

    /// Shows the loading popup: a change to the highlighted runner is under
    /// way that was committed elsewhere.
    pub fn show_loading(&mut self)
        ensures
            final(self).wf() == old(self).wf(),
            final(self)@ == (RunnersTabView { popup: Some(loading_popup()), ..old(self)@ }),
    {
        self.popup_content = Some(PopupInfo::loading());
    }

    /// Handles one key at the stage that the tab is at, the popup apart.
    fn browse(&mut self, code: KeyCode) -> (handled: Handled)
        requires
            old(self).wf(),
        ensures
            final(self).wf(),
            final(self)@ == browsing(old(self)@, code).state,
            handled.exit == browsing(old(self)@, code).exit,
            command_view(handled.command) == browsing(old(self)@, code).command,
    {
        let mut exit = false;
        let mut command: Option<BackendMessage> = None;
        match self.stage {
            Stage::SelectRunner => match code {
                KeyCode::Esc => {
                    exit = true;
                },
                KeyCode::Left => self.runners.select_none(),
                KeyCode::Down => self.runners.select_next(),
                KeyCode::Up => self.runners.select_previous(),
                KeyCode::Home => self.runners.select_first(),
                KeyCode::End => self.runners.select_last(),
                KeyCode::Right | KeyCode::Enter => {
                    if self.runners.selected_index().is_some() {
                        self.stage = Stage::SelectOp;
                    }
                },
                KeyCode::Backspace => self.runners.remove_last_input(),
                KeyCode::Char(c) => self.runners.update_filter(c),
                _ => {},
            },
            Stage::SelectOp => match code {
                KeyCode::Esc | KeyCode::Left => {
                    self.stage = Stage::SelectRunner;
                },
                KeyCode::Up => self.operations.select_previous(),
                KeyCode::Down => self.operations.select_next(),
                KeyCode::Backspace => self.remove_last_input(),
                KeyCode::Right | KeyCode::Enter => self.choose_operation(),
                _ => {},
            },
            Stage::RemoveLabels => match code {
                KeyCode::Esc | KeyCode::Left => {
                    self.stage = Stage::SelectOp;
                },
                KeyCode::Up => self.dynamic_list.select_previous(),
                KeyCode::Down => self.dynamic_list.select_next(),
                KeyCode::Enter => {
                    command = self.remove_label();
                },
                _ => {},
            },
            Stage::AddToGroup => match code {
                KeyCode::Esc | KeyCode::Left => {
                    self.stage = Stage::SelectOp;
                },
                _ => {},
            },
        }
        Handled { exit, command }
    }

    /// Handles one key. The result says whether the application is to end
    /// and which command, if any, the key committed.
    pub fn handle_input(&mut self, event: KeyEvent) -> (handled: Handled)
        requires
            old(self).wf(),
        ensures
            final(self).wf(),
            final(self)@ == step(old(self)@, event.code).state,
            handled.exit == step(old(self)@, event.code).exit,
            command_view(handled.command) == step(old(self)@, event.code).command,
    {
        let popup_loading = match &self.popup_content {
            Some(popup) => Some(popup.is_loading),
            None => None,
        };
        match popup_loading {
            Some(true) => match event.code {
                KeyCode::Enter | KeyCode::Right | KeyCode::Esc => Handled { exit: false, command: None },
                _ => self.browse(event.code),
            },
            Some(false) => {
                let mut command: Option<BackendMessage> = None;
                match event.code {
                    KeyCode::Esc => {
                        self.popup_content = None;
                    },
                    KeyCode::Char(c) => self.add_to_input(c),
                    KeyCode::Backspace => self.remove_last_input(),
                    KeyCode::Right | KeyCode::Enter => {
                        command = self.add_label();
                    },
                    _ => {},
                }
                Handled { exit: false, command }
            },
            None => self.browse(event.code),
        }
    }
}

} // verus!
