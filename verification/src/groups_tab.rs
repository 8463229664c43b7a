//! The tab of the runner groups: choose a group, choose what to do to it,
//! and commit the change. The tab also picks the target when a runner is to
//! change its group.
//!
//! Popups work as in the tab of the runners: the loading popup holds back
//! the keys that commit and Escape, and a typing popup takes the keys that
//! edit, commit or cancel the typed text.

use crate::api::ApiRepository;
use crate::api::ApiRunnerGroupCreate;
use crate::api::GroupCreateView;
use crate::api::RunnerGroupVisibility;
use crate::backend::BackendMessage;
use crate::backend::CommandView;
use crate::runners::RunnerGroup;
use crate::runners_tab::command_view;
use crate::runners_tab::erased;
use crate::runners_tab::without_loading;
use crate::text::pop_char;
use crate::text::push_char;
use crate::ui::at_first;
use crate::ui::held_back;
use crate::ui::at_last;
use crate::ui::clamped;
use crate::ui::item_texts;
use crate::ui::loading_popup;
use crate::ui::matching;
use crate::ui::moved_down;
use crate::ui::moved_up;
use crate::ui::popup_view;
use crate::ui::typing_popup;
use crate::ui::FilterableList;
use crate::ui::GroupOperation;
use crate::ui::Handled;
use crate::ui::KeyCode;
use crate::ui::KeyEvent;
use crate::ui::ListEntry;
use crate::ui::PopupInfo;
use crate::ui::PopupView;
use crate::ui::SelectableList;
use vstd::prelude::*;
use vstd::string::StringExecFns;

verus! {

/// The steps of the tab.
#[derive(Debug, Clone, Copy, PartialEq, Eq, Structural)]
pub enum Stage {
    SelectGroup,
    SelectOperation,
    CreateGroup,
    AddRepo,
    ListRepos,
}

/// The tab of the runner groups.
pub struct RunnersGroupsTab {
    groups: FilterableList<RunnerGroup>,
    operations: SelectableList<GroupOperation>,
    dynamic_list: SelectableList<ListEntry>,
    stage: Stage,
    input_buffer: String,
    popup_content: Option<PopupInfo>,
    target: Option<usize>,
}

/// The state of the tab as the contracts see it.
pub struct GroupsTabView {
    pub stage: Stage,
    pub popup: Option<PopupView>,
    /// The text typed into the popup.
    pub input: Seq<char>,
    pub groups: Seq<RunnerGroup>,
    /// The positions in `groups` of the groups that the filter shows.
    pub visible: Seq<usize>,
    /// The position in `visible` of the highlighted group.
    pub cursor: Option<usize>,
    pub filter: Seq<char>,
    /// The operations on offer.
    pub ops: Seq<GroupOperation>,
    /// The position of the highlighted operation.
    pub op_cursor: Option<usize>,
    /// The repositories with access to the chosen group.
    pub entries: Seq<ListEntry>,
    pub entry_cursor: Option<usize>,
    /// The runner that is to join the group chosen next.
    pub target: Option<usize>,
}

/// What one key does: the state after it, whether the application is to
/// end, and the command that the key committed.
pub struct Stepped {
    pub state: GroupsTabView,
    pub exit: bool,
    pub command: Option<CommandView>,
}

/// The key changes the state and nothing else.
pub open spec fn moved(state: GroupsTabView) -> Stepped {
    Stepped { state, exit: false, command: None }
}

/// The key commits `command`: the loading popup opens, the typed text is
/// used up, and the tab is back at its first stage.
pub open spec fn committed(v: GroupsTabView, command: CommandView) -> Stepped {
    Stepped {
        state: GroupsTabView {
            stage: Stage::SelectGroup,
            popup: Some(loading_popup()),
            input: Seq::empty(),
            target: None,
            ..v
        },
        exit: false,
        command: Some(command),
    }
}

/// The highlighted group, where there is one.
pub open spec fn chosen(v: GroupsTabView) -> RunnerGroup {
    v.groups[v.visible[v.cursor.unwrap() as int] as int]
}

/// The repositories of a group as the entries of a list.
pub open spec fn repo_entries(repos: Seq<ApiRepository>) -> Seq<ListEntry> {
    Seq::new(repos.len(), |i: int| ListEntry::Repository(repos[i]))
}

/// The request to create a group called `name`: visible to selected
/// repositories, with no repository and no runner yet.
pub open spec fn new_group(name: Seq<char>) -> GroupCreateView {
    GroupCreateView {
        name,
        visibility: RunnerGroupVisibility::Selected,
        selected_repository_ids: Seq::empty(),
        runners: Seq::empty(),
    }
}

/// The state under another filter text: the groups that the text shows, and
/// the cursor as far as they reach.
pub open spec fn refiltered(v: GroupsTabView, filter: Seq<char>) -> GroupsTabView {
    let visible = matching(item_texts(v.groups), filter);
    GroupsTabView { filter, visible, cursor: clamped(v.cursor, visible.len()), ..v }
}

/// A key while a typing popup is open.
pub open spec fn typing(v: GroupsTabView, key: KeyCode) -> Stepped {
    match key {
        KeyCode::Esc => moved(GroupsTabView { popup: None, stage: Stage::SelectOperation, ..v }),
        KeyCode::Char(c) => moved(GroupsTabView { input: v.input.push(c), ..v }),
        KeyCode::Backspace => moved(GroupsTabView { input: erased(v.input), ..v }),
        KeyCode::Enter => match v.stage {
            Stage::AddRepo => if v.cursor.is_some() {
                committed(v, CommandView::AddRepoToGroup(v.input, chosen(v).id))
            } else {
                moved(v)
            },
            Stage::CreateGroup => committed(v, CommandView::CreateRunnerGroup(new_group(v.input))),
            _ => moved(v),
        },
        _ => moved(v),
    }
}

/// A key while a group is being chosen. Where a runner waits for its new
/// group, committing on a group sends the change.
pub open spec fn selecting_group(v: GroupsTabView, key: KeyCode) -> Stepped {
    match key {
        KeyCode::Esc => Stepped { state: v, exit: true, command: None },
        KeyCode::Left => moved(GroupsTabView { cursor: None, ..v }),
        KeyCode::Down => moved(GroupsTabView { cursor: moved_down(v.cursor, v.visible.len()), ..v }),
        KeyCode::Up => moved(GroupsTabView { cursor: moved_up(v.cursor, v.visible.len()), ..v }),
        KeyCode::Home => moved(GroupsTabView { cursor: at_first(v.visible.len()), ..v }),
        KeyCode::End => moved(GroupsTabView { cursor: at_last(v.visible.len()), ..v }),
        KeyCode::Right | KeyCode::Enter => if v.cursor.is_none() {
            moved(v)
        } else {
            match v.target {
                Some(runner_id) => committed(v, CommandView::ChangeGroup(runner_id, chosen(v).name@)),
                None => moved(GroupsTabView { stage: Stage::SelectOperation, ..v }),
            }
        },
        KeyCode::Backspace => moved(refiltered(v, erased(v.filter))),
        KeyCode::Char(c) => moved(refiltered(v, v.filter.push(c))),
        _ => moved(v),
    }
}

/// A key while an operation is being chosen.
pub open spec fn selecting_operation(v: GroupsTabView, key: KeyCode) -> Stepped {
    match key {
        KeyCode::Esc | KeyCode::Left => moved(GroupsTabView { stage: Stage::SelectGroup, ..v }),
        KeyCode::Up => moved(GroupsTabView { op_cursor: moved_up(v.op_cursor, v.ops.len()), ..v }),
        KeyCode::Down => moved(GroupsTabView { op_cursor: moved_down(v.op_cursor, v.ops.len()), ..v }),
        KeyCode::Backspace => moved(GroupsTabView { input: erased(v.input), ..v }),
        KeyCode::Right | KeyCode::Enter => if v.op_cursor.is_none() {
            moved(v)
        } else {
            match v.ops[v.op_cursor.unwrap() as int] {
                GroupOperation::AddRepo => moved(
                    GroupsTabView { popup: Some(typing_popup("Input repo name:"@)), stage: Stage::AddRepo, ..v },
                ),
                GroupOperation::CreateGroup => moved(
                    GroupsTabView {
                        popup: Some(typing_popup("Input group name:"@)),
                        stage: Stage::CreateGroup,
                        ..v
                    },
                ),
                GroupOperation::GetRepos => if v.cursor.is_some() {
                    Stepped { state: v, exit: false, command: Some(CommandView::GetGroupRepos(chosen(v).id)) }
                } else {
                    moved(v)
                },
            }
        },
        _ => moved(v),
    }
}

/// A key at the stage that the tab is at, the popup apart.
pub open spec fn browsing(v: GroupsTabView, key: KeyCode) -> Stepped {
    match v.stage {
        Stage::SelectGroup => selecting_group(v, key),
        Stage::SelectOperation => selecting_operation(v, key),
        _ => match key {
            KeyCode::Esc | KeyCode::Left => moved(GroupsTabView { stage: Stage::SelectOperation, ..v }),
            _ => moved(v),
        },
    }
}

/// What one key does to the tab. Escape cancels a typing popup; without a
/// popup it steps back one stage, and at the first stage it ends the
/// application. Under the loading popup the keys that commit and Escape do
/// nothing, and every other key does what it does without a popup: the
/// popup stays until the refresh arrives.
pub open spec fn step(v: GroupsTabView, key: KeyCode) -> Stepped {
    match v.popup {
        Some(popup) => if popup.is_loading {
            if held_back(key) {
                moved(v)
            } else {
                browsing(v, key)
            }
        } else {
            typing(v, key)
        },
        None => browsing(v, key),
    }
}

/// The tab as it opens over `groups`: at its first stage, with every group
/// visible, the first group and the first operation highlighted, no popup,
/// and no runner waiting.
pub open spec fn opened(groups: Seq<RunnerGroup>) -> GroupsTabView {
    GroupsTabView {
        stage: Stage::SelectGroup,
        popup: None,
        input: Seq::empty(),
        groups,
        visible: crate::ui::all_positions(groups.len()),
        cursor: at_first(groups.len()),
        filter: Seq::empty(),
        ops: GroupOperation::offered(),
        op_cursor: Some(0usize),
        entries: Seq::empty(),
        entry_cursor: None,
        target: None,
    }
}

/// The state after fresh groups have arrived: the list is replaced and
/// filtered by the filter text as it stands, a loading popup is closed, and
/// the tab is back at its first stage.
pub open spec fn refreshed(v: GroupsTabView, groups: Seq<RunnerGroup>) -> GroupsTabView {
    let fresh = refiltered(GroupsTabView { groups, ..v }, v.filter);
    GroupsTabView { stage: Stage::SelectGroup, popup: without_loading(v.popup), ..fresh }
}

/// A key commits a changing command only where no popup is loading, and
/// then opens the loading popup: until that popup is closed, no key commits
/// another, closes the popup or ends the application.
pub proof fn lemma_commit_blocks_until_refresh(v: GroupsTabView, key: KeyCode, next: KeyCode)
    requires
        step(v, key).command.is_some(),
        !(step(v, key).command.unwrap() is GetGroupRepos),
    ensures
        !(v.popup.is_some() && v.popup.unwrap().is_loading),
        step(v, key).state.popup == Some(loading_popup()),
        step(step(v, key).state, next).command.is_none(),
        step(step(v, key).state, next).state.popup == Some(loading_popup()),
        !step(step(v, key).state, next).exit,
{
}

/// While the loading popup is shown, no key commits a command, closes the
/// popup, opens another or ends the application.
pub proof fn lemma_loading_holds_commits_back(v: GroupsTabView, key: KeyCode)
    requires
        v.popup.is_some(),
        v.popup.unwrap().is_loading,
    ensures
        step(v, key).command.is_none(),
        step(v, key).state.popup == v.popup,
        !step(v, key).exit,
{
}

impl View for RunnersGroupsTab {
    type V = GroupsTabView;

    closed spec fn view(&self) -> GroupsTabView {
        GroupsTabView {
            stage: self.stage,
            popup: popup_view(self.popup_content),
            input: self.input_buffer@,
            groups: self.groups.items(),
            visible: self.groups.visible(),
            cursor: self.groups.cursor(),
            filter: self.groups.input(),
            ops: self.operations.items(),
            op_cursor: self.operations.cursor(),
            entries: self.dynamic_list.items(),
            entry_cursor: self.dynamic_list.cursor(),
            target: self.target,
        }
    }
}

/// The repositories of a group as the entries of a list.
fn entries_of(repos: Vec<ApiRepository>) -> (entries: Vec<ListEntry>)
    ensures
        entries@ == repo_entries(repos@),
{
    let mut entries: Vec<ListEntry> = Vec::new();
    let mut i: usize = 0;
    while i < repos.len()
        invariant
            i <= repos.len(),
            entries.len() == i,
            forall|k: int| 0 <= k < i ==> #[trigger] entries@[k] == ListEntry::Repository(repos@[k]),
        decreases repos.len() - i,
    {
        let repo = ApiRepository { id: repos[i].id, name: repos[i].name.clone() };
        entries.push(ListEntry::Repository(repo));
        i = i + 1;
    }
    assert(entries@ =~= repo_entries(repos@));
    entries
}

impl RunnersGroupsTab {
    /// The lists are in order: every cursor points into its list, and the
    /// visible groups are those that the filter text shows.
    pub closed spec fn wf(&self) -> bool {
        &&& self.groups.wf()
        &&& self.groups.in_sync()
        &&& self.operations.wf()
        &&& self.dynamic_list.wf()
    }

    /// The tab at its first stage, with the first group and the first
    /// operation highlighted.
    pub fn new(groups: Vec<RunnerGroup>) -> (tab: Self)
        ensures
            tab.wf(),
            tab@ == opened(groups@),
    {
        let tab = RunnersGroupsTab {
            groups: FilterableList::new(groups).with_first_selected(),
            operations: SelectableList::new(GroupOperation::all()).with_first_selected(),
            stage: Stage::SelectGroup,
            dynamic_list: SelectableList::new(Vec::new()),
            input_buffer: String::new(),
            popup_content: None,
            target: None,
        };
        assert(tab@.visible.len() == groups@.len());
        tab
    }

    /// Closes the loading popup, if it is the one that is open.
    pub fn toggle_loading(&mut self)
        ensures
            final(self).wf() == old(self).wf(),
            final(self)@ == (GroupsTabView { popup: without_loading(old(self)@.popup), ..old(self)@ }),
    {
        let loading = match &self.popup_content {
            Some(popup) => popup.is_loading,
            None => false,
        };
        if loading {
            self.popup_content = None;
        }
    }

    /// Takes in fresh groups.
    pub fn set_groups(&mut self, groups: Vec<RunnerGroup>)
        requires
            old(self).wf(),
        ensures
            final(self).wf(),
            final(self)@ == refreshed(old(self)@, groups@),
    {
        self.groups.set_items(groups);
        self.toggle_loading();
        self.stage = Stage::SelectGroup;
    }

    /// Takes in the repositories with access to the chosen group, and shows
    /// them: a loading popup is closed, and nothing is highlighted.
    pub fn set_group_repos(&mut self, repos: Vec<ApiRepository>)
        requires
            old(self).wf(),
        ensures
            final(self).wf(),
            final(self)@ == (GroupsTabView {
                stage: Stage::ListRepos,
                popup: without_loading(old(self)@.popup),
                entries: repo_entries(repos@),
                entry_cursor: None,
                ..old(self)@
            }),
    {
        self.toggle_loading();
        self.dynamic_list.set_items(entries_of(repos));
        self.stage = Stage::ListRepos;
    }

    /// Has the tab pick the group that runner `runner_id` is to join: the
    /// tab goes to its first stage, and the next commit on a group sends
    /// the change.
    pub fn pick_target(&mut self, runner_id: usize)
        ensures
            final(self).wf() == old(self).wf(),
            final(self)@ == (GroupsTabView { stage: Stage::SelectGroup, target: Some(runner_id), ..old(self)@ }),
    {
        self.target = Some(runner_id);
        self.stage = Stage::SelectGroup;
    }

    /// Gives up picking a group for a runner.
    pub fn clear_target(&mut self)
        ensures
            final(self).wf() == old(self).wf(),
            final(self)@ == (GroupsTabView { target: None, ..old(self)@ }),
    {
        self.target = None;
    }

    /// The highlighted group, if any.
    pub fn selected(&self) -> (group: Option<&RunnerGroup>)
        requires
            self.wf(),
        ensures
            group.is_some() == self@.cursor.is_some(),
            group.is_some() ==> *group.unwrap() == chosen(self@),
    {
        self.groups.selected()
    }

    /// The stage the tab is at.
    pub fn stage(&self) -> (stage: Stage)
        ensures
            stage == self@.stage,
    {
        self.stage
    }

    /// The popup, if one is open.
    pub fn popup(&self) -> (popup: &Option<PopupInfo>)
        ensures
            popup_view(*popup) == self@.popup,
    {
        &self.popup_content
    }

    /// The text typed into the popup.
    pub fn input(&self) -> (input: &String)
        ensures
            input@ == self@.input,
    {
        &self.input_buffer
    }

    /// The list of the groups.
    pub fn groups(&self) -> (list: &FilterableList<RunnerGroup>)
        ensures
            list.items() == self@.groups,
            list.visible() == self@.visible,
            list.cursor() == self@.cursor,
            list.input() == self@.filter,
            self.wf() ==> list.wf() && list.in_sync(),
    {
        &self.groups
    }

    /// The list of the operations.
    pub fn operations(&self) -> (list: &SelectableList<GroupOperation>)
        ensures
            list.cursor() == self@.op_cursor,
            list.items() == self@.ops,
            self.wf() ==> list.wf(),
    {
        &self.operations
    }

    /// The list of the repositories with access to the chosen group.
    pub fn dynamic_list(&self) -> (list: &SelectableList<ListEntry>)
        ensures
            list.items() == self@.entries,
            list.cursor() == self@.entry_cursor,
            self.wf() ==> list.wf(),
    {
        &self.dynamic_list
    }

    /// The runner that is to join the group chosen next, if one waits.
    pub fn target(&self) -> (runner_id: Option<usize>)
        ensures
            runner_id == self@.target,
    {
        self.target
    }

    /// The title over the list that the stage shows.
    pub fn title(&self) -> (title: String)
        requires
            self.wf(),
        ensures
            title@ == (match self@.stage {
                Stage::SelectGroup => "Runner Groups"@,
                Stage::SelectOperation | Stage::AddRepo => if self@.cursor.is_some() {
                    "Select operation - "@ + chosen(self@).name@
                } else {
                    "Select operation - "@
                },
                Stage::CreateGroup => Seq::empty(),
                Stage::ListRepos => if self@.cursor.is_some() {
                    "Repos with access to group - "@ + chosen(self@).name@
                } else {
                    "Repos with access to group - "@
                },
            }),
    {
        match self.stage {
            Stage::SelectGroup => String::from_str("Runner Groups"),
            Stage::SelectOperation | Stage::AddRepo => {
                let mut title = String::from_str("Select operation - ");
                match self.groups.selected() {
                    Some(group) => title.append(group.name.as_str()),
                    None => {},
                }
                title
            },
            Stage::CreateGroup => String::new(),
            Stage::ListRepos => {
                let mut title = String::from_str("Repos with access to group - ");
                match self.groups.selected() {
                    Some(group) => title.append(group.name.as_str()),
                    None => {},
                }
                title
            },
        }
    }

    fn add_to_input(&mut self, c: char)
        ensures
            final(self).wf() == old(self).wf(),
            final(self)@ == (GroupsTabView { input: old(self)@.input.push(c), ..old(self)@ }),
    {
        push_char(&mut self.input_buffer, c);
    }

    fn remove_last_input(&mut self)
        ensures
            final(self).wf() == old(self).wf(),
            final(self)@ == (GroupsTabView { input: erased(old(self)@.input), ..old(self)@ }),
    {
        let _ = pop_char(&mut self.input_buffer);
    }

    /// Takes the typed text, leaving the input empty.
    fn drain_input(&mut self) -> (typed: String)
        ensures
            final(self).wf() == old(self).wf(),
            typed@ == old(self)@.input,
            final(self)@ == (GroupsTabView { input: Seq::empty(), ..old(self)@ }),
    {
        let mut typed = String::new();
        std::mem::swap(&mut self.input_buffer, &mut typed);
        typed
    }

    /// The tab after a commit: loading, at its first stage, with no runner
    /// waiting.
    fn after_commit(&mut self)
        ensures
            final(self).wf() == old(self).wf(),
            final(self)@ == (GroupsTabView {
                stage: Stage::SelectGroup,
                popup: Some(loading_popup()),
                target: None,
                ..old(self)@
            }),
    {
        self.popup_content = Some(PopupInfo::loading());
        self.stage = Stage::SelectGroup;
        self.target = None;
    }

    /// Commits the typed repository for the highlighted group.
    fn add_repo(&mut self) -> (command: Option<BackendMessage>)
        requires
            old(self).wf(),
            old(self)@.stage == Stage::AddRepo,
        ensures
            final(self).wf(),
            command_view(command) == typing(old(self)@, KeyCode::Enter).command,
            final(self)@ == typing(old(self)@, KeyCode::Enter).state,
    {
        let group_id = match self.groups.selected() {
            Some(group) => group.id,
            None => {
                return None;
            },
        };
        let input = self.drain_input();
        self.after_commit();
        Some(BackendMessage::AddRepoToGroup(input, group_id))
    }

    /// Asks for the repositories of the highlighted group.
    fn get_repos(&self) -> (command: Option<BackendMessage>)
        requires
            self.wf(),
        ensures
            command_view(command) == (if self@.cursor.is_some() {
                Some(CommandView::GetGroupRepos(chosen(self@).id))
            } else {
                None
            }),
    {
        match self.groups.selected() {
            Some(group) => Some(BackendMessage::GetGroupRepos(group.id)),
            None => None,
        }
    }

    /// Commits the creation of a group under the typed name.
    fn create_runner_group(&mut self) -> (command: Option<BackendMessage>)
        requires
            old(self).wf(),
            old(self)@.stage == Stage::CreateGroup,
        ensures
            final(self).wf(),
            command_view(command) == typing(old(self)@, KeyCode::Enter).command,
            final(self)@ == typing(old(self)@, KeyCode::Enter).state,
    {
        let group = ApiRunnerGroupCreate {
            name: self.drain_input(),
            visibility: RunnerGroupVisibility::Selected,
            runners: Vec::new(),
            selected_repository_ids: Vec::new(),
        };
        self.after_commit();
        assert(group@ == new_group(old(self)@.input));
        Some(BackendMessage::CreateRunnerGroup(Box::new(group)))
    }

    /// Sends the waiting runner to the highlighted group.
    fn change_group(&mut self, runner_id: usize) -> (command: Option<BackendMessage>)
        requires
            old(self).wf(),
            old(self)@.cursor.is_some(),
        ensures
            final(self).wf(),
            command_view(command) == Some(CommandView::ChangeGroup(runner_id, chosen(old(self)@).name@)),
            final(self)@ == (GroupsTabView {
                stage: Stage::SelectGroup,
                popup: Some(loading_popup()),
                input: Seq::empty(),
                target: None,
                ..old(self)@
            }),
    {
        let name = match self.groups.selected() {
            Some(group) => group.name.clone(),
            None => String::new(),
        };
        let _ = self.drain_input();
        self.after_commit();
        Some(BackendMessage::ChangeGroup(runner_id, name))
    }

    /// Acts on the highlighted operation.
    fn choose_operation(&mut self) -> (command: Option<BackendMessage>)
        requires
            old(self).wf(),
        ensures
            final(self).wf(),
            command_view(command) == selecting_operation(old(self)@, KeyCode::Enter).command,
            final(self)@ == selecting_operation(old(self)@, KeyCode::Enter).state,
    {
        let operation = match self.operations.selected() {
            Some(op) => *op,
            None => {
                return None;
            },
        };
        match operation {
            GroupOperation::AddRepo => {
                self.popup_content = Some(PopupInfo::new_dynamic(String::from_str("Input repo name:")));
                self.stage = Stage::AddRepo;
                None
            },
            GroupOperation::CreateGroup => {
                self.popup_content = Some(PopupInfo::new_dynamic(String::from_str("Input group name:")));
                self.stage = Stage::CreateGroup;
                None
            },
            GroupOperation::GetRepos => self.get_repos(),
        }
    }

    /// Handles one key at the stage that the tab is at, the popup apart.
    fn browse(&mut self, code: KeyCode) -> (handled: Handled)
        requires
            old(self).wf(),
        ensures
            final(self).wf(),
            final(self)@ == browsing(old(self)@, code).state,
            handled.exit == browsing(old(self)@, code).exit,
            command_view(handled.command) == browsing(old(self)@, code).command,
    {
        let mut exit = false;
        let mut command: Option<BackendMessage> = None;
        match self.stage {
            Stage::SelectGroup => match code {
                KeyCode::Esc => {
                    exit = true;
                },
                KeyCode::Left => self.groups.select_none(),
                KeyCode::Down => self.groups.select_next(),
                KeyCode::Up => self.groups.select_previous(),
                KeyCode::Home => self.groups.select_first(),
                KeyCode::End => self.groups.select_last(),
                KeyCode::Right | KeyCode::Enter => {
                    if self.groups.selected_index().is_some() {
                        match self.target {
                            Some(runner_id) => {
                                command = self.change_group(runner_id);
                            },
                            None => {
                                self.stage = Stage::SelectOperation;
                            },
                        }
                    }
                },
                KeyCode::Backspace => self.groups.remove_last_input(),
                KeyCode::Char(c) => self.groups.update_filter(c),
                _ => {},
            },
            Stage::SelectOperation => match code {
                KeyCode::Esc | KeyCode::Left => {
                    self.stage = Stage::SelectGroup;
                },
                KeyCode::Up => self.operations.select_previous(),
                KeyCode::Down => self.operations.select_next(),
                KeyCode::Backspace => self.remove_last_input(),
                KeyCode::Right | KeyCode::Enter => {
                    command = self.choose_operation();
                },
                _ => {},
            },
            _ => match code {
                KeyCode::Esc | KeyCode::Left => {
                    self.stage = Stage::SelectOperation;
                },
                _ => {},
            },
        }
        Handled { exit, command }
    }

    /// Handles one key. The result says whether the application is to end
    /// and which command, if any, the key committed.
    pub fn handle_input(&mut self, event: KeyEvent) -> (handled: Handled)
        requires
            old(self).wf(),
        ensures
            final(self).wf(),
            final(self)@ == step(old(self)@, event.code).state,
            handled.exit == step(old(self)@, event.code).exit,
            command_view(handled.command) == step(old(self)@, event.code).command,
    {
        let popup_loading = match &self.popup_content {
            Some(popup) => Some(popup.is_loading),
            None => None,
        };
        match popup_loading {
            Some(true) => match event.code {
                KeyCode::Enter | KeyCode::Right | KeyCode::Esc => Handled { exit: false, command: None },
                _ => self.browse(event.code),
            },
            Some(false) => {
                let mut command: Option<BackendMessage> = None;
                match event.code {
                    KeyCode::Esc => {
                        self.popup_content = None;
                        self.stage = Stage::SelectOperation;
                    },
                    KeyCode::Char(c) => self.add_to_input(c),
                    KeyCode::Backspace => self.remove_last_input(),
                    KeyCode::Enter => match self.stage {
                        Stage::AddRepo => {
                            command = self.add_repo();
                        },
                        Stage::CreateGroup => {
                            command = self.create_runner_group();
                        },
                        _ => {},
                    },
                    _ => {},
                }
                Handled { exit: false, command }
            },
            None => self.browse(event.code),
        }
    }
}

} // verus!
