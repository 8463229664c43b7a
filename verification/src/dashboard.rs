//! The dashboard as a whole: the two tabs, which of them is shown, and how
//! keys and the worker's events change them.

use crate::api::ApiRepository;
use crate::backend::ApiMessage;
use crate::backend::BackendMessage;
use crate::backend::CommandView;
use crate::groups_tab::GroupsTabView;
use crate::groups_tab::RunnersGroupsTab;
use crate::runners::Runner;
use crate::runners::RunnerGroup;
use crate::runners_tab::command_view;
use crate::runners_tab::without_loading;
use crate::runners_tab::RunnersTab;
use crate::runners_tab::RunnersTabView;
use crate::ui::KeyCode;
use crate::ui::KeyEvent;
use crate::ui::KeyEventKind;
use vstd::prelude::*;

verus! {

/// The tabs of the dashboard.
#[derive(Debug, Clone, Copy, PartialEq, Eq, Structural)]
pub enum Tab {
    Runners,
    RunnerGroups,
}

impl Tab {
    /// The tabs in the order of the header.
    pub fn all() -> (tabs: Vec<Tab>)
        ensures
            tabs@ == seq![Tab::Runners, Tab::RunnerGroups],
    {
        let mut tabs: Vec<Tab> = Vec::new();
        tabs.push(Tab::Runners);
        tabs.push(Tab::RunnerGroups);
        assert(tabs@ =~= seq![Tab::Runners, Tab::RunnerGroups]);
        tabs
    }

    /// The title of the tab in the header.
    pub fn as_str(&self) -> (title: &'static str)
        ensures
            title@ == (match self {
                Tab::Runners => " Runners "@,
                Tab::RunnerGroups => " Runner Groups "@,
            }),
    {
        match self {
            Tab::Runners => " Runners ",
            Tab::RunnerGroups => " Runner Groups ",
        }
    }

    /// The position of the tab in the header.
    pub fn index(&self) -> (i: usize)
        ensures
            i == (match self {
                Tab::Runners => 0usize,
                Tab::RunnerGroups => 1usize,
            }),
    {
        match self {
            Tab::Runners => 0,
            Tab::RunnerGroups => 1,
        }
    }

    /// The other tab.
    pub open spec fn other(self) -> Tab {
        match self {
            Tab::Runners => Tab::RunnerGroups,
            Tab::RunnerGroups => Tab::Runners,
        }
    }
}

/// The state of the dashboard.
pub struct AppState {
    runners_tab: RunnersTab,
    runner_groups_tab: RunnersGroupsTab,
    selected_tab: Tab,
    should_exit: bool,
}

/// The state of the dashboard as the contracts see it.
pub struct AppView {
    pub runners: RunnersTabView,
    pub groups: GroupsTabView,
    pub selected_tab: Tab,
    pub should_exit: bool,
}

/// What one key does: the state after it and the command that it committed.
pub struct KeyOutcome {
    pub state: AppView,
    pub command: Option<CommandView>,
}

/// The shown tab is at its first stage: only there does the tab key switch
/// tabs, with or without a popup.
pub open spec fn at_top(v: AppView) -> bool {
    match v.selected_tab {
        Tab::Runners => v.runners.stage == crate::runners_tab::Stage::SelectRunner,
        Tab::RunnerGroups => v.groups.stage == crate::groups_tab::Stage::SelectGroup,
    }
}

/// A group is being picked for a runner, and no popup is in the way.
pub open spec fn picking(v: AppView) -> bool {
    &&& v.selected_tab == Tab::RunnerGroups
    &&& v.groups.target.is_some()
    &&& v.groups.stage == crate::groups_tab::Stage::SelectGroup
    &&& v.groups.popup.is_none()
}

/// The runner that waits for its new group, from the runners' tab.
pub open spec fn waiting_runner(v: RunnersTabView) -> Option<usize> {
    if v.stage == crate::runners_tab::Stage::AddToGroup && v.cursor.is_some() {
        Some(crate::runners_tab::chosen(v).id)
    } else {
        None
    }
}

/// A key handled by the runners' tab. Where the tab then waits for a group
/// for its runner, the groups' tab is shown to pick one.
pub open spec fn runners_key(v: AppView, key: KeyCode) -> KeyOutcome {
    let stepped = crate::runners_tab::step(v.runners, key);
    match waiting_runner(stepped.state) {
        Some(runner_id) => KeyOutcome {
            state: AppView {
                runners: stepped.state,
                groups: GroupsTabView {
                    stage: crate::groups_tab::Stage::SelectGroup,
                    target: Some(runner_id),
                    ..v.groups
                },
                selected_tab: Tab::RunnerGroups,
                should_exit: stepped.exit,
            },
            command: stepped.command,
        },
        None => KeyOutcome {
            state: AppView {
                runners: stepped.state,
                groups: GroupsTabView { target: None, ..v.groups },
                selected_tab: Tab::Runners,
                should_exit: stepped.exit,
            },
            command: stepped.command,
        },
    }
}

/// A key handled by the groups' tab. Where the key commits a runner's change
/// of group, the runners' tab shows the loading popup until the refreshed
/// runners arrive, so that no second command goes out for that runner.
pub open spec fn groups_key(v: AppView, key: KeyCode) -> KeyOutcome {
    let stepped = crate::groups_tab::step(v.groups, key);
    KeyOutcome {
        state: AppView {
            runners: if stepped.command.is_some() && stepped.command.unwrap() is ChangeGroup {
                RunnersTabView { popup: Some(crate::ui::loading_popup()), ..v.runners }
            } else {
                v.runners
            },
            groups: stepped.state,
            should_exit: stepped.exit,
            ..v
        },
        command: stepped.command,
    }
}

/// What one key does to the dashboard. Only presses count. The tab key
/// switches tabs at the first stage of the shown tab and is lost anywhere
/// else. Escape while a group is picked for a runner gives the pick up and
/// goes back to the runner. Every other key goes to the shown tab.
pub open spec fn key_step(v: AppView, event: KeyEvent) -> KeyOutcome {
    if event.kind != KeyEventKind::Press {
        KeyOutcome { state: v, command: None }
    } else if event.code == KeyCode::Tab {
        if at_top(v) {
            KeyOutcome { state: AppView { selected_tab: v.selected_tab.other(), ..v }, command: None }
        } else {
            KeyOutcome { state: v, command: None }
        }
    } else if picking(v) && event.code == KeyCode::Esc {
        KeyOutcome {
            state: AppView {
                runners: crate::runners_tab::step(v.runners, KeyCode::Esc).state,
                groups: GroupsTabView { target: None, ..v.groups },
                selected_tab: Tab::Runners,
                should_exit: false,
            },
            command: None,
        }
    } else {
        match v.selected_tab {
            Tab::Runners => runners_key(v, event.code),
            Tab::RunnerGroups => groups_key(v, event.code),
        }
    }
}

/// What an event of the worker does to the dashboard. A runner list is
/// taken in by the runners' tab, which is then the one shown; a group list
/// and the repositories of a group by the groups' tab; and a completion
/// closes the loading popup of the groups' tab.
pub open spec fn applied(v: AppView, message: ApiMessage) -> AppView {
    match message {
        ApiMessage::Completed => AppView {
            groups: GroupsTabView { popup: without_loading(v.groups.popup), ..v.groups },
            ..v
        },
        ApiMessage::RunnerList(runners) => AppView {
            runners: crate::runners_tab::refreshed(v.runners, runners@),
            selected_tab: Tab::Runners,
            ..v
        },
        ApiMessage::RunnerGroupList(groups) => AppView {
            groups: crate::groups_tab::refreshed(v.groups, groups@),
            ..v
        },
        ApiMessage::GroupRepos(repos) => AppView {
            groups: GroupsTabView {
                stage: crate::groups_tab::Stage::ListRepos,
                popup: without_loading(v.groups.popup),
                entries: crate::groups_tab::repo_entries(repos@),
                entry_cursor: None,
                ..v.groups
            },
            ..v
        },
    }
}

/// A key that commits a runner's change of group leaves both tabs under
/// the loading popup: the groups' tab, where it was committed, and the
/// runners' tab, whose runner it changes.
pub proof fn lemma_group_change_blocks_both_tabs(v: AppView, event: KeyEvent)
    requires
        key_step(v, event).command.is_some(),
        key_step(v, event).command.unwrap() is ChangeGroup,
    ensures
        key_step(v, event).state.runners.popup == Some(crate::ui::loading_popup()),
        key_step(v, event).state.groups.popup == Some(crate::ui::loading_popup()),
{
}

/// The tab key, pressed at the first stage of the shown tab, shows the
/// other tab whether a popup is open or not, and changes nothing else; at
/// any other stage it changes nothing.
pub proof fn lemma_tab_key_switches_at_first_stage(v: AppView)
    ensures
        key_step(v, KeyEvent { code: KeyCode::Tab, kind: KeyEventKind::Press }).command.is_none(),
        at_top(v) ==> key_step(v, KeyEvent { code: KeyCode::Tab, kind: KeyEventKind::Press }).state == (AppView {
            selected_tab: v.selected_tab.other(),
            ..v
        }),
        !at_top(v) ==> key_step(v, KeyEvent { code: KeyCode::Tab, kind: KeyEventKind::Press }).state == v,
{
}

impl View for AppState {
    type V = AppView;

    closed spec fn view(&self) -> AppView {
        AppView {
            runners: self.runners_tab@,
            groups: self.runner_groups_tab@,
            selected_tab: self.selected_tab,
            should_exit: self.should_exit,
        }
    }
}

impl AppState {
    /// Both tabs are in order.
    pub closed spec fn wf(&self) -> bool {
        self.runners_tab.wf() && self.runner_groups_tab.wf()
    }

    /// The dashboard over `runners` and `runner_groups`, showing
    /// `selected_tab`.
    pub fn new(runners: Vec<Runner>, runner_groups: Vec<RunnerGroup>, selected_tab: Tab) -> (state: Self)
        ensures
            state.wf(),
            state@ == (AppView {
                runners: crate::runners_tab::opened(runners@),
                groups: crate::groups_tab::opened(runner_groups@),
                selected_tab,
                should_exit: false,
            }),
    {
        AppState {
            runners_tab: RunnersTab::new(runners),
            runner_groups_tab: RunnersGroupsTab::new(runner_groups),
            selected_tab,
            should_exit: false,
        }
    }

    /// The tab of the runners.
    pub fn runners_tab(&self) -> (tab: &RunnersTab)
        ensures
            tab@ == self@.runners,
            self.wf() ==> tab.wf(),
    {
        &self.runners_tab
    }

    /// The tab of the runner groups.
    pub fn runner_groups_tab(&self) -> (tab: &RunnersGroupsTab)
        ensures
            tab@ == self@.groups,
            self.wf() ==> tab.wf(),
    {
        &self.runner_groups_tab
    }

    /// The tab that is shown.
    pub fn selected_tab(&self) -> (tab: Tab)
        ensures
            tab == self@.selected_tab,
    {
        self.selected_tab
    }

    /// Whether the application is to end.
    pub fn should_exit(&self) -> (exit: bool)
        ensures
            exit == self@.should_exit,
    {
        self.should_exit
    }

    fn at_top(&self) -> (top: bool)
        ensures
            top == at_top(self@),
    {
        match self.selected_tab {
            Tab::Runners => match self.runners_tab.stage() {
                crate::runners_tab::Stage::SelectRunner => true,
                _ => false,
            },
            Tab::RunnerGroups => match self.runner_groups_tab.stage() {
                crate::groups_tab::Stage::SelectGroup => true,
                _ => false,
            },
        }
    }

    fn picking(&self) -> (pick: bool)
        ensures
            pick == picking(self@),
    {
        match self.selected_tab {
            Tab::Runners => false,
            Tab::RunnerGroups => match self.runner_groups_tab.stage() {
                crate::groups_tab::Stage::SelectGroup => self.runner_groups_tab.target().is_some()
                    && self.runner_groups_tab.popup().is_none(),
                _ => false,
            },
        }
    }

    /// Handles one event of the keyboard, and hands back the command to send
    /// to the worker, if the key committed one.
    pub fn handle_key(&mut self, key: KeyEvent) -> (command: Option<BackendMessage>)
        requires
            old(self).wf(),
        ensures
            final(self).wf(),
            final(self)@ == key_step(old(self)@, key).state,
            command_view(command) == key_step(old(self)@, key).command,
    {
        match key.kind {
            KeyEventKind::Press => {},
            _ => {
                return None;
            },
        }
        match key.code {
            KeyCode::Tab => {
                if self.at_top() {
                    self.selected_tab = match self.selected_tab {
                        Tab::Runners => Tab::RunnerGroups,
                        Tab::RunnerGroups => Tab::Runners,
                    };
                }
                return None;
            },
            KeyCode::Esc => {
                if self.picking() {
                    self.runner_groups_tab.clear_target();
                    self.selected_tab = Tab::Runners;
                    let _ = self.runners_tab.handle_input(key);
                    self.should_exit = false;
                    return None;
                }
            },
            _ => {},
        }
        match self.selected_tab {
            Tab::Runners => {
                let handled = self.runners_tab.handle_input(key);
                self.should_exit = handled.exit;
                match self.runners_tab.pending_group_change() {
                    Some(runner_id) => {
                        self.runner_groups_tab.pick_target(runner_id);
                        self.selected_tab = Tab::RunnerGroups;
                    },
                    None => {
                        self.runner_groups_tab.clear_target();
                    },
                }
                handled.command
            },
            Tab::RunnerGroups => {
                let handled = self.runner_groups_tab.handle_input(key);
                self.should_exit = handled.exit;
                match &handled.command {
                    Some(BackendMessage::ChangeGroup(_, _)) => self.runners_tab.show_loading(),
                    _ => {},
                }
                handled.command
            },
        }
    }

    /// Takes in one event of the worker.
    pub fn handle_message(&mut self, message: ApiMessage)
        requires
            old(self).wf(),
        ensures
            final(self).wf(),
            final(self)@ == applied(old(self)@, message),
    {
        match message {
            ApiMessage::Completed => self.runner_groups_tab.toggle_loading(),
            ApiMessage::RunnerList(runners) => self.set_runners(*runners),
            ApiMessage::RunnerGroupList(groups) => self.set_runner_groups(*groups),
            ApiMessage::GroupRepos(repos) => self.set_group_repos(*repos),
        }
    }

    /// Takes in fresh runners, and shows their tab.
    pub fn set_runners(&mut self, runners: Vec<Runner>)
        requires
            old(self).wf(),
        ensures
            final(self).wf(),
            final(self)@ == applied(old(self)@, ApiMessage::RunnerList(Box::new(runners))),
    {
        self.runners_tab.set_runners(runners);
        self.selected_tab = Tab::Runners;
    }

    /// Takes in fresh groups.
    pub fn set_runner_groups(&mut self, groups: Vec<RunnerGroup>)
        requires
            old(self).wf(),
        ensures
            final(self).wf(),
            final(self)@ == applied(old(self)@, ApiMessage::RunnerGroupList(Box::new(groups))),
    {
        self.runner_groups_tab.set_groups(groups);
    }

    /// Takes in the repositories with access to the chosen group.
    pub fn set_group_repos(&mut self, repos: Vec<ApiRepository>)
        requires
            old(self).wf(),
        ensures
            final(self).wf(),
            final(self)@ == applied(old(self)@, ApiMessage::GroupRepos(Box::new(repos))),
    {
        self.runner_groups_tab.set_group_repos(repos);
    }
}

} // verus!
