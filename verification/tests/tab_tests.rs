use runner_dash::api::ApiRepository;
use runner_dash::api::RunnerGroupVisibility;
use runner_dash::backend::ApiMessage;
use runner_dash::backend::BackendMessage;
use runner_dash::dashboard::AppState;
use runner_dash::dashboard::Tab;
use runner_dash::groups_tab::RunnersGroupsTab;
use runner_dash::groups_tab::Stage as GroupStage;
use runner_dash::runners::Runner;
use runner_dash::runners::RunnerGroup;
use runner_dash::runners::RunnerStatus;
use runner_dash::runners_tab::RunnersTab;
use runner_dash::runners_tab::Stage;
use runner_dash::ui::DisplayText;
use runner_dash::ui::Handled;
use runner_dash::ui::KeyCode;
use runner_dash::ui::KeyEvent;
use runner_dash::ui::KeyEventKind;

fn press(code: KeyCode) -> KeyEvent {
    KeyEvent { code, kind: KeyEventKind::Press }
}

fn runner(id: usize, name: &str, labels: &[&str]) -> Runner {
    Runner::new(id, RunnerStatus::Online, name.to_string(), labels.iter().map(|l| l.to_string()).collect(), None)
}

fn fleet() -> Vec<Runner> {
    vec![runner(5, "r5", &[]), runner(7, "r7", &["gpu", "big"]), runner(9, "x9", &["arm"])]
}

fn group(id: usize, name: &str) -> RunnerGroup {
    RunnerGroup::new(id, name.to_string(), RunnerGroupVisibility::All)
}

fn teams() -> Vec<RunnerGroup> {
    vec![group(10, "A"), group(20, "B")]
}

fn keys(tab: &mut RunnersTab, codes: &[KeyCode]) -> Handled {
    let mut last = Handled { exit: false, command: None };
    for c in codes {
        last = tab.handle_input(press(*c));
    }
    last
}

fn group_keys(tab: &mut RunnersGroupsTab, codes: &[KeyCode]) -> Handled {
    let mut last = Handled { exit: false, command: None };
    for c in codes {
        last = tab.handle_input(press(*c));
    }
    last
}

fn typed(text: &str) -> Vec<KeyCode> {
    text.chars().map(KeyCode::Char).collect()
}

#[test]
fn commit_on_a_runner_remembers_it() {
    for op in 0..3 {
        let mut tab = RunnersTab::new(fleet());
        let handled = keys(&mut tab, &[KeyCode::Down, KeyCode::Enter]);
        assert!(!handled.exit);
        assert!(handled.command.is_none());
        assert_eq!(tab.stage(), Stage::SelectOp);
        assert_eq!(tab.selected().map(|r| r.id), Some(7));
        for _ in 0..op {
            keys(&mut tab, &[KeyCode::Down]);
        }
        keys(&mut tab, &[KeyCode::Enter]);
        assert_eq!(tab.selected().map(|r| r.id), Some(7));
    }
}

#[test]
fn commit_without_a_runner_stays() {
    let mut tab = RunnersTab::new(fleet());
    keys(&mut tab, &[KeyCode::Left, KeyCode::Enter]);
    assert_eq!(tab.stage(), Stage::SelectRunner);
    let mut tab = RunnersTab::new(Vec::new());
    keys(&mut tab, &[KeyCode::Right]);
    assert_eq!(tab.stage(), Stage::SelectRunner);
    assert!(tab.selected().is_none());
}

#[test]
fn add_label_flow() {
    let mut tab = RunnersTab::new(fleet());
    keys(&mut tab, &[KeyCode::Down, KeyCode::Enter, KeyCode::Enter]);
    assert_eq!(tab.stage(), Stage::SelectOp);
    let popup = tab.popup().clone().unwrap();
    assert_eq!(popup.title, "Input new label:");
    assert!(!popup.is_loading);
    let mut text = typed("gpx");
    text.push(KeyCode::Backspace);
    text.push(KeyCode::Char('u'));
    keys(&mut tab, &text);
    assert_eq!(tab.input().as_str(), "gpu");
    assert_eq!(popup.text(tab.input().as_str()), "gpu_");
    let handled = keys(&mut tab, &[KeyCode::Enter]);
    match handled.command {
        Some(BackendMessage::AddLabel(id, label)) => {
            assert_eq!(id, 7);
            assert_eq!(label, "gpu");
        },
        _ => panic!("no add-label command"),
    }
    assert!(tab.popup().clone().unwrap().is_loading);
    assert_eq!(tab.input().as_str(), "");
}

#[test]
fn loading_popup_holds_commits_back_until_refresh() {
    let mut tab = RunnersTab::new(fleet());
    keys(&mut tab, &[KeyCode::Down, KeyCode::Enter, KeyCode::Enter, KeyCode::Char('a'), KeyCode::Enter]);
    assert!(tab.popup().clone().unwrap().is_loading);
    for code in [KeyCode::Enter, KeyCode::Right, KeyCode::Esc, KeyCode::Char('z'), KeyCode::Tab, KeyCode::Other] {
        let handled = keys(&mut tab, &[code]);
        assert!(handled.command.is_none());
        assert!(!handled.exit);
        assert_eq!(tab.stage(), Stage::SelectOp);
        assert_eq!(tab.operations().selected_index(), Some(0));
        assert!(tab.popup().clone().unwrap().is_loading);
    }
    let handled = keys(&mut tab, &[KeyCode::Down]);
    assert!(handled.command.is_none());
    assert_eq!(tab.operations().selected_index(), Some(1));
    let handled = keys(&mut tab, &[KeyCode::Enter]);
    assert!(handled.command.is_none());
    assert_eq!(tab.stage(), Stage::SelectOp);
    let handled = keys(&mut tab, &[KeyCode::Left, KeyCode::Down, KeyCode::Char('x'), KeyCode::Enter]);
    assert!(handled.command.is_none());
    assert!(!handled.exit);
    assert_eq!(tab.stage(), Stage::SelectRunner);
    assert_eq!(tab.title(), "Runners - x");
    assert_eq!(tab.selected().map(|r| r.id), Some(9));
    let handled = keys(&mut tab, &[KeyCode::Esc]);
    assert!(!handled.exit);
    assert!(tab.popup().clone().unwrap().is_loading);
    assert_eq!(tab.popup().clone().unwrap().text(""), "Loading...");
    tab.set_runners(vec![runner(7, "r7", &["gpu", "big", "a"]), runner(8, "x8", &[])]);
    assert!(tab.popup().is_none());
    assert_eq!(tab.stage(), Stage::SelectRunner);
    assert_eq!(tab.selected().map(|r| r.id), Some(8));
}

#[test]
fn loading_popup_on_the_groups_tab_leaves_the_cursor_free() {
    let mut tab = RunnersGroupsTab::new(teams());
    group_keys(&mut tab, &[KeyCode::Enter, KeyCode::Enter]);
    group_keys(&mut tab, &typed("fresh"));
    let handled = group_keys(&mut tab, &[KeyCode::Enter]);
    assert!(handled.command.is_some());
    assert_eq!(tab.stage(), GroupStage::SelectGroup);
    assert_eq!(tab.selected().map(|g| g.id), Some(10));
    let handled = group_keys(&mut tab, &[KeyCode::Down]);
    assert!(handled.command.is_none());
    assert_eq!(tab.selected().map(|g| g.id), Some(20));
    for code in [KeyCode::Enter, KeyCode::Right, KeyCode::Esc] {
        let handled = group_keys(&mut tab, &[code]);
        assert!(handled.command.is_none());
        assert!(!handled.exit);
        assert_eq!(tab.stage(), GroupStage::SelectGroup);
        assert!(tab.popup().clone().unwrap().is_loading);
    }
    tab.toggle_loading();
    group_keys(&mut tab, &[KeyCode::Enter]);
    assert_eq!(tab.stage(), GroupStage::SelectOperation);
}

#[test]
fn tab_key_switches_under_a_popup_at_the_first_stage() {
    let mut app = AppState::new(fleet(), teams(), Tab::RunnerGroups);
    for code in [KeyCode::Enter, KeyCode::Down, KeyCode::Down, KeyCode::Enter] {
        app.handle_key(press(code));
    }
    app.handle_key(press(KeyCode::Tab));
    assert_eq!(app.selected_tab(), Tab::RunnerGroups);
    app.handle_key(press(KeyCode::Char('t')));
    assert!(app.handle_key(press(KeyCode::Enter)).is_some());
    assert_eq!(app.runner_groups_tab().stage(), GroupStage::SelectGroup);
    assert!(app.runner_groups_tab().popup().clone().unwrap().is_loading);
    app.handle_key(press(KeyCode::Tab));
    assert_eq!(app.selected_tab(), Tab::Runners);
    app.handle_key(press(KeyCode::Tab));
    assert_eq!(app.selected_tab(), Tab::RunnerGroups);
}

#[test]
fn escape_cancels_popup_then_steps_back_then_exits() {
    let mut tab = RunnersTab::new(fleet());
    keys(&mut tab, &[KeyCode::Enter, KeyCode::Enter]);
    assert!(tab.popup().is_some());
    let handled = keys(&mut tab, &[KeyCode::Esc]);
    assert!(!handled.exit);
    assert!(tab.popup().is_none());
    assert_eq!(tab.stage(), Stage::SelectOp);
    let handled = keys(&mut tab, &[KeyCode::Esc]);
    assert!(!handled.exit);
    assert_eq!(tab.stage(), Stage::SelectRunner);
    let handled = keys(&mut tab, &[KeyCode::Esc]);
    assert!(handled.exit);
}

#[test]
fn remove_label_flow() {
    let mut tab = RunnersTab::new(fleet());
    keys(&mut tab, &[KeyCode::Down, KeyCode::Enter, KeyCode::Down, KeyCode::Enter]);
    assert_eq!(tab.stage(), Stage::RemoveLabels);
    assert_eq!(tab.dynamic_list().len(), 2);
    assert_eq!(tab.dynamic_list().item(0).display(), "gpu");
    assert_eq!(tab.title(), "Remove labels - r7");
    let handled = keys(&mut tab, &[KeyCode::Enter]);
    assert!(handled.command.is_none());
    assert!(tab.popup().is_none());
    let handled = keys(&mut tab, &[KeyCode::Down, KeyCode::Down, KeyCode::Enter]);
    match handled.command {
        Some(BackendMessage::DeleteLabel(id, label)) => {
            assert_eq!(id, 7);
            assert_eq!(label, "big");
        },
        _ => panic!("no delete-label command"),
    }
    assert!(tab.popup().clone().unwrap().is_loading);
    let handled = keys(&mut tab, &[KeyCode::Enter]);
    assert!(handled.command.is_none());
}

#[test]
fn left_steps_back_one_stage() {
    let mut tab = RunnersTab::new(fleet());
    keys(&mut tab, &[KeyCode::Enter, KeyCode::Down, KeyCode::Enter]);
    assert_eq!(tab.stage(), Stage::RemoveLabels);
    keys(&mut tab, &[KeyCode::Left]);
    assert_eq!(tab.stage(), Stage::SelectOp);
    keys(&mut tab, &[KeyCode::Left]);
    assert_eq!(tab.stage(), Stage::SelectRunner);
    keys(&mut tab, &[KeyCode::Left]);
    assert_eq!(tab.stage(), Stage::SelectRunner);
    assert!(tab.selected().is_none());
}

#[test]
fn typing_filters_the_runners() {
    let mut tab = RunnersTab::new(fleet());
    assert_eq!(tab.title(), "Runners - ");
    keys(&mut tab, &typed("r7"));
    assert_eq!(tab.title(), "Runners - r7");
    assert_eq!(tab.runners().filtered_items().len(), 1);
    assert_eq!(tab.selected().map(|r| r.id), Some(7));
    keys(&mut tab, &[KeyCode::Backspace]);
    assert_eq!(tab.runners().filtered_items().len(), 3);
    keys(&mut tab, &[KeyCode::Char('7')]);
    assert_eq!(tab.runners().filtered_items().len(), 1);
    keys(&mut tab, &[KeyCode::Backspace, KeyCode::Backspace, KeyCode::Char('r'), KeyCode::Char('5')]);
    assert_eq!(tab.selected().map(|r| r.id), Some(5));
    keys(&mut tab, &[KeyCode::Backspace, KeyCode::End, KeyCode::Up, KeyCode::Enter]);
    assert_eq!(tab.title(), "Select operation - r7");
    keys(&mut tab, &[KeyCode::Left, KeyCode::Home]);
    assert_eq!(tab.selected().map(|r| r.id), Some(5));
    tab.set_runners(vec![runner(1, "zz", &[]), runner(2, "r2", &[])]);
    assert_eq!(tab.runners().filtered_items().len(), 1);
    assert_eq!(tab.selected().map(|r| r.id), Some(2));
}

#[test]
fn group_operations_flow() {
    let mut tab = RunnersGroupsTab::new(teams());
    assert_eq!(tab.title(), "Runner Groups");
    group_keys(&mut tab, &[KeyCode::Down, KeyCode::Enter]);
    assert_eq!(tab.stage(), GroupStage::SelectOperation);
    assert_eq!(tab.title(), "Select operation - B");
    let handled = group_keys(&mut tab, &[KeyCode::Down, KeyCode::Enter]);
    assert!(matches!(handled.command, Some(BackendMessage::GetGroupRepos(20))));
    assert!(tab.popup().is_none());
    tab.set_group_repos(vec![ApiRepository { id: 1, name: "tools".to_string() }]);
    assert_eq!(tab.stage(), GroupStage::ListRepos);
    assert_eq!(tab.title(), "Repos with access to group - B");
    assert_eq!(tab.dynamic_list().item(0).display(), "tools");
    assert_eq!(tab.dynamic_list().selected_index(), None);
    let handled = group_keys(&mut tab, &[KeyCode::Enter, KeyCode::Down, KeyCode::Left]);
    assert!(handled.command.is_none());
    assert_eq!(tab.stage(), GroupStage::SelectOperation);
}

#[test]
fn add_repo_flow() {
    let mut tab = RunnersGroupsTab::new(teams());
    group_keys(&mut tab, &[KeyCode::Enter, KeyCode::Up, KeyCode::Down, KeyCode::Down, KeyCode::Enter]);
    assert_eq!(tab.stage(), GroupStage::AddRepo);
    assert_eq!(tab.popup().clone().unwrap().title, "Input repo name:");
    group_keys(&mut tab, &typed("tools"));
    let handled = group_keys(&mut tab, &[KeyCode::Enter]);
    match handled.command {
        Some(BackendMessage::AddRepoToGroup(name, id)) => {
            assert_eq!(name, "tools");
            assert_eq!(id, 10);
        },
        _ => panic!("no add-repo command"),
    }
    assert_eq!(tab.stage(), GroupStage::SelectGroup);
    assert!(tab.popup().clone().unwrap().is_loading);
    let handled = group_keys(&mut tab, &[KeyCode::Enter, KeyCode::Esc]);
    assert!(handled.command.is_none());
    assert!(!handled.exit);
    tab.toggle_loading();
    assert!(tab.popup().is_none());
}

#[test]
fn create_group_flow() {
    let mut tab = RunnersGroupsTab::new(teams());
    group_keys(&mut tab, &[KeyCode::Enter, KeyCode::Enter]);
    assert_eq!(tab.stage(), GroupStage::CreateGroup);
    assert_eq!(tab.popup().clone().unwrap().title, "Input group name:");
    group_keys(&mut tab, &[KeyCode::Esc]);
    assert_eq!(tab.stage(), GroupStage::SelectOperation);
    assert!(tab.popup().is_none());
    group_keys(&mut tab, &[KeyCode::Enter]);
    group_keys(&mut tab, &typed("fresh"));
    let handled = group_keys(&mut tab, &[KeyCode::Enter]);
    match handled.command {
        Some(BackendMessage::CreateRunnerGroup(spec)) => {
            assert_eq!(spec.name, "fresh");
            assert_eq!(spec.visibility, RunnerGroupVisibility::Selected);
            assert!(spec.runners.is_empty());
            assert!(spec.selected_repository_ids.is_empty());
        },
        _ => panic!("no create command"),
    }
    assert!(tab.popup().clone().unwrap().is_loading);
    tab.set_groups(vec![group(10, "A"), group(20, "B"), group(30, "fresh")]);
    assert!(tab.popup().is_none());
    assert_eq!(tab.stage(), GroupStage::SelectGroup);
    assert_eq!(tab.groups().len(), 3);
}

#[test]
fn group_escape_exits_at_the_first_stage() {
    let mut tab = RunnersGroupsTab::new(teams());
    group_keys(&mut tab, &[KeyCode::Enter]);
    let handled = group_keys(&mut tab, &[KeyCode::Esc]);
    assert!(!handled.exit);
    assert_eq!(tab.stage(), GroupStage::SelectGroup);
    let handled = group_keys(&mut tab, &[KeyCode::Esc]);
    assert!(handled.exit);
}

#[test]
fn group_filter_and_selection() {
    let mut tab = RunnersGroupsTab::new(teams());
    group_keys(&mut tab, &typed("B "));
    assert_eq!(tab.groups().filtered_items().len(), 1);
    assert_eq!(tab.selected().map(|g| g.id), Some(20));
    group_keys(&mut tab, &typed("ID: 2"));
    assert_eq!(tab.selected().map(|g| g.id), Some(20));
    group_keys(&mut tab, &typed("1"));
    assert!(tab.selected().is_none());
    let handled = group_keys(&mut tab, &[KeyCode::Enter]);
    assert!(handled.command.is_none());
    assert_eq!(tab.stage(), GroupStage::SelectGroup);
}

#[test]
fn change_group_picks_the_target_on_the_groups_tab() {
    let mut app = AppState::new(fleet(), teams(), Tab::Runners);
    let go = [KeyCode::Down, KeyCode::Enter, KeyCode::Down, KeyCode::Down, KeyCode::Enter];
    for code in go {
        assert!(app.handle_key(press(code)).is_none());
    }
    assert_eq!(app.selected_tab(), Tab::RunnerGroups);
    assert_eq!(app.runner_groups_tab().target(), Some(7));
    assert_eq!(app.runners_tab().pending_group_change(), Some(7));
    app.handle_key(press(KeyCode::Down));
    match app.handle_key(press(KeyCode::Enter)) {
        Some(BackendMessage::ChangeGroup(id, name)) => {
            assert_eq!(id, 7);
            assert_eq!(name, "B");
        },
        _ => panic!("no change-group command"),
    }
    assert_eq!(app.runner_groups_tab().target(), None);
    assert!(app.runner_groups_tab().popup().clone().unwrap().is_loading);
    assert!(app.runners_tab().popup().clone().unwrap().is_loading);
    app.handle_key(press(KeyCode::Tab));
    assert_eq!(app.selected_tab(), Tab::Runners);
    for code in [KeyCode::Left, KeyCode::Enter, KeyCode::Right, KeyCode::Char('g'), KeyCode::Enter] {
        assert!(app.handle_key(press(code)).is_none());
    }
    assert!(app.runners_tab().popup().clone().unwrap().is_loading);
    app.handle_message(ApiMessage::RunnerGroupList(Box::new(teams())));
    assert!(app.runner_groups_tab().popup().is_none());
    assert!(app.runners_tab().popup().clone().unwrap().is_loading);
    app.handle_message(ApiMessage::RunnerList(Box::new(fleet())));
    assert!(app.runners_tab().popup().is_none());
    assert_eq!(app.selected_tab(), Tab::Runners);
    assert_eq!(app.runners_tab().stage(), Stage::SelectRunner);
    assert!(!app.should_exit());
}

#[test]
fn escape_gives_the_pick_up() {
    let mut app = AppState::new(fleet(), teams(), Tab::Runners);
    for code in [KeyCode::Enter, KeyCode::Down, KeyCode::Down, KeyCode::Enter] {
        app.handle_key(press(code));
    }
    assert_eq!(app.selected_tab(), Tab::RunnerGroups);
    assert!(app.handle_key(press(KeyCode::Esc)).is_none());
    assert!(!app.should_exit());
    assert_eq!(app.selected_tab(), Tab::Runners);
    assert_eq!(app.runners_tab().stage(), Stage::SelectOp);
    assert_eq!(app.runner_groups_tab().target(), None);
}

#[test]
fn tab_key_switches_only_at_the_first_stage() {
    let mut app = AppState::new(fleet(), teams(), Tab::Runners);
    app.handle_key(press(KeyCode::Tab));
    assert_eq!(app.selected_tab(), Tab::RunnerGroups);
    app.handle_key(press(KeyCode::Tab));
    assert_eq!(app.selected_tab(), Tab::Runners);
    app.handle_key(press(KeyCode::Enter));
    assert_eq!(app.runners_tab().stage(), Stage::SelectOp);
    app.handle_key(press(KeyCode::Tab));
    assert_eq!(app.selected_tab(), Tab::Runners);
    app.handle_key(press(KeyCode::Left));
    app.handle_key(press(KeyCode::Tab));
    assert_eq!(app.selected_tab(), Tab::RunnerGroups);
}

#[test]
fn only_presses_count() {
    let mut app = AppState::new(fleet(), teams(), Tab::Runners);
    app.handle_key(KeyEvent { code: KeyCode::Esc, kind: KeyEventKind::Release });
    assert!(!app.should_exit());
    app.handle_key(KeyEvent { code: KeyCode::Tab, kind: KeyEventKind::Repeat });
    assert_eq!(app.selected_tab(), Tab::Runners);
    app.handle_key(press(KeyCode::Esc));
    assert!(app.should_exit());
}

#[test]
fn events_update_the_tabs() {
    let mut app = AppState::new(Vec::new(), Vec::new(), Tab::RunnerGroups);
    app.handle_message(ApiMessage::RunnerGroupList(Box::new(teams())));
    assert_eq!(app.runner_groups_tab().groups().len(), 2);
    assert_eq!(app.selected_tab(), Tab::RunnerGroups);
    app.handle_message(ApiMessage::GroupRepos(Box::new(vec![ApiRepository { id: 1, name: "a".to_string() }])));
    assert_eq!(app.runner_groups_tab().stage(), GroupStage::ListRepos);
    app.handle_message(ApiMessage::Completed);
    assert!(app.runner_groups_tab().popup().is_none());
    app.handle_message(ApiMessage::RunnerList(Box::new(fleet())));
    assert_eq!(app.selected_tab(), Tab::Runners);
    assert_eq!(app.runners_tab().runners().len(), 3);
    app.set_runner_groups(vec![group(1, "only")]);
    assert_eq!(app.runner_groups_tab().groups().len(), 1);
    app.set_group_repos(Vec::new());
    assert_eq!(app.runner_groups_tab().dynamic_list().len(), 0);
    app.set_runners(Vec::new());
    assert_eq!(app.runners_tab().runners().len(), 0);
}

#[test]
fn tabs_of_the_header() {
    assert_eq!(Tab::all(), vec![Tab::Runners, Tab::RunnerGroups]);
    assert_eq!(Tab::Runners.as_str(), " Runners ");
    assert_eq!(Tab::RunnerGroups.as_str(), " Runner Groups ");
    assert_eq!(Tab::Runners.index(), 0);
    assert_eq!(Tab::RunnerGroups.index(), 1);
}
