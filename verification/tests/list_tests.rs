use runner_dash::ui::DisplayText;
use runner_dash::ui::FilterableList;
use runner_dash::ui::GroupOperation;
use runner_dash::ui::ListEntry;
use runner_dash::ui::PopupInfo;
use runner_dash::ui::RunnerOperation;
use runner_dash::ui::SelectableList;

fn labels(names: &[&str]) -> Vec<ListEntry> {
    names.iter().map(|n| ListEntry::Label(n.to_string())).collect()
}

fn shown(list: &FilterableList<ListEntry>) -> Vec<String> {
    list.filtered_items().iter().map(|e| e.display()).collect()
}

#[test]
fn new_list_shows_everything() {
    let list = FilterableList::new(labels(&["alpha", "beta", "gamma"]));
    assert_eq!(shown(&list), vec!["alpha", "beta", "gamma"]);
    assert_eq!(list.selected_index(), None);
    assert_eq!(list.input_buffer().as_str(), "");
    assert_eq!(list.len(), 3);
}

#[test]
fn filter_keeps_the_items_that_hold_the_text() {
    let mut list = FilterableList::new(labels(&["alpha", "beta", "gamma", "delta"]));
    list.update_filter('t');
    assert_eq!(shown(&list), vec!["beta", "delta"]);
    list.update_filter('a');
    assert_eq!(shown(&list), vec!["beta", "delta"]);
    list.update_filter('x');
    assert_eq!(shown(&list), Vec::<String>::new());
    assert_eq!(list.input_buffer().as_str(), "tax");
}

#[test]
fn filter_matches_in_the_middle_and_keeps_order() {
    let mut list = FilterableList::new(labels(&["linux-a", "mac", "a-linux", "xlinuxx"]));
    for c in "linux".chars() {
        list.update_filter(c);
    }
    assert_eq!(shown(&list), vec!["linux-a", "a-linux", "xlinuxx"]);
}

#[test]
fn filtering_twice_changes_nothing() {
    let mut list = FilterableList::new(labels(&["alpha", "beta", "gamma"]));
    list.update_filter('m');
    let once = shown(&list);
    list.filter_items();
    assert_eq!(shown(&list), once);
    let mut again = FilterableList::new(labels(&["gamma"]));
    again.update_filter('m');
    assert_eq!(shown(&again), once);
}

#[test]
fn longer_filter_never_shows_more() {
    let mut list = FilterableList::new(labels(&["ab", "abc", "b", "cab", "abcd"]));
    let mut last = list.filtered_items().len();
    for c in "abcd".chars() {
        list.update_filter(c);
        let now = list.filtered_items().len();
        assert!(now <= last);
        last = now;
    }
    assert_eq!(shown(&list), vec!["abcd"]);
}

#[test]
fn backspace_widens_the_filter_again() {
    let mut list = FilterableList::new(labels(&["ab", "abc", "b"]));
    list.update_filter('a');
    list.update_filter('b');
    list.update_filter('c');
    assert_eq!(shown(&list), vec!["abc"]);
    list.remove_last_input();
    assert_eq!(shown(&list), vec!["ab", "abc"]);
    list.remove_last_input();
    list.remove_last_input();
    list.remove_last_input();
    assert_eq!(list.input_buffer().as_str(), "");
    assert_eq!(shown(&list), vec!["ab", "abc", "b"]);
}

#[test]
fn fresh_items_are_filtered_by_the_standing_text() {
    let mut list = FilterableList::new(labels(&["one", "two"]));
    list.update_filter('o');
    list.set_items(labels(&["rock", "paper", "stone"]));
    assert_eq!(shown(&list), vec!["rock", "stone"]);
    assert_eq!(list.input_buffer().as_str(), "o");
}

#[test]
fn typed_text_alone_leaves_the_view() {
    let mut list = FilterableList::new(labels(&["one", "two"]));
    list.add_to_input('w');
    assert_eq!(list.input_buffer().as_str(), "w");
    assert_eq!(shown(&list), vec!["one", "two"]);
    list.filter_items();
    assert_eq!(shown(&list), vec!["two"]);
}

#[test]
fn cursor_follows_the_visible_items() {
    let mut list = FilterableList::new(labels(&["a1", "b", "a2", "a3"])).with_first_selected();
    assert_eq!(list.selected_index(), Some(0));
    list.select_last();
    assert_eq!(list.selected_index(), Some(3));
    assert_eq!(list.selected().map(|e| e.display()), Some("a3".to_string()));
    list.update_filter('a');
    assert_eq!(list.selected_index(), Some(2));
    assert_eq!(list.selected().map(|e| e.display()), Some("a3".to_string()));
    list.update_filter('1');
    assert_eq!(list.selected_index(), Some(0));
    assert_eq!(list.selected().map(|e| e.display()), Some("a1".to_string()));
    list.update_filter('z');
    assert_eq!(list.selected_index(), None);
    assert!(list.selected().is_none());
}

#[test]
fn cursor_moves_stop_at_the_ends() {
    let mut list = FilterableList::new(labels(&["a", "b", "c"]));
    list.select_next();
    assert_eq!(list.selected_index(), Some(0));
    list.select_next();
    list.select_next();
    list.select_next();
    assert_eq!(list.selected_index(), Some(2));
    list.select_previous();
    assert_eq!(list.selected_index(), Some(1));
    list.select_first();
    list.select_previous();
    assert_eq!(list.selected_index(), Some(0));
    list.select_none();
    assert_eq!(list.selected_index(), None);
    list.select_previous();
    assert_eq!(list.selected_index(), Some(2));
}

#[test]
fn cursor_of_an_empty_list_stays_absent() {
    let mut list: FilterableList<ListEntry> = FilterableList::new(Vec::new()).with_first_selected();
    assert_eq!(list.selected_index(), None);
    list.select_next();
    list.select_last();
    list.select_previous();
    assert_eq!(list.selected_index(), None);
    let mut plain: SelectableList<ListEntry> = SelectableList::new(Vec::new()).with_first_selected();
    plain.select_next();
    plain.select_last();
    assert_eq!(plain.selected_index(), None);
    assert!(plain.selected().is_none());
}

#[test]
fn selectable_list_moves_and_resets() {
    let mut list = SelectableList::new(labels(&["x", "y"])).with_first_selected();
    assert_eq!(list.selected().map(|e| e.display()), Some("x".to_string()));
    list.select_next();
    list.select_next();
    assert_eq!(list.selected_index(), Some(1));
    list.select_previous();
    assert_eq!(list.selected_index(), Some(0));
    list.select_last();
    assert_eq!(list.selected_index(), Some(1));
    list.select_first();
    assert_eq!(list.selected_index(), Some(0));
    list.set_items(labels(&["p", "q", "r"]));
    assert_eq!(list.selected_index(), None);
    assert_eq!(list.len(), 3);
    assert_eq!(list.item(2).display(), "r");
    list.select_none();
    list.select_previous();
    assert_eq!(list.selected_index(), Some(2));
}

#[test]
fn operations_are_offered_in_order() {
    let ops = RunnerOperation::all();
    assert_eq!(ops, vec![RunnerOperation::AddLabel, RunnerOperation::RemoveLabel, RunnerOperation::ChangeGroup]);
    let names: Vec<String> = ops.iter().map(|o| o.display()).collect();
    assert_eq!(names, vec!["Add label", "Remove label", "Change group"]);
    let ops = GroupOperation::all();
    assert_eq!(ops, vec![GroupOperation::CreateGroup, GroupOperation::GetRepos, GroupOperation::AddRepo]);
    let names: Vec<String> = ops.iter().map(|o| o.display()).collect();
    assert_eq!(names, vec!["Create group", "Get repos accesses", "Add repo"]);
}

#[test]
fn popup_texts() {
    let loading = PopupInfo::loading();
    assert!(loading.is_loading);
    assert_eq!(loading.title, "Loading");
    assert_eq!(loading.text("ignored"), "Loading...");
    let fixed = PopupInfo::new("T".to_string(), "body".to_string());
    assert!(!fixed.is_loading);
    assert_eq!(fixed.text("abc"), "body");
    let typed = PopupInfo::new_dynamic("Input new label:".to_string());
    assert!(!typed.is_loading);
    assert_eq!(typed.title, "Input new label:");
    assert_eq!(typed.text("gp"), "gp_");
    assert_eq!(typed.text(""), "_");
}
