use git_igitt::app::{ActiveView, App, DiffMode, DiffOptions, DiffType};
use git_igitt::dialogs::{FileDialog, Step};
use git_igitt::event::{Command, KeyCode, KeyEvent, Reaction};
use git_igitt::graph::{BranchInfo, GraphInfo, HeadInfo, Oid};
use git_igitt::schedule::{KeyRepeat, Timers};
use git_igitt::settings::AppSettings;
use git_igitt::style::Rgb;
use git_igitt::sync::{CommitRequest, CompareTo, FilesRequest};
use git_igitt::watch::{has_changed, same_branches, short_head_name, RepoHead};
use git_igitt::widgets::commit_view::DiffItem;
use git_igitt::widgets::list::ListState;
use git_igitt::widgets::models_view::ModelListState;
use std::path::PathBuf;

fn oid(n: u64) -> Oid {
    Oid { hi: n, mid: 0, lo: 0 }
}

fn lines(n: usize) -> Vec<String> {
    (0..n).map(|i| format!("Commit number {}", i)).collect()
}

fn graph(commits: &[u64], head: u64) -> GraphInfo {
    GraphInfo {
        commits: commits.iter().map(|n| oid(*n)).collect(),
        all_branches: vec![
            BranchInfo {
                target: oid(head),
                name: "main".to_string(),
                is_remote: false,
                term_color: 1,
                target_time: None,
            },
            BranchInfo {
                target: oid(999),
                name: "elsewhere".to_string(),
                is_remote: false,
                term_color: 2,
                target_time: None,
            },
        ],
        branches: vec![0, 1],
        tags: vec![],
        head: HeadInfo { oid: oid(head), name: "main".to_string(), is_branch: true },
    }
}

fn new_app() -> App {
    App::new(
        AppSettings::default(),
        "git-igitt - repo".to_string(),
        "repo".to_string(),
        PathBuf::from("models"),
    )
}

/// An application with a graph of `n` commits, ids 100, 101, ..., one row
/// each, the head on commit `head`.
fn app_with(n: usize, head: usize) -> App {
    let ids: Vec<u64> = (0..n as u64).map(|i| 100 + i).collect();
    let (app, selected) = new_app().with_graph(
        graph(&ids, 100 + head as u64),
        lines(n),
        lines(n),
        (0..n).collect(),
        true,
    );
    assert_eq!(selected, n > head);
    app
}

fn files(names: &[&str]) -> Vec<DiffItem> {
    names
        .iter()
        .map(|name| DiffItem { file: name.to_string(), diff_type: DiffType::Modified })
        .collect()
}

/// Like `app_with`, with commit and file list loaded.
fn app_with_files(n: usize, head: usize, names: &[&str]) -> App {
    let mut app = app_with(n, head);
    app.reload_diff_message(vec!["text".to_string()], Some(oid(1)));
    assert_eq!(app.reload_diff_files(files(names)), Ok(true));
    app
}

fn key(code: KeyCode) -> KeyEvent {
    KeyEvent { code, shift: false, control: false }
}

fn ctrl(code: KeyCode) -> KeyEvent {
    KeyEvent { code, shift: false, control: true }
}

fn nothing() -> Reaction {
    Reaction { command: Command::Continue, reload_diffs: false, reload_file: false, reset_scroll: true }
}

#[test]
fn new_app_starts_in_graph_view() {
    let app = new_app();
    assert_eq!(app.active_view, ActiveView::Graph);
    assert_eq!(app.prev_active_view, None);
    assert!(app.graph_state.graph.is_none());
    assert!(app.commit_state.content.is_none());
    assert!(app.diff_state.content.is_none());
    assert!(app.models_state.is_none());
    assert!(!app.is_fullscreen);
    assert!(app.horizontal_split);
    assert!(!app.show_branches);
    assert!(app.color);
    assert_eq!(app.error_message, None);
    assert_eq!(app.search_term, None);
    assert_eq!(
        app.diff_options,
        DiffOptions {
            context_lines: 3,
            diff_mode: DiffMode::Diff,
            line_numbers: true,
            syntax_highlight: true,
            wrap_lines: false,
        }
    );
    assert_eq!(app.diff_options, DiffOptions::default());
}

#[test]
fn builders_set_their_field() {
    let app = new_app().with_color(false);
    assert!(!app.color);
    let branches = vec![(Some("main".to_string()), Some(oid(1)))];
    let app = app.with_branches(branches.clone());
    assert_eq!(app.curr_branches, branches);
    let app = app_with(3, 0).clear_graph();
    assert!(app.graph_state.graph.is_none());
    assert!(app.graph_state.graph_lines.is_empty());
    assert!(app.graph_state.text_lines.is_empty());
    assert!(app.graph_state.indices.is_empty());
}

#[test]
fn with_graph_selects_head() {
    let app = app_with(5, 3);
    assert_eq!(app.graph_state.selected, Some(3));
    assert_eq!(app.graph_state.indices, vec![0, 1, 2, 3, 4]);
    let names: Vec<&str> = app
        .graph_state
        .branches
        .as_ref()
        .unwrap()
        .items
        .iter()
        .map(|item| item.name.as_str())
        .collect();
    assert_eq!(names, vec!["Branches", "main", "elsewhere", "Remotes", "Tags"]);
    // A head outside the graph selects nothing.
    let (app, selected) = new_app().with_graph(graph(&[1, 2], 7), lines(2), lines(2), vec![0, 1], true);
    assert!(!selected);
    assert_eq!(app.graph_state.selected, None);
    // Without `select_head` the cursor stays.
    let (app, selected) = new_app().with_graph(graph(&[1, 2], 2), lines(2), lines(2), vec![0, 1], false);
    assert!(!selected);
    assert_eq!(app.graph_state.selected, None);
}

#[test]
fn left_and_right_walk_the_panels() {
    let mut app = app_with(3, 0);
    app.active_view = ActiveView::Branches;
    app.on_left(false, false);
    assert_eq!(app.active_view, ActiveView::Branches);
    let order = [ActiveView::Graph, ActiveView::Commit, ActiveView::Files, ActiveView::Diff];
    for view in order {
        assert_eq!(app.on_right(false, false), Ok(false));
        assert_eq!(app.active_view, view);
    }
    assert_eq!(app.on_right(false, false), Ok(false));
    assert_eq!(app.active_view, ActiveView::Diff);
    for view in [ActiveView::Files, ActiveView::Commit, ActiveView::Graph, ActiveView::Branches] {
        app.on_left(false, false);
        assert_eq!(app.active_view, view);
    }
    for view in [ActiveView::Models, ActiveView::Search] {
        app.active_view = view;
        app.on_left(false, false);
        assert_eq!(app.active_view, view);
        assert_eq!(app.on_right(false, false), Ok(false));
        assert_eq!(app.active_view, view);
    }
}

#[test]
fn entering_files_selects_first_file() {
    let mut app = app_with_files(3, 0, &["a", "b"]);
    app.active_view = ActiveView::Commit;
    assert_eq!(app.on_right(false, false), Ok(true));
    assert_eq!(app.active_view, ActiveView::Files);
    assert_eq!(app.commit_state.content.as_ref().unwrap().diffs.state.selected, Some(0));
    // A file is selected already: nothing to load.
    app.active_view = ActiveView::Commit;
    assert_eq!(app.on_right(false, false), Ok(false));
    // An empty file list: nothing to select.
    let mut app = app_with_files(3, 0, &[]);
    app.active_view = ActiveView::Commit;
    assert_eq!(app.on_right(false, false), Ok(false));
    assert_eq!(app.active_view, ActiveView::Files);
    assert_eq!(app.commit_state.content.as_ref().unwrap().diffs.state.selected, None);
}

#[test]
fn help_covers_and_uncovers() {
    let mut app = new_app();
    app.active_view = ActiveView::Files;
    app.show_help();
    assert_eq!(app.active_view, ActiveView::Help(0));
    assert_eq!(app.prev_active_view, Some(ActiveView::Files));
    assert_eq!(app.on_down(true, false), Ok((false, false)));
    assert_eq!(app.active_view, ActiveView::Help(10));
    assert_eq!(app.on_up(false, false), Ok((false, false)));
    assert_eq!(app.active_view, ActiveView::Help(9));
    app.show_help();
    assert_eq!(app.active_view, ActiveView::Help(9));
    assert_eq!(app.on_esc(), Ok(false));
    assert_eq!(app.active_view, ActiveView::Files);
    assert_eq!(app.prev_active_view, None);
    // With nothing kept, the graph panel is next.
    app.active_view = ActiveView::Help(0);
    assert_eq!(app.on_enter(false), Ok(false));
    assert_eq!(app.active_view, ActiveView::Graph);
    app.active_view = ActiveView::Help(3);
    app.prev_active_view = Some(ActiveView::Diff);
    app.on_left(false, false);
    assert_eq!(app.active_view, ActiveView::Diff);
}

#[test]
fn second_overlay_keeps_the_view_covered() {
    let mut app = new_app();
    app.active_view = ActiveView::Diff;
    assert_eq!(app.select_model(Ok(vec!["simple".to_string()])), Ok(()));
    assert_eq!(app.active_view, ActiveView::Models);
    assert_eq!(app.prev_active_view, Some(ActiveView::Diff));
    app.show_help();
    assert_eq!(app.active_view, ActiveView::Help(0));
    assert_eq!(app.prev_active_view, Some(ActiveView::Diff));
    assert_eq!(app.on_esc(), Ok(false));
    assert_eq!(app.active_view, ActiveView::Diff);
}

#[test]
fn select_model_lists_models_or_reports() {
    let mut app = new_app().with_color(false);
    assert_eq!(app.select_model(Ok(vec!["simple".to_string(), "git-flow".to_string()])), Ok(()));
    let models = app.models_state.as_ref().unwrap();
    assert_eq!(models.models, vec!["simple", "git-flow"]);
    assert!(!models.color);
    assert_eq!(models.state.selected, None);
    // Open already: nothing happens.
    assert_eq!(app.select_model(Err("ignored".to_string())), Ok(()));
    assert_eq!(app.models_state.as_ref().unwrap().models.len(), 2);
    let mut app = new_app();
    assert_eq!(
        app.select_model(Err("no such directory".to_string())),
        Err("Unable to load model files from %APP_DATA%/git-graph/models\nno such directory".to_string())
    );
    assert_eq!(app.active_view, ActiveView::Models);
    assert_eq!(app.prev_active_view, Some(ActiveView::Graph));
}

#[test]
fn model_list_steps_and_stops() {
    let mut list = ModelListState::new(vec!["a".to_string(), "b".to_string(), "c".to_string()], true);
    list.fwd(1);
    assert_eq!(list.state.selected, Some(0));
    list.fwd(1);
    assert_eq!(list.state.selected, Some(1));
    list.fwd(10);
    assert_eq!(list.state.selected, Some(2));
    list.bwd(1);
    assert_eq!(list.state.selected, Some(1));
    list.bwd(usize::MAX);
    assert_eq!(list.state.selected, Some(0));
    let mut empty = ModelListState::new(vec![], true);
    empty.fwd(1);
    empty.bwd(1);
    assert_eq!(empty.state.selected, None);
}

#[test]
fn up_and_down_move_the_graph_cursor() {
    let mut app = app_with(30, 5);
    assert_eq!(app.on_down(false, false), Ok((true, false)));
    assert_eq!(app.graph_state.selected, Some(6));
    assert_eq!(app.on_down(true, false), Ok((true, false)));
    assert_eq!(app.graph_state.selected, Some(16));
    assert_eq!(app.on_up(false, false), Ok((true, false)));
    assert_eq!(app.graph_state.selected, Some(15));
    assert_eq!(app.on_down(true, false), Ok((true, false)));
    assert_eq!(app.on_down(true, false), Ok((true, false)));
    assert_eq!(app.graph_state.selected, Some(29));
    assert_eq!(app.on_down(true, false), Ok((false, false)));
}

#[test]
fn control_down_sets_secondary_and_schedules() {
    // Commit C is two below the head.
    let mut app = app_with(10, 0);
    app.on_down(false, false).unwrap();
    app.on_down(false, false).unwrap();
    app.reload_diff_message(vec!["C".to_string()], None);
    let mut repeat = KeyRepeat::new(0);
    let mut timers = Timers::new(0);
    let reaction = app.handle_key(&mut repeat, ctrl(KeyCode::Down), 1000);
    assert_eq!(app.graph_state.selected, Some(2));
    assert_eq!(app.graph_state.secondary_selected, Some(3));
    assert!(app.graph_state.secondary_changed);
    assert_eq!(reaction, Reaction { reload_diffs: true, ..nothing() });
    app.put_off(&mut timers, &repeat, reaction, 1000);
    // The files are not loaded now: they are due later.
    assert_eq!(timers.next_diff_update.due, Some(1100));
    assert_eq!(timers.next_file_update.due, None);
    assert!(app.commit_state.content.as_ref().unwrap().diffs.items.is_empty());
    assert!(!timers.wake(1099).reload_files);
    assert!(timers.wake(1100).reload_files);
    // The commit is compared against the one below.
    assert_eq!(
        app.commit_request(),
        Some(CommitRequest {
            oid: oid(102),
            index: 2,
            compare: CompareTo::Commit(oid(103)),
            is_head: false,
        })
    );
}

#[test]
fn secondary_collapses_on_the_selected_commit() {
    let mut app = app_with(10, 4);
    assert_eq!(app.on_down(false, true), Ok((true, false)));
    assert_eq!(app.graph_state.secondary_selected, Some(5));
    assert_eq!(app.on_up(false, true), Ok((true, false)));
    assert_eq!(app.graph_state.secondary_selected, None);
    assert_eq!(app.graph_state.selected, Some(4));
    // At the last commit the secondary cursor cannot leave the primary one.
    let mut app = app_with(10, 9);
    assert_eq!(app.on_down(false, true), Ok((false, false)));
    assert_eq!(app.graph_state.secondary_selected, None);
}

#[test]
fn backspace_drops_secondary() {
    let mut app = app_with(10, 4);
    assert_eq!(app.on_backspace(), Ok(false));
    app.on_down(false, true).unwrap();
    assert_eq!(app.on_backspace(), Ok(true));
    assert_eq!(app.graph_state.secondary_selected, None);
    assert!(!app.graph_state.secondary_changed);
    app.on_down(false, true).unwrap();
    app.active_view = ActiveView::Help(0);
    assert_eq!(app.on_backspace(), Ok(false));
    assert_eq!(app.graph_state.secondary_selected, Some(5));
}

#[test]
fn home_and_end() {
    let mut app = app_with(10, 4);
    assert_eq!(app.on_end(), Ok(true));
    assert_eq!(app.graph_state.selected, Some(9));
    assert_eq!(app.on_home(), Ok(true));
    assert_eq!(app.graph_state.selected, Some(4));
    app.active_view = ActiveView::Commit;
    assert_eq!(app.on_end(), Ok(false));
    assert_eq!(app.on_home(), Ok(false));
    assert_eq!(app.graph_state.selected, Some(4));
    let mut app = new_app();
    assert_eq!(app.on_home(), Ok(false));
    assert_eq!(app.on_end(), Ok(false));
    // The head is not in the graph: the first commit.
    let (mut app, _) = new_app().with_graph(graph(&[1, 2, 3], 9), lines(3), lines(3), vec![0, 1, 2], false);
    app.graph_state.selected = Some(2);
    assert_eq!(app.on_home(), Ok(true));
    assert_eq!(app.graph_state.selected, Some(0));
}

#[test]
fn enter_jumps_to_branch() {
    let mut app = app_with(10, 4);
    app.graph_state.selected = Some(0);
    app.active_view = ActiveView::Branches;
    // Nothing selected in the branch panel.
    assert_eq!(app.on_enter(false), Ok(false));
    app.on_down(false, false).unwrap();
    assert_eq!(app.graph_state.branches.as_ref().unwrap().state.selected, Some(1));
    assert_eq!(app.on_enter(false), Ok(true));
    assert_eq!(app.graph_state.selected, Some(4));
    assert_eq!(app.active_view, ActiveView::Branches);
    // A branch whose commit the graph does not hold.
    app.on_down(false, false).unwrap();
    assert_eq!(app.graph_state.branches.as_ref().unwrap().state.selected, Some(2));
    assert_eq!(app.on_enter(false), Ok(false));
    assert_eq!(app.graph_state.selected, Some(4));
    // With control: the secondary cursor; full screen gives way to the graph.
    app.on_up(false, false).unwrap();
    app.graph_state.selected = Some(7);
    app.is_fullscreen = true;
    assert_eq!(app.on_enter(true), Ok(true));
    assert_eq!(app.graph_state.secondary_selected, Some(4));
    assert!(app.graph_state.secondary_changed);
    assert_eq!(app.active_view, ActiveView::Graph);
    // Without a graph: nothing.
    let mut app = new_app();
    app.active_view = ActiveView::Branches;
    assert_eq!(app.on_enter(false), Ok(false));
}

#[test]
fn escape_returns_to_default_view() {
    let mut app = app_with_files(3, 0, &["a"]);
    app.active_view = ActiveView::Files;
    app.on_tab();
    assert!(app.is_fullscreen);
    app.on_right(false, true).unwrap();
    assert_eq!(app.commit_state.content.as_ref().unwrap().diffs.state.scroll_x, 3);
    app.set_diff_mode(DiffMode::New).unwrap();
    assert_eq!(app.on_esc(), Ok(true));
    assert_eq!(app.active_view, ActiveView::Graph);
    assert!(!app.is_fullscreen);
    assert_eq!(app.commit_state.content.as_ref().unwrap().diffs.state.scroll_x, 0);
    assert_eq!(app.diff_options.diff_mode, DiffMode::Diff);
}

#[test]
fn sideways_scroll() {
    let mut app = app_with_files(3, 0, &["a"]);
    app.file_changed(true, vec![("line".to_string(), None, None)], None, None);
    app.active_view = ActiveView::Files;
    app.on_down(false, false).unwrap();
    app.file_changed(true, vec![("line".to_string(), None, None)], None, None);
    app.active_view = ActiveView::Diff;
    app.on_right(true, true).unwrap();
    assert_eq!(app.diff_state.content.as_ref().unwrap().scroll, (0, 15));
    app.on_left(false, true);
    assert_eq!(app.diff_state.content.as_ref().unwrap().scroll, (0, 12));
    app.on_left(true, true);
    assert_eq!(app.diff_state.content.as_ref().unwrap().scroll, (0, 0));
    app.on_down(true, false).unwrap();
    assert_eq!(app.diff_state.content.as_ref().unwrap().scroll, (10, 0));
    app.active_view = ActiveView::Branches;
    app.on_right(false, true).unwrap();
    assert_eq!(app.graph_state.branches.as_ref().unwrap().state.scroll_x, 3);
    app.active_view = ActiveView::Commit;
    app.on_down(false, false).unwrap();
    assert_eq!(app.commit_state.content.as_ref().unwrap().scroll, 1);
    app.on_up(true, false).unwrap();
    assert_eq!(app.commit_state.content.as_ref().unwrap().scroll, 0);
}

#[test]
fn diff_options_change_only_in_diff_views() {
    let mut app = new_app();
    assert_eq!(app.on_plus(), Ok(false));
    assert_eq!(app.toggle_line_numbers(), Ok(false));
    assert_eq!(app.toggle_line_wrap(), Ok(false));
    assert_eq!(app.toggle_syntax_highlight(), Ok(false));
    assert_eq!(app.set_diff_mode(DiffMode::Old), Ok(false));
    assert_eq!(app.diff_options, DiffOptions::default());
    app.active_view = ActiveView::Diff;
    assert_eq!(app.on_plus(), Ok(true));
    assert_eq!(app.diff_options.context_lines, 4);
    for _ in 0..6 {
        assert_eq!(app.on_minus(), Ok(true));
    }
    assert_eq!(app.diff_options.context_lines, 0);
    app.diff_options.context_lines = u32::MAX;
    assert_eq!(app.on_plus(), Ok(true));
    assert_eq!(app.diff_options.context_lines, u32::MAX);
    assert_eq!(app.toggle_line_numbers(), Ok(true));
    assert!(!app.diff_options.line_numbers);
    assert_eq!(app.toggle_line_wrap(), Ok(true));
    assert!(app.diff_options.wrap_lines);
    assert_eq!(app.toggle_syntax_highlight(), Ok(true));
    assert!(!app.diff_options.syntax_highlight);
    assert_eq!(app.set_diff_mode(DiffMode::Diff), Ok(false));
    assert_eq!(app.set_diff_mode(DiffMode::Old), Ok(true));
    assert_eq!(app.diff_options.diff_mode, DiffMode::Old);
    app.toggle_layout();
    assert!(!app.horizontal_split);
    app.toggle_branches();
    assert!(app.show_branches);
}

#[test]
fn toggling_diff_mode_resets_scroll_and_schedules() {
    let mut app = app_with_files(3, 0, &["src/main.rs"]);
    app.active_view = ActiveView::Commit;
    app.on_right(false, false).unwrap();
    app.file_changed(true, vec![("+line".to_string(), None, Some(1))], None, None);
    app.on_right(false, false).unwrap();
    assert_eq!(app.active_view, ActiveView::Diff);
    app.on_down(true, false).unwrap();
    app.on_right(false, true).unwrap();
    assert_eq!(app.diff_state.content.as_ref().unwrap().scroll, (10, 3));

    let mut repeat = KeyRepeat::new(0);
    let mut timers = Timers::new(0);
    let reaction = app.handle_key(&mut repeat, key(KeyCode::Char('o')), 500);
    assert_eq!(app.diff_options.diff_mode, DiffMode::Old);
    assert_eq!(reaction, Reaction { reload_file: true, reset_scroll: true, ..nothing() });
    app.put_off(&mut timers, &repeat, reaction, 500);
    assert_eq!(timers.next_file_update.due, Some(600));
    assert!(timers.reset_diff_scroll);
    // What was shown is emptied until the file is loaded again.
    assert!(app.diff_state.content.as_ref().unwrap().diffs.is_empty());
    let due = timers.wake(600);
    assert!(due.reload_file_diff);
    let highlighted = vec![vec![(Rgb { r: 1, g: 2, b: 3 }, "fn".to_string())]];
    let diffs = vec![("header".to_string(), None, None), ("fn main() {}".to_string(), None, None)];
    assert!(app.wants_highlight(&diffs));
    app.file_changed(timers.reset_diff_scroll, diffs, Some(highlighted.clone()), Some(oid(7)));
    let content = app.diff_state.content.as_ref().unwrap();
    assert_eq!(content.scroll, (0, 0));
    assert_eq!(content.highlighted, Some(highlighted));
    assert_eq!(content.oid, oid(100));
    assert_eq!(content.compare_oid, oid(7));

    // From Old to New the scroll position is reset as well.
    app.on_down(false, false).unwrap();
    assert_eq!(app.diff_state.content.as_ref().unwrap().scroll, (1, 0));
    let reaction = app.handle_key(&mut repeat, key(KeyCode::Char('n')), 900);
    assert_eq!(app.diff_options.diff_mode, DiffMode::New);
    assert_eq!(reaction, Reaction { reload_file: true, reset_scroll: true, ..nothing() });
    app.put_off(&mut timers, &repeat, reaction, 900);
    assert!(timers.reset_diff_scroll);
    assert!(app.diff_state.content.as_ref().unwrap().diffs.is_empty());
    assert!(timers.wake(1000).reload_file_diff);
    app.file_changed(timers.reset_diff_scroll, vec![("x".to_string(), None, None)], None, None);
    assert_eq!(app.diff_state.content.as_ref().unwrap().scroll, (0, 0));
    assert_eq!(app.diff_state.content.as_ref().unwrap().compare_oid, Oid::zero());
    // The same mode again changes nothing and asks for nothing.
    app.on_down(false, false).unwrap();
    assert_eq!(app.handle_key(&mut repeat, key(KeyCode::Char('n')), 1100), nothing());
    assert_eq!(app.diff_state.content.as_ref().unwrap().scroll, (1, 0));
}

#[test]
fn loading_the_same_file_again_may_keep_the_scroll_position() {
    let mut app = app_with_files(3, 0, &["a"]);
    app.active_view = ActiveView::Commit;
    app.on_right(false, false).unwrap();
    app.file_changed(true, vec![("one".to_string(), None, None)], None, None);
    app.on_right(false, false).unwrap();
    app.on_down(true, false).unwrap();
    assert_eq!(app.diff_state.content.as_ref().unwrap().scroll, (10, 0));
    app.file_changed(false, vec![("two".to_string(), None, None)], None, None);
    assert_eq!(app.diff_state.content.as_ref().unwrap().scroll, (10, 0));
    app.file_changed(true, vec![("three".to_string(), None, None)], None, None);
    assert_eq!(app.diff_state.content.as_ref().unwrap().scroll, (0, 0));
}

#[test]
fn failed_model_returns_to_the_graph_with_a_message() {
    let mut app = app_with(3, 0);
    app.select_model(Ok(vec!["simple".to_string()])).unwrap();
    assert_eq!(app.active_view, ActiveView::Models);
    app.model_failed("Unable to load model 'simple'.\nno such file".to_string());
    assert_eq!(app.active_view, ActiveView::Graph);
    assert_eq!(app.error_message, Some("Unable to load model 'simple'.\nno such file".to_string()));
    assert_eq!(app.graph_state.selected, Some(0));
    assert!(app.models_state.is_some());
}

#[test]
fn highlighting_is_kept_only_when_wanted() {
    let two = vec![("h".to_string(), None, None), ("t".to_string(), None, None)];
    let one = vec![("h".to_string(), None, None)];
    let mut app = app_with_files(3, 0, &["a.rs"]);
    app.active_view = ActiveView::Commit;
    app.on_right(false, false).unwrap();
    // The diff is shown as changes: no highlighting.
    assert!(!app.wants_highlight(&two));
    let styled = Some(vec![vec![(Rgb { r: 0, g: 0, b: 0 }, "t".to_string())]]);
    app.file_changed(true, two.clone(), styled.clone(), None);
    assert_eq!(app.diff_state.content.as_ref().unwrap().highlighted, None);
    app.set_diff_mode(DiffMode::New).unwrap();
    assert!(app.wants_highlight(&two));
    assert!(!app.wants_highlight(&one));
    app.diff_options.syntax_highlight = false;
    assert!(!app.wants_highlight(&two));
    app.diff_options.syntax_highlight = true;
    app.color = false;
    assert!(!app.wants_highlight(&two));
}

#[test]
fn empty_repository_shows_nothing_and_raises_no_error() {
    let (mut app, selected) = new_app().with_graph(graph(&[], 1), vec![], vec![], vec![], true);
    assert!(!selected);
    assert_eq!(app.graph_state.selected, None);
    assert_eq!(app.commit_request(), None);
    app.reload_diff_message(vec![], None);
    assert!(app.commit_state.content.is_none());
    assert_eq!(app.files_request(), None);
    assert_eq!(app.reload_diff_files(vec![]), Ok(true));
    assert!(app.commit_state.content.is_none());
    assert_eq!(app.file_diff_request().map(|r| r.path), None);
    app.file_changed(true, vec![], None, None);
    assert!(app.diff_state.content.is_none());
    assert_eq!(app.graph_state.compute_window(20), (0, 0));
    let mut repeat = KeyRepeat::new(0);
    for code in [
        KeyCode::Up,
        KeyCode::Down,
        KeyCode::Home,
        KeyCode::End,
        KeyCode::Enter,
        KeyCode::Backspace,
        KeyCode::Right,
        KeyCode::Right,
        KeyCode::Right,
        KeyCode::Down,
        KeyCode::Left,
        KeyCode::Up,
        KeyCode::F(3),
    ] {
        let reaction = app.handle_key(&mut repeat, key(code), 0);
        assert!(!reaction.reload_diffs, "{:?}", code);
        assert!(!reaction.reload_file, "{:?}", code);
    }
    assert_eq!(app.graph_state.selected, None);
    assert_eq!(app.graph_state.secondary_selected, None);
    assert_eq!(app.error_message, None);
}

#[test]
fn requests_name_what_to_read() {
    let mut app = app_with(5, 2);
    assert_eq!(
        app.commit_request(),
        Some(CommitRequest { oid: oid(102), index: 2, compare: CompareTo::FirstParent, is_head: true })
    );
    assert_eq!(app.files_request(), None);
    app.reload_diff_message(vec!["head".to_string(), "".to_string()], None);
    let content = app.commit_state.content.as_ref().unwrap();
    assert_eq!(content.text, vec!["head", ""]);
    assert_eq!(content.oid, oid(102));
    assert_eq!(content.compare_oid, Oid::zero());
    assert_eq!(content.scroll, 0);
    assert_eq!(app.files_request(), Some(FilesRequest { oid: oid(102), compare_oid: None }));
    app.reload_diff_message(vec![], Some(oid(101)));
    assert_eq!(app.files_request(), Some(FilesRequest { oid: oid(102), compare_oid: Some(oid(101)) }));
    assert_eq!(app.reload_diff_files(files(&["x", "y"])), Ok(true));
    assert!(app.file_diff_request().is_none());
    app.active_view = ActiveView::Files;
    assert_eq!(app.on_down(false, false), Ok((false, true)));
    assert_eq!(app.on_down(false, false), Ok((false, true)));
    assert_eq!(app.on_down(false, false), Ok((false, false)));
    let request = app.file_diff_request().unwrap();
    assert_eq!(request.oid, oid(102));
    assert_eq!(request.compare, CompareTo::FirstParent);
    assert_eq!(request.path, "y");
    assert_eq!(request.options, DiffOptions::default());
    // A cursor beyond the graph asks for nothing, and empties the panel.
    app.graph_state.selected = Some(77);
    assert_eq!(app.commit_request(), None);
    app.reload_diff_message(vec!["x".to_string()], None);
    assert!(app.commit_state.content.is_none());
}

#[test]
fn failed_reading_leaves_content_in_place() {
    let mut app = app_with_files(5, 2, &["x"]);
    app.set_error("object not found".to_string());
    assert_eq!(app.error_message, Some("object not found".to_string()));
    assert_eq!(app.commit_state.content.as_ref().unwrap().diffs.items.len(), 1);
    assert_eq!(app.commit_state.content.as_ref().unwrap().text, vec!["text"]);
    // While the message is up, only enter, escape and q are taken.
    let mut repeat = KeyRepeat::new(0);
    let before = app.graph_state.selected;
    assert_eq!(app.handle_key(&mut repeat, key(KeyCode::Down), 10), nothing());
    assert_eq!(app.graph_state.selected, before);
    assert!(app.error_message.is_some());
    assert_eq!(repeat, KeyRepeat::new(0));
    assert_eq!(
        app.handle_key(&mut repeat, key(KeyCode::Char('q')), 20),
        Reaction { command: Command::Quit, ..nothing() }
    );
    assert_eq!(app.handle_key(&mut repeat, key(KeyCode::Enter), 30), nothing());
    assert_eq!(app.error_message, None);
    app.set_error("again".to_string());
    assert_eq!(app.handle_key(&mut repeat, key(KeyCode::Esc), 40), nothing());
    assert_eq!(app.error_message, None);
    assert_eq!(app.active_view, ActiveView::Graph);
    app.clear_error();
    assert_eq!(app.error_message, None);
}

#[test]
fn reload_reanchors_both_cursors() {
    let mut app = app_with(6, 3);
    app.graph_state.secondary_selected = Some(5);
    app.graph_state.offset = 2;
    // Two new commits on top, commit 105 gone.
    let (app, changed) = app.reload(
        graph(&[200, 201, 100, 101, 102, 103, 104], 200),
        lines(9),
        lines(9),
        vec![0, 1, 2, 3, 5, 6, 8],
    );
    assert!(!changed);
    assert_eq!(app.graph_state.selected, Some(5));
    assert_eq!(app.graph_state.selected_oid(), Some(oid(103)));
    assert_eq!(app.graph_state.secondary_selected, None);
    assert_eq!(app.graph_state.offset, 2);
    assert_eq!(app.graph_state.indices, vec![0, 1, 2, 3, 5, 6, 8]);
    // The selected commit is gone.
    let (app, changed) = app.reload(graph(&[200, 201], 200), lines(2), lines(2), vec![0, 1]);
    assert!(changed);
    assert_eq!(app.graph_state.selected, None);
    // Without a graph nothing is taken.
    let (app, changed) = new_app().reload(graph(&[1], 1), lines(1), lines(1), vec![0]);
    assert!(!changed);
    assert!(app.graph_state.graph.is_none());
    assert!(app.graph_state.graph_lines.is_empty());
}

#[test]
fn search_finds_next_commit_and_wraps() {
    let mut app = app_with(6, 0);
    app.graph_state.text_lines = vec![
        "Fix the parser".to_string(),
        "Add tests".to_string(),
        "fix typo".to_string(),
        "Release".to_string(),
        "more FIXes".to_string(),
        "Initial".to_string(),
    ];
    assert_eq!(app.search(), Ok(false));
    app.open_search();
    assert_eq!(app.active_view, ActiveView::Search);
    assert_eq!(app.prev_active_view, Some(ActiveView::Graph));
    for c in "FiXx".chars() {
        app.character_entered(c);
    }
    assert_eq!(app.on_backspace(), Ok(false));
    assert_eq!(app.search_term, Some("FiX".to_string()));
    assert_eq!(app.on_enter(false), Ok(false));
    assert_eq!(app.active_view, ActiveView::Graph);
    assert_eq!(app.graph_state.selected, Some(2));
    assert_eq!(app.search(), Ok(true));
    assert_eq!(app.graph_state.selected, Some(4));
    assert_eq!(app.search(), Ok(true));
    assert_eq!(app.graph_state.selected, Some(0));
    app.search_term = Some("nowhere".to_string());
    assert_eq!(app.search(), Ok(false));
    assert_eq!(app.graph_state.selected, Some(0));
    // The only hit is the selected commit itself.
    app.search_term = Some("parser".to_string());
    assert_eq!(app.search(), Ok(true));
    assert_eq!(app.graph_state.selected, Some(0));
}

#[test]
fn search_reads_all_rows_of_a_commit() {
    let (mut app, _) = new_app().with_graph(
        graph(&[1, 2, 3], 1),
        lines(6),
        vec![
            "one".to_string(),
            "  body of one".to_string(),
            "two".to_string(),
            "three".to_string(),
            "  needle here".to_string(),
            "  tail".to_string(),
        ],
        vec![0, 2, 3],
        true,
    );
    app.search_term = Some("NEEDLE".to_string());
    assert_eq!(app.search(), Ok(true));
    assert_eq!(app.graph_state.selected, Some(2));
    let hits = app.graph_state.mark_rows("needle");
    assert_eq!(hits, vec![false, false, false, false, true, false]);
    assert_eq!(git_igitt::search::next_hit(&hits, &app.graph_state.indices, Some(2)), Some(2));
    assert_eq!(git_igitt::search::next_hit(&hits, &app.graph_state.indices, None), Some(2));
    assert!(git_igitt::search::commit_is_hit(&hits, &app.graph_state.indices, 2));
    assert!(!git_igitt::search::commit_is_hit(&hits, &app.graph_state.indices, 1));
    assert!(!git_igitt::search::commit_is_hit(&hits, &app.graph_state.indices, 9));
}

#[test]
fn search_term_is_edited_in_the_overlay_only() {
    let mut app = new_app();
    app.character_entered('x');
    assert_eq!(app.search_term, None);
    app.open_search();
    app.character_entered('é');
    assert_eq!(app.search_term, Some("é".to_string()));
    assert_eq!(app.on_backspace(), Ok(false));
    assert_eq!(app.search_term, None);
    assert_eq!(app.on_backspace(), Ok(false));
    assert_eq!(app.search_term, None);
    assert_eq!(app.on_esc(), Ok(false));
    assert_eq!(app.active_view, ActiveView::Graph);
    app.exit_search(true);
}

#[test]
fn keys_are_mapped() {
    let mut app = app_with(10, 0);
    let mut repeat = KeyRepeat::new(0);
    assert_eq!(
        app.handle_key(&mut repeat, key(KeyCode::Char('q')), 1),
        Reaction { command: Command::Quit, ..nothing() }
    );
    assert_eq!(repeat.last_key, KeyCode::Char('q'));
    assert_eq!(
        app.handle_key(&mut repeat, key(KeyCode::Char('r')), 2),
        Reaction { command: Command::Reload, ..nothing() }
    );
    assert_eq!(
        app.handle_key(&mut repeat, key(KeyCode::Char('m')), 3),
        Reaction { command: Command::SelectModel, ..nothing() }
    );
    assert_eq!(
        app.handle_key(&mut repeat, ctrl(KeyCode::Char('o')), 4),
        Reaction { command: Command::OpenRepository, ..nothing() }
    );
    assert_eq!(app.handle_key(&mut repeat, key(KeyCode::Char('p')), 5), nothing());
    assert_eq!(app.handle_key(&mut repeat, key(KeyCode::Char('b')), 6), nothing());
    assert!(app.show_branches);
    assert_eq!(app.handle_key(&mut repeat, key(KeyCode::Char('l')), 7), nothing());
    assert!(!app.horizontal_split);
    assert_eq!(app.handle_key(&mut repeat, key(KeyCode::Tab), 8), nothing());
    assert!(app.is_fullscreen);
    assert_eq!(app.handle_key(&mut repeat, key(KeyCode::F(1)), 9), nothing());
    assert_eq!(app.active_view, ActiveView::Help(0));
    // In the help page and the model list, m, o and f do nothing.
    assert_eq!(app.handle_key(&mut repeat, key(KeyCode::Char('m')), 10), nothing());
    assert_eq!(app.handle_key(&mut repeat, ctrl(KeyCode::Char('f')), 11), nothing());
    assert_eq!(app.active_view, ActiveView::Help(0));
    assert_eq!(app.handle_key(&mut repeat, key(KeyCode::Esc), 12), nothing());
    assert_eq!(app.active_view, ActiveView::Graph);
    assert_eq!(app.handle_key(&mut repeat, ctrl(KeyCode::Char('f')), 13), nothing());
    assert_eq!(app.active_view, ActiveView::Search);
    // The search overlay takes letters as text.
    assert_eq!(app.handle_key(&mut repeat, key(KeyCode::Char('q')), 14), nothing());
    assert_eq!(app.search_term, Some("q".to_string()));
    assert_eq!(repeat.last_key_time, 13);
    assert_eq!(app.handle_key(&mut repeat, key(KeyCode::Esc), 15), nothing());
    app.select_model(Ok(vec!["simple".to_string()])).unwrap();
    assert_eq!(
        app.handle_key(&mut repeat, key(KeyCode::Enter), 16),
        Reaction { command: Command::SetModel { permanent: true }, ..nothing() }
    );
    assert_eq!(
        app.handle_key(&mut repeat, key(KeyCode::Char('p')), 17),
        Reaction { command: Command::SetModel { permanent: true }, ..nothing() }
    );
    assert_eq!(app.handle_key(&mut repeat, key(KeyCode::Down), 18), nothing());
    assert_eq!(app.models_state.as_ref().unwrap().state.selected, Some(0));
    assert_eq!(app.handle_key(&mut repeat, key(KeyCode::Backspace), 19), nothing());
    assert_eq!(app.handle_key(&mut repeat, key(KeyCode::Other), 20), nothing());
    assert_eq!(app.handle_key(&mut repeat, key(KeyCode::PageDown), 21), nothing());
}

#[test]
fn f3_opens_search_or_continues() {
    let mut app = app_with(3, 0);
    let mut repeat = KeyRepeat::new(0);
    assert_eq!(app.handle_key(&mut repeat, key(KeyCode::F(3)), 1), nothing());
    assert_eq!(app.active_view, ActiveView::Search);
    app.character_entered('2');
    assert_eq!(app.handle_key(&mut repeat, key(KeyCode::F(3)), 2), nothing());
    assert_eq!(app.active_view, ActiveView::Graph);
    assert_eq!(app.graph_state.selected, Some(2));
    app.graph_state.selected = Some(0);
    assert_eq!(
        app.handle_key(&mut repeat, key(KeyCode::F(3)), 3),
        Reaction { reload_diffs: true, ..nothing() }
    );
    assert_eq!(app.graph_state.selected, Some(2));
}

#[test]
fn context_lines_and_highlighting_reset_the_scroll_position() {
    for c in ['+', '-', 's'] {
        for view in [ActiveView::Files, ActiveView::Diff] {
            let mut app = app_with_files(3, 0, &["a"]);
            app.active_view = ActiveView::Commit;
            app.on_right(false, false).unwrap();
            app.file_changed(true, vec![("line".to_string(), None, None)], None, None);
            app.active_view = ActiveView::Diff;
            app.on_down(true, false).unwrap();
            app.on_right(false, true).unwrap();
            assert_eq!(app.diff_state.content.as_ref().unwrap().scroll, (10, 3));
            app.active_view = view;

            let mut repeat = KeyRepeat::new(0);
            let mut timers = Timers::new(0);
            let reaction = app.handle_key(&mut repeat, key(KeyCode::Char(c)), 100);
            assert_eq!(reaction, Reaction { reload_file: true, reset_scroll: true, ..nothing() });
            app.put_off(&mut timers, &repeat, reaction, 100);
            assert_eq!(timers.next_file_update.due, Some(200));
            assert!(timers.reset_diff_scroll);
            assert!(timers.wake(200).reload_file_diff);
            app.file_changed(
                timers.reset_diff_scroll,
                vec![("line".to_string(), None, None)],
                None,
                None,
            );
            assert_eq!(app.diff_state.content.as_ref().unwrap().scroll, (0, 0), "key {:?}", c);
        }
    }
}

#[test]
fn diff_keys_outside_the_diff_views_ask_for_nothing() {
    let mut app = app_with_files(3, 0, &["a"]);
    let mut repeat = KeyRepeat::new(0);
    for c in ['+', '-', 's', 'o', 'n', 'd'] {
        assert_eq!(app.handle_key(&mut repeat, key(KeyCode::Char(c)), 1), nothing(), "key {:?}", c);
    }
    assert_eq!(app.diff_options, DiffOptions::default());
    app.active_view = ActiveView::Diff;
    assert_eq!(app.handle_key(&mut repeat, key(KeyCode::Char('d')), 4), nothing());
    assert_eq!(app.handle_key(&mut repeat, ctrl(KeyCode::Char('l')), 5), nothing());
    assert!(!app.diff_options.line_numbers);
    assert_eq!(app.handle_key(&mut repeat, ctrl(KeyCode::Char('w')), 6), nothing());
    assert!(app.diff_options.wrap_lines);
    assert_eq!(app.handle_key(&mut repeat, key(KeyCode::Char('w')), 7), nothing());
    assert!(app.diff_options.wrap_lines);
}

#[test]
fn deleted_branch_is_noticed() {
    let seen = vec![
        (Some("main".to_string()), Some(oid(100))),
        (Some("feature/x".to_string()), Some(oid(101))),
    ];
    let mut app = app_with(3, 0).with_branches(seen.clone());
    let head = || {
        Ok(RepoHead { name: Some("refs/heads/main".to_string()), target: Some(oid(100)), is_branch: true })
    };
    assert_eq!(has_changed(&mut app, seen.clone(), head()), Ok(false));
    let now = vec![(Some("main".to_string()), Some(oid(100)))];
    assert_eq!(has_changed(&mut app, now.clone(), head()), Ok(true));
    assert_eq!(app.curr_branches, now);
    // Seen now: the next look finds nothing new.
    assert_eq!(has_changed(&mut app, now.clone(), head()), Ok(false));
    // A branch that moved.
    let moved = vec![(Some("main".to_string()), Some(oid(102)))];
    assert_eq!(has_changed(&mut app, moved, Err("unreadable".to_string())), Ok(true));
}

#[test]
fn head_changes_are_noticed() {
    let seen = vec![(Some("main".to_string()), Some(oid(100)))];
    let mut app = app_with(3, 0).with_branches(seen.clone());
    let head = |name: Option<&str>, target: Option<u64>, is_branch: bool| {
        Ok(RepoHead { name: name.map(|n| n.to_string()), target: target.map(oid), is_branch })
    };
    assert_eq!(has_changed(&mut app, seen.clone(), head(Some("refs/heads/main"), Some(100), true)), Ok(false));
    assert_eq!(has_changed(&mut app, seen.clone(), head(Some("refs/heads/dev"), Some(100), true)), Ok(true));
    assert_eq!(has_changed(&mut app, seen.clone(), head(Some("refs/heads/main"), Some(101), true)), Ok(true));
    assert_eq!(has_changed(&mut app, seen.clone(), head(Some("refs/heads/main"), Some(100), false)), Ok(true));
    assert_eq!(has_changed(&mut app, seen.clone(), head(Some("HEAD"), Some(100), false)), Ok(true));
    assert_eq!(
        has_changed(&mut app, seen.clone(), head(None, Some(100), true)),
        Err("No name for HEAD".to_string())
    );
    assert_eq!(
        has_changed(&mut app, seen.clone(), head(Some("refs/heads/main"), None, true)),
        Err("No id for HEAD".to_string())
    );
    // Another name decides before the target is looked at.
    assert_eq!(has_changed(&mut app, seen.clone(), head(Some("refs/heads/dev"), None, true)), Ok(true));
    assert_eq!(
        has_changed(&mut app, seen.clone(), Err("reference not found".to_string())),
        Err("reference not found".to_string())
    );
    // Without a graph there is nothing to reload.
    let mut app = new_app();
    assert_eq!(has_changed(&mut app, seen.clone(), Err("unreadable".to_string())), Ok(false));
    assert!(app.curr_branches.is_empty());
}

#[test]
fn branch_lists_are_compared_by_value() {
    let a = vec![(Some("main".to_string()), Some(oid(1))), (None, None)];
    let b = vec![(Some("main".to_string()), Some(oid(1))), (None, None)];
    assert!(same_branches(&a, &b));
    assert!(same_branches(&vec![], &vec![]));
    assert!(!same_branches(&a, &vec![]));
    let c = vec![(Some("main".to_string()), Some(oid(1))), (None, Some(oid(1)))];
    assert!(!same_branches(&a, &c));
    let d = vec![(Some("Main".to_string()), Some(oid(1))), (None, None)];
    assert!(!same_branches(&a, &d));
    let e = vec![(None, None), (Some("main".to_string()), Some(oid(1)))];
    assert!(!same_branches(&a, &e));
    assert_eq!(short_head_name("HEAD"), "HEAD");
    assert_eq!(short_head_name("refs/heads/feature/x"), "feature/x");
    assert_eq!(short_head_name("refs/heads/"), "");
    assert_eq!(short_head_name("short"), "");
}

#[test]
fn dialog_lists_and_steps() {
    let mut dialog = FileDialog::new("Open repository".to_string(), PathBuf::from("/home"), true);
    assert_eq!(dialog.state, ListState::default());
    dialog.on_down(false);
    assert_eq!(dialog.state.selected, None);
    assert_eq!(dialog.on_right(), None);
    assert_eq!(dialog.selected_name(), None);
    let listing = vec![("alpha".to_string(), true), ("beta".to_string(), false), ("gamma".to_string(), true)];
    dialog.selection_changed(listing.clone(), None);
    assert_eq!(dialog.dirs.len(), 4);
    assert_eq!(dialog.dirs[0], ("..".to_string(), false));
    assert_eq!(dialog.dirs[2], ("beta".to_string(), false));
    assert_eq!(dialog.state.selected, Some(0));
    assert_eq!(dialog.on_right(), Some(Step::Up));
    dialog.on_down(false);
    assert_eq!(dialog.selected_name(), Some("alpha".to_string()));
    assert_eq!(dialog.on_right(), Some(Step::Into("alpha".to_string())));
    dialog.on_down(true);
    assert_eq!(dialog.state.selected, Some(3));
    dialog.on_up(false);
    assert_eq!(dialog.state.selected, Some(2));
    dialog.on_up(true);
    assert_eq!(dialog.state.selected, Some(0));
    dialog.fwd(2);
    dialog.bwd(1);
    assert_eq!(dialog.state.selected, Some(1));
    // Coming back from "beta": the cursor is put on it.
    dialog.selection_changed(listing.clone(), Some("beta".to_string()));
    assert_eq!(dialog.state.selected, Some(2));
    dialog.selection_changed(listing, Some("missing".to_string()));
    assert_eq!(dialog.state.selected, Some(0));
    dialog.enter_failed(PathBuf::from("/"), "/root", "Permission denied");
    assert_eq!(dialog.location, PathBuf::from("/"));
    assert_eq!(
        dialog.error_message,
        Some("Problem entering directory /root\nPermission denied".to_string())
    );
    dialog.clear_error();
    assert_eq!(dialog.error_message, None);
    dialog.set_error("x".to_string());
    assert_eq!(dialog.error_message, Some("x".to_string()));
}
