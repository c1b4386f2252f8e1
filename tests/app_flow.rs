use latios::app::App;
use latios::input::{handle_key, Effect, Key};
use latios::task::Task;
use latios::view_state::{AppView, DetailEditField, FocusPane, InputMode};

fn app_with_task(title: &str) -> App {
    let mut app = App::new("tasks.json".to_string());
    app.data.add_task(Task::new(title.to_string()));
    app
}

fn type_text(app: &mut App, s: &str) {
    for c in s.chars() {
        handle_key(app, Key::Char(c));
    }
}

fn open_first_task(app: &mut App) {
    handle_key(app, Key::Char('e'));
    assert_eq!(app.view_state.current_view, AppView::TaskDetail);
}

#[test]
fn adding_a_task_from_the_list() {
    let mut app = app_with_task("Buy milk");
    let first_id = app.data.tasks[0].id.clone();
    handle_key(&mut app, Key::Char('a'));
    assert_eq!(app.view_state.input_mode, InputMode::Insert);
    type_text(&mut app, "Call mom");
    handle_key(&mut app, Key::Enter);
    assert_eq!(app.data.tasks.len(), 2);
    assert!(app.data.tasks.iter().any(|t| t.title == "Call mom"));
    assert_eq!(app.view_state.input_mode, InputMode::Normal);
    assert_eq!(app.selected_task_index, 0);
    assert_eq!(app.get_selected_task_id(), Some(first_id));
}

#[test]
fn editing_a_description_over_two_lines() {
    let mut app = app_with_task("Write notes");
    open_first_task(&mut app);
    handle_key(&mut app, Key::Down);
    assert_eq!(app.detail_field_selection, 1);
    handle_key(&mut app, Key::Enter);
    assert_eq!(
        app.view_state.detail_editing_field,
        Some(DetailEditField::Description)
    );
    type_text(&mut app, "line1");
    handle_key(&mut app, Key::Enter);
    type_text(&mut app, "line2");
    handle_key(&mut app, Key::Esc);
    assert_eq!(app.data.tasks[0].description, "line1\nline2");
    assert_eq!(app.view_state.input_mode, InputMode::Normal);
    assert!(app.view_state.description_edit_state.is_none());
}

#[test]
fn file_reference_wizard_with_blank_line_number() {
    let mut app = app_with_task("Fix bug");
    open_first_task(&mut app);
    for _ in 0..3 {
        handle_key(&mut app, Key::Tab);
    }
    assert_eq!(app.detail_field_selection, 3);
    handle_key(&mut app, Key::Char('a'));
    assert_eq!(app.file_ref_input_step, 0);
    type_text(&mut app, "src/main.rs");
    handle_key(&mut app, Key::Enter);
    assert_eq!(app.file_ref_input_step, 1);
    handle_key(&mut app, Key::Enter);
    assert_eq!(app.file_ref_input_step, 2);
    type_text(&mut app, "entry point");
    handle_key(&mut app, Key::Enter);
    let refs = &app.data.tasks[0].file_references;
    assert_eq!(refs.len(), 1);
    assert_eq!(refs[0].path, "src/main.rs");
    assert_eq!(refs[0].line_number, None);
    assert_eq!(refs[0].description.as_deref(), Some("entry point"));
    assert_eq!(app.file_ref_input_step, 0);
    assert_eq!(app.view_state.input_mode, InputMode::Normal);
}

#[test]
fn file_reference_wizard_reads_a_line_number() {
    let mut app = app_with_task("Fix bug");
    open_first_task(&mut app);
    for _ in 0..3 {
        handle_key(&mut app, Key::Tab);
    }
    handle_key(&mut app, Key::Char('a'));
    type_text(&mut app, "lib.rs");
    handle_key(&mut app, Key::Enter);
    type_text(&mut app, "42");
    handle_key(&mut app, Key::Enter);
    handle_key(&mut app, Key::Enter);
    let r = &app.data.tasks[0].file_references[0];
    assert_eq!(r.line_number, Some(42));
    assert_eq!(r.description, None);
}

#[test]
fn file_reference_wizard_escape_discards_everything() {
    let mut app = app_with_task("Fix bug");
    open_first_task(&mut app);
    for _ in 0..3 {
        handle_key(&mut app, Key::Tab);
    }
    handle_key(&mut app, Key::Char('a'));
    type_text(&mut app, "lib.rs");
    handle_key(&mut app, Key::Enter);
    handle_key(&mut app, Key::Esc);
    assert!(app.data.tasks[0].file_references.is_empty());
    assert_eq!(app.file_ref_path_buffer, "");
    assert_eq!(app.file_ref_input_step, 0);
    assert_eq!(app.view_state.input_mode, InputMode::Normal);
}

#[test]
fn file_reference_without_path_is_not_added() {
    let mut app = app_with_task("Fix bug");
    open_first_task(&mut app);
    for _ in 0..3 {
        handle_key(&mut app, Key::Tab);
    }
    handle_key(&mut app, Key::Char('a'));
    handle_key(&mut app, Key::Enter);
    handle_key(&mut app, Key::Enter);
    handle_key(&mut app, Key::Enter);
    assert!(app.data.tasks[0].file_references.is_empty());
    assert_eq!(app.view_state.input_mode, InputMode::Normal);
}

fn add_tags(app: &mut App, tags: &[&str]) {
    for tag in tags {
        handle_key(app, Key::Char('a'));
        type_text(app, tag);
        handle_key(app, Key::Enter);
    }
}

#[test]
fn deleting_the_last_selected_tag_clamps_selection() {
    let mut app = app_with_task("Tagged");
    open_first_task(&mut app);
    handle_key(&mut app, Key::Tab);
    handle_key(&mut app, Key::Tab);
    assert_eq!(app.detail_field_selection, 2);
    add_tags(&mut app, &["one", "two", "three"]);
    assert_eq!(app.data.tasks[0].tags, vec!["one", "two", "three"]);
    handle_key(&mut app, Key::Down);
    handle_key(&mut app, Key::Down);
    handle_key(&mut app, Key::Down);
    assert_eq!(app.selected_tag_index, 2);
    handle_key(&mut app, Key::Char('d'));
    assert_eq!(app.data.tasks[0].tags, vec!["one", "two"]);
    assert_eq!(app.selected_tag_index, 1);
    handle_key(&mut app, Key::Char('d'));
    assert_eq!(app.selected_tag_index, 0);
    handle_key(&mut app, Key::Char('d'));
    assert!(app.data.tasks[0].tags.is_empty());
    assert_eq!(app.selected_tag_index, 0);
    handle_key(&mut app, Key::Char('d'));
    assert_eq!(app.selected_tag_index, 0);
}

#[test]
fn empty_tag_is_ignored() {
    let mut app = app_with_task("Tagged");
    open_first_task(&mut app);
    handle_key(&mut app, Key::Tab);
    handle_key(&mut app, Key::Tab);
    handle_key(&mut app, Key::Char('a'));
    handle_key(&mut app, Key::Enter);
    assert!(app.data.tasks[0].tags.is_empty());
    assert_eq!(app.view_state.input_mode, InputMode::Normal);
}

#[test]
fn insert_mode_has_a_field_or_is_the_add_flow() {
    let mut app = app_with_task("Buy milk");
    handle_key(&mut app, Key::Char('a'));
    assert_eq!(app.view_state.input_mode, InputMode::Insert);
    assert_eq!(app.view_state.detail_editing_field, None);
    assert_eq!(app.view_state.current_view, AppView::TaskList);
    handle_key(&mut app, Key::Esc);
    assert_eq!(app.view_state.input_mode, InputMode::Normal);

    open_first_task(&mut app);
    handle_key(&mut app, Key::Char('i'));
    assert_eq!(app.view_state.input_mode, InputMode::Insert);
    assert_eq!(app.view_state.detail_editing_field, Some(DetailEditField::Title));
    assert!(app.view_state.description_edit_state.is_none());
    handle_key(&mut app, Key::Esc);
    assert_eq!(app.view_state.input_mode, InputMode::Normal);
    assert_eq!(app.view_state.detail_editing_field, None);
}

#[test]
fn title_edit_commits_on_enter_and_cancels_on_escape() {
    let mut app = app_with_task("Old");
    open_first_task(&mut app);
    handle_key(&mut app, Key::Enter);
    assert_eq!(app.view_state.input_buffer, "Old");
    assert_eq!(app.view_state.cursor_position, 3);
    handle_key(&mut app, Key::Backspace);
    type_text(&mut app, "é");
    handle_key(&mut app, Key::Esc);
    assert_eq!(app.data.tasks[0].title, "Old");
    handle_key(&mut app, Key::Enter);
    handle_key(&mut app, Key::Left);
    handle_key(&mut app, Key::Left);
    type_text(&mut app, "ü");
    handle_key(&mut app, Key::Right);
    handle_key(&mut app, Key::Right);
    handle_key(&mut app, Key::Right);
    type_text(&mut app, "!");
    handle_key(&mut app, Key::Enter);
    assert_eq!(app.data.tasks[0].title, "Oüld!");
}

#[test]
fn list_navigation_clamps_and_deletes() {
    let mut app = app_with_task("one");
    app.data.add_task(Task::new("two".to_string()));
    handle_key(&mut app, Key::Up);
    assert_eq!(app.selected_task_index, 0);
    handle_key(&mut app, Key::Down);
    handle_key(&mut app, Key::Down);
    assert_eq!(app.selected_task_index, 1);
    handle_key(&mut app, Key::Char(' '));
    assert!(app.data.tasks[1].completed);
    assert!(app.data.tasks[1].completed_at.is_some());
    handle_key(&mut app, Key::Enter);
    assert!(!app.data.tasks[1].completed);
    assert!(app.data.tasks[1].completed_at.is_none());
    handle_key(&mut app, Key::Char('d'));
    assert_eq!(app.data.tasks.len(), 1);
    assert_eq!(app.selected_task_index, 0);
    handle_key(&mut app, Key::Char('d'));
    assert!(app.data.tasks.is_empty());
    assert_eq!(app.selected_task_index, 0);
}

#[test]
fn outside_work_is_returned_not_done() {
    let mut app = app_with_task("one");
    assert_eq!(handle_key(&mut app, Key::Char('c')), Effect::CopySelectedTask);
    assert_eq!(handle_key(&mut app, Key::Char('y')), Effect::CopySelectedTask);
    assert_eq!(handle_key(&mut app, Key::Char('x')), Effect::ExportTasks);
    assert_eq!(handle_key(&mut app, Key::Char('j')), Effect::Nothing);
    handle_key(&mut app, Key::Tab);
    assert_eq!(app.view_state.focused_pane, FocusPane::Projects);
    assert_eq!(handle_key(&mut app, Key::Char('x')), Effect::Nothing);
}

#[test]
fn quit_and_help_keys() {
    let mut app = app_with_task("one");
    handle_key(&mut app, Key::Char('?'));
    assert_eq!(app.view_state.current_view, AppView::Help);
    handle_key(&mut app, Key::Char('z'));
    assert_eq!(app.view_state.current_view, AppView::TaskList);
    handle_key(&mut app, Key::Char('q'));
    assert!(app.should_quit);
}

#[test]
fn projects_pane_adds_and_edits_a_project() {
    let mut app = App::new("tasks.json".to_string());
    handle_key(&mut app, Key::Tab);
    handle_key(&mut app, Key::Char('a'));
    type_text(&mut app, "Home");
    handle_key(&mut app, Key::Enter);
    assert_eq!(app.data.projects.len(), 1);
    assert_eq!(app.data.projects[0].name, "Home");
    handle_key(&mut app, Key::Enter);
    assert_eq!(app.view_state.current_view, AppView::ProjectDetail);
    handle_key(&mut app, Key::Down);
    handle_key(&mut app, Key::Down);
    assert_eq!(app.detail_field_selection, 1);
    handle_key(&mut app, Key::Enter);
    type_text(&mut app, "chores");
    handle_key(&mut app, Key::Esc);
    assert_eq!(app.data.projects[0].description, "chores");
    handle_key(&mut app, Key::Up);
    handle_key(&mut app, Key::Enter);
    type_text(&mut app, "!");
    handle_key(&mut app, Key::Enter);
    assert_eq!(app.data.projects[0].name, "Home!");
    handle_key(&mut app, Key::Esc);
    assert_eq!(app.view_state.current_view, AppView::TaskList);
    assert_eq!(app.view_state.editing_project_id, None);
    handle_key(&mut app, Key::Char('d'));
    assert!(app.data.projects.is_empty());
    assert_eq!(app.selected_project_index_in_pane, 0);
}

#[test]
fn tasks_of_a_project_are_listed_apart() {
    let mut app = app_with_task("loose");
    let mut t = Task::new("filed".to_string());
    t.project_id = Some("p1".to_string());
    app.data.add_task(t);
    assert_eq!(app.get_visible_tasks().len(), 1);
    assert_eq!(app.data.get_tasks_by_project(Some("p1"))[0].title, "filed");
    app.current_project_id = Some("p1".to_string());
    assert_eq!(app.get_visible_tasks()[0].title, "filed");
}

#[test]
fn status_message_expires_after_timeout() {
    let mut app = App::new("tasks.json".to_string());
    app.set_status("Saved".to_string(), 1_000);
    app.check_status_timeout(1_499);
    assert_eq!(app.status_message.as_deref(), Some("Saved"));
    app.check_status_timeout(1_500);
    assert_eq!(app.status_message, None);
    assert_eq!(app.status_timestamp, None);
}

#[test]
fn deleting_the_last_selected_file_reference_clamps_selection() {
    let mut app = app_with_task("Files");
    open_first_task(&mut app);
    for _ in 0..3 {
        handle_key(&mut app, Key::Tab);
    }
    for path in ["a.rs", "b.rs"] {
        handle_key(&mut app, Key::Char('a'));
        type_text(&mut app, path);
        for _ in 0..3 {
            handle_key(&mut app, Key::Enter);
        }
    }
    assert_eq!(app.data.tasks[0].file_references.len(), 2);
    handle_key(&mut app, Key::Right);
    assert_eq!(app.selected_file_ref_index, 1);
    handle_key(&mut app, Key::Char('d'));
    assert_eq!(app.data.tasks[0].file_references.len(), 1);
    assert_eq!(app.data.tasks[0].file_references[0].path, "a.rs");
    assert_eq!(app.selected_file_ref_index, 0);
    handle_key(&mut app, Key::Char('d'));
    assert!(app.data.tasks[0].file_references.is_empty());
    assert_eq!(app.selected_file_ref_index, 0);
}

#[test]
fn leaving_the_detail_view_drops_nothing_saved() {
    let mut app = app_with_task("Keep");
    open_first_task(&mut app);
    handle_key(&mut app, Key::Char('q'));
    assert_eq!(app.view_state.current_view, AppView::TaskList);
    assert_eq!(app.view_state.editing_task_id, None);
    assert_eq!(app.data.tasks[0].title, "Keep");
}

#[test]
fn list_sections_fall_back_to_section_moves_when_empty() {
    let mut app = app_with_task("Sections");
    open_first_task(&mut app);
    handle_key(&mut app, Key::Down);
    handle_key(&mut app, Key::Down);
    assert_eq!(app.detail_field_selection, 2);
    handle_key(&mut app, Key::Down);
    assert_eq!(app.detail_field_selection, 3);
    handle_key(&mut app, Key::Down);
    assert_eq!(app.detail_field_selection, 3);
    handle_key(&mut app, Key::Up);
    assert_eq!(app.detail_field_selection, 2);
    handle_key(&mut app, Key::Enter);
    assert_eq!(app.view_state.detail_editing_field, Some(DetailEditField::AddingTag));
    type_text(&mut app, "urgent");
    handle_key(&mut app, Key::Enter);
    assert_eq!(app.data.tasks[0].tags, vec!["urgent"]);
    handle_key(&mut app, Key::Down);
    assert_eq!(app.detail_field_selection, 2);
    assert_eq!(app.selected_tag_index, 0);
}

#[test]
fn list_is_ordered_by_creation_time() {
    let mut app = App::new("tasks.json".to_string());
    let mut late = Task::new("late".to_string());
    late.created_at = "2024-05-02T10:00:00+00:00".to_string();
    let mut early = Task::new("early".to_string());
    early.created_at = "2024-05-01T10:00:00+00:00".to_string();
    let mut tie = Task::new("tie".to_string());
    tie.created_at = "2024-05-02T10:00:00+00:00".to_string();
    app.data.add_task(late);
    app.data.add_task(early);
    app.data.add_task(tie);
    let titles: Vec<&str> = app.get_visible_tasks().iter().map(|t| t.title.as_str()).collect();
    assert_eq!(titles, vec!["early", "late", "tie"]);
    handle_key(&mut app, Key::Char('d'));
    let titles: Vec<&str> = app.get_visible_tasks().iter().map(|t| t.title.as_str()).collect();
    assert_eq!(titles, vec!["late", "tie"]);
    assert_eq!(app.selected_task_index, 0);
}
