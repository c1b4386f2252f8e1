use vstd::prelude::*;
use crate::app::{lemma_task_edit_keeps_lists, App};
use crate::app_data::{project_ids, task_ids};
use crate::view_state::{AppView, DetailEditField, FocusPane, InputMode, ViewState};

verus! {

/// A key press, as the dispatcher sees it.
#[derive(Clone, Copy, Debug, PartialEq, Eq, Structural)]
pub enum Key {
    Char(char),
    Enter,
    Esc,
    Backspace,
    Tab,
    Left,
    Right,
    Up,
    Down,
    Other,
}

/// Work that a key asks of the world outside the state machine.
#[derive(Clone, Copy, Debug, PartialEq, Eq, Structural)]
pub enum Effect {
    Nothing,
    CopySelectedTask,
    ExportTasks,
}

/// The outside work that `key` asks for in state `app`: copying and
/// exporting from the task pane of the list view in normal mode.
pub open spec fn effect_of(app: App, key: Key) -> Effect {
    if app.view_state.input_mode == InputMode::Normal && app.view_state.current_view
        == AppView::TaskList && app.view_state.focused_pane == FocusPane::Tasks {
        match key {
            Key::Char(c) => if c == 'c' || c == 'y' {
                Effect::CopySelectedTask
            } else if c == 'x' {
                Effect::ExportTasks
            } else {
                Effect::Nothing
            },
            _ => Effect::Nothing,
        }
    } else {
        Effect::Nothing
    }
}

/// The state change that a key names.
#[derive(Clone, Copy, Debug, PartialEq, Eq, Structural)]
pub enum Command {
    Nothing,
    Quit,
    ShowHelp,
    CloseHelp,
    SwitchPane,
    NextTask,
    PreviousTask,
    ToggleTask,
    DeleteTask,
    StartAddTask,
    StartEditTask,
    NextProject,
    PreviousProject,
    StartAddProject,
    StartEditProject,
    DeleteProject,
    ExitTaskDetail,
    ExitProjectDetail,
    NextField,
    PreviousField,
    NextTag,
    PreviousTag,
    NextFileRef,
    PreviousFileRef,
    EditTitle,
    EditDescription,
    AddTag,
    AddFileRef,
    DeleteTag,
    DeleteFileRef,
    EditProjectName,
    EditProjectDescription,
    SaveDescription,
    SaveProjectDescription,
    CancelFileRef,
    CancelEdit,
    SaveTitle,
    SaveTag,
    AdvanceFileRef,
    Newline,
    SaveProjectName,
    ConfirmAddTask,
    ConfirmAddProject,
    CursorUp,
    CursorDown,
    Type(char),
    DeleteBack,
    CursorLeft,
    CursorRight,
}

/// Keys of the task pane of the list view.
pub open spec fn tasks_pane_command(key: Key) -> Command {
    match key {
        Key::Char('j') | Key::Down => Command::NextTask,
        Key::Char('k') | Key::Up => Command::PreviousTask,
        Key::Char(' ') | Key::Enter => Command::ToggleTask,
        Key::Char('d') => Command::DeleteTask,
        Key::Char('a') => Command::StartAddTask,
        Key::Char('e') => Command::StartEditTask,
        _ => Command::Nothing,
    }
}

/// Keys of the project pane of the list view.
pub open spec fn projects_pane_command(key: Key) -> Command {
    match key {
        Key::Char('j') | Key::Down => Command::NextProject,
        Key::Char('k') | Key::Up => Command::PreviousProject,
        Key::Char('a') => Command::StartAddProject,
        Key::Char('e') | Key::Enter => Command::StartEditProject,
        Key::Char('d') => Command::DeleteProject,
        _ => Command::Nothing,
    }
}

/// The open task's number of tags and of file references (none when no
/// task is open).
pub open spec fn open_task_list_sizes(app: App) -> (int, int) {
    match app.editing_task() {
        Some(t) => (t.tags@.len() as int, t.file_references@.len() as int),
        None => (0, 0),
    }
}

/// Keys of the task detail view, by section. In the tag and file sections
/// the vertical keys move within the list while it has items, and between
/// sections otherwise; Enter or `i` edits a scalar section and starts
/// adding to a list section.
pub open spec fn task_detail_command(app: App, key: Key) -> Command {
    let section = app.detail_field_selection;
    let in_tags = section == TAGS_SECTION && open_task_list_sizes(app).0 > 0;
    let in_files = section == FILES_SECTION && open_task_list_sizes(app).1 > 0;
    match key {
        Key::Esc | Key::Char('q') => Command::ExitTaskDetail,
        Key::Char('j') | Key::Down => if in_tags {
            Command::NextTag
        } else if in_files {
            Command::NextFileRef
        } else {
            Command::NextField
        },
        Key::Char('k') | Key::Up => if in_tags {
            Command::PreviousTag
        } else if in_files {
            Command::PreviousFileRef
        } else {
            Command::PreviousField
        },
        Key::Tab => Command::NextField,
        Key::Char('i') | Key::Enter => if section == 0 {
            Command::EditTitle
        } else if section == 1 {
            Command::EditDescription
        } else if section == TAGS_SECTION {
            Command::AddTag
        } else if section == FILES_SECTION {
            Command::AddFileRef
        } else {
            Command::Nothing
        },
        Key::Char('a') => if section == TAGS_SECTION {
            Command::AddTag
        } else if section == FILES_SECTION {
            Command::AddFileRef
        } else {
            Command::Nothing
        },
        Key::Char('d') => if section == TAGS_SECTION {
            Command::DeleteTag
        } else if section == FILES_SECTION {
            Command::DeleteFileRef
        } else {
            Command::Nothing
        },
        Key::Char('h') | Key::Left => if section == TAGS_SECTION {
            Command::PreviousTag
        } else if section == FILES_SECTION {
            Command::PreviousFileRef
        } else {
            Command::Nothing
        },
        Key::Char('l') | Key::Right => if section == TAGS_SECTION {
            Command::NextTag
        } else if section == FILES_SECTION {
            Command::NextFileRef
        } else {
            Command::Nothing
        },
        _ => Command::Nothing,
    }
}

/// Keys of the project detail view.
pub open spec fn project_detail_command(section: usize, key: Key) -> Command {
    match key {
        Key::Esc | Key::Char('q') => Command::ExitProjectDetail,
        Key::Char('j') | Key::Down | Key::Tab => Command::NextField,
        Key::Char('k') | Key::Up => Command::PreviousField,
        Key::Char('i') | Key::Enter => if section == 0 {
            Command::EditProjectName
        } else if section == 1 {
            Command::EditProjectDescription
        } else {
            Command::Nothing
        },
        _ => Command::Nothing,
    }
}

/// Keys in insert mode: Esc saves a description and drops any other edit;
/// Enter commits a line edit, steps the wizard, or breaks a description
/// line; the rest edit the open buffer.
pub open spec fn insert_command(app: App, key: Key) -> Command {
    let field = app.view_state.detail_editing_field;
    match key {
        Key::Esc => match field {
            Some(DetailEditField::Description) => Command::SaveDescription,
            Some(DetailEditField::ProjectDescription) => Command::SaveProjectDescription,
            Some(DetailEditField::AddingFileRef) => Command::CancelFileRef,
            _ => Command::CancelEdit,
        },
        Key::Enter => match field {
            Some(DetailEditField::Title) => Command::SaveTitle,
            Some(DetailEditField::AddingTag) => Command::SaveTag,
            Some(DetailEditField::AddingFileRef) => Command::AdvanceFileRef,
            Some(DetailEditField::Description) => Command::Newline,
            Some(DetailEditField::ProjectDescription) => Command::Newline,
            Some(DetailEditField::ProjectName) => Command::SaveProjectName,
            None => if app.view_state.focused_pane == FocusPane::Tasks {
                Command::ConfirmAddTask
            } else {
                Command::ConfirmAddProject
            },
        },
        Key::Up => Command::CursorUp,
        Key::Down => Command::CursorDown,
        Key::Char(c) => Command::Type(c),
        Key::Backspace => Command::DeleteBack,
        Key::Left => Command::CursorLeft,
        Key::Right => Command::CursorRight,
        _ => Command::Nothing,
    }
}

/// The command that `key` names in state `app`.
pub open spec fn command_for(app: App, key: Key) -> Command {
    if app.view_state.input_mode == InputMode::Insert {
        insert_command(app, key)
    } else {
        match app.view_state.current_view {
            AppView::TaskList => match key {
                Key::Tab => Command::SwitchPane,
                Key::Char('q') => Command::Quit,
                Key::Char('?') => Command::ShowHelp,
                _ => if app.view_state.focused_pane == FocusPane::Tasks {
                    tasks_pane_command(key)
                } else {
                    projects_pane_command(key)
                },
            },
            AppView::TaskDetail => task_detail_command(app, key),
            AppView::ProjectDetail => project_detail_command(app.detail_field_selection, key),
            AppView::Help => Command::CloseHelp,
            AppView::ProjectList => Command::Nothing,
        }
    }
}

/// `new` is `old` after `cmd`.
pub open spec fn command_done(old: App, new: App, cmd: Command) -> bool {
    match cmd {
        Command::Nothing => new == old,
        Command::Quit => new == App { should_quit: true, ..old },
        Command::ShowHelp => new == App {
            view_state: ViewState { current_view: AppView::Help, ..old.view_state },
            ..old
        },
        Command::CloseHelp => new == App {
            view_state: ViewState { current_view: AppView::TaskList, ..old.view_state },
            ..old
        },
        Command::SwitchPane => App::switch_pane_done(old, new),
        Command::NextTask => App::next_task_done(old, new),
        Command::PreviousTask => App::previous_task_done(old, new),
        Command::ToggleTask => App::toggle_selected_task_done(old, new),
        Command::DeleteTask => App::delete_selected_task_done(old, new),
        Command::StartAddTask => App::start_add_task_done(old, new),
        Command::StartEditTask => App::start_edit_task_done(old, new),
        Command::NextProject => App::next_project_done(old, new),
        Command::PreviousProject => App::previous_project_done(old, new),
        Command::StartAddProject => App::start_add_project_done(old, new),
        Command::StartEditProject => App::start_edit_project_done(old, new),
        Command::DeleteProject => App::delete_selected_project_done(old, new),
        Command::ExitTaskDetail => App::exit_detail_view_done(old, new),
        Command::ExitProjectDetail => App::exit_project_detail_view_done(old, new),
        Command::NextField => App::next_detail_field_done(old, new),
        Command::PreviousField => App::previous_detail_field_done(old, new),
        Command::NextTag => App::next_tag_done(old, new),
        Command::PreviousTag => App::previous_tag_done(old, new),
        Command::NextFileRef => App::next_file_ref_done(old, new),
        Command::PreviousFileRef => App::previous_file_ref_done(old, new),
        Command::EditTitle => App::start_edit_title_done(old, new),
        Command::EditDescription => App::start_edit_description_done(old, new),
        Command::AddTag => App::start_add_tag_done(old, new),
        Command::AddFileRef => App::start_add_file_ref_done(old, new),
        Command::DeleteTag => App::delete_selected_tag_done(old, new),
        Command::DeleteFileRef => App::delete_selected_file_ref_done(old, new),
        Command::EditProjectName => App::start_edit_project_name_done(old, new),
        Command::EditProjectDescription => App::start_edit_project_description_done(old, new),
        Command::SaveDescription => App::save_description_edit_done(old, new),
        Command::SaveProjectDescription => App::save_project_description_edit_done(old, new),
        Command::CancelFileRef => App::cancel_file_ref_done(old, new),
        Command::CancelEdit => App::cancel_input_done(old, new),
        Command::SaveTitle => App::save_title_edit_done(old, new),
        Command::SaveTag => App::save_new_tag_done(old, new),
        Command::AdvanceFileRef => App::advance_file_ref_step_done(old, new),
        Command::Newline => App::input_newline_done(old, new),
        Command::SaveProjectName => App::save_project_name_edit_done(old, new),
        Command::ConfirmAddTask => App::confirm_add_task_done(old, new),
        Command::ConfirmAddProject => App::confirm_add_project_done(old, new),
        Command::CursorUp => App::input_up_done(old, new),
        Command::CursorDown => App::input_down_done(old, new),
        Command::Type(c) => App::input_char_done(old, new, c),
        Command::DeleteBack => App::input_backspace_done(old, new),
        Command::CursorLeft => App::input_left_done(old, new),
        Command::CursorRight => App::input_right_done(old, new),
    }
}

/// Any key keeps the modes in agreement: insert mode has a named field
/// or is the list view's add flow, a named field means insert mode, and a
/// multiline buffer is open exactly while a description is edited. With
/// `App::new` starting in agreement, this holds after any sequence of keys.
pub proof fn lemma_key_keeps_modes(old: App, new: App, key: Key)
    requires
        old.view_state.modes_agree(),
        command_done(old, new, command_for(old, key)),
    ensures
        new.view_state.modes_agree(),
{
}

/// Enter while a description is edited breaks the line in its buffer and
/// commits nothing: the mode, the field and the store stay as they were.
pub proof fn lemma_enter_breaks_description_line(old: App, new: App)
    requires
        old.view_state.input_mode == InputMode::Insert,
        old.view_state.detail_editing_field matches Some(f) && f.is_multiline(),
        old.view_state.description_edit_state is Some,
        command_done(old, new, command_for(old, Key::Enter)),
    ensures
        new.view_state.description_edit_state matches Some(b) && b@
            == old.view_state.description_edit_state->0@.insert_char('\n'),
        new.view_state.input_mode == InputMode::Insert,
        new.view_state.detail_editing_field == old.view_state.detail_editing_field,
        new.data == old.data,
{
}

/// Handles one key: routes it by mode and view to the state change it
/// names, keeps every invariant of the state, and returns the outside work
/// the caller is to do.
pub fn handle_key(app: &mut App, key: Key) -> (r: Effect)
    ensures
        old(app).wf() ==> final(app).wf(),
        old(app).view_state.modes_agree() ==> final(app).view_state.modes_agree(),
        command_done(*old(app), *final(app), command_for(*old(app), key)),
        r == effect_of(*old(app), key),
{
    match app.view_state.input_mode {
        InputMode::Normal => handle_normal_mode(app, key),
        InputMode::Insert => {
            handle_insert_mode(app, key);
            Effect::Nothing
        },
    }
}

fn handle_normal_mode(app: &mut App, key: Key) -> (r: Effect)
    requires
        old(app).view_state.input_mode == InputMode::Normal,
    ensures
        old(app).wf() ==> final(app).wf(),
        old(app).view_state.modes_agree() ==> final(app).view_state.modes_agree(),
        command_done(*old(app), *final(app), command_for(*old(app), key)),
        r == effect_of(*old(app), key),
{
    match app.view_state.current_view {
        AppView::TaskList => handle_task_list_normal(app, key),
        AppView::TaskDetail => {
            handle_task_detail_normal(app, key);
            Effect::Nothing
        },
        AppView::ProjectDetail => {
            handle_project_detail_normal(app, key);
            Effect::Nothing
        },
        AppView::Help => {
            app.view_state.current_view = AppView::TaskList;
            Effect::Nothing
        },
        AppView::ProjectList => Effect::Nothing,
    }
}

fn handle_task_list_normal(app: &mut App, key: Key) -> (r: Effect)
    requires
        old(app).view_state.input_mode == InputMode::Normal,
        old(app).view_state.current_view == AppView::TaskList,
    ensures
        old(app).wf() ==> final(app).wf(),
        old(app).view_state.modes_agree() ==> final(app).view_state.modes_agree(),
        command_done(*old(app), *final(app), command_for(*old(app), key)),
        r == effect_of(*old(app), key),
{
    match key {
        Key::Tab => {
            app.switch_pane();
            return Effect::Nothing;
        },
        Key::Char('q') => {
            app.should_quit = true;
            return Effect::Nothing;
        },
        Key::Char('?') => {
            app.view_state.current_view = AppView::Help;
            return Effect::Nothing;
        },
        _ => {},
    }
    match app.view_state.focused_pane {
        FocusPane::Tasks => handle_tasks_pane_normal(app, key),
        FocusPane::Projects => {
            handle_projects_pane_normal(app, key);
            Effect::Nothing
        },
    }
}

fn handle_tasks_pane_normal(app: &mut App, key: Key) -> (r: Effect)
    requires
        old(app).view_state.input_mode == InputMode::Normal,
        old(app).view_state.current_view == AppView::TaskList,
        old(app).view_state.focused_pane == FocusPane::Tasks,
    ensures
        old(app).wf() ==> final(app).wf(),
        old(app).view_state.modes_agree() ==> final(app).view_state.modes_agree(),
        command_done(*old(app), *final(app), tasks_pane_command(key)),
        r == effect_of(*old(app), key),
{
    match key {
        Key::Char('j') | Key::Down => app.next_task(),
        Key::Char('k') | Key::Up => app.previous_task(),
        Key::Char(' ') | Key::Enter => {
            let ghost before = *app;
            app.toggle_selected_task();
            proof {
                if let Some(t) = before.selected_task() {
                    if let Some(i) = before.data.task_index(t.id@) {
                        lemma_task_edit_keeps_lists(before, *app, i);
                    }
                }
            }
        },
        Key::Char('d') => app.delete_selected_task(),
        Key::Char('a') => app.start_add_task(),
        Key::Char('e') => app.start_edit_task(),
        Key::Char('c') | Key::Char('y') => {
            return Effect::CopySelectedTask;
        },
        Key::Char('x') => {
            return Effect::ExportTasks;
        },
        _ => {},
    }
    Effect::Nothing
}

fn handle_projects_pane_normal(app: &mut App, key: Key)
    requires
        old(app).view_state.input_mode == InputMode::Normal,
        old(app).view_state.current_view == AppView::TaskList,
    ensures
        old(app).wf() ==> final(app).wf(),
        old(app).view_state.modes_agree() ==> final(app).view_state.modes_agree(),
        command_done(*old(app), *final(app), projects_pane_command(key)),
{
    match key {
        Key::Char('j') | Key::Down => app.next_project(),
        Key::Char('k') | Key::Up => app.previous_project(),
        Key::Char('a') => app.start_add_project(),
        Key::Char('e') | Key::Enter => app.start_edit_project(),
        Key::Char('d') => app.delete_selected_project(),
        _ => {},
    }
}

/// Section of the task detail view that holds the tags.
pub const TAGS_SECTION: usize = 2;

/// Section of the task detail view that holds the file references.
pub const FILES_SECTION: usize = 3;

fn handle_task_detail_normal(app: &mut App, key: Key)
    requires
        old(app).view_state.input_mode == InputMode::Normal,
        old(app).view_state.current_view == AppView::TaskDetail,
    ensures
        old(app).wf() ==> final(app).wf(),
        old(app).view_state.modes_agree() ==> final(app).view_state.modes_agree(),
        command_done(*old(app), *final(app), task_detail_command(*old(app), key)),
{
    let section = app.detail_field_selection;
    let (tag_count, file_count) = app.open_task_list_sizes();
    let in_tags = section == TAGS_SECTION && tag_count > 0;
    let in_files = section == FILES_SECTION && file_count > 0;
    match key {
        Key::Esc | Key::Char('q') => app.exit_detail_view(),
        Key::Char('j') | Key::Down => {
            if in_tags {
                app.next_tag();
            } else if in_files {
                app.next_file_ref();
            } else {
                app.next_detail_field();
            }
        },
        Key::Char('k') | Key::Up => {
            if in_tags {
                app.previous_tag();
            } else if in_files {
                app.previous_file_ref();
            } else {
                app.previous_detail_field();
            }
        },
        Key::Tab => app.next_detail_field(),
        Key::Char('i') | Key::Enter => {
            if section == 0 {
                app.start_edit_title();
            } else if section == 1 {
                app.start_edit_description();
            } else if section == TAGS_SECTION {
                app.start_add_tag();
            } else if section == FILES_SECTION {
                app.start_add_file_ref();
            }
        },
        Key::Char('a') => {
            if section == TAGS_SECTION {
                app.start_add_tag();
            } else if section == FILES_SECTION {
                app.start_add_file_ref();
            }
        },
        Key::Char('d') => {
            if section == TAGS_SECTION {
                let ghost before = *app;
                app.delete_selected_tag();
                proof {
                    lemma_open_task_edited(before, *app);
                }
            } else if section == FILES_SECTION {
                let ghost before = *app;
                app.delete_selected_file_ref();
                proof {
                    lemma_open_task_edited(before, *app);
                }
            }
        },
        Key::Char('h') | Key::Left => {
            if section == TAGS_SECTION {
                app.previous_tag();
            } else if section == FILES_SECTION {
                app.previous_file_ref();
            }
        },
        Key::Char('l') | Key::Right => {
            if section == TAGS_SECTION {
                app.next_tag();
            } else if section == FILES_SECTION {
                app.next_file_ref();
            }
        },
        _ => {},
    }
}

fn handle_project_detail_normal(app: &mut App, key: Key)
    requires
        old(app).view_state.input_mode == InputMode::Normal,
        old(app).view_state.current_view == AppView::ProjectDetail,
    ensures
        old(app).wf() ==> final(app).wf(),
        old(app).view_state.modes_agree() ==> final(app).view_state.modes_agree(),
        command_done(*old(app), *final(app), project_detail_command(old(app).detail_field_selection, key)),
{
    match key {
        Key::Esc | Key::Char('q') => app.exit_project_detail_view(),
        Key::Char('j') | Key::Down | Key::Tab => app.next_detail_field(),
        Key::Char('k') | Key::Up => app.previous_detail_field(),
        Key::Char('i') | Key::Enter => {
            if app.detail_field_selection == 0 {
                app.start_edit_project_name();
            } else if app.detail_field_selection == 1 {
                app.start_edit_project_description();
            }
        },
        _ => {},
    }
}

fn handle_insert_mode(app: &mut App, key: Key)
    requires
        old(app).view_state.input_mode == InputMode::Insert,
    ensures
        old(app).wf() ==> final(app).wf(),
        old(app).view_state.modes_agree() ==> final(app).view_state.modes_agree(),
        command_done(*old(app), *final(app), insert_command(*old(app), key)),
{
    match key {
        Key::Esc => cancel_current_edit(app),
        Key::Enter => handle_enter_in_edit_mode(app),
        Key::Up => app.input_up(),
        Key::Down => app.input_down(),
        Key::Char(c) => app.input_char(c),
        Key::Backspace => app.input_backspace(),
        Key::Left => app.input_left(),
        Key::Right => app.input_right(),
        _ => {},
    }
}

fn handle_enter_in_edit_mode(app: &mut App)
    requires
        old(app).view_state.input_mode == InputMode::Insert,
    ensures
        old(app).wf() ==> final(app).wf(),
        old(app).view_state.modes_agree() ==> final(app).view_state.modes_agree(),
        command_done(*old(app), *final(app), insert_command(*old(app), Key::Enter)),
{
    match app.view_state.detail_editing_field {
        Some(DetailEditField::Title) => {
            let ghost before = *app;
            app.save_title_edit();
            proof {
                lemma_open_task_edited(before, *app);
            }
        },
        Some(DetailEditField::AddingTag) => {
            let ghost before = *app;
            app.save_new_tag();
            proof {
                lemma_open_task_edited(before, *app);
            }
        },
        Some(DetailEditField::AddingFileRef) => {
            let ghost before = *app;
            app.advance_file_ref_step();
            proof {
                lemma_open_task_edited(before, *app);
            }
        },
        Some(DetailEditField::Description) | Some(DetailEditField::ProjectDescription) => {
            app.input_newline()
        },
        Some(DetailEditField::ProjectName) => {
            let ghost before = *app;
            app.save_project_name_edit();
            proof {
                lemma_open_project_edited(before, *app);
            }
        },
        None => match app.view_state.focused_pane {
            FocusPane::Tasks => app.confirm_add_task(),
            FocusPane::Projects => app.confirm_add_project(),
        },
    }
}

/// Esc in insert mode: a description is saved, any other edit is dropped.
fn cancel_current_edit(app: &mut App)
    requires
        old(app).view_state.input_mode == InputMode::Insert,
    ensures
        old(app).wf() ==> final(app).wf(),
        old(app).view_state.modes_agree() ==> final(app).view_state.modes_agree(),
        command_done(*old(app), *final(app), insert_command(*old(app), Key::Esc)),
{
    match app.view_state.detail_editing_field {
        Some(DetailEditField::Description) => {
            let ghost before = *app;
            app.save_description_edit();
            proof {
                lemma_open_task_edited(before, *app);
            }
        },
        Some(DetailEditField::ProjectDescription) => {
            let ghost before = *app;
            app.save_project_description_edit();
            proof {
                lemma_open_project_edited(before, *app);
            }
        },
        Some(DetailEditField::AddingFileRef) => app.cancel_file_ref(),
        _ => app.cancel_input(),
    }
}

/// An edit of the open task that keeps its id and project keeps the
/// visible list's length and which task is open.
proof fn lemma_open_task_edited(before: App, after: App)
    requires
        after.current_project_id == before.current_project_id,
        after.view_state.editing_task_id == before.view_state.editing_task_id,
        match before.editing_task_index() {
            Some(i) => after.data.tasks == before.data.tasks || {
                &&& after.data.tasks@ == before.data.tasks@.update(i, after.data.tasks@[i])
                &&& after.data.tasks@[i].id == before.data.tasks@[i].id
                &&& after.data.tasks@[i].project_id == before.data.tasks@[i].project_id
            },
            None => after.data.tasks == before.data.tasks,
        },
    ensures
        after.visible_tasks().len() == before.visible_tasks().len(),
        after.editing_task_index() == before.editing_task_index(),
        task_ids(after.data.tasks@) == task_ids(before.data.tasks@),
{
    if let Some(i) = before.editing_task_index() {
        if after.data.tasks != before.data.tasks {
            lemma_task_edit_keeps_lists(before, after, i);
        }
    }
}

/// An edit of the open project that keeps its id keeps the project ids.
proof fn lemma_open_project_edited(before: App, after: App)
    requires
        match before.editing_project_index() {
            Some(i) => after.data.projects == before.data.projects || {
                &&& after.data.projects@ == before.data.projects@.update(
                    i,
                    after.data.projects@[i],
                )
                &&& after.data.projects@[i].id == before.data.projects@[i].id
            },
            None => after.data.projects == before.data.projects,
        },
    ensures
        project_ids(after.data.projects@) == project_ids(before.data.projects@),
{
    if let Some(i) = before.editing_project_index() {
        assert(project_ids(after.data.projects@) =~= project_ids(before.data.projects@));
    }
}

} // verus!
