use vstd::prelude::*;
use vstd::string::*;
use crate::chars::{chars_of, string_of_chars};
use crate::app_data::{
    opt_string_view, projects_with, tasks_in_project, tasks_with, AppData,
};
use crate::description_edit_state::{DescriptionEditState, TextModel};
use crate::order::{
    is_sorted, lemma_sort_is_sorted, lemma_sort_len_contains, sort_by_created, sort_tasks,
    TaskOrder,
};
use crate::line_number::{digits_value, is_usize_text, parse_line_number, unsigned_part};
use crate::project::Project;
use crate::task::{FileReference, Task};
use crate::view_state::{AppView, DetailEditField, FocusPane, InputMode, ViewState};

verus! {

/// How long a status message stays up, in milliseconds.
pub const STATUS_TIMEOUT_MS: u64 = 500;

/// Sections of the task detail view: title, description, tags, files.
pub const TASK_SECTIONS: usize = 4;

/// Sections of the project detail view: name, description.
pub const PROJECT_SECTIONS: usize = 2;

/// Selection after deleting from a list that now has `len` items.
pub open spec fn clamp_after_delete(selected: int, len: int) -> int {
    if len == 0 {
        0
    } else if selected >= len {
        len - 1
    } else {
        selected
    }
}

/// Selection after moving down in a list of `len` items.
pub open spec fn step_down(selected: int, len: int) -> int {
    if len == 0 {
        selected
    } else if selected + 1 < len {
        selected + 1
    } else {
        len - 1
    }
}

/// Selection after moving up.
pub open spec fn step_up(selected: int) -> int {
    if selected > 0 {
        selected - 1
    } else {
        selected
    }
}

/// The whole application state.
pub struct App {
    pub data: AppData,
    pub view_state: ViewState,
    pub should_quit: bool,
    pub selected_task_index: usize,
    pub task_list_scroll: usize,
    pub current_project_id: Option<String>,
    pub selected_project_index: usize,
    pub selected_project_index_in_pane: usize,
    pub project_list_scroll: usize,
    pub detail_field_selection: usize,
    pub detail_scroll: usize,
    pub selected_tag_index: usize,
    pub selected_file_ref_index: usize,
    pub file_ref_path_buffer: String,
    pub file_ref_line_buffer: String,
    pub file_ref_desc_buffer: String,
    pub file_ref_input_step: usize,
    pub data_file_path: String,
    pub status_message: Option<String>,
    /// When the status message was set, in milliseconds of the caller's clock.
    pub status_timestamp: Option<u64>,
}

impl App {
    /// Tasks shown in the list: those of the current project, oldest first.
    pub open spec fn visible_tasks(self) -> Seq<Task> {
        sort_by_created(
            tasks_in_project(self.data.tasks@, opt_string_view(self.current_project_id)),
        )
    }

    pub open spec fn selected_task(self) -> Option<Task> {
        if self.selected_task_index < self.visible_tasks().len() {
            Some(self.visible_tasks()[self.selected_task_index as int])
        } else {
            None
        }
    }

    pub open spec fn selected_project(self) -> Option<Project> {
        if self.selected_project_index_in_pane < self.data.projects@.len() {
            Some(self.data.projects@[self.selected_project_index_in_pane as int])
        } else {
            None
        }
    }

    /// Store position of the task open in the detail view.
    pub open spec fn editing_task_index(self) -> Option<int> {
        match self.view_state.editing_task_id {
            Some(id) => self.data.task_index(id@),
            None => None,
        }
    }

    pub open spec fn editing_task(self) -> Option<Task> {
        match self.editing_task_index() {
            Some(i) => Some(self.data.tasks@[i]),
            None => None,
        }
    }

    /// Store position of the project open in the detail view.
    pub open spec fn editing_project_index(self) -> Option<int> {
        match self.view_state.editing_project_id {
            Some(id) => self.data.project_index(id@),
            None => None,
        }
    }

    pub open spec fn editing_project(self) -> Option<Project> {
        match self.editing_project_index() {
            Some(i) => Some(self.data.projects@[i]),
            None => None,
        }
    }

    /// The number of sections of the open detail view.
    pub open spec fn section_count(self) -> int {
        if self.view_state.current_view == AppView::ProjectDetail {
            PROJECT_SECTIONS as int
        } else {
            TASK_SECTIONS as int
        }
    }

    /// The state's invariants: unique ids in the store, the view state's own, every selection
    /// inside its list (or 0 when the list is empty), an open detail view
    /// with its entity id, and the wizard step in range.
    pub open spec fn wf(self) -> bool {
        &&& self.data.wf()
        &&& self.view_state.wf()
        &&& (self.selected_task_index == 0 || self.selected_task_index
            < self.visible_tasks().len())
        &&& (self.selected_project_index_in_pane == 0 || self.selected_project_index_in_pane
            < self.data.projects@.len())
        &&& (self.editing_task() matches Some(t) ==> (self.selected_tag_index == 0
            || self.selected_tag_index < t.tags@.len()) && (self.selected_file_ref_index == 0
            || self.selected_file_ref_index < t.file_references@.len()))
        &&& (self.view_state.current_view == AppView::TaskDetail
            <==> self.view_state.editing_task_id is Some)
        &&& (self.view_state.current_view == AppView::ProjectDetail
            <==> self.view_state.editing_project_id is Some)
        &&& self.detail_field_selection < self.section_count()
        &&& self.file_ref_input_step <= 2
    }

    /// `new` is `old` after `next_task`.
    pub open spec fn next_task_done(old: App, new: App) -> bool {
        &&& new == (App {
            selected_task_index: step_down(
                old.selected_task_index as int,
                old.visible_tasks().len() as int,
            ) as usize,
            ..old
        })
    }

    /// `new` is `old` after `previous_task`.
    pub open spec fn previous_task_done(old: App, new: App) -> bool {
        &&& new == (App {
            selected_task_index: step_up(old.selected_task_index as int) as usize,
            ..old
        })
    }

    /// `new` is `old` after `toggle_selected_task`.
    pub open spec fn toggle_selected_task_done(old: App, new: App) -> bool {
        &&& match old.selected_task() {
            Some(t) => match old.data.task_index(t.id@) {
                Some(i) => new == (App {
                    data: AppData {
                        tasks: new.data.tasks,
                        ..old.data
                    },
                    ..old
                }) && new.data.tasks@ == old.data.tasks@.update(
                    i,
                    new.data.tasks@[i],
                ) && Task::toggled(old.data.tasks@[i], new.data.tasks@[i]),
                None => new == old,
            },
            None => new == old,
        }
    }

    /// `new` is `old` after `delete_selected_task`.
    pub open spec fn delete_selected_task_done(old: App, new: App) -> bool {
        &&& match old.selected_task() {
            Some(t) => match old.data.task_index(t.id@) {
                Some(i) => new == (App {
                    data: AppData {
                        tasks: new.data.tasks,
                        ..old.data
                    },
                    selected_task_index: new.selected_task_index,
                    ..old
                }) && new.data.tasks@ == old.data.tasks@.remove(i)
                    && new.selected_task_index == clamp_after_delete(
                    old.selected_task_index as int,
                    new.visible_tasks().len() as int,
                ),
                None => new == old,
            },
            None => new == old,
        }
        &&& (old.data.wf() ==> new.data.wf())
        &&& (old.data.wf() && old.selected_task() is Some ==> {
            &&& new.data.task_index(old.selected_task()->0.id@) is None
            &&& new.visible_tasks().len() == old.visible_tasks().len() - 1
        })
    }

    /// `new` is `old` after `start_add_task`.
    pub open spec fn start_add_task_done(old: App, new: App) -> bool {
        &&& App::only_data_and_view(old, new)
        &&& new.data == old.data
        &&& App::line_edit_opened(
            old.view_state,
            new.view_state,
            old.view_state.detail_editing_field,
            Seq::empty(),
        )
    }

    /// `new` is `old` after `confirm_add_task`:
    ///   Adds a task named by the line buffer, when it is not empty, to the
    ///   current project; then leaves insert mode. The list selection stays
    ///   inside the list.
    pub open spec fn confirm_add_task_done(old: App, new: App) -> bool {
        &&& new == (App {
            data: new.data,
            view_state: new.view_state,
            selected_task_index: new.selected_task_index,
            ..old
        })
        &&& App::edit_closed(old.view_state, new.view_state)
        &&& (old.view_state.input_buffer@.len() == 0 ==> new.data == old.data)
        &&& (old.view_state.input_buffer@.len() > 0 ==> exists|t: Task|
            {
                &&& t.title@ == old.view_state.input_buffer@
                &&& opt_string_view(t.project_id) == opt_string_view(
                    old.current_project_id,
                )
                &&& t.description@.len() == 0
                &&& !t.completed
                &&& t.tags@.len() == 0
                &&& t.file_references@.len() == 0
                &&& new.data == AppData { tasks: new.data.tasks, ..old.data }
                &&& new.data.tasks@ == #[trigger] tasks_with(old.data.tasks@, t)
            })
        &&& new.selected_task_index == clamp_after_delete(
            old.selected_task_index as int,
            new.visible_tasks().len() as int,
        )
        &&& (old.data.wf() ==> new.data.wf())
    }

    /// `new` is `old` after `cancel_input`:
    ///   Leaves insert mode, dropping the line buffer.
    pub open spec fn cancel_input_done(old: App, new: App) -> bool {
        &&& App::only_data_and_view(old, new)
        &&& new.data == old.data
        &&& App::edit_closed(old.view_state, new.view_state)
    }

    /// `new` is `old` after `set_status`:
    ///   Shows `message`, stamped with the caller's clock reading `now_ms`.
    pub open spec fn set_status_done(old: App, new: App, message: String, now_ms: u64) -> bool {
        &&& new == (App {
            status_message: Some(message),
            status_timestamp: Some(now_ms),
            ..old
        })
    }

    /// `new` is `old` after `clear_status`.
    pub open spec fn clear_status_done(old: App, new: App) -> bool {
        &&& new == (App { status_message: None, status_timestamp: None, ..old })
    }

    /// `new` is `old` after `check_status_timeout`:
    ///   Clears the status message once it has been up for the timeout.
    pub open spec fn check_status_timeout_done(old: App, new: App, now_ms: u64) -> bool {
        &&& match old.status_timestamp {
            Some(t) => if now_ms >= t && now_ms - t >= STATUS_TIMEOUT_MS {
                new == (App {
                    status_message: None,
                    status_timestamp: None,
                    ..old
                })
            } else {
                new == old
            },
            None => new == old,
        }
    }

    /// `new` is `old` after `start_edit_task`:
    ///   Opens the selected task in the detail view, at its first section.
    pub open spec fn start_edit_task_done(old: App, new: App) -> bool {
        &&& match old.selected_task() {
            Some(t) => {
                &&& new == (App {
                    view_state: new.view_state,
                    detail_field_selection: 0,
                    selected_tag_index: 0,
                    selected_file_ref_index: 0,
                    ..old
                })
                &&& new.view_state == (ViewState {
                    editing_task_id: new.view_state.editing_task_id,
                    editing_project_id: None,
                    current_view: AppView::TaskDetail,
                    input_mode: InputMode::Normal,
                    ..old.view_state
                })
                &&& new.view_state.editing_task_id matches Some(id) && id@ == t.id@
            },
            None => new == old,
        }
    }

    /// `new` is `old` after `exit_detail_view`:
    ///   Back to the list, dropping any edit in progress.
    pub open spec fn exit_detail_view_done(old: App, new: App) -> bool {
        &&& App::only_data_and_view(old, new)
        &&& new.data == old.data
        &&& new.view_state == (ViewState {
            editing_task_id: None,
            current_view: AppView::TaskList,
            input_mode: InputMode::Normal,
            detail_editing_field: None,
            input_buffer: new.view_state.input_buffer,
            cursor_position: 0,
            description_edit_state: None,
            ..old.view_state
        })
        &&& new.view_state.input_buffer@.len() == 0
    }

    /// `new` is `old` after `next_detail_field`.
    pub open spec fn next_detail_field_done(old: App, new: App) -> bool {
        &&& new == (App {
            detail_field_selection: step_down(
                old.detail_field_selection as int,
                old.section_count(),
            ) as usize,
            ..old
        })
    }

    /// `new` is `old` after `previous_detail_field`.
    pub open spec fn previous_detail_field_done(old: App, new: App) -> bool {
        &&& new == (App {
            detail_field_selection: step_up(old.detail_field_selection as int) as usize,
            ..old
        })
    }

    /// `new` is `old` after `start_edit_title`:
    ///   Starts editing the open task's title in the line buffer.
    pub open spec fn start_edit_title_done(old: App, new: App) -> bool {
        &&& match old.editing_task() {
            Some(t) => App::only_data_and_view(old, new)
                && new.data == old.data && App::line_edit_opened(
                old.view_state,
                new.view_state,
                Some(DetailEditField::Title),
                t.title@,
            ),
            None => new == old,
        }
    }

    /// `new` is `old` after `save_title_edit`:
    ///   Writes the line buffer to the open task's title and ends the edit.
    pub open spec fn save_title_edit_done(old: App, new: App) -> bool {
        &&& App::only_data_and_view(old, new)
        &&& App::task_updated(
            old,
            new,
            |t: Task| Task { title: old.view_state.input_buffer, ..t },
        )
        &&& App::edit_closed(old.view_state, new.view_state)
    }

    /// `new` is `old` after `start_edit_description`:
    ///   Starts editing the open task's description in a multiline buffer.
    pub open spec fn start_edit_description_done(old: App, new: App) -> bool {
        &&& match old.editing_task() {
            Some(t) => {
                &&& App::only_data_and_view(old, new)
                &&& new.data == old.data
                &&& new.view_state == (ViewState {
                    description_edit_state: new.view_state.description_edit_state,
                    detail_editing_field: Some(DetailEditField::Description),
                    input_mode: InputMode::Insert,
                    ..old.view_state
                })
                &&& new.view_state.description_edit_state matches Some(es) && es@
                    == TextModel::fresh(t.description@)
            },
            None => new == old,
        }
    }

    /// `new` is `old` after `save_description_edit`:
    ///   Writes the multiline buffer's text to the open task's description
    ///   and ends the edit.
    pub open spec fn save_description_edit_done(old: App, new: App) -> bool {
        &&& App::only_data_and_view(old, new)
        &&& match old.view_state.description_edit_state {
            Some(es) => App::task_updated(
                old,
                new,
                |t: Task| Task { description: new.data.tasks@[old.editing_task_index()->0].description, ..t },
            ) && (old.editing_task_index() matches Some(i) ==> new.data.tasks@[i].description@ == es@.text),
            None => new.data == old.data,
        }
        &&& new.view_state == (ViewState {
            description_edit_state: None,
            detail_editing_field: None,
            input_mode: InputMode::Normal,
            ..old.view_state
        })
    }

    /// `new` is `old` after `start_add_tag`:
    ///   Starts reading a new tag into the line buffer.
    pub open spec fn start_add_tag_done(old: App, new: App) -> bool {
        &&& App::only_data_and_view(old, new)
        &&& new.data == old.data
        &&& App::line_edit_opened(
            old.view_state,
            new.view_state,
            Some(DetailEditField::AddingTag),
            Seq::empty(),
        )
    }

    /// `new` is `old` after `save_new_tag`:
    ///   Appends the line buffer, when not empty, to the open task's tags and
    ///   ends the edit.
    pub open spec fn save_new_tag_done(old: App, new: App) -> bool {
        &&& App::only_data_and_view(old, new)
        &&& (old.view_state.input_buffer@.len() > 0 ==> App::task_updated(
            old,
            new,
            |t: Task|
                Task {
                    tags: new.data.tasks@[old.editing_task_index()->0].tags,
                    ..t
                },
        ) && (old.editing_task_index() matches Some(i) ==> new.data.tasks@[i].tags@ == old.data.tasks@[i].tags@.push(
            old.view_state.input_buffer,
        )))
        &&& (old.view_state.input_buffer@.len() == 0 ==> new.data == old.data)
        &&& App::edit_closed(old.view_state, new.view_state)
    }

    /// `new` is `old` after `next_tag`.
    pub open spec fn next_tag_done(old: App, new: App) -> bool {
        &&& new == (App {
            selected_tag_index: match old.editing_task() {
                Some(t) => step_down(
                    old.selected_tag_index as int,
                    t.tags@.len() as int,
                ) as usize,
                None => old.selected_tag_index,
            },
            ..old
        })
    }

    /// `new` is `old` after `previous_tag`.
    pub open spec fn previous_tag_done(old: App, new: App) -> bool {
        &&& new == (App {
            selected_tag_index: step_up(old.selected_tag_index as int) as usize,
            ..old
        })
    }

    /// `new` is `old` after `delete_selected_tag`:
    ///   Deletes the selected tag of the open task and keeps the selection
    ///   inside the shortened list.
    pub open spec fn delete_selected_tag_done(old: App, new: App) -> bool {
        &&& new == (App {
            data: new.data,
            selected_tag_index: new.selected_tag_index,
            ..old
        })
        &&& match old.editing_task_index() {
            Some(i) => {
                let old_tags = old.data.tasks@[i].tags@;
                let sel = old.selected_tag_index as int;
                let new_tags = new.data.tasks@[i].tags@;
                &&& sel < old_tags.len() ==> App::task_updated(
                    old,
                    new,
                    |t: Task| Task { tags: new.data.tasks@[i].tags, ..t },
                ) && new_tags == old_tags.remove(sel)
                &&& sel >= old_tags.len() ==> new.data == old.data
                &&& new.selected_tag_index == clamp_after_delete(
                    sel,
                    new_tags.len() as int,
                )
            },
            None => new == old,
        }
    }

    /// `new` is `old` after `start_add_file_ref`:
    ///   Starts the three-step file reference wizard: path, line, description.
    pub open spec fn start_add_file_ref_done(old: App, new: App) -> bool {
        &&& new == (App {
            view_state: new.view_state,
            file_ref_path_buffer: new.file_ref_path_buffer,
            file_ref_line_buffer: new.file_ref_line_buffer,
            file_ref_desc_buffer: new.file_ref_desc_buffer,
            file_ref_input_step: 0,
            ..old
        })
        &&& new.file_ref_path_buffer@.len() == 0
        &&& new.file_ref_line_buffer@.len() == 0
        &&& new.file_ref_desc_buffer@.len() == 0
        &&& App::line_edit_opened(
            old.view_state,
            new.view_state,
            Some(DetailEditField::AddingFileRef),
            Seq::empty(),
        )
    }

    /// `new` is `old` after `advance_file_ref_step`:
    ///   Stores the line buffer in the current step's slot and moves on;
    ///   after the last step the reference is committed.
    pub open spec fn advance_file_ref_step_done(old: App, new: App) -> bool {
        &&& new.view_state.input_buffer@.len() == 0
        &&& (old.file_ref_input_step < 2 ==> new == (App {
            view_state: ViewState {
                input_buffer: new.view_state.input_buffer,
                cursor_position: 0,
                ..old.view_state
            },
            file_ref_path_buffer: if old.file_ref_input_step == 0 {
                old.view_state.input_buffer
            } else {
                old.file_ref_path_buffer
            },
            file_ref_line_buffer: if old.file_ref_input_step == 1 {
                old.view_state.input_buffer
            } else {
                old.file_ref_line_buffer
            },
            file_ref_input_step: (old.file_ref_input_step + 1) as usize,
            ..old
        }))
        &&& (old.file_ref_input_step >= 2 ==> App::file_ref_saved(
            App {
                view_state: ViewState {
                    input_buffer: new.view_state.input_buffer,
                    cursor_position: 0,
                    ..old.view_state
                },
                file_ref_desc_buffer: if old.file_ref_input_step == 2 {
                    old.view_state.input_buffer
                } else {
                    old.file_ref_desc_buffer
                },
                ..old
            },
            new,
        ))
    }

    /// `new` is `old` after `save_file_ref`:
    ///   Commits the staged file reference (when its path is not empty) to
    ///   the open task and ends the wizard.
    pub open spec fn save_file_ref_done(old: App, new: App) -> bool {
        &&& App::file_ref_saved(old, new)
    }

    /// `new` is `old` after `next_file_ref`.
    pub open spec fn next_file_ref_done(old: App, new: App) -> bool {
        &&& new == (App {
            selected_file_ref_index: match old.editing_task() {
                Some(t) => step_down(
                    old.selected_file_ref_index as int,
                    t.file_references@.len() as int,
                ) as usize,
                None => old.selected_file_ref_index,
            },
            ..old
        })
    }

    /// `new` is `old` after `previous_file_ref`.
    pub open spec fn previous_file_ref_done(old: App, new: App) -> bool {
        &&& new == (App {
            selected_file_ref_index: step_up(old.selected_file_ref_index as int) as usize,
            ..old
        })
    }

    /// `new` is `old` after `delete_selected_file_ref`:
    ///   Deletes the selected file reference of the open task and keeps the
    ///   selection inside the shortened list.
    pub open spec fn delete_selected_file_ref_done(old: App, new: App) -> bool {
        &&& new == (App {
            data: new.data,
            selected_file_ref_index: new.selected_file_ref_index,
            ..old
        })
        &&& match old.editing_task_index() {
            Some(i) => {
                let old_refs = old.data.tasks@[i].file_references@;
                let sel = old.selected_file_ref_index as int;
                let new_refs = new.data.tasks@[i].file_references@;
                &&& sel < old_refs.len() ==> App::task_updated(
                    old,
                    new,
                    |t: Task|
                        Task { file_references: new.data.tasks@[i].file_references, ..t },
                ) && new_refs == old_refs.remove(sel)
                &&& sel >= old_refs.len() ==> new.data == old.data
                &&& new.selected_file_ref_index == clamp_after_delete(
                    sel,
                    new_refs.len() as int,
                )
            },
            None => new == old,
        }
    }

    /// `new` is `old` after `switch_pane`.
    pub open spec fn switch_pane_done(old: App, new: App) -> bool {
        &&& new == (App {
            view_state: ViewState {
                focused_pane: if old.view_state.focused_pane == FocusPane::Tasks {
                    FocusPane::Projects
                } else {
                    FocusPane::Tasks
                },
                ..old.view_state
            },
            ..old
        })
    }

    /// `new` is `old` after `next_project`.
    pub open spec fn next_project_done(old: App, new: App) -> bool {
        &&& new == (App {
            selected_project_index_in_pane: step_down(
                old.selected_project_index_in_pane as int,
                old.data.projects@.len() as int,
            ) as usize,
            ..old
        })
    }

    /// `new` is `old` after `previous_project`.
    pub open spec fn previous_project_done(old: App, new: App) -> bool {
        &&& new == (App {
            selected_project_index_in_pane: step_up(
                old.selected_project_index_in_pane as int,
            ) as usize,
            ..old
        })
    }

    /// `new` is `old` after `delete_selected_project`:
    ///   Deletes the selected project and keeps the selection inside the list.
    pub open spec fn delete_selected_project_done(old: App, new: App) -> bool {
        &&& match old.selected_project() {
            Some(p) => match old.data.project_index(p.id@) {
                Some(i) => new == (App {
                    data: AppData { projects: new.data.projects, ..old.data },
                    selected_project_index_in_pane: new.selected_project_index_in_pane,
                    ..old
                }) && new.data.projects@ == old.data.projects@.remove(i)
                    && new.selected_project_index_in_pane == if old.selected_project_index_in_pane >= new.data.projects@.len() && new.data.projects@.len() > 0 {
                    (new.data.projects@.len() - 1) as usize
                } else {
                    old.selected_project_index_in_pane
                },
                None => new == old,
            },
            None => new == old,
        }
        &&& (old.data.wf() ==> new.data.wf())
        &&& (old.data.wf() && old.selected_project() is Some ==> {
            &&& new.data.project_index(old.selected_project()->0.id@) is None
            &&& new.data.projects@.len() == old.data.projects@.len() - 1
        })
    }

    /// `new` is `old` after `start_add_project`.
    pub open spec fn start_add_project_done(old: App, new: App) -> bool {
        &&& App::only_data_and_view(old, new)
        &&& new.data == old.data
        &&& App::line_edit_opened(
            old.view_state,
            new.view_state,
            old.view_state.detail_editing_field,
            Seq::empty(),
        )
    }

    /// `new` is `old` after `confirm_add_project`:
    ///   Adds a project named by the line buffer, when it is not empty; then
    ///   leaves insert mode.
    pub open spec fn confirm_add_project_done(old: App, new: App) -> bool {
        &&& App::only_data_and_view(old, new)
        &&& App::edit_closed(old.view_state, new.view_state)
        &&& (old.view_state.input_buffer@.len() == 0 ==> new.data == old.data)
        &&& (old.view_state.input_buffer@.len() > 0 ==> exists|p: Project|
            {
                &&& p.name@ == old.view_state.input_buffer@
                &&& p.description@.len() == 0
                &&& new.data == AppData {
                    projects: new.data.projects,
                    ..old.data
                }
                &&& new.data.projects@ == #[trigger] projects_with(
                    old.data.projects@,
                    p,
                )
            })
        &&& (old.data.wf() ==> new.data.wf())
    }

    /// `new` is `old` after `start_edit_project`:
    ///   Opens the selected project in the detail view, at its first section.
    pub open spec fn start_edit_project_done(old: App, new: App) -> bool {
        &&& match old.selected_project() {
            Some(p) => {
                &&& new == (App {
                    view_state: new.view_state,
                    detail_field_selection: 0,
                    ..old
                })
                &&& new.view_state == (ViewState {
                    editing_project_id: new.view_state.editing_project_id,
                    editing_task_id: None,
                    current_view: AppView::ProjectDetail,
                    input_mode: InputMode::Normal,
                    ..old.view_state
                })
                &&& new.view_state.editing_project_id matches Some(id) && id@ == p.id@
            },
            None => new == old,
        }
    }

    /// `new` is `old` after `exit_project_detail_view`:
    ///   Back to the list, dropping any edit in progress.
    pub open spec fn exit_project_detail_view_done(old: App, new: App) -> bool {
        &&& App::only_data_and_view(old, new)
        &&& new.data == old.data
        &&& new.view_state == (ViewState {
            editing_project_id: None,
            current_view: AppView::TaskList,
            input_mode: InputMode::Normal,
            detail_editing_field: None,
            input_buffer: new.view_state.input_buffer,
            cursor_position: 0,
            description_edit_state: None,
            ..old.view_state
        })
        &&& new.view_state.input_buffer@.len() == 0
    }

    /// `new` is `old` after `start_edit_project_name`:
    ///   Starts editing the open project's name in the line buffer.
    pub open spec fn start_edit_project_name_done(old: App, new: App) -> bool {
        &&& match old.editing_project() {
            Some(p) => App::only_data_and_view(old, new)
                && new.data == old.data && App::line_edit_opened(
                old.view_state,
                new.view_state,
                Some(DetailEditField::ProjectName),
                p.name@,
            ),
            None => new == old,
        }
    }

    /// `new` is `old` after `save_project_name_edit`:
    ///   Writes the line buffer to the open project's name and ends the edit.
    pub open spec fn save_project_name_edit_done(old: App, new: App) -> bool {
        &&& App::only_data_and_view(old, new)
        &&& App::project_updated(
            old,
            new,
            |p: Project| Project { name: old.view_state.input_buffer, ..p },
        )
        &&& App::edit_closed(old.view_state, new.view_state)
    }

    /// `new` is `old` after `start_edit_project_description`:
    ///   Starts editing the open project's description in a multiline buffer.
    pub open spec fn start_edit_project_description_done(old: App, new: App) -> bool {
        &&& match old.editing_project() {
            Some(p) => {
                &&& App::only_data_and_view(old, new)
                &&& new.data == old.data
                &&& new.view_state == (ViewState {
                    description_edit_state: new.view_state.description_edit_state,
                    detail_editing_field: Some(DetailEditField::ProjectDescription),
                    input_mode: InputMode::Insert,
                    ..old.view_state
                })
                &&& new.view_state.description_edit_state matches Some(es) && es@
                    == TextModel::fresh(p.description@)
            },
            None => new == old,
        }
    }

    /// `new` is `old` after `save_project_description_edit`:
    ///   Writes the multiline buffer's text to the open project's description
    ///   and ends the edit.
    pub open spec fn save_project_description_edit_done(old: App, new: App) -> bool {
        &&& App::only_data_and_view(old, new)
        &&& match old.view_state.description_edit_state {
            Some(es) => App::project_updated(
                old,
                new,
                |p: Project|
                    Project {
                        description: new.data.projects@[old.editing_project_index()->0].description,
                        ..p
                    },
            ) && (old.editing_project_index() matches Some(i) ==> new.data.projects@[i].description@ == es@.text),
            None => new.data == old.data,
        }
        &&& new.view_state == (ViewState {
            description_edit_state: None,
            detail_editing_field: None,
            input_mode: InputMode::Normal,
            ..old.view_state
        })
    }

    /// `new` is `old` after `input_char`:
    ///   Types `c`: into the multiline buffer when one is open, else into the
    ///   line buffer at its cursor.
    pub open spec fn input_char_done(old: App, new: App, c: char) -> bool {
        &&& match old.view_state.description_edit_state {
            Some(es) => new == (App {
                view_state: ViewState {
                    description_edit_state: new.view_state.description_edit_state,
                    ..old.view_state
                },
                ..old
            }) && (new.view_state.description_edit_state matches Some(e2) && e2@
                == es@.insert_char(c)),
            None => if old.view_state.cursor_position
                <= old.view_state.input_buffer@.len() {
                new == (App {
                    view_state: ViewState {
                        input_buffer: new.view_state.input_buffer,
                        cursor_position: (old.view_state.cursor_position + 1) as usize,
                        ..old.view_state
                    },
                    ..old
                }) && new.view_state.input_buffer@ == old.view_state.input_buffer@.insert(
                    old.view_state.cursor_position as int,
                    c,
                )
            } else {
                new == old
            },
        }
    }

    /// `new` is `old` after `input_backspace`:
    ///   Deletes the character before the cursor of the open buffer.
    pub open spec fn input_backspace_done(old: App, new: App) -> bool {
        &&& match old.view_state.description_edit_state {
            Some(es) => new == (App {
                view_state: ViewState {
                    description_edit_state: new.view_state.description_edit_state,
                    ..old.view_state
                },
                ..old
            }) && (new.view_state.description_edit_state matches Some(e2) && e2@
                == es@.backspace()),
            None => if 0 < old.view_state.cursor_position
                <= old.view_state.input_buffer@.len() {
                new == (App {
                    view_state: ViewState {
                        input_buffer: new.view_state.input_buffer,
                        cursor_position: (old.view_state.cursor_position - 1) as usize,
                        ..old.view_state
                    },
                    ..old
                }) && new.view_state.input_buffer@ == old.view_state.input_buffer@.remove(
                    old.view_state.cursor_position - 1,
                )
            } else {
                new == old
            },
        }
    }

    /// `new` is `old` after `input_left`:
    ///   Moves the cursor of the open buffer one character left.
    pub open spec fn input_left_done(old: App, new: App) -> bool {
        &&& match old.view_state.description_edit_state {
            Some(es) => new == (App {
                view_state: ViewState {
                    description_edit_state: new.view_state.description_edit_state,
                    ..old.view_state
                },
                ..old
            }) && (new.view_state.description_edit_state matches Some(e2) && e2@
                == es@.move_left()),
            None => new == (App {
                view_state: ViewState {
                    cursor_position: step_up(
                        old.view_state.cursor_position as int,
                    ) as usize,
                    ..old.view_state
                },
                ..old
            }),
        }
    }

    /// `new` is `old` after `input_right`:
    ///   Moves the cursor of the open buffer one character right.
    pub open spec fn input_right_done(old: App, new: App) -> bool {
        &&& match old.view_state.description_edit_state {
            Some(es) => new == (App {
                view_state: ViewState {
                    description_edit_state: new.view_state.description_edit_state,
                    ..old.view_state
                },
                ..old
            }) && (new.view_state.description_edit_state matches Some(e2) && e2@
                == es@.move_right()),
            None => new == (App {
                view_state: ViewState {
                    cursor_position: if old.view_state.cursor_position < old.view_state.input_buffer@.len() {
                        (old.view_state.cursor_position + 1) as usize
                    } else {
                        old.view_state.cursor_position
                    },
                    ..old.view_state
                },
                ..old
            }),
        }
    }

    /// `new` is `old` after `input_up`:
    ///   Moves the multiline cursor up a line; the line buffer has no lines.
    pub open spec fn input_up_done(old: App, new: App) -> bool {
        &&& match old.view_state.description_edit_state {
            Some(es) => new == (App {
                view_state: ViewState {
                    description_edit_state: new.view_state.description_edit_state,
                    ..old.view_state
                },
                ..old
            }) && (new.view_state.description_edit_state matches Some(e2) && e2@
                == es@.move_up()),
            None => new == old,
        }
    }

    /// `new` is `old` after `input_down`:
    ///   Moves the multiline cursor down a line; the line buffer has no lines.
    pub open spec fn input_down_done(old: App, new: App) -> bool {
        &&& match old.view_state.description_edit_state {
            Some(es) => new == (App {
                view_state: ViewState {
                    description_edit_state: new.view_state.description_edit_state,
                    ..old.view_state
                },
                ..old
            }) && (new.view_state.description_edit_state matches Some(e2) && e2@
                == es@.move_down()),
            None => new == old,
        }
    }

    /// `new` is `old` after `input_newline`:
    ///   Enter in the multiline buffer: a new line.
    pub open spec fn input_newline_done(old: App, new: App) -> bool {
        &&& match old.view_state.description_edit_state {
            Some(es) => new == (App {
                view_state: ViewState {
                    description_edit_state: new.view_state.description_edit_state,
                    ..old.view_state
                },
                ..old
            }) && (new.view_state.description_edit_state matches Some(e2) && e2@
                == es@.insert_char('\n')),
            None => new == old,
        }
    }

    pub fn new(data_file_path: String) -> (r: Self)
        ensures
            r.data.tasks@.len() == 0,
            r.data.projects@.len() == 0,
            r.view_state.current_view == AppView::TaskList,
            r.view_state.focused_pane == FocusPane::Tasks,
            r.view_state.input_mode == InputMode::Normal,
            r.view_state.editing_task_id is None,
            r.view_state.editing_project_id is None,
            r.view_state.detail_editing_field is None,
            r.view_state.description_edit_state is None,
            r.view_state.input_buffer@.len() == 0,
            r.view_state.cursor_position == 0,
            r.data.version@ == "1.0.0"@,
            !r.should_quit,
            r.selected_task_index == 0,
            r.task_list_scroll == 0,
            r.selected_project_index == 0,
            r.selected_project_index_in_pane == 0,
            r.project_list_scroll == 0,
            r.detail_scroll == 0,
            r.file_ref_path_buffer@.len() == 0,
            r.file_ref_line_buffer@.len() == 0,
            r.file_ref_desc_buffer@.len() == 0,
            r.current_project_id is None,
            r.detail_field_selection == 0,
            r.selected_tag_index == 0,
            r.selected_file_ref_index == 0,
            r.file_ref_input_step == 0,
            r.data_file_path == data_file_path,
            r.status_message is None,
            r.status_timestamp is None,
            r.wf(),
    {
        App {
            data: AppData::default(),
            view_state: ViewState::default(),
            should_quit: false,
            selected_task_index: 0,
            task_list_scroll: 0,
            current_project_id: None,
            selected_project_index: 0,
            selected_project_index_in_pane: 0,
            project_list_scroll: 0,
            detail_field_selection: 0,
            detail_scroll: 0,
            selected_tag_index: 0,
            selected_file_ref_index: 0,
            file_ref_path_buffer: String::new(),
            file_ref_line_buffer: String::new(),
            file_ref_desc_buffer: String::new(),
            file_ref_input_step: 0,
            data_file_path,
            status_message: None,
            status_timestamp: None,
        }
    }

    /// Tasks of the current project, oldest first.
    pub fn get_visible_tasks(&self) -> (r: Vec<&Task>)
        ensures
            r@.map_values(|t: &Task| *t) == self.visible_tasks(),
            is_sorted(TaskOrder::CreatedFirst, self.visible_tasks()),
    {
        proof {
            lemma_sort_is_sorted(
                TaskOrder::CreatedFirst,
                tasks_in_project(self.data.tasks@, opt_string_view(self.current_project_id)),
            );
        }
        let pid: Option<&str> = match &self.current_project_id {
            Some(p) => Some(p.as_str()),
            None => None,
        };
        sort_tasks(self.data.get_tasks_by_project(pid), TaskOrder::CreatedFirst)
    }

    pub fn next_task(&mut self)
        ensures
            App::next_task_done(*old(self), *final(self)),
    {
        let task_count = self.get_visible_tasks().len();
        if task_count > 0 {
            if self.selected_task_index < task_count - 1 {
                self.selected_task_index = self.selected_task_index + 1;
            } else {
                self.selected_task_index = task_count - 1;
            }
        }
    }

    pub fn previous_task(&mut self)
        ensures
            App::previous_task_done(*old(self), *final(self)),
    {
        if self.selected_task_index > 0 {
            self.selected_task_index = self.selected_task_index - 1;
        }
    }

    /// Id of the selected task of the list.
    pub fn get_selected_task_id(&self) -> (r: Option<String>)
        ensures
            match self.selected_task() {
                Some(t) => r matches Some(id) && id@ == t.id@,
                None => r is None,
            },
    {
        let tasks = self.get_visible_tasks();
        if self.selected_task_index < tasks.len() {
            let t: &Task = tasks[self.selected_task_index];
            proof {
                assert(tasks@.map_values(|t: &Task| *t)[self.selected_task_index as int] == *t);
            }
            Some(t.id.clone())
        } else {
            None
        }
    }

    pub fn toggle_selected_task(&mut self)
        ensures
            App::toggle_selected_task_done(*old(self), *final(self)),
    {
        if let Some(task_id) = self.get_selected_task_id() {
            if let Some(i) = self.data.find_task(task_id.as_str()) {
                self.data.tasks[i].toggle_complete();
            }
        }
    }

    pub fn delete_selected_task(&mut self)
        ensures
            App::delete_selected_task_done(*old(self), *final(self)),
    {
        let ghost before = *self;
        if let Some(task_id) = self.get_selected_task_id() {
            proof {
                if before.data.wf() {
                    let t = before.selected_task()->0;
                    assert(before.visible_tasks()[before.selected_task_index as int] == t);
                    lemma_remove_visible(before, t);
                }
            }
            self.data.remove_task(task_id.as_str());
            proof {
                lemma_sort_len_contains(
                    TaskOrder::CreatedFirst,
                    tasks_in_project(self.data.tasks@, opt_string_view(self.current_project_id)),
                );
            }
            self.clamp_task_selection();
        }
    }

    /// `new.data` is `old.data` with the open task replaced by `f` of it,
    /// with a new update time; unchanged when no task is open.
    pub open spec fn task_updated(old: App, new: App, f: spec_fn(Task) -> Task) -> bool {
        match old.editing_task_index() {
            Some(i) => {
                &&& new.data == AppData { tasks: new.data.tasks, ..old.data }
                &&& new.data.tasks@ == old.data.tasks@.update(i, new.data.tasks@[i])
                &&& Task::touched(f(old.data.tasks@[i]), new.data.tasks@[i])
            },
            None => new.data == old.data,
        }
    }

    /// `new.data` is `old.data` with the open project replaced by `f` of
    /// it, with a new update time; unchanged when no project is open.
    pub open spec fn project_updated(old: App, new: App, f: spec_fn(Project) -> Project) -> bool {
        match old.editing_project_index() {
            Some(i) => {
                &&& new.data == AppData { projects: new.data.projects, ..old.data }
                &&& new.data.projects@ == old.data.projects@.update(i, new.data.projects@[i])
                &&& Project::touched(f(old.data.projects@[i]), new.data.projects@[i])
            },
            None => new.data == old.data,
        }
    }

    /// `new` differs from `old` at most in its data and view state.
    pub open spec fn only_data_and_view(old: App, new: App) -> bool {
        new == App { data: new.data, view_state: new.view_state, ..old }
    }

    /// The view state after a field edit ends: normal mode, no field, an
    /// empty line buffer.
    pub open spec fn edit_closed(old: ViewState, new: ViewState) -> bool {
        &&& new == ViewState {
            detail_editing_field: None,
            input_mode: InputMode::Normal,
            input_buffer: new.input_buffer,
            cursor_position: 0,
            ..old
        }
        &&& new.input_buffer@.len() == 0
    }

    /// The view state when a line edit begins with text `text`.
    pub open spec fn line_edit_opened(
        old: ViewState,
        new: ViewState,
        field: Option<DetailEditField>,
        text: Seq<char>,
    ) -> bool {
        &&& new == ViewState {
            detail_editing_field: field,
            input_mode: InputMode::Insert,
            input_buffer: new.input_buffer,
            cursor_position: text.len() as usize,
            ..old
        }
        &&& new.input_buffer@ == text
    }

    fn editing_task_position(&self) -> (r: Option<usize>)
        ensures
            r is Some <==> self.editing_task_index() is Some,
            r matches Some(i) ==> self.editing_task_index() == Some(i as int) && i < self.data.tasks@.len(),
    {
        match &self.view_state.editing_task_id {
            Some(id) => {
                let r = self.data.find_task(id.as_str());
                proof {
                    if let Some(i) = r {
                        let ids = crate::app_data::task_ids(self.data.tasks@);
                        assert(crate::app_data::is_first_index(ids, id@, i as int));
                    }
                }
                r
            },
            None => None,
        }
    }

    fn editing_project_position(&self) -> (r: Option<usize>)
        ensures
            r is Some <==> self.editing_project_index() is Some,
            r matches Some(i) ==> self.editing_project_index() == Some(i as int) && i < self.data.projects@.len(),
    {
        match &self.view_state.editing_project_id {
            Some(id) => {
                let r = self.data.find_project(id.as_str());
                proof {
                    if let Some(i) = r {
                        let ids = crate::app_data::project_ids(self.data.projects@);
                        assert(crate::app_data::is_first_index(ids, id@, i as int));
                    }
                }
                r
            },
            None => None,
        }
    }

    pub fn start_add_task(&mut self)
        ensures
            App::start_add_task_done(*old(self), *final(self)),
    {
        self.view_state.input_mode = InputMode::Insert;
        self.view_state.input_buffer = String::new();
        self.view_state.cursor_position = 0;
    }

    /// Keeps the list selection inside the visible tasks.
    fn clamp_task_selection(&mut self)
        ensures
            *final(self) == (App {
                selected_task_index: clamp_after_delete(
                    old(self).selected_task_index as int,
                    old(self).visible_tasks().len() as int,
                ) as usize,
                ..*old(self)
            }),
    {
        let task_count = self.get_visible_tasks().len();
        if task_count == 0 {
            self.selected_task_index = 0;
        } else if self.selected_task_index >= task_count {
            self.selected_task_index = task_count - 1;
        }
    }

    /// Adds a task named by the line buffer, when it is not empty, to the
    /// current project; then leaves insert mode. The list selection stays
    /// inside the list.
    pub fn confirm_add_task(&mut self)
        ensures
            App::confirm_add_task_done(*old(self), *final(self)),
    {
        if !self.view_state.input_buffer.as_str().is_empty() {
            let mut task = Task::new(self.view_state.input_buffer.clone());
            task.project_id = match &self.current_project_id {
                Some(p) => Some(p.clone()),
                None => None,
            };
            self.data.add_task(task);
        }
        self.clamp_task_selection();
        self.view_state.input_buffer = String::new();
        self.view_state.cursor_position = 0;
        self.view_state.detail_editing_field = None;
        self.view_state.input_mode = InputMode::Normal;
    }

    /// Leaves insert mode, dropping the line buffer.
    pub fn cancel_input(&mut self)
        ensures
            App::cancel_input_done(*old(self), *final(self)),
    {
        self.view_state.input_mode = InputMode::Normal;
        self.view_state.detail_editing_field = None;
        self.view_state.input_buffer = String::new();
        self.view_state.cursor_position = 0;
    }

    /// Shows `message`, stamped with the caller's clock reading `now_ms`.
    pub fn set_status(&mut self, message: String, now_ms: u64)
        ensures
            App::set_status_done(*old(self), *final(self), message, now_ms),
    {
        self.status_message = Some(message);
        self.status_timestamp = Some(now_ms);
    }

    pub fn clear_status(&mut self)
        ensures
            App::clear_status_done(*old(self), *final(self)),
    {
        self.status_message = None;
        self.status_timestamp = None;
    }

    /// Clears the status message once it has been up for the timeout.
    pub fn check_status_timeout(&mut self, now_ms: u64)
        ensures
            App::check_status_timeout_done(*old(self), *final(self), now_ms),
    {
        if let Some(timestamp) = self.status_timestamp {
            if now_ms >= timestamp && now_ms - timestamp >= STATUS_TIMEOUT_MS {
                self.clear_status();
            }
        }
    }

    /// Opens the selected task in the detail view, at its first section.
    pub fn start_edit_task(&mut self)
        ensures
            App::start_edit_task_done(*old(self), *final(self)),
    {
        if let Some(task_id) = self.get_selected_task_id() {
            self.view_state.editing_task_id = Some(task_id);
            self.view_state.editing_project_id = None;
            self.view_state.current_view = AppView::TaskDetail;
            self.detail_field_selection = 0;
            self.selected_tag_index = 0;
            self.selected_file_ref_index = 0;
            self.view_state.input_mode = InputMode::Normal;
        }
    }

    /// Back to the list, dropping any edit in progress.
    pub fn exit_detail_view(&mut self)
        ensures
            App::exit_detail_view_done(*old(self), *final(self)),
    {
        self.view_state.editing_task_id = None;
        self.view_state.current_view = AppView::TaskList;
        self.view_state.input_mode = InputMode::Normal;
        self.view_state.detail_editing_field = None;
        self.view_state.input_buffer = String::new();
        self.view_state.cursor_position = 0;
        self.view_state.description_edit_state = None;
    }

    /// Number of sections of the open detail view.
    fn detail_section_count(&self) -> (r: usize)
        ensures
            r == self.section_count(),
    {
        if self.view_state.current_view == AppView::ProjectDetail {
            PROJECT_SECTIONS
        } else {
            TASK_SECTIONS
        }
    }

    pub fn next_detail_field(&mut self)
        ensures
            App::next_detail_field_done(*old(self), *final(self)),
    {
        let n = self.detail_section_count();
        if self.detail_field_selection < n - 1 {
            self.detail_field_selection = self.detail_field_selection + 1;
        } else {
            self.detail_field_selection = n - 1;
        }
    }

    pub fn previous_detail_field(&mut self)
        ensures
            App::previous_detail_field_done(*old(self), *final(self)),
    {
        if self.detail_field_selection > 0 {
            self.detail_field_selection = self.detail_field_selection - 1;
        }
    }

    /// The open task's number of tags and of file references.
    pub fn open_task_list_sizes(&self) -> (r: (usize, usize))
        ensures
            r.0 == crate::input::open_task_list_sizes(*self).0,
            r.1 == crate::input::open_task_list_sizes(*self).1,
    {
        match self.editing_task_position() {
            Some(i) => (self.data.tasks[i].tags.len(), self.data.tasks[i].file_references.len()),
            None => (0, 0),
        }
    }

    pub fn get_editing_task(&self) -> (r: Option<&Task>)
        ensures
            match self.editing_task() {
                Some(t) => r matches Some(x) && *x == t,
                None => r is None,
            },
    {
        match self.editing_task_position() {
            Some(i) => Some(&self.data.tasks[i]),
            None => None,
        }
    }

    pub fn get_editing_task_mut(&mut self) -> (r: Option<&mut Task>)
        ensures
            match old(self).editing_task_index() {
                Some(i) => (r matches Some(t) && *t == old(self).data.tasks@[i]
                    && *final(self) == (App {
                    data: AppData { tasks: final(self).data.tasks, ..old(self).data },
                    ..*old(self)
                }) && final(self).data.tasks@ == old(self).data.tasks@.update(i, *final(t))),
                None => r is None && *final(self) == *old(self),
            },
    {
        match self.editing_task_position() {
            Some(i) => Some(&mut self.data.tasks[i]),
            None => None,
        }
    }

    /// Starts editing the open task's title in the line buffer.
    pub fn start_edit_title(&mut self)
        ensures
            App::start_edit_title_done(*old(self), *final(self)),
    {
        if let Some(i) = self.editing_task_position() {
            let title = self.data.tasks[i].title.clone();
            let n = title.as_str().unicode_len();
            self.view_state.input_buffer = title;
            self.view_state.cursor_position = n;
            self.view_state.detail_editing_field = Some(DetailEditField::Title);
            self.view_state.input_mode = InputMode::Insert;
        }
    }

    /// Writes the line buffer to the open task's title and ends the edit.
    pub fn save_title_edit(&mut self)
        ensures
            App::save_title_edit_done(*old(self), *final(self)),
    {
        let new_title = self.view_state.input_buffer.clone();
        let ghost old_app = *self;
        if let Some(i) = self.editing_task_position() {
            self.data.tasks[i].title = new_title;
            self.data.tasks[i].update_timestamp();
            assert(self.data.tasks@ == old_app.data.tasks@.update(
                i as int,
                self.data.tasks@[i as int],
            ));
            assert(self.data == AppData { tasks: self.data.tasks, ..old_app.data });
        }
        self.view_state.input_buffer = String::new();
        self.view_state.cursor_position = 0;
        self.view_state.detail_editing_field = None;
        self.view_state.input_mode = InputMode::Normal;
    }

    /// Starts editing the open task's description in a multiline buffer.
    pub fn start_edit_description(&mut self)
        ensures
            App::start_edit_description_done(*old(self), *final(self)),
    {
        if let Some(i) = self.editing_task_position() {
            let text = self.data.tasks[i].description.clone();
            self.view_state.description_edit_state = Some(DescriptionEditState::new(text));
            self.view_state.detail_editing_field = Some(DetailEditField::Description);
            self.view_state.input_mode = InputMode::Insert;
        }
    }

    /// Writes the multiline buffer's text to the open task's description
    /// and ends the edit.
    pub fn save_description_edit(&mut self)
        ensures
            App::save_description_edit_done(*old(self), *final(self)),
    {
        let ghost old_app = *self;
        if let Some(edit_state) = self.view_state.description_edit_state.take() {
            let new_description = edit_state.into_string();
            if let Some(i) = self.editing_task_position() {
                self.data.tasks[i].description = new_description;
                self.data.tasks[i].update_timestamp();
                assert(self.data.tasks@ == old_app.data.tasks@.update(
                    i as int,
                    self.data.tasks@[i as int],
                ));
                assert(self.data == AppData { tasks: self.data.tasks, ..old_app.data });
            }
        }
        self.view_state.detail_editing_field = None;
        self.view_state.input_mode = InputMode::Normal;
    }

    /// Starts reading a new tag into the line buffer.
    pub fn start_add_tag(&mut self)
        ensures
            App::start_add_tag_done(*old(self), *final(self)),
    {
        self.view_state.input_buffer = String::new();
        self.view_state.cursor_position = 0;
        self.view_state.detail_editing_field = Some(DetailEditField::AddingTag);
        self.view_state.input_mode = InputMode::Insert;
    }

    /// Appends the line buffer, when not empty, to the open task's tags and
    /// ends the edit.
    pub fn save_new_tag(&mut self)
        ensures
            App::save_new_tag_done(*old(self), *final(self)),
    {
        if !self.view_state.input_buffer.as_str().is_empty() {
            let new_tag = self.view_state.input_buffer.clone();
            let ghost old_app = *self;
            if let Some(i) = self.editing_task_position() {
                self.data.tasks[i].tags.push(new_tag);
                self.data.tasks[i].update_timestamp();
                assert(self.data.tasks@ == old_app.data.tasks@.update(
                    i as int,
                    self.data.tasks@[i as int],
                ));
                assert(self.data == AppData { tasks: self.data.tasks, ..old_app.data });
            }
        }
        self.view_state.input_buffer = String::new();
        self.view_state.cursor_position = 0;
        self.view_state.detail_editing_field = None;
        self.view_state.input_mode = InputMode::Normal;
    }

    pub fn next_tag(&mut self)
        ensures
            App::next_tag_done(*old(self), *final(self)),
    {
        if let Some(i) = self.editing_task_position() {
            let n = self.data.tasks[i].tags.len();
            if n > 0 {
                if self.selected_tag_index < n - 1 {
                    self.selected_tag_index = self.selected_tag_index + 1;
                } else {
                    self.selected_tag_index = n - 1;
                }
            }
        }
    }

    pub fn previous_tag(&mut self)
        ensures
            App::previous_tag_done(*old(self), *final(self)),
    {
        if self.selected_tag_index > 0 {
            self.selected_tag_index = self.selected_tag_index - 1;
        }
    }

    /// Deletes the selected tag of the open task and keeps the selection
    /// inside the shortened list.
    pub fn delete_selected_tag(&mut self)
        ensures
            App::delete_selected_tag_done(*old(self), *final(self)),
    {
        let index = self.selected_tag_index;
        let ghost old_app = *self;
        if let Some(i) = self.editing_task_position() {
            if index < self.data.tasks[i].tags.len() {
                self.data.tasks[i].tags.remove(index);
                self.data.tasks[i].update_timestamp();
                assert(self.data.tasks@ == old_app.data.tasks@.update(
                    i as int,
                    self.data.tasks@[i as int],
                ));
                assert(self.data == AppData { tasks: self.data.tasks, ..old_app.data });
                assert(crate::app_data::task_ids(self.data.tasks@) =~= crate::app_data::task_ids(
                    old_app.data.tasks@,
                ));
            }
        }
        if let Some(i) = self.editing_task_position() {
            let n = self.data.tasks[i].tags.len();
            if self.selected_tag_index >= n && n > 0 {
                self.selected_tag_index = n - 1;
            } else if n == 0 {
                self.selected_tag_index = 0;
            }
        }
    }

    /// The file reference that the wizard's staging slots describe: the
    /// line number only when the line slot reads as one, the description
    /// only when its slot is not empty.
    pub open spec fn staged_file_reference(self) -> FileReference {
        FileReference {
            path: self.file_ref_path_buffer,
            line_number: if is_usize_text(self.file_ref_line_buffer@) {
                Some(digits_value(unsigned_part(self.file_ref_line_buffer@)) as usize)
            } else {
                None
            },
            description: if self.file_ref_desc_buffer@.len() == 0 {
                None
            } else {
                Some(self.file_ref_desc_buffer)
            },
        }
    }

    /// `new` is `old` after the wizard commits: the staged reference is
    /// appended to the open task when the path is not empty, the slots are
    /// emptied and the edit ends.
    pub open spec fn file_ref_saved(old: App, new: App) -> bool {
        &&& new == App {
            data: new.data,
            view_state: ViewState {
                detail_editing_field: None,
                input_mode: InputMode::Normal,
                ..old.view_state
            },
            file_ref_path_buffer: new.file_ref_path_buffer,
            file_ref_line_buffer: new.file_ref_line_buffer,
            file_ref_desc_buffer: new.file_ref_desc_buffer,
            file_ref_input_step: 0,
            ..old
        }
        &&& new.file_ref_path_buffer@.len() == 0
        &&& new.file_ref_line_buffer@.len() == 0
        &&& new.file_ref_desc_buffer@.len() == 0
        &&& old.file_ref_path_buffer@.len() > 0 ==> App::task_updated(
            old,
            new,
            |t: Task|
                Task {
                    file_references: new.data.tasks@[old.editing_task_index()->0].file_references,
                    ..t
                },
        ) && (old.editing_task_index() matches Some(i)
            ==> new.data.tasks@[i].file_references@ == old.data.tasks@[i].file_references@.push(
            old.staged_file_reference(),
        ))
        &&& old.file_ref_path_buffer@.len() == 0 ==> new.data == old.data
    }

    /// Starts the three-step file reference wizard: path, line, description.
    pub fn start_add_file_ref(&mut self)
        ensures
            App::start_add_file_ref_done(*old(self), *final(self)),
    {
        self.file_ref_path_buffer = String::new();
        self.file_ref_line_buffer = String::new();
        self.file_ref_desc_buffer = String::new();
        self.file_ref_input_step = 0;
        self.view_state.input_buffer = String::new();
        self.view_state.cursor_position = 0;
        self.view_state.detail_editing_field = Some(DetailEditField::AddingFileRef);
        self.view_state.input_mode = InputMode::Insert;
    }

    /// Stores the line buffer in the current step's slot and moves on;
    /// after the last step the reference is committed.
    pub fn advance_file_ref_step(&mut self)
        ensures
            App::advance_file_ref_step_done(*old(self), *final(self)),
    {
        let step = self.file_ref_input_step;
        if step == 0 {
            self.file_ref_path_buffer = self.view_state.input_buffer.clone();
        } else if step == 1 {
            self.file_ref_line_buffer = self.view_state.input_buffer.clone();
        } else if step == 2 {
            self.file_ref_desc_buffer = self.view_state.input_buffer.clone();
        }
        self.view_state.input_buffer = String::new();
        self.view_state.cursor_position = 0;
        if step < 2 {
            self.file_ref_input_step = step + 1;
        } else {
            self.save_file_ref();
        }
    }

    /// Commits the staged file reference (when its path is not empty) to
    /// the open task and ends the wizard.
    pub fn save_file_ref(&mut self)
        ensures
            App::save_file_ref_done(*old(self), *final(self)),
    {
        let ghost old_app = *self;
        if !self.file_ref_path_buffer.as_str().is_empty() {
            let path = self.file_ref_path_buffer.clone();
            let line_num = parse_line_number(self.file_ref_line_buffer.as_str());
            let desc = if self.file_ref_desc_buffer.as_str().is_empty() {
                None
            } else {
                Some(self.file_ref_desc_buffer.clone())
            };
            if let Some(i) = self.editing_task_position() {
                self.data.tasks[i].file_references.push(
                    FileReference { path, line_number: line_num, description: desc },
                );
                self.data.tasks[i].update_timestamp();
                assert(self.data.tasks@ == old_app.data.tasks@.update(
                    i as int,
                    self.data.tasks@[i as int],
                ));
                assert(self.data == AppData { tasks: self.data.tasks, ..old_app.data });
            }
        }
        self.file_ref_path_buffer = String::new();
        self.file_ref_line_buffer = String::new();
        self.file_ref_desc_buffer = String::new();
        self.file_ref_input_step = 0;
        self.view_state.detail_editing_field = None;
        self.view_state.input_mode = InputMode::Normal;
    }

    pub fn next_file_ref(&mut self)
        ensures
            App::next_file_ref_done(*old(self), *final(self)),
    {
        if let Some(i) = self.editing_task_position() {
            let n = self.data.tasks[i].file_references.len();
            if n > 0 {
                if self.selected_file_ref_index < n - 1 {
                    self.selected_file_ref_index = self.selected_file_ref_index + 1;
                } else {
                    self.selected_file_ref_index = n - 1;
                }
            }
        }
    }

    pub fn previous_file_ref(&mut self)
        ensures
            App::previous_file_ref_done(*old(self), *final(self)),
    {
        if self.selected_file_ref_index > 0 {
            self.selected_file_ref_index = self.selected_file_ref_index - 1;
        }
    }

    /// Deletes the selected file reference of the open task and keeps the
    /// selection inside the shortened list.
    pub fn delete_selected_file_ref(&mut self)
        ensures
            App::delete_selected_file_ref_done(*old(self), *final(self)),
    {
        let index = self.selected_file_ref_index;
        let ghost old_app = *self;
        if let Some(i) = self.editing_task_position() {
            if index < self.data.tasks[i].file_references.len() {
                self.data.tasks[i].file_references.remove(index);
                self.data.tasks[i].update_timestamp();
                assert(self.data.tasks@ == old_app.data.tasks@.update(
                    i as int,
                    self.data.tasks@[i as int],
                ));
                assert(self.data == AppData { tasks: self.data.tasks, ..old_app.data });
                assert(crate::app_data::task_ids(self.data.tasks@) =~= crate::app_data::task_ids(
                    old_app.data.tasks@,
                ));
            }
        }
        if let Some(i) = self.editing_task_position() {
            let n = self.data.tasks[i].file_references.len();
            if self.selected_file_ref_index >= n && n > 0 {
                self.selected_file_ref_index = n - 1;
            } else if n == 0 {
                self.selected_file_ref_index = 0;
            }
        }
    }

    pub fn switch_pane(&mut self)
        ensures
            App::switch_pane_done(*old(self), *final(self)),
    {
        self.view_state.focused_pane = match self.view_state.focused_pane {
            FocusPane::Tasks => FocusPane::Projects,
            FocusPane::Projects => FocusPane::Tasks,
        };
    }

    pub fn next_project(&mut self)
        ensures
            App::next_project_done(*old(self), *final(self)),
    {
        let project_count = self.data.projects.len();
        if project_count > 0 {
            if self.selected_project_index_in_pane < project_count - 1 {
                self.selected_project_index_in_pane = self.selected_project_index_in_pane + 1;
            } else {
                self.selected_project_index_in_pane = project_count - 1;
            }
        }
    }

    pub fn previous_project(&mut self)
        ensures
            App::previous_project_done(*old(self), *final(self)),
    {
        if self.selected_project_index_in_pane > 0 {
            self.selected_project_index_in_pane = self.selected_project_index_in_pane - 1;
        }
    }

    pub fn get_selected_project_id(&self) -> (r: Option<String>)
        ensures
            match self.selected_project() {
                Some(p) => r matches Some(id) && id@ == p.id@,
                None => r is None,
            },
    {
        if self.selected_project_index_in_pane < self.data.projects.len() {
            Some(self.data.projects[self.selected_project_index_in_pane].id.clone())
        } else {
            None
        }
    }

    /// Deletes the selected project and keeps the selection inside the list.
    pub fn delete_selected_project(&mut self)
        ensures
            App::delete_selected_project_done(*old(self), *final(self)),
    {
        if let Some(project_id) = self.get_selected_project_id() {
            proof {
                if self.data.wf() {
                    crate::app_data::lemma_unique_index(
                        crate::app_data::project_ids(self.data.projects@),
                        self.selected_project_index_in_pane as int,
                    );
                }
            }
            self.data.remove_project(project_id.as_str());
            let project_count = self.data.projects.len();
            if self.selected_project_index_in_pane >= project_count && project_count > 0 {
                self.selected_project_index_in_pane = project_count - 1;
            }
        }
    }

    pub fn start_add_project(&mut self)
        ensures
            App::start_add_project_done(*old(self), *final(self)),
    {
        self.view_state.input_mode = InputMode::Insert;
        self.view_state.input_buffer = String::new();
        self.view_state.cursor_position = 0;
    }

    /// Adds a project named by the line buffer, when it is not empty; then
    /// leaves insert mode.
    pub fn confirm_add_project(&mut self)
        ensures
            App::confirm_add_project_done(*old(self), *final(self)),
    {
        if !self.view_state.input_buffer.as_str().is_empty() {
            let project = Project::new(self.view_state.input_buffer.clone());
            self.data.add_project(project);
        }
        self.view_state.input_buffer = String::new();
        self.view_state.cursor_position = 0;
        self.view_state.detail_editing_field = None;
        self.view_state.input_mode = InputMode::Normal;
    }

    /// Opens the selected project in the detail view, at its first section.
    pub fn start_edit_project(&mut self)
        ensures
            App::start_edit_project_done(*old(self), *final(self)),
    {
        if let Some(project_id) = self.get_selected_project_id() {
            self.view_state.editing_project_id = Some(project_id);
            self.view_state.editing_task_id = None;
            self.view_state.current_view = AppView::ProjectDetail;
            self.detail_field_selection = 0;
            self.view_state.input_mode = InputMode::Normal;
        }
    }

    /// Back to the list, dropping any edit in progress.
    pub fn exit_project_detail_view(&mut self)
        ensures
            App::exit_project_detail_view_done(*old(self), *final(self)),
    {
        self.view_state.editing_project_id = None;
        self.view_state.current_view = AppView::TaskList;
        self.view_state.input_mode = InputMode::Normal;
        self.view_state.detail_editing_field = None;
        self.view_state.input_buffer = String::new();
        self.view_state.cursor_position = 0;
        self.view_state.description_edit_state = None;
    }

    pub fn get_editing_project(&self) -> (r: Option<&Project>)
        ensures
            match self.editing_project() {
                Some(p) => r matches Some(x) && *x == p,
                None => r is None,
            },
    {
        match self.editing_project_position() {
            Some(i) => Some(&self.data.projects[i]),
            None => None,
        }
    }

    pub fn get_editing_project_mut(&mut self) -> (r: Option<&mut Project>)
        ensures
            match old(self).editing_project_index() {
                Some(i) => (r matches Some(p) && *p == old(self).data.projects@[i]
                    && *final(self) == (App {
                    data: AppData { projects: final(self).data.projects, ..old(self).data },
                    ..*old(self)
                }) && final(self).data.projects@ == old(self).data.projects@.update(
                    i,
                    *final(p),
                )),
                None => r is None && *final(self) == *old(self),
            },
    {
        match self.editing_project_position() {
            Some(i) => Some(&mut self.data.projects[i]),
            None => None,
        }
    }

    /// Starts editing the open project's name in the line buffer.
    pub fn start_edit_project_name(&mut self)
        ensures
            App::start_edit_project_name_done(*old(self), *final(self)),
    {
        if let Some(i) = self.editing_project_position() {
            let name = self.data.projects[i].name.clone();
            let n = name.as_str().unicode_len();
            self.view_state.input_buffer = name;
            self.view_state.cursor_position = n;
            self.view_state.detail_editing_field = Some(DetailEditField::ProjectName);
            self.view_state.input_mode = InputMode::Insert;
        }
    }

    /// Writes the line buffer to the open project's name and ends the edit.
    pub fn save_project_name_edit(&mut self)
        ensures
            App::save_project_name_edit_done(*old(self), *final(self)),
    {
        let new_name = self.view_state.input_buffer.clone();
        let ghost old_app = *self;
        if let Some(i) = self.editing_project_position() {
            self.data.projects[i].name = new_name;
            self.data.projects[i].update_timestamp();
            assert(self.data.projects@ == old_app.data.projects@.update(
                i as int,
                self.data.projects@[i as int],
            ));
            assert(self.data == AppData { projects: self.data.projects, ..old_app.data });
        }
        self.view_state.input_buffer = String::new();
        self.view_state.cursor_position = 0;
        self.view_state.detail_editing_field = None;
        self.view_state.input_mode = InputMode::Normal;
    }

    /// Starts editing the open project's description in a multiline buffer.
    pub fn start_edit_project_description(&mut self)
        ensures
            App::start_edit_project_description_done(*old(self), *final(self)),
    {
        if let Some(i) = self.editing_project_position() {
            let text = self.data.projects[i].description.clone();
            self.view_state.description_edit_state = Some(DescriptionEditState::new(text));
            self.view_state.detail_editing_field = Some(DetailEditField::ProjectDescription);
            self.view_state.input_mode = InputMode::Insert;
        }
    }

    /// Writes the multiline buffer's text to the open project's description
    /// and ends the edit.
    pub fn save_project_description_edit(&mut self)
        ensures
            App::save_project_description_edit_done(*old(self), *final(self)),
    {
        let ghost old_app = *self;
        if let Some(edit_state) = self.view_state.description_edit_state.take() {
            let new_description = edit_state.into_string();
            if let Some(i) = self.editing_project_position() {
                self.data.projects[i].description = new_description;
                self.data.projects[i].update_timestamp();
                assert(self.data.projects@ == old_app.data.projects@.update(
                    i as int,
                    self.data.projects@[i as int],
                ));
                assert(self.data == AppData { projects: self.data.projects, ..old_app.data });
            }
        }
        self.view_state.detail_editing_field = None;
        self.view_state.input_mode = InputMode::Normal;
    }

    /// Types `c`: into the multiline buffer when one is open, else into the
    /// line buffer at its cursor.
    pub fn input_char(&mut self, c: char)
        ensures
            App::input_char_done(*old(self), *final(self), c),
    {
        if let Some(edit_state) = &mut self.view_state.description_edit_state {
            edit_state.insert_char(c);
        } else {
            let mut cs = chars_of(self.view_state.input_buffer.as_str());
            let k = self.view_state.cursor_position;
            if k <= cs.len() {
                cs.insert(k, c);
                let n = cs.len();
                assert(k + 1 <= n);
                self.view_state.input_buffer = string_of_chars(&cs);
                self.view_state.cursor_position = k + 1;
            }
        }
    }

    /// Deletes the character before the cursor of the open buffer.
    pub fn input_backspace(&mut self)
        ensures
            App::input_backspace_done(*old(self), *final(self)),
    {
        if let Some(edit_state) = &mut self.view_state.description_edit_state {
            edit_state.backspace();
        } else {
            let k = self.view_state.cursor_position;
            let mut cs = chars_of(self.view_state.input_buffer.as_str());
            if k > 0 && k <= cs.len() {
                cs.remove(k - 1);
                self.view_state.input_buffer = string_of_chars(&cs);
                self.view_state.cursor_position = k - 1;
            }
        }
    }

    /// Moves the cursor of the open buffer one character left.
    pub fn input_left(&mut self)
        ensures
            App::input_left_done(*old(self), *final(self)),
    {
        if let Some(edit_state) = &mut self.view_state.description_edit_state {
            edit_state.move_cursor_left();
        } else if self.view_state.cursor_position > 0 {
            self.view_state.cursor_position = self.view_state.cursor_position - 1;
        }
    }

    /// Moves the cursor of the open buffer one character right.
    pub fn input_right(&mut self)
        ensures
            App::input_right_done(*old(self), *final(self)),
    {
        if let Some(edit_state) = &mut self.view_state.description_edit_state {
            edit_state.move_cursor_right();
        } else {
            let n = self.view_state.input_buffer.as_str().unicode_len();
            if self.view_state.cursor_position < n {
                self.view_state.cursor_position = self.view_state.cursor_position + 1;
            }
        }
    }

    /// Moves the multiline cursor up a line; the line buffer has no lines.
    pub fn input_up(&mut self)
        ensures
            App::input_up_done(*old(self), *final(self)),
    {
        if let Some(edit_state) = &mut self.view_state.description_edit_state {
            edit_state.move_cursor_up();
        }
    }

    /// Moves the multiline cursor down a line; the line buffer has no lines.
    pub fn input_down(&mut self)
        ensures
            App::input_down_done(*old(self), *final(self)),
    {
        if let Some(edit_state) = &mut self.view_state.description_edit_state {
            edit_state.move_cursor_down();
        }
    }

    /// Enter in the multiline buffer: a new line.
    pub fn input_newline(&mut self)
        ensures
            App::input_newline_done(*old(self), *final(self)),
    {
        if let Some(edit_state) = &mut self.view_state.description_edit_state {
            edit_state.insert_newline();
        }
    }

    /// `new` is `old` after `cancel_file_ref`:
    ///   Aborts the file reference wizard, dropping every staged slot.
    pub open spec fn cancel_file_ref_done(old: App, new: App) -> bool {
        &&& new == App {
            view_state: new.view_state,
            file_ref_path_buffer: new.file_ref_path_buffer,
            file_ref_line_buffer: new.file_ref_line_buffer,
            file_ref_desc_buffer: new.file_ref_desc_buffer,
            file_ref_input_step: 0,
            ..old
        }
        &&& new.file_ref_path_buffer@.len() == 0
        &&& new.file_ref_line_buffer@.len() == 0
        &&& new.file_ref_desc_buffer@.len() == 0
        &&& App::edit_closed(old.view_state, new.view_state)
    }

    /// Aborts the file reference wizard, dropping every staged slot.
    pub fn cancel_file_ref(&mut self)
        ensures
            App::cancel_file_ref_done(*old(self), *final(self)),
    {
        self.file_ref_path_buffer = String::new();
        self.file_ref_line_buffer = String::new();
        self.file_ref_desc_buffer = String::new();
        self.file_ref_input_step = 0;
        self.cancel_input();
    }
}

/// Replacing one task by another with the same project keeps the number of
/// tasks in every project.
pub proof fn lemma_update_keeps_filter_len(ts: Seq<Task>, i: int, t: Task, pid: Option<Seq<char>>)
    requires
        0 <= i < ts.len(),
        crate::app_data::in_project(ts[i], pid) == crate::app_data::in_project(t, pid),
    ensures
        tasks_in_project(ts.update(i, t), pid).len() == tasks_in_project(ts, pid).len(),
    decreases ts.len(),
{
    reveal(Seq::filter);
    let us = ts.update(i, t);
    if i == ts.len() - 1 {
        assert(us.drop_last() =~= ts.drop_last());
    } else {
        assert(us.drop_last() =~= ts.drop_last().update(i, t));
        lemma_update_keeps_filter_len(ts.drop_last(), i, t, pid);
    }
}

/// Removing a task of project `pid` shortens that project's list by one.
pub proof fn lemma_remove_shortens_filter(ts: Seq<Task>, i: int, pid: Option<Seq<char>>)
    requires
        0 <= i < ts.len(),
        crate::app_data::in_project(ts[i], pid),
    ensures
        tasks_in_project(ts.remove(i), pid).len() == tasks_in_project(ts, pid).len() - 1,
    decreases ts.len(),
{
    reveal(Seq::filter);
    let rs = ts.remove(i);
    if i == ts.len() - 1 {
        assert(rs =~= ts.drop_last());
    } else {
        assert(rs.drop_last() =~= ts.drop_last().remove(i));
        assert(rs.last() == ts.last());
        lemma_remove_shortens_filter(ts.drop_last(), i, pid);
    }
}

/// With unique ids, a visible task is the store's task with its id, and
/// removing it shortens the visible list by one.
pub proof fn lemma_remove_visible(app: App, t: Task)
    requires
        app.data.wf(),
        app.visible_tasks().contains(t),
    ensures
        app.data.task_index(t.id@) matches Some(j) && app.data.tasks@[j] == t
            && tasks_in_project(app.data.tasks@.remove(j), opt_string_view(app.current_project_id)).len()
            == app.visible_tasks().len() - 1,
{
    let pid = opt_string_view(app.current_project_id);
    let ts = app.data.tasks@;
    let f = tasks_in_project(ts, pid);
    lemma_sort_len_contains(TaskOrder::CreatedFirst, f);
    assert(f.contains(t));
    ts.lemma_filter_contains_rev(|x: Task| crate::app_data::in_project(x, pid), t);
    let k = choose|k: int| 0 <= k < f.len() && f[k] == t;
    ts.lemma_filter_pred(|x: Task| crate::app_data::in_project(x, pid), k);
    let j = choose|j: int| 0 <= j < ts.len() && ts[j] == t;
    let ids = crate::app_data::task_ids(ts);
    crate::app_data::lemma_unique_index(ids, j);
    lemma_remove_shortens_filter(ts, j, pid);
}

/// Editing the task at `i` without touching its id or project keeps the
/// visible list's length and which task is open.
pub proof fn lemma_task_edit_keeps_lists(old: App, new: App, i: int)
    requires
        0 <= i < old.data.tasks@.len(),
        new.data.tasks@ == old.data.tasks@.update(i, new.data.tasks@[i]),
        new.data.tasks@[i].id == old.data.tasks@[i].id,
        new.data.tasks@[i].project_id == old.data.tasks@[i].project_id,
        new.current_project_id == old.current_project_id,
        new.view_state.editing_task_id == old.view_state.editing_task_id,
    ensures
        new.visible_tasks().len() == old.visible_tasks().len(),
        new.editing_task_index() == old.editing_task_index(),
        crate::app_data::task_ids(new.data.tasks@) == crate::app_data::task_ids(old.data.tasks@),
{
    lemma_sort_len_contains(
        TaskOrder::CreatedFirst,
        tasks_in_project(old.data.tasks@, opt_string_view(old.current_project_id)),
    );
    lemma_sort_len_contains(
        TaskOrder::CreatedFirst,
        tasks_in_project(new.data.tasks@, opt_string_view(new.current_project_id)),
    );
    lemma_update_keeps_filter_len(
        old.data.tasks@,
        i,
        new.data.tasks@[i],
        opt_string_view(old.current_project_id),
    );
    assert(crate::app_data::task_ids(new.data.tasks@) =~= crate::app_data::task_ids(
        old.data.tasks@,
    ));
}

/// Deleting the selected last tag of a list of `n` tags leaves `n - 1`
/// tags with the selection on the new last one, or on 0 once the list is
/// empty.
pub proof fn lemma_delete_last_selected_tag(old: App, new: App)
    requires
        App::delete_selected_tag_done(old, new),
        old.editing_task() matches Some(t) && t.tags@.len() > 0 && old.selected_tag_index
            == t.tags@.len() - 1,
    ensures
        new.editing_task() matches Some(t2) && t2.tags@.len() == old.editing_task()->0.tags@.len()
            - 1,
        new.selected_tag_index == if old.editing_task()->0.tags@.len() >= 2 {
            old.editing_task()->0.tags@.len() - 2
        } else {
            0
        },
{
    assert(crate::app_data::task_ids(new.data.tasks@) =~= crate::app_data::task_ids(
        old.data.tasks@,
    ));
}

/// Deleting the selected last file reference of a list of `n` leaves
/// `n - 1` with the selection on the new last one, or on 0 once the list
/// is empty.
pub proof fn lemma_delete_last_selected_file_ref(old: App, new: App)
    requires
        App::delete_selected_file_ref_done(old, new),
        old.editing_task() matches Some(t) && t.file_references@.len() > 0
            && old.selected_file_ref_index == t.file_references@.len() - 1,
    ensures
        new.editing_task() matches Some(t2) && t2.file_references@.len()
            == old.editing_task()->0.file_references@.len() - 1,
        new.selected_file_ref_index == if old.editing_task()->0.file_references@.len() >= 2 {
            old.editing_task()->0.file_references@.len() - 2
        } else {
            0
        },
{
    assert(crate::app_data::task_ids(new.data.tasks@) =~= crate::app_data::task_ids(
        old.data.tasks@,
    ));
}

/// In a well-formed state, insert mode edits a named field, or, from the
/// list view with no field named, the name of a new task or project; and a
/// named field means insert mode.
pub proof fn lemma_mode_invariant(app: App)
    requires
        app.wf(),
    ensures
        app.view_state.input_mode == InputMode::Insert ==> (
        app.view_state.detail_editing_field is Some || app.view_state.current_view
            == AppView::TaskList),
        app.view_state.detail_editing_field is Some ==> app.view_state.input_mode
            == InputMode::Insert,
        app.view_state.description_edit_state is Some ==> app.view_state.input_mode
            == InputMode::Insert,
{
}

} // verus!
