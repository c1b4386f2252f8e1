use vstd::prelude::*;
use crate::description_edit_state::DescriptionEditState;

verus! {

/// The screen on display.
#[derive(Clone, Copy, Debug, PartialEq, Eq, Structural)]
pub enum AppView {
    TaskList,
    TaskDetail,
    ProjectDetail,
    ProjectList,
    Help,
}

/// The list pane that receives navigation keys.
#[derive(Clone, Copy, Debug, PartialEq, Eq, Structural)]
pub enum FocusPane {
    Tasks,
    Projects,
}

#[derive(Clone, Copy, Debug, PartialEq, Eq, Structural)]
pub enum InputMode {
    Normal,
    Insert,
}

/// The field of the open entity that is being edited.
#[derive(Clone, Copy, Debug, PartialEq, Eq, Structural)]
pub enum DetailEditField {
    Title,
    Description,
    AddingTag,
    AddingFileRef,
    ProjectName,
    ProjectDescription,
}

impl DetailEditField {
    /// Fields edited in the multiline buffer.
    pub open spec fn is_multiline(self) -> bool {
        self == DetailEditField::Description || self == DetailEditField::ProjectDescription
    }
}

/// What is on screen and what is being typed.
pub struct ViewState {
    pub current_view: AppView,
    pub focused_pane: FocusPane,
    pub editing_task_id: Option<String>,
    pub editing_project_id: Option<String>,
    pub detail_editing_field: Option<DetailEditField>,
    pub input_mode: InputMode,
    pub input_buffer: String,
    /// Cursor in `input_buffer`, in characters.
    pub cursor_position: usize,
    pub description_edit_state: Option<DescriptionEditState>,
}

impl ViewState {
    /// Insert mode edits either a named field or, from the list view, the
    /// name of a new entity; a named field means insert mode; a multiline
    /// buffer exists exactly while a description is edited.
    pub open spec fn modes_agree(self) -> bool {
        &&& (self.input_mode == InputMode::Insert ==> (self.detail_editing_field is Some
            || self.current_view == AppView::TaskList))
        &&& (self.detail_editing_field is Some ==> self.input_mode == InputMode::Insert)
        &&& (self.description_edit_state is Some <==> (self.detail_editing_field matches Some(
            f,
        ) && f.is_multiline()))
    }

    /// The modes and edit targets agree: insert mode edits either a named
    /// field or, from the list view, the name of a new entity; a multiline
    /// buffer exists exactly while a description is edited; at most one
    /// entity is open; the line cursor stays inside its buffer.
    pub open spec fn wf(self) -> bool {
        &&& self.modes_agree()
        &&& !(self.editing_task_id is Some && self.editing_project_id is Some)
        &&& self.cursor_position <= self.input_buffer@.len()
    }
}

impl Default for ViewState {
    fn default() -> (r: Self)
        ensures
            r.current_view == AppView::TaskList,
            r.focused_pane == FocusPane::Tasks,
            r.editing_task_id is None,
            r.editing_project_id is None,
            r.detail_editing_field is None,
            r.input_mode == InputMode::Normal,
            r.input_buffer@ == Seq::<char>::empty(),
            r.cursor_position == 0,
            r.description_edit_state is None,
            r.wf(),
    {
        ViewState {
            current_view: AppView::TaskList,
            focused_pane: FocusPane::Tasks,
            editing_task_id: None,
            editing_project_id: None,
            detail_editing_field: None,
            input_mode: InputMode::Normal,
            input_buffer: String::new(),
            cursor_position: 0,
            description_edit_state: None,
        }
    }
}

} // verus!
