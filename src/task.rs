use vstd::prelude::*;
use crate::clock::{new_id, now_rfc3339};

verus! {

/// A file location attached to a task.
pub struct FileReference {
    pub path: String,
    pub line_number: Option<usize>,
    pub description: Option<String>,
}

impl FileReference {
    pub fn new(path: String) -> (r: Self)
        ensures
            r.path == path,
            r.line_number is None,
            r.description is None,
    {
        FileReference { path, line_number: None, description: None }
    }
}

/// A to-do item.
pub struct Task {
    pub id: String,
    pub remote_id: Option<String>,
    pub title: String,
    pub description: String,
    pub completed: bool,
    pub project_id: Option<String>,
    pub tags: Vec<String>,
    pub file_references: Vec<FileReference>,
    pub created_at: String,
    pub updated_at: String,
    pub completed_at: Option<String>,
}

impl Task {
    /// `new` is `old` with only its update time changed.
    pub open spec fn touched(old: Task, new: Task) -> bool {
        new == Task { updated_at: new.updated_at, ..old }
    }

    /// `new` is `old` with completion flipped, its completion time present
    /// exactly when completed, and a new update time.
    pub open spec fn toggled(old: Task, new: Task) -> bool {
        &&& new.completed == !old.completed
        &&& (new.completed_at is Some <==> new.completed)
        &&& new == Task {
            completed: new.completed,
            completed_at: new.completed_at,
            updated_at: new.updated_at,
            ..old
        }
    }

    pub fn new(title: String) -> (r: Self)
        ensures
            r.id@.len() == 36,
            r.remote_id is None,
            r.title == title,
            r.description@ == Seq::<char>::empty(),
            !r.completed,
            r.project_id is None,
            r.tags@ == Seq::<String>::empty(),
            r.file_references@ == Seq::<FileReference>::empty(),
            r.created_at == r.updated_at,
            r.completed_at is None,
    {
        let now = now_rfc3339();
        Task {
            id: new_id(),
            remote_id: None,
            title,
            description: String::new(),
            completed: false,
            project_id: None,
            tags: Vec::new(),
            file_references: Vec::new(),
            created_at: now.clone(),
            updated_at: now,
            completed_at: None,
        }
    }

    /// Flips completion; the completion time is set exactly when completed.
    pub fn toggle_complete(&mut self)
        ensures
            Task::toggled(*old(self), *final(self)),
    {
        self.completed = !self.completed;
        self.updated_at = now_rfc3339();
        if self.completed {
            self.completed_at = Some(now_rfc3339());
        } else {
            self.completed_at = None;
        }
    }

    pub fn update_timestamp(&mut self)
        ensures
            Task::touched(*old(self), *final(self)),
    {
        self.updated_at = now_rfc3339();
    }
}

} // verus!
