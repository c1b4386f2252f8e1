use vstd::prelude::*;
use crate::clock::{new_id, now_rfc3339};

verus! {

/// A named group of tasks.
pub struct Project {
    pub id: String,
    pub remote_id: Option<String>,
    pub name: String,
    pub description: String,
    pub created_at: String,
    pub updated_at: String,
}

impl Project {
    /// `new` is `old` with only its update time changed.
    pub open spec fn touched(old: Project, new: Project) -> bool {
        new == Project { updated_at: new.updated_at, ..old }
    }

    pub fn new(name: String) -> (r: Self)
        ensures
            r.id@.len() == 36,
            r.remote_id is None,
            r.name == name,
            r.description@ == Seq::<char>::empty(),
            r.created_at == r.updated_at,
    {
        let now = now_rfc3339();
        Project {
            id: new_id(),
            remote_id: None,
            name,
            description: String::new(),
            created_at: now.clone(),
            updated_at: now,
        }
    }

    pub fn update_timestamp(&mut self)
        ensures
            Project::touched(*old(self), *final(self)),
    {
        self.updated_at = now_rfc3339();
    }
}

} // verus!
