use vstd::prelude::*;
use crate::clock::{new_id, now_rfc3339};

verus! {

#[derive(Clone, Copy, Debug, PartialEq, Eq, Structural)]
pub enum WorkstreamState {
    Idle,
    Running,
    NeedsInput,
}

impl Default for WorkstreamState {
    fn default() -> (r: Self)
        ensures
            r == WorkstreamState::Idle,
    {
        WorkstreamState::Idle
    }
}

/// A long-running working session launched from a workflow preset.
pub struct Workstream {
    pub id: String,
    pub name: String,
    pub preset_id: String,
    pub state: WorkstreamState,
    pub created_at: String,
    pub updated_at: String,
    pub last_accessed: Option<String>,
}

impl Workstream {
    pub fn new(name: String, preset_id: String) -> (r: Self)
        ensures
            r.id@.len() == 36,
            r.name == name,
            r.preset_id == preset_id,
            r.state == WorkstreamState::Idle,
            r.created_at == r.updated_at,
            r.last_accessed is None,
    {
        let now = now_rfc3339();
        Workstream {
            id: new_id(),
            name,
            preset_id,
            state: WorkstreamState::Idle,
            created_at: now.clone(),
            updated_at: now,
            last_accessed: None,
        }
    }

    pub fn update_timestamp(&mut self)
        ensures
            *final(self) == (Workstream { updated_at: final(self).updated_at, ..*old(self) }),
    {
        self.updated_at = now_rfc3339();
    }

    /// Records an access: the access time is set and the update time renewed.
    pub fn mark_accessed(&mut self)
        ensures
            *final(self) == (Workstream {
                last_accessed: final(self).last_accessed,
                updated_at: final(self).updated_at,
                ..*old(self)
            }),
            final(self).last_accessed is Some,
    {
        self.last_accessed = Some(now_rfc3339());
        self.update_timestamp();
    }

    pub fn set_state(&mut self, state: WorkstreamState)
        ensures
            *final(self) == (Workstream {
                state,
                updated_at: final(self).updated_at,
                ..*old(self)
            }),
    {
        self.state = state;
        self.update_timestamp();
    }
}

} // verus!
