use vstd::prelude::*;

verus! {

/// The kind of session the HTTP endpoint can open.
#[derive(Clone, Copy, Debug, PartialEq, Eq, Structural)]
pub enum SessionType {
    OpenCode,
}

impl Default for SessionType {
    fn default() -> (r: Self)
        ensures
            r == SessionType::OpenCode,
    {
        SessionType::OpenCode
    }
}

/// A request to open a session for a spec file.
pub struct SessionInput {
    pub session_type: SessionType,
    pub title: String,
    pub spec_file: String,
}

impl SessionInput {
    pub fn new(title: String, spec_file: String) -> (r: Self)
        ensures
            r.session_type == SessionType::OpenCode,
            r.title == title,
            r.spec_file == spec_file,
    {
        SessionInput { session_type: SessionType::OpenCode, title, spec_file }
    }
}

/// The terminal pane that a session runs in.
pub struct SessionHandle {
    pub session_id: String,
}

} // verus!
