use vstd::prelude::*;

verus! {

/// The kind of work a workstream holds.
#[derive(Clone, Copy, Debug, PartialEq, Eq, Structural)]
pub enum WorkstreamType {
    Claude,
    Codex,
    Learning,
    Handwritten,
}

/// A titled line of work, as listed on screen.
pub struct Workstream {
    title: String,
    workstream_type: WorkstreamType,
}

impl Workstream {
    pub closed spec fn title_view(&self) -> Seq<char> {
        self.title@
    }

    pub closed spec fn kind(&self) -> WorkstreamType {
        self.workstream_type
    }

    pub fn new(title: String, workstream_type: WorkstreamType) -> (r: Self)
        ensures
            r.title_view() == title@,
            r.kind() == workstream_type,
    {
        Workstream { title, workstream_type }
    }

    /// The text shown for this workstream in a list.
    pub fn get_line(&self) -> (r: &str)
        ensures
            r@ == self.title_view(),
    {
        self.title.as_str()
    }
}

} // verus!
