use vstd::prelude::*;
use crate::project::Project;
use crate::task::Task;

verus! {

/// `i` is the first index of `ids` that holds `id`.
pub open spec fn is_first_index(ids: Seq<Seq<char>>, id: Seq<char>, i: int) -> bool {
    &&& 0 <= i < ids.len()
    &&& ids[i] == id
    &&& forall|j: int| 0 <= j < i ==> ids[j] != id
}

/// Index of the first entry of `ids` equal to `id`, if any.
pub open spec fn first_index_of(ids: Seq<Seq<char>>, id: Seq<char>) -> Option<int> {
    if exists|i: int| is_first_index(ids, id, i) {
        Some(choose|i: int| is_first_index(ids, id, i))
    } else {
        None
    }
}

pub proof fn lemma_first_index(ids: Seq<Seq<char>>, id: Seq<char>, i: int)
    requires
        is_first_index(ids, id, i),
    ensures
        first_index_of(ids, id) == Some(i),
{
    let k = choose|k: int| is_first_index(ids, id, k);
    assert(is_first_index(ids, id, k));
    if k < i {
        assert(ids[k] != id);
    } else if i < k {
        assert(ids[i] != id);
    }
}

pub proof fn lemma_no_index(ids: Seq<Seq<char>>, id: Seq<char>)
    requires
        forall|j: int| 0 <= j < ids.len() ==> ids[j] != id,
    ensures
        first_index_of(ids, id) is None,
{
}

/// No id occurs twice.
pub open spec fn ids_unique(ids: Seq<Seq<char>>) -> bool {
    forall|i: int, j: int| 0 <= i < j < ids.len() ==> ids[i] != ids[j]
}

/// An id that occurs has a first index.
pub proof fn lemma_index_found(ids: Seq<Seq<char>>, id: Seq<char>, j: int)
    requires
        0 <= j < ids.len(),
        ids[j] == id,
    ensures
        first_index_of(ids, id) is Some,
    decreases j,
{
    if forall|k: int| 0 <= k < j ==> ids[k] != id {
        assert(is_first_index(ids, id, j));
    } else {
        let k = choose|k: int| 0 <= k < j && ids[k] == id;
        lemma_index_found(ids, id, k);
    }
}

/// With unique ids, the first index of an id is its only index.
pub proof fn lemma_unique_index(ids: Seq<Seq<char>>, j: int)
    requires
        ids_unique(ids),
        0 <= j < ids.len(),
    ensures
        first_index_of(ids, ids[j]) == Some(j),
{
    assert(is_first_index(ids, ids[j], j));
    lemma_first_index(ids, ids[j], j);
}

/// Storing under an id keeps ids unique, and the id is then present.
pub proof fn lemma_store_keeps_unique(ids: Seq<Seq<char>>, id: Seq<char>)
    requires
        ids_unique(ids),
    ensures
        match first_index_of(ids, id) {
            Some(i) => ids.update(i, id) == ids,
            None => ids_unique(ids.push(id)) && first_index_of(ids.push(id), id) is Some,
        },
{
    match first_index_of(ids, id) {
        Some(i) => {
            assert(is_first_index(ids, id, i));
            assert(ids.update(i, id) =~= ids);
        },
        None => {
            assert forall|j: int| 0 <= j < ids.len() implies ids[j] != id by {
                if ids[j] == id {
                    lemma_index_found(ids, id, j);
                }
            }
            lemma_index_found(ids.push(id), id, ids.len() as int);
        },
    }
}

/// Removing an entry keeps ids unique, and its id is then gone.
pub proof fn lemma_remove_keeps_unique(ids: Seq<Seq<char>>, i: int)
    requires
        ids_unique(ids),
        0 <= i < ids.len(),
    ensures
        ids_unique(ids.remove(i)),
        first_index_of(ids.remove(i), ids[i]) is None,
{
    let r = ids.remove(i);
    assert forall|a: int, b: int| 0 <= a < b < r.len() implies r[a] != r[b] by {
        let a2 = if a < i { a } else { a + 1 };
        let b2 = if b < i { b } else { b + 1 };
        assert(r[a] == ids[a2] && r[b] == ids[b2]);
    }
    assert forall|k: int| 0 <= k < r.len() implies r[k] != ids[i] by {
        let k2 = if k < i { k } else { k + 1 };
        assert(r[k] == ids[k2]);
    }
    lemma_no_index(r, ids[i]);
}

pub open spec fn task_ids(ts: Seq<Task>) -> Seq<Seq<char>> {
    ts.map_values(|t: Task| t.id@)
}

pub open spec fn project_ids(ps: Seq<Project>) -> Seq<Seq<char>> {
    ps.map_values(|p: Project| p.id@)
}

/// `ts` after storing `t` under its id: an entry with that id is replaced,
/// otherwise `t` is appended.
pub open spec fn tasks_with(ts: Seq<Task>, t: Task) -> Seq<Task> {
    match first_index_of(task_ids(ts), t.id@) {
        Some(i) => ts.update(i, t),
        None => ts.push(t),
    }
}

/// `ps` after storing `p` under its id.
pub open spec fn projects_with(ps: Seq<Project>, p: Project) -> Seq<Project> {
    match first_index_of(project_ids(ps), p.id@) {
        Some(i) => ps.update(i, p),
        None => ps.push(p),
    }
}

pub open spec fn opt_str_view(o: Option<&str>) -> Option<Seq<char>> {
    match o {
        Some(s) => Some(s@),
        None => None,
    }
}

pub open spec fn opt_string_view(o: Option<String>) -> Option<Seq<char>> {
    match o {
        Some(s) => Some(s@),
        None => None,
    }
}

/// A task belongs to the project `pid`; with no project, it belongs to
/// none.
pub open spec fn in_project(t: Task, pid: Option<Seq<char>>) -> bool {
    opt_string_view(t.project_id) == pid
}

pub open spec fn tasks_in_project(ts: Seq<Task>, pid: Option<Seq<char>>) -> Seq<Task> {
    ts.filter(|t: Task| in_project(t, pid))
}

fn owned_opt(o: Option<&str>) -> (r: Option<String>)
    ensures
        opt_string_view(r) == opt_str_view(o),
{
    match o {
        Some(s) => Some(s.to_owned()),
        None => None,
    }
}

fn same_opt_string(a: &Option<String>, b: &Option<String>) -> (r: bool)
    ensures
        r == (opt_string_view(*a) == opt_string_view(*b)),
{
    match (a, b) {
        (Some(x), Some(y)) => *x == *y,
        (None, None) => true,
        _ => false,
    }
}

/// All tasks and projects, each kind kept in one vector keyed by id.
pub struct AppData {
    pub tasks: Vec<Task>,
    pub projects: Vec<Project>,
    pub version: String,
}

impl Default for AppData {
    fn default() -> (r: Self)
        ensures
            r.tasks@.len() == 0,
            r.projects@.len() == 0,
            r.version@ == "1.0.0"@,
            r.wf(),
    {
        AppData { tasks: Vec::new(), projects: Vec::new(), version: "1.0.0".to_owned() }
    }
}

impl AppData {
    /// Task ids are unique, and so are project ids.
    pub open spec fn wf(self) -> bool {
        &&& ids_unique(task_ids(self.tasks@))
        &&& ids_unique(project_ids(self.projects@))
    }

    pub open spec fn task_index(self, id: Seq<char>) -> Option<int> {
        first_index_of(task_ids(self.tasks@), id)
    }

    pub open spec fn project_index(self, id: Seq<char>) -> Option<int> {
        first_index_of(project_ids(self.projects@), id)
    }

    /// Position of the task with id `task_id`.
    pub fn find_task(&self, task_id: &str) -> (r: Option<usize>)
        ensures
            match r {
                Some(i) => self.task_index(task_id@) == Some(i as int),
                None => self.task_index(task_id@) is None,
            },
    {
        let key = task_id.to_owned();
        let mut i: usize = 0;
        while i < self.tasks.len()
            invariant
                i <= self.tasks.len(),
                key@ == task_id@,
                forall|j: int| 0 <= j < i ==> task_ids(self.tasks@)[j] != task_id@,
            decreases self.tasks.len() - i,
        {
            if self.tasks[i].id == key {
                proof {
                    lemma_first_index(task_ids(self.tasks@), task_id@, i as int);
                }
                return Some(i);
            }
            i = i + 1;
        }
        proof {
            lemma_no_index(task_ids(self.tasks@), task_id@);
        }
        None
    }

    /// Position of the project with id `project_id`.
    pub fn find_project(&self, project_id: &str) -> (r: Option<usize>)
        ensures
            match r {
                Some(i) => self.project_index(project_id@) == Some(i as int),
                None => self.project_index(project_id@) is None,
            },
    {
        let key = project_id.to_owned();
        let mut i: usize = 0;
        while i < self.projects.len()
            invariant
                i <= self.projects.len(),
                key@ == project_id@,
                forall|j: int| 0 <= j < i ==> project_ids(self.projects@)[j] != project_id@,
            decreases self.projects.len() - i,
        {
            if self.projects[i].id == key {
                proof {
                    lemma_first_index(project_ids(self.projects@), project_id@, i as int);
                }
                return Some(i);
            }
            i = i + 1;
        }
        proof {
            lemma_no_index(project_ids(self.projects@), project_id@);
        }
        None
    }

    /// The tasks of project `project_id` (of no project, for `None`), in
    /// store order.
    pub fn get_tasks_by_project(&self, project_id: Option<&str>) -> (r: Vec<&Task>)
        ensures
            r@.map_values(|t: &Task| *t) == tasks_in_project(self.tasks@, opt_str_view(project_id)),
    {
        let key = owned_opt(project_id);
        let ghost pid = opt_str_view(project_id);
        let mut out: Vec<&Task> = Vec::new();
        let mut i: usize = 0;
        while i < self.tasks.len()
            invariant
                i <= self.tasks.len(),
                opt_string_view(key) == pid,
                out@.map_values(|t: &Task| *t) == tasks_in_project(self.tasks@.take(i as int), pid),
            decreases self.tasks.len() - i,
        {
            let ghost prev = out@;
            proof {
                assert(self.tasks@.take(i as int + 1).drop_last() =~= self.tasks@.take(i as int));
                reveal(Seq::filter);
            }
            if same_opt_string(&key, &self.tasks[i].project_id) {
                out.push(&self.tasks[i]);
                assert(out@.map_values(|t: &Task| *t) =~= prev.map_values(|t: &Task| *t).push(
                    self.tasks@[i as int],
                ));
            }
            i = i + 1;
        }
        proof {
            assert(self.tasks@.take(i as int) =~= self.tasks@);
        }
        out
    }

    /// Stores `task` under its id, replacing a task with the same id.
    pub fn add_task(&mut self, task: Task)
        ensures
            final(self).tasks@ == tasks_with(old(self).tasks@, task),
            final(self).projects == old(self).projects,
            final(self).version == old(self).version,
            old(self).wf() ==> final(self).wf() && final(self).task_index(task.id@) is Some,
    {
        proof {
            if self.wf() {
                lemma_store_keeps_unique(task_ids(self.tasks@), task.id@);
            }
        }
        let ghost before = self.tasks@;
        let ghost id = task.id@;
        match self.find_task(task.id.as_str()) {
            Some(i) => {
                self.tasks[i] = task;
                assert(task_ids(self.tasks@) =~= task_ids(before).update(i as int, id));
            },
            None => {
                self.tasks.push(task);
                assert(task_ids(self.tasks@) =~= task_ids(before).push(id));
            },
        }
    }

    pub fn remove_task(&mut self, task_id: &str) -> (r: Option<Task>)
        ensures
            match old(self).task_index(task_id@) {
                Some(i) => r == Some(old(self).tasks@[i]) && final(self).tasks@ == old(self).tasks@.remove(i),
                None => r is None && final(self).tasks == old(self).tasks,
            },
            final(self).projects == old(self).projects,
            final(self).version == old(self).version,
            old(self).wf() ==> final(self).wf() && final(self).task_index(task_id@) is None,
    {
        let ghost before = self.tasks@;
        match self.find_task(task_id) {
            Some(i) => {
                let r = self.tasks.remove(i);
                proof {
                    assert(task_ids(self.tasks@) =~= task_ids(before).remove(i as int));
                    assert(is_first_index(task_ids(before), task_id@, i as int));
                    if ids_unique(task_ids(before)) {
                        lemma_remove_keeps_unique(task_ids(before), i as int);
                    }
                }
                Some(r)
            },
            None => None,
        }
    }

    pub fn get_task(&self, task_id: &str) -> (r: Option<&Task>)
        ensures
            match self.task_index(task_id@) {
                Some(i) => r == Some(&self.tasks@[i]),
                None => r is None,
            },
    {
        match self.find_task(task_id) {
            Some(i) => Some(&self.tasks[i]),
            None => None,
        }
    }

    pub fn get_task_mut(&mut self, task_id: &str) -> (r: Option<&mut Task>)
        ensures
            match old(self).task_index(task_id@) {
                Some(i) => (r matches Some(t) && *t == old(self).tasks@[i] && final(self).tasks@
                    == old(self).tasks@.update(i, *final(t))),
                None => r is None && final(self).tasks == old(self).tasks,
            },
            final(self).projects == old(self).projects,
            final(self).version == old(self).version,
    {
        match self.find_task(task_id) {
            Some(i) => Some(&mut self.tasks[i]),
            None => None,
        }
    }

    /// Stores `project` under its id, replacing a project with the same id.
    pub fn add_project(&mut self, project: Project)
        ensures
            final(self).projects@ == projects_with(old(self).projects@, project),
            final(self).tasks == old(self).tasks,
            final(self).version == old(self).version,
            old(self).wf() ==> final(self).wf() && final(self).project_index(project.id@) is Some,
    {
        proof {
            if self.wf() {
                lemma_store_keeps_unique(project_ids(self.projects@), project.id@);
            }
        }
        let ghost before = self.projects@;
        let ghost id = project.id@;
        match self.find_project(project.id.as_str()) {
            Some(i) => {
                self.projects[i] = project;
                assert(project_ids(self.projects@) =~= project_ids(before).update(i as int, id));
            },
            None => {
                self.projects.push(project);
                assert(project_ids(self.projects@) =~= project_ids(before).push(id));
            },
        }
    }

    pub fn remove_project(&mut self, project_id: &str) -> (r: Option<Project>)
        ensures
            match old(self).project_index(project_id@) {
                Some(i) => r == Some(old(self).projects@[i]) && final(self).projects@ == old(self).projects@.remove(i),
                None => r is None && final(self).projects == old(self).projects,
            },
            final(self).tasks == old(self).tasks,
            final(self).version == old(self).version,
            old(self).wf() ==> final(self).wf() && final(self).project_index(project_id@) is None,
    {
        let ghost before = self.projects@;
        match self.find_project(project_id) {
            Some(i) => {
                let r = self.projects.remove(i);
                proof {
                    assert(project_ids(self.projects@) =~= project_ids(before).remove(i as int));
                    assert(is_first_index(project_ids(before), project_id@, i as int));
                    if ids_unique(project_ids(before)) {
                        lemma_remove_keeps_unique(project_ids(before), i as int);
                    }
                }
                Some(r)
            },
            None => None,
        }
    }

    pub fn get_project(&self, project_id: &str) -> (r: Option<&Project>)
        ensures
            match self.project_index(project_id@) {
                Some(i) => r == Some(&self.projects@[i]),
                None => r is None,
            },
    {
        match self.find_project(project_id) {
            Some(i) => Some(&self.projects[i]),
            None => None,
        }
    }

    pub fn get_project_mut(&mut self, project_id: &str) -> (r: Option<&mut Project>)
        ensures
            match old(self).project_index(project_id@) {
                Some(i) => (r matches Some(p) && *p == old(self).projects@[i] && final(self).projects@ == old(self).projects@.update(i, *final(p))),
                None => r is None && final(self).projects == old(self).projects,
            },
            final(self).tasks == old(self).tasks,
            final(self).version == old(self).version,
    {
        match self.find_project(project_id) {
            Some(i) => Some(&mut self.projects[i]),
            None => None,
        }
    }
}

} // verus!
