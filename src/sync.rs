use vstd::prelude::*;
use crate::app_data::{
    first_index_of, ids_unique, lemma_store_keeps_unique, project_ids, task_ids, AppData,
};
use crate::chars::{chars_of, string_of_chars};
use crate::project::Project;
use crate::task::Task;

verus! {

/// Settings of the remote sync server.
pub struct PocketBaseConfig {
    pub server_url: String,
    pub enabled: bool,
}

impl Default for PocketBaseConfig {
    fn default() -> (r: Self)
        ensures
            r.server_url@ == "http://127.0.0.1:8090"@,
            !r.enabled,
    {
        PocketBaseConfig { server_url: "http://127.0.0.1:8090".to_owned(), enabled: false }
    }
}

/// The outcome of one sync run.
pub struct SyncResult {
    pub success: bool,
    pub tasks_synced: usize,
    pub projects_synced: usize,
    pub error: Option<String>,
}

impl SyncResult {
    /// Sync is switched off: nothing done, nothing wrong.
    pub fn skipped() -> (r: Self)
        ensures
            r.success,
            r.tasks_synced == 0,
            r.projects_synced == 0,
            r.error is None,
    {
        SyncResult { success: true, tasks_synced: 0, projects_synced: 0, error: None }
    }

    /// The server did not answer.
    pub fn offline() -> (r: Self)
        ensures
            !r.success,
            r.tasks_synced == 0,
            r.projects_synced == 0,
            r.error matches Some(e) && e@ == "Server unavailable, continuing offline"@,
    {
        SyncResult {
            success: false,
            tasks_synced: 0,
            projects_synced: 0,
            error: Some("Server unavailable, continuing offline".to_owned()),
        }
    }

    /// A failure described by `message`.
    pub fn error(message: String) -> (r: Self)
        ensures
            !r.success,
            r.tasks_synced == 0,
            r.projects_synced == 0,
            r.error == Some(message),
    {
        SyncResult { success: false, tasks_synced: 0, projects_synced: 0, error: Some(message) }
    }
}

/// `ps` after one server project is merged: a local project with its id
/// takes the server's remote id, otherwise the server's project is added.
pub open spec fn project_merged(ps: Seq<Project>, s: Project) -> Seq<Project> {
    match first_index_of(project_ids(ps), s.id@) {
        Some(i) => ps.update(i, Project { remote_id: s.remote_id, ..ps[i] }),
        None => ps.push(s),
    }
}

/// `ps` after the server projects are merged in order.
pub open spec fn projects_merged(ps: Seq<Project>, server: Seq<Project>) -> Seq<Project>
    decreases server.len(),
{
    if server.len() == 0 {
        ps
    } else {
        project_merged(projects_merged(ps, server.drop_last()), server.last())
    }
}

/// `ts` after one server task is merged: a local task with its id takes the
/// server's remote id, otherwise the server's task is added.
pub open spec fn task_merged(ts: Seq<Task>, s: Task) -> Seq<Task> {
    match first_index_of(task_ids(ts), s.id@) {
        Some(i) => ts.update(i, Task { remote_id: s.remote_id, ..ts[i] }),
        None => ts.push(s),
    }
}

/// `ts` after the server tasks are merged in order.
pub open spec fn tasks_merged(ts: Seq<Task>, server: Seq<Task>) -> Seq<Task>
    decreases server.len(),
{
    if server.len() == 0 {
        ts
    } else {
        task_merged(tasks_merged(ts, server.drop_last()), server.last())
    }
}

/// Merges what the server holds into the local store: local records learn
/// their remote ids, records only the server has are added. Every server
/// record counts as synced.
pub fn sync_from_server(
    local_data: &mut AppData,
    server_projects: Vec<Project>,
    server_tasks: Vec<Task>,
) -> (r: SyncResult)
    ensures
        final(local_data).projects@ == projects_merged(old(local_data).projects@, server_projects@),
        final(local_data).tasks@ == tasks_merged(old(local_data).tasks@, server_tasks@),
        final(local_data).version == old(local_data).version,
        old(local_data).wf() ==> final(local_data).wf(),
        r.success,
        r.projects_synced == server_projects@.len(),
        r.tasks_synced == server_tasks@.len(),
        r.error is None,
{
    let ghost all_projects = server_projects@;
    let ghost start_projects = local_data.projects@;
    let mut rest = server_projects;
    let n_projects = rest.len();
    let mut projects_synced: usize = 0;
    while rest.len() > 0
        invariant
            projects_synced <= all_projects.len() == n_projects,
            rest@ == all_projects.skip(projects_synced as int),
            local_data.projects@ == projects_merged(
                start_projects,
                all_projects.take(projects_synced as int),
            ),
            local_data.version == old(local_data).version,
            local_data.tasks == old(local_data).tasks,
            old(local_data).wf() ==> local_data.wf(),
        decreases rest.len(),
    {
        let ghost k = projects_synced as int;
        let pb_project = rest.remove(0);
        proof {
            assert(all_projects.take(k + 1).drop_last() =~= all_projects.take(k));
            assert(all_projects.take(k + 1).last() == pb_project);
            assert(rest@ =~= all_projects.skip(k + 1));
        }
        let ghost before = local_data.projects@;
        let ghost id = pb_project.id@;
        proof {
            if ids_unique(project_ids(before)) {
                lemma_store_keeps_unique(project_ids(before), id);
            }
        }
        match local_data.find_project(pb_project.id.as_str()) {
            Some(i) => {
                local_data.projects[i].remote_id = pb_project.remote_id;
                assert(project_ids(local_data.projects@) =~= project_ids(before));
            },
            None => {
                local_data.projects.push(pb_project);
                assert(project_ids(local_data.projects@) =~= project_ids(before).push(id));
            },
        }
        projects_synced = projects_synced + 1;
    }
    proof {
        assert(all_projects.take(projects_synced as int) =~= all_projects);
    }
    let ghost all_tasks = server_tasks@;
    let ghost start_tasks = local_data.tasks@;
    let mut rest_tasks = server_tasks;
    let n_tasks = rest_tasks.len();
    let mut tasks_synced: usize = 0;
    while rest_tasks.len() > 0
        invariant
            tasks_synced <= all_tasks.len() == n_tasks,
            rest_tasks@ == all_tasks.skip(tasks_synced as int),
            local_data.tasks@ == tasks_merged(start_tasks, all_tasks.take(tasks_synced as int)),
            start_tasks == old(local_data).tasks@,
            local_data.version == old(local_data).version,
            local_data.projects@ == projects_merged(old(local_data).projects@, all_projects),
            old(local_data).wf() ==> local_data.wf(),
        decreases rest_tasks.len(),
    {
        let ghost k = tasks_synced as int;
        let pb_task = rest_tasks.remove(0);
        proof {
            assert(all_tasks.take(k + 1).drop_last() =~= all_tasks.take(k));
            assert(all_tasks.take(k + 1).last() == pb_task);
            assert(rest_tasks@ =~= all_tasks.skip(k + 1));
        }
        let ghost before = local_data.tasks@;
        let ghost id = pb_task.id@;
        proof {
            if ids_unique(task_ids(before)) {
                lemma_store_keeps_unique(task_ids(before), id);
            }
        }
        match local_data.find_task(pb_task.id.as_str()) {
            Some(i) => {
                local_data.tasks[i].remote_id = pb_task.remote_id;
                assert(task_ids(local_data.tasks@) =~= task_ids(before));
            },
            None => {
                local_data.tasks.push(pb_task);
                assert(task_ids(local_data.tasks@) =~= task_ids(before).push(id));
            },
        }
        tasks_synced = tasks_synced + 1;
    }
    proof {
        assert(all_tasks.take(tasks_synced as int) =~= all_tasks);
    }
    SyncResult { success: true, tasks_synced, projects_synced, error: None }
}

/// Remote ids of the server records (ids `server_ids`, remote ids
/// `server_remote_ids`) whose id names no local record: records deleted
/// locally since the last push.
pub open spec fn stale_remote_ids(
    local_ids: Seq<Seq<char>>,
    server_ids: Seq<Seq<char>>,
    server_remote_ids: Seq<Option<Seq<char>>>,
) -> Seq<Seq<char>>
    decreases server_ids.len(),
{
    if server_ids.len() == 0 {
        Seq::empty()
    } else {
        let earlier = stale_remote_ids(
            local_ids,
            server_ids.drop_last(),
            server_remote_ids.drop_last(),
        );
        match server_remote_ids.last() {
            Some(r) => if first_index_of(local_ids, server_ids.last()) is None {
                earlier.push(r)
            } else {
                earlier
            },
            None => earlier,
        }
    }
}

pub open spec fn project_remote_ids(ps: Seq<Project>) -> Seq<Option<Seq<char>>> {
    ps.map_values(|p: Project| crate::app_data::opt_string_view(p.remote_id))
}

pub open spec fn task_remote_ids(ts: Seq<Task>) -> Seq<Option<Seq<char>>> {
    ts.map_values(|t: Task| crate::app_data::opt_string_view(t.remote_id))
}

/// Remote ids of the server's projects that the local store no longer has.
pub fn stale_project_remote_ids(local: &AppData, server: &Vec<Project>) -> (r: Vec<String>)
    ensures
        r@.map_values(|s: String| s@) == stale_remote_ids(
            project_ids(local.projects@),
            project_ids(server@),
            project_remote_ids(server@),
        ),
{
    let mut out: Vec<String> = Vec::new();
    let mut i: usize = 0;
    while i < server.len()
        invariant
            i <= server.len(),
            out@.map_values(|s: String| s@) == stale_remote_ids(
                project_ids(local.projects@),
                project_ids(server@.take(i as int)),
                project_remote_ids(server@.take(i as int)),
            ),
        decreases server.len() - i,
    {
        let ghost prev = out@;
        proof {
            let t = server@.take(i as int + 1);
            assert(project_ids(t).drop_last() =~= project_ids(server@.take(i as int)));
            assert(project_remote_ids(t).drop_last() =~= project_remote_ids(server@.take(i as int)));
        }
        if local.find_project(server[i].id.as_str()).is_none() {
            if let Some(r) = &server[i].remote_id {
                out.push(r.clone());
                assert(out@.map_values(|s: String| s@) =~= prev.map_values(|s: String| s@).push(r@));
            }
        }
        i = i + 1;
    }
    proof {
        assert(server@.take(i as int) =~= server@);
    }
    out
}

/// Remote ids of the server's tasks that the local store no longer has.
pub fn stale_task_remote_ids(local: &AppData, server: &Vec<Task>) -> (r: Vec<String>)
    ensures
        r@.map_values(|s: String| s@) == stale_remote_ids(
            task_ids(local.tasks@),
            task_ids(server@),
            task_remote_ids(server@),
        ),
{
    let mut out: Vec<String> = Vec::new();
    let mut i: usize = 0;
    while i < server.len()
        invariant
            i <= server.len(),
            out@.map_values(|s: String| s@) == stale_remote_ids(
                task_ids(local.tasks@),
                task_ids(server@.take(i as int)),
                task_remote_ids(server@.take(i as int)),
            ),
        decreases server.len() - i,
    {
        let ghost prev = out@;
        proof {
            let t = server@.take(i as int + 1);
            assert(task_ids(t).drop_last() =~= task_ids(server@.take(i as int)));
            assert(task_remote_ids(t).drop_last() =~= task_remote_ids(server@.take(i as int)));
        }
        if local.find_task(server[i].id.as_str()).is_none() {
            if let Some(r) = &server[i].remote_id {
                out.push(r.clone());
                assert(out@.map_values(|s: String| s@) =~= prev.map_values(|s: String| s@).push(r@));
            }
        }
        i = i + 1;
    }
    proof {
        assert(server@.take(i as int) =~= server@);
    }
    out
}

/// `parts` joined with `sep` between neighbours.
pub open spec fn joined(parts: Seq<Seq<char>>, sep: Seq<char>) -> Seq<char>
    decreases parts.len(),
{
    if parts.len() == 0 {
        Seq::empty()
    } else if parts.len() == 1 {
        parts[0]
    } else {
        joined(parts.drop_last(), sep) + sep + parts.last()
    }
}

/// The outcome of a push: successful exactly when nothing failed, with the
/// failures joined by `"; "`.
pub fn push_result(tasks_synced: usize, projects_synced: usize, errors: Vec<String>) -> (r: SyncResult)
    ensures
        r.success == (errors@.len() == 0),
        r.tasks_synced == tasks_synced,
        r.projects_synced == projects_synced,
        errors@.len() == 0 ==> r.error is None,
        errors@.len() > 0 ==> (r.error matches Some(e) && e@ == joined(
            errors@.map_values(|s: String| s@),
            "; "@,
        )),
{
    if errors.len() == 0 {
        return SyncResult { success: true, tasks_synced, projects_synced, error: None };
    }
    let sep = chars_of("; ");
    let ghost parts = errors@.map_values(|s: String| s@);
    let mut text: Vec<char> = chars_of(errors[0].as_str());
    let mut i: usize = 1;
    proof {
        assert(parts.take(1) =~= seq![parts[0]]);
    }
    while i < errors.len()
        invariant
            1 <= i <= errors.len(),
            parts == errors@.map_values(|s: String| s@),
            sep@ == "; "@,
            text@ == joined(parts.take(i as int), "; "@),
        decreases errors.len() - i,
    {
        let part = chars_of(errors[i].as_str());
        let mut j: usize = 0;
        let ghost before = text@;
        while j < sep.len()
            invariant
                j <= sep.len(),
                text@ == before + sep@.take(j as int),
            decreases sep.len() - j,
        {
            text.push(sep[j]);
            j = j + 1;
            assert(text@ =~= before + sep@.take(j as int));
        }
        let ghost middle = text@;
        let mut k: usize = 0;
        while k < part.len()
            invariant
                k <= part.len(),
                text@ == middle + part@.take(k as int),
            decreases part.len() - k,
        {
            text.push(part[k]);
            k = k + 1;
            assert(text@ =~= middle + part@.take(k as int));
        }
        proof {
            assert(sep@.take(sep@.len() as int) =~= sep@);
            assert(part@.take(part@.len() as int) =~= part@);
            assert(parts.take(i as int + 1).drop_last() =~= parts.take(i as int));
            assert(text@ =~= before + "; "@ + parts[i as int]);
        }
        i = i + 1;
    }
    proof {
        assert(parts.take(i as int) =~= parts);
    }
    SyncResult {
        success: false,
        tasks_synced,
        projects_synced,
        error: Some(string_of_chars(&text)),
    }
}

/// The projects after a push: each project whose push was answered
/// (`Some`) takes the remote id the server answered with.
pub open spec fn projects_pushed(ps: Seq<Project>, answers: Seq<Option<Option<String>>>) -> Seq<
    Project,
> {
    Seq::new(
        ps.len(),
        |i: int|
            match answers[i] {
                Some(remote_id) => Project { remote_id, ..ps[i] },
                None => ps[i],
            },
    )
}

/// The tasks after a push: each task whose push was answered takes the
/// remote id the server answered with.
pub open spec fn tasks_pushed(ts: Seq<Task>, answers: Seq<Option<Option<String>>>) -> Seq<Task> {
    Seq::new(
        ts.len(),
        |i: int|
            match answers[i] {
                Some(remote_id) => Task { remote_id, ..ts[i] },
                None => ts[i],
            },
    )
}

/// Number of answered pushes.
pub open spec fn answered_count(answers: Seq<Option<Option<String>>>) -> nat
    decreases answers.len(),
{
    if answers.len() == 0 {
        0
    } else {
        answered_count(answers.drop_last()) + if answers.last() is Some {
            1nat
        } else {
            0nat
        }
    }
}

proof fn lemma_answered_count_bound(answers: Seq<Option<Option<String>>>, k: int)
    requires
        0 <= k < answers.len(),
    ensures
        answered_count(answers.take(k + 1)) == answered_count(answers.take(k)) + if answers[k] is Some {
            1nat
        } else {
            0nat
        },
        answered_count(answers.take(k)) <= k,
    decreases k,
{
    assert(answers.take(k + 1).drop_last() =~= answers.take(k));
    if k > 0 {
        lemma_answered_count_bound(answers, k - 1);
    }
}

/// Records the server's answers to the project pushes, one per project in
/// store order (`None` for a push that failed), and counts the answered
/// ones.
pub fn record_project_pushes(local: &mut AppData, answers: Vec<Option<Option<String>>>) -> (r: usize)
    requires
        answers@.len() == old(local).projects@.len(),
    ensures
        final(local).projects@ == projects_pushed(old(local).projects@, answers@),
        final(local).tasks == old(local).tasks,
        final(local).version == old(local).version,
        old(local).wf() ==> final(local).wf(),
        r == answered_count(answers@),
{
    let ghost all = answers@;
    let ghost start = local.projects@;
    let mut rest = answers;
    let mut count: usize = 0;
    let mut i: usize = 0;
    let n = rest.len();
    while i < n
        invariant
            n == all.len() == start.len() == local.projects@.len(),
            i <= n,
            rest@ == all.skip(i as int),
            count == answered_count(all.take(i as int)),
            count <= i,
            forall|j: int| 0 <= j < i ==> local.projects@[j] == projects_pushed(start, all)[j],
            forall|j: int| i <= j < n ==> local.projects@[j] == start[j],
            project_ids(local.projects@) == project_ids(start),
            local.tasks == old(local).tasks,
            local.version == old(local).version,
            local.projects@.len() == n,
            start == old(local).projects@,
        decreases n - i,
    {
        let answer = rest.remove(0);
        proof {
            assert(answer == all[i as int]);
            assert(rest@ =~= all.skip(i as int + 1));
            lemma_answered_count_bound(all, i as int);
        }
        let ghost before = local.projects@;
        if let Some(remote_id) = answer {
            local.projects[i].remote_id = remote_id;
            count = count + 1;
        }
        proof {
            assert(project_ids(local.projects@) =~= project_ids(before));
        }
        i = i + 1;
    }
    proof {
        assert(all.take(n as int) =~= all);
        assert(local.projects@ =~= projects_pushed(start, all));
    }
    count
}

/// Records the server's answers to the task pushes, one per task in store
/// order (`None` for a push that failed), and counts the answered ones.
pub fn record_task_pushes(local: &mut AppData, answers: Vec<Option<Option<String>>>) -> (r: usize)
    requires
        answers@.len() == old(local).tasks@.len(),
    ensures
        final(local).tasks@ == tasks_pushed(old(local).tasks@, answers@),
        final(local).projects == old(local).projects,
        final(local).version == old(local).version,
        old(local).wf() ==> final(local).wf(),
        r == answered_count(answers@),
{
    let ghost all = answers@;
    let ghost start = local.tasks@;
    let mut rest = answers;
    let mut count: usize = 0;
    let mut i: usize = 0;
    let n = rest.len();
    while i < n
        invariant
            n == all.len() == start.len() == local.tasks@.len(),
            i <= n,
            rest@ == all.skip(i as int),
            count == answered_count(all.take(i as int)),
            count <= i,
            forall|j: int| 0 <= j < i ==> local.tasks@[j] == tasks_pushed(start, all)[j],
            forall|j: int| i <= j < n ==> local.tasks@[j] == start[j],
            task_ids(local.tasks@) == task_ids(start),
            local.projects == old(local).projects,
            local.version == old(local).version,
            start == old(local).tasks@,
        decreases n - i,
    {
        let answer = rest.remove(0);
        proof {
            assert(answer == all[i as int]);
            assert(rest@ =~= all.skip(i as int + 1));
            lemma_answered_count_bound(all, i as int);
        }
        let ghost before = local.tasks@;
        if let Some(remote_id) = answer {
            local.tasks[i].remote_id = remote_id;
            count = count + 1;
        }
        proof {
            assert(task_ids(local.tasks@) =~= task_ids(before));
        }
        i = i + 1;
    }
    proof {
        assert(all.take(n as int) =~= all);
        assert(local.tasks@ =~= tasks_pushed(start, all));
    }
    count
}

} // verus!
