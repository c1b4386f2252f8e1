use latios::app_data::AppData;
use latios::latios_types::{Workstream as Line, WorkstreamType};
use latios::server::{SessionInput, SessionType};
use latios::sync::{
    push_result, record_project_pushes, record_task_pushes, stale_project_remote_ids,
    stale_task_remote_ids, sync_from_server, PocketBaseConfig, SyncResult,
};
use latios::line_number::parse_line_number;
use latios::project::Project;
use latios::task::{FileReference, Task};
use latios::workflow_preset::{get_all_presets, get_default_preset, get_preset_by_id};
use latios::workstream::{Workstream, WorkstreamState};

#[test]
fn store_adds_replaces_and_removes_by_id() {
    let mut data = AppData::default();
    assert_eq!(data.version, "1.0.0");
    let t = Task::new("a".to_string());
    let id = t.id.clone();
    assert_eq!(id.len(), 36);
    data.add_task(t);
    let mut same_id = Task::new("b".to_string());
    same_id.id = id.clone();
    data.add_task(same_id);
    assert_eq!(data.tasks.len(), 1);
    assert_eq!(data.get_task(&id).map(|t| t.title.as_str()), Some("b"));
    data.get_task_mut(&id).unwrap().title = "c".to_string();
    assert_eq!(data.tasks[0].title, "c");
    assert!(data.get_task("missing").is_none());
    assert_eq!(data.remove_task(&id).map(|t| t.title), Some("c".to_string()));
    assert!(data.remove_task(&id).is_none());
    assert!(data.tasks.is_empty());
}

#[test]
fn store_keeps_projects() {
    let mut data = AppData::default();
    let p = Project::new("Home".to_string());
    let id = p.id.clone();
    data.add_project(p);
    assert_eq!(data.get_project(&id).map(|p| p.name.as_str()), Some("Home"));
    assert_eq!(data.find_project(&id), Some(0));
    assert!(data.remove_project(&id).is_some());
    assert!(data.get_project(&id).is_none());
}

#[test]
fn new_entities_are_blank() {
    let t = Task::new("x".to_string());
    assert!(t.description.is_empty() && t.tags.is_empty() && t.file_references.is_empty());
    assert!(!t.completed && t.completed_at.is_none() && t.project_id.is_none());
    assert_eq!(t.created_at, t.updated_at);
    let r = FileReference::new("a.rs".to_string());
    assert_eq!(r.path, "a.rs");
    assert!(r.line_number.is_none() && r.description.is_none());
}

#[test]
fn line_numbers_parse_like_unsigned_integers() {
    assert_eq!(parse_line_number("42"), Some(42));
    assert_eq!(parse_line_number("+7"), Some(7));
    assert_eq!(parse_line_number("007"), Some(7));
    assert_eq!(parse_line_number(""), None);
    assert_eq!(parse_line_number("+"), None);
    assert_eq!(parse_line_number("-1"), None);
    assert_eq!(parse_line_number("12a"), None);
    assert_eq!(parse_line_number(" 1"), None);
    assert_eq!(parse_line_number("18446744073709551615"), Some(usize::MAX));
    assert_eq!(parse_line_number("18446744073709551616"), None);
}

#[test]
fn presets_are_found_by_id() {
    let all = get_all_presets();
    assert_eq!(all.len(), 5);
    assert_eq!(get_default_preset().id, "default");
    assert_eq!(get_default_preset().command, "wezterm start -- nvim");
    assert_eq!(get_preset_by_id("custom").map(|p| p.name), Some("Custom Command"));
    assert!(get_preset_by_id("nope").is_none());
}

#[test]
fn workstream_state_changes() {
    let mut w = Workstream::new("w".to_string(), "default".to_string());
    assert_eq!(w.state, WorkstreamState::Idle);
    assert_eq!(WorkstreamState::default(), WorkstreamState::Idle);
    w.set_state(WorkstreamState::Running);
    assert_eq!(w.state, WorkstreamState::Running);
    w.mark_accessed();
    assert!(w.last_accessed.is_some());
}

#[test]
fn server_records_merge_into_the_store() {
    let mut data = AppData::default();
    let local = Project::new("Local".to_string());
    let local_id = local.id.clone();
    data.add_project(local);
    let mut known = Project::new("Known".to_string());
    known.id = local_id.clone();
    known.remote_id = Some("r1".to_string());
    let mut fresh = Project::new("Fresh".to_string());
    fresh.remote_id = Some("r2".to_string());
    let mut task = Task::new("Remote task".to_string());
    task.remote_id = Some("t1".to_string());
    let r = sync_from_server(&mut data, vec![known, fresh], vec![task]);
    assert!(r.success && r.error.is_none());
    assert_eq!((r.projects_synced, r.tasks_synced), (2, 1));
    assert_eq!(data.projects.len(), 2);
    assert_eq!(data.projects[0].name, "Local");
    assert_eq!(data.projects[0].remote_id.as_deref(), Some("r1"));
    assert_eq!(data.projects[1].name, "Fresh");
    assert_eq!(data.tasks[0].remote_id.as_deref(), Some("t1"));

    let s = SyncResult::skipped();
    assert!(s.success && s.error.is_none());
    let o = SyncResult::offline();
    assert!(!o.success);
    assert_eq!(o.error.as_deref(), Some("Server unavailable, continuing offline"));
    let e = SyncResult::error("boom".to_string());
    assert_eq!(e.error.as_deref(), Some("boom"));
    let c = PocketBaseConfig::default();
    assert!(!c.enabled);
    assert_eq!(c.server_url, "http://127.0.0.1:8090");
}

#[test]
fn small_value_types() {
    let l = Line::new("Draft".to_string(), WorkstreamType::Learning);
    assert_eq!(l.get_line(), "Draft");
    let s = SessionInput::new("t".to_string(), "plan.md".to_string());
    assert_eq!(s.session_type, SessionType::OpenCode);
    assert_eq!(SessionType::default(), SessionType::OpenCode);
    assert_eq!(s.spec_file, "plan.md");
}

#[test]
fn push_finds_stale_records_and_joins_failures() {
    let mut data = AppData::default();
    let kept = Project::new("Kept".to_string());
    let kept_id = kept.id.clone();
    data.add_project(kept);
    let mut on_server = Project::new("Kept".to_string());
    on_server.id = kept_id;
    on_server.remote_id = Some("r-kept".to_string());
    let mut gone = Project::new("Gone".to_string());
    gone.remote_id = Some("r-gone".to_string());
    let never_pushed = Project::new("Local only on server".to_string());
    let stale = stale_project_remote_ids(&data, &vec![on_server, gone, never_pushed]);
    assert_eq!(stale, vec!["r-gone".to_string()]);
    let mut old_task = Task::new("Old".to_string());
    old_task.remote_id = Some("t-old".to_string());
    assert_eq!(stale_task_remote_ids(&data, &vec![old_task]), vec!["t-old".to_string()]);

    let ok = push_result(3, 1, vec![]);
    assert!(ok.success && ok.error.is_none());
    assert_eq!((ok.tasks_synced, ok.projects_synced), (3, 1));
    let failed = push_result(0, 0, vec!["a".to_string(), "b".to_string(), "c".to_string()]);
    assert!(!failed.success);
    assert_eq!(failed.error.as_deref(), Some("a; b; c"));
}

#[test]
fn push_answers_set_remote_ids() {
    let mut data = AppData::default();
    data.add_project(Project::new("a".to_string()));
    data.add_project(Project::new("b".to_string()));
    data.add_task(Task::new("t".to_string()));
    let n = record_project_pushes(&mut data, vec![Some(Some("ra".to_string())), None]);
    assert_eq!(n, 1);
    assert_eq!(data.projects[0].remote_id.as_deref(), Some("ra"));
    assert_eq!(data.projects[1].remote_id, None);
    let m = record_task_pushes(&mut data, vec![Some(Some("rt".to_string()))]);
    assert_eq!(m, 1);
    assert_eq!(data.tasks[0].remote_id.as_deref(), Some("rt"));
}

#[test]
fn ids_stay_unique_after_remove() {
    let mut data = AppData::default();
    let t = Task::new("a".to_string());
    let id = t.id.clone();
    data.add_task(t);
    data.add_task(Task::new("b".to_string()));
    assert!(data.remove_task(&id).is_some());
    assert!(data.get_task(&id).is_none());
    assert_eq!(data.tasks.len(), 1);
}
