use latios::app_data::AppData;
use latios::export::{export_task_to_markdown, format_task_for_clipboard};
use latios::project::Project;
use latios::task::{FileReference, Task};

fn sample() -> (Task, AppData) {
    let mut data = AppData::default();
    let p = Project::new("Home".to_string());
    let pid = p.id.clone();
    data.add_project(p);
    let mut t = Task::new("Fix bug".to_string());
    t.id = "id-1".to_string();
    t.created_at = "C".to_string();
    t.updated_at = "U".to_string();
    t.project_id = Some(pid);
    t.tags = vec!["a".to_string(), "b".to_string()];
    t.description = "line1\nline2".to_string();
    t.file_references.push(FileReference {
        path: "src/main.rs".to_string(),
        line_number: Some(120),
        description: Some("entry".to_string()),
    });
    t.file_references.push(FileReference::new("lib.rs".to_string()));
    (t, data)
}

#[test]
fn clipboard_text_lists_every_part() {
    let (t, data) = sample();
    assert_eq!(
        format_task_for_clipboard(&t, &data),
        "# Task: Fix bug\n\n**Status:** Pending\n**Created:** C\n**Project:** Home\n\
         **Tags:** a, b\n\n## Description\n\nline1\nline2\n\n## File References\n\n\
         - `src/main.rs:120` - entry\n- `lib.rs`\n"
    );
}

#[test]
fn clipboard_text_of_a_bare_task() {
    let mut t = Task::new("Bare".to_string());
    t.created_at = "C".to_string();
    t.completed = true;
    assert_eq!(
        format_task_for_clipboard(&t, &AppData::default()),
        "# Task: Bare\n\n**Status:** Completed\n**Created:** C\n\n"
    );
}

#[test]
fn export_section_appends() {
    let (mut t, data) = sample();
    t.completed = true;
    t.completed_at = Some("D".to_string());
    let mut out = "head\n".to_string();
    export_task_to_markdown(&mut out, &t, &data);
    assert_eq!(
        out,
        "head\n## [✓] Fix bug\n\n**ID:** `id-1`\n**Status:** Completed\n**Created:** C\n\
         **Updated:** U\n**Completed:** D\n**Project:** Home\n**Tags:** a, b\n\n\
         ### Description\n\nline1\nline2\n\n### File References\n\n\
         - `src/main.rs:120` - entry\n- `lib.rs`\n\n---\n\n"
    );
}

#[test]
fn export_lists_recently_updated_first() {
    let mut data = AppData::default();
    for (title, updated) in [("old", "2024-01-01"), ("new", "2024-03-01"), ("mid", "2024-02-01")] {
        let mut t = Task::new(title.to_string());
        t.id = title.to_string();
        t.created_at = "C".to_string();
        t.updated_at = updated.to_string();
        data.add_task(t);
    }
    let text = latios::export::export_markdown(&data, None, "NOW");
    assert!(text.starts_with("# Task Context Export\n\nGenerated: NOW\n\n## All Tasks\n\n## [ ] new\n\n"));
    let new_at = text.find("] new").unwrap();
    let mid_at = text.find("] mid").unwrap();
    let old_at = text.find("] old").unwrap();
    assert!(new_at < mid_at && mid_at < old_at);
    assert!(text.ends_with("---\n\n"));
}

#[test]
fn export_of_a_project_names_it() {
    let mut data = AppData::default();
    let mut p = Project::new("Home".to_string());
    p.description = "chores".to_string();
    let pid = p.id.clone();
    data.add_project(p);
    let text = latios::export::export_markdown(&data, Some(&pid), "NOW");
    assert_eq!(text, "# Task Context Export\n\nGenerated: NOW\n\n## Project: Home\n\nchores\n\n");
}
