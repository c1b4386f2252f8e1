//! Markdown renderings of a task, for the clipboard and for export files.
use vstd::prelude::*;
use vstd::string::*;
use crate::app_data::{opt_str_view, tasks_in_project, AppData};
use crate::order::{sort_ordered, sort_tasks, TaskOrder};
use crate::chars::{chars_of, string_of_chars};
use crate::sync::joined;
use crate::task::{FileReference, Task};

verus! {

/// The decimal digits of `n`.
pub open spec fn decimal(n: nat) -> Seq<char>
    decreases n,
{
    if n < 10 {
        seq![digit_char(n)]
    } else {
        decimal(n / 10) + seq![digit_char(n % 10)]
    }
}

pub open spec fn digit_char(d: nat) -> char {
    if d == 0 { '0' } else if d == 1 { '1' } else if d == 2 { '2' } else if d == 3 { '3' }
    else if d == 4 { '4' } else if d == 5 { '5' } else if d == 6 { '6' } else if d == 7 { '7' }
    else if d == 8 { '8' } else { '9' }
}

fn digit(d: usize) -> (c: char)
    requires
        d < 10,
    ensures
        c == digit_char(d as nat),
{
    if d == 0 { '0' } else if d == 1 { '1' } else if d == 2 { '2' } else if d == 3 { '3' }
    else if d == 4 { '4' } else if d == 5 { '5' } else if d == 6 { '6' } else if d == 7 { '7' }
    else if d == 8 { '8' } else { '9' }
}

fn push_decimal(out: &mut Vec<char>, n: usize)
    ensures
        final(out)@ == old(out)@ + decimal(n as nat),
    decreases n,
{
    if n >= 10 {
        push_decimal(out, n / 10);
    }
    out.push(digit(n % 10));
    proof {
        if n >= 10 {
            assert(final(out)@ =~= old(out)@ + decimal(n as nat));
        } else {
            assert(final(out)@ =~= old(out)@ + decimal(n as nat));
        }
    }
}

fn push_text(out: &mut Vec<char>, s: &str)
    ensures
        final(out)@ == old(out)@ + s@,
{
    let cs = chars_of(s);
    let ghost start = out@;
    let mut i: usize = 0;
    while i < cs.len()
        invariant
            i <= cs.len(),
            cs@ == s@,
            out@ == start + cs@.take(i as int),
            start == old(out)@,
        decreases cs.len() - i,
    {
        out.push(cs[i]);
        i = i + 1;
        assert(out@ =~= start + cs@.take(i as int));
    }
    assert(cs@.take(i as int) =~= cs@);
}

/// One markdown list line for a file reference: its path (with the line
/// number after a colon) as code, then its description after a dash.
pub open spec fn file_reference_line(r: FileReference) -> Seq<char> {
    let line = match r.line_number {
        Some(l) => ":"@ + decimal(l as nat),
        None => Seq::empty(),
    };
    let desc = match r.description {
        Some(d) => " - "@ + d@,
        None => Seq::empty(),
    };
    "- `"@ + r.path@ + line + "`"@ + desc + "\n"@
}

pub open spec fn file_reference_lines(rs: Seq<FileReference>) -> Seq<char>
    decreases rs.len(),
{
    if rs.len() == 0 {
        Seq::empty()
    } else {
        file_reference_lines(rs.drop_last()) + file_reference_line(rs.last())
    }
}

/// The name of the task's project, when it has one that the store holds.
pub open spec fn project_name_of(task: Task, data: AppData) -> Option<Seq<char>> {
    match task.project_id {
        Some(pid) => match data.project_index(pid@) {
            Some(i) => Some(data.projects@[i].name@),
            None => None,
        },
        None => None,
    }
}

pub open spec fn status_word(task: Task) -> Seq<char> {
    if task.completed {
        "Completed"@
    } else {
        "Pending"@
    }
}

pub open spec fn project_line(task: Task, data: AppData) -> Seq<char> {
    match project_name_of(task, data) {
        Some(n) => "**Project:** "@ + n + "\n"@,
        None => Seq::empty(),
    }
}

pub open spec fn tags_line(task: Task) -> Seq<char> {
    if task.tags@.len() > 0 {
        "**Tags:** "@ + joined(task.tags@.map_values(|t: String| t@), ", "@) + "\n"@
    } else {
        Seq::empty()
    }
}

/// Project and tag lines, then a blank line.
pub open spec fn project_and_tags(task: Task, data: AppData) -> Seq<char> {
    project_line(task, data) + tags_line(task) + "\n"@
}

/// The task as markdown for the clipboard.
pub open spec fn clipboard_text(task: Task, data: AppData) -> Seq<char> {
    let description = if task.description@.len() > 0 {
        "## Description\n\n"@ + task.description@ + "\n\n"@
    } else {
        Seq::empty()
    };
    let files = if task.file_references@.len() > 0 {
        "## File References\n\n"@ + file_reference_lines(task.file_references@)
    } else {
        Seq::empty()
    };
    "# Task: "@ + task.title@ + "\n\n"@ + "**Status:** "@ + status_word(task) + "\n"@
        + "**Created:** "@ + task.created_at@ + "\n"@ + project_and_tags(task, data)
        + description + files
}

/// The first lines of a task's export section: mark and title, id,
/// status, creation and update times.
pub open spec fn export_head(task: Task) -> Seq<char> {
    let mark = if task.completed {
        "✓"@
    } else {
        " "@
    };
    "## ["@ + mark + "] "@ + task.title@ + "\n\n"@ + "**ID:** `"@ + task.id@ + "`\n"@
        + "**Status:** "@ + status_word(task) + "\n"@ + "**Created:** "@ + task.created_at@
        + "\n"@ + "**Updated:** "@ + task.updated_at@ + "\n"@
}

/// The description and file reference parts of a task's export section.
pub open spec fn export_body(task: Task) -> Seq<char> {
    let description = if task.description@.len() > 0 {
        "### Description\n\n"@ + task.description@ + "\n\n"@
    } else {
        Seq::empty()
    };
    let files = if task.file_references@.len() > 0 {
        "### File References\n\n"@ + file_reference_lines(task.file_references@) + "\n"@
    } else {
        Seq::empty()
    };
    description + files
}

/// The task as one section of an export file.
pub open spec fn export_section(task: Task, data: AppData) -> Seq<char> {
    let completed = match task.completed_at {
        Some(c) => "**Completed:** "@ + c@ + "\n"@,
        None => Seq::empty(),
    };
    export_head(task) + completed + project_and_tags(task, data) + export_body(task)
        + "---\n\n"@
}

fn push_export_head(out: &mut Vec<char>, task: &Task)
    ensures
        final(out)@ == old(out)@ + export_head(*task),
{
    let ghost start = out@;
    push_text(out, "## [");
    push_text(out, if task.completed { "✓" } else { " " });
    push_text(out, "] ");
    push_text(out, task.title.as_str());
    push_text(out, "\n\n");
    push_text(out, "**ID:** `");
    push_text(out, task.id.as_str());
    push_text(out, "`\n");
    push_text(out, "**Status:** ");
    push_text(out, if task.completed { "Completed" } else { "Pending" });
    push_text(out, "\n");
    push_text(out, "**Created:** ");
    push_text(out, task.created_at.as_str());
    push_text(out, "\n");
    push_text(out, "**Updated:** ");
    push_text(out, task.updated_at.as_str());
    push_text(out, "\n");
    assert(out@ =~= start + export_head(*task));
}

fn push_export_body(out: &mut Vec<char>, task: &Task)
    ensures
        final(out)@ == old(out)@ + export_body(*task),
{
    let ghost start = out@;
    if task.description.as_str().unicode_len() > 0 {
        push_text(out, "### Description\n\n");
        push_text(out, task.description.as_str());
        push_text(out, "\n\n");
    }
    if task.file_references.len() > 0 {
        push_text(out, "### File References\n\n");
        push_file_references(out, &task.file_references);
        push_text(out, "\n");
    }
    assert(out@ =~= start + export_body(*task));
}

fn push_file_references(out: &mut Vec<char>, refs: &Vec<FileReference>)
    ensures
        final(out)@ == old(out)@ + file_reference_lines(refs@),
{
    let ghost start = out@;
    let mut i: usize = 0;
    while i < refs.len()
        invariant
            i <= refs.len(),
            start == old(out)@,
            out@ == start + file_reference_lines(refs@.take(i as int)),
        decreases refs.len() - i,
    {
        let r = &refs[i];
        let ghost before = out@;
        push_text(out, "- `");
        push_text(out, r.path.as_str());
        if let Some(l) = r.line_number {
            push_text(out, ":");
            push_decimal(out, l);
        }
        push_text(out, "`");
        if let Some(d) = &r.description {
            push_text(out, " - ");
            push_text(out, d.as_str());
        }
        push_text(out, "\n");
        proof {
            assert(out@ =~= before + file_reference_line(refs@[i as int]));
            assert(refs@.take(i as int + 1).drop_last() =~= refs@.take(i as int));
        }
        i = i + 1;
        proof {
            assert(out@ =~= start + file_reference_lines(refs@.take(i as int)));
        }
    }
    assert(refs@.take(i as int) =~= refs@);
}

fn push_joined(out: &mut Vec<char>, parts: &Vec<String>, sep: &str)
    requires
        parts@.len() > 0,
    ensures
        final(out)@ == old(out)@ + joined(parts@.map_values(|t: String| t@), sep@),
{
    let ghost ps = parts@.map_values(|t: String| t@);
    let ghost start = out@;
    push_text(out, parts[0].as_str());
    proof {
        assert(ps.take(1) =~= seq![ps[0]]);
    }
    let mut i: usize = 1;
    while i < parts.len()
        invariant
            1 <= i <= parts.len(),
            ps == parts@.map_values(|t: String| t@),
            start == old(out)@,
            out@ == start + joined(ps.take(i as int), sep@),
        decreases parts.len() - i,
    {
        push_text(out, sep);
        push_text(out, parts[i].as_str());
        proof {
            assert(ps.take(i as int + 1).drop_last() =~= ps.take(i as int));
            assert(out@ =~= start + joined(ps.take(i as int + 1), sep@));
        }
        i = i + 1;
    }
    assert(ps.take(i as int) =~= ps);
}

fn push_project_and_tags(out: &mut Vec<char>, task: &Task, data: &AppData)
    ensures
        final(out)@ == old(out)@ + project_and_tags(*task, *data),
{
    let ghost start = out@;
    if let Some(pid) = &task.project_id {
        if let Some(project) = data.get_project(pid.as_str()) {
            push_text(out, "**Project:** ");
            push_text(out, project.name.as_str());
            push_text(out, "\n");
        }
    }
    assert(out@ =~= start + project_line(*task, *data));
    if task.tags.len() > 0 {
        push_text(out, "**Tags:** ");
        push_joined(out, &task.tags, ", ");
        push_text(out, "\n");
    }
    push_text(out, "\n");
    assert(out@ =~= start + project_and_tags(*task, *data));
}

/// The task as markdown for the clipboard: title, status, creation time,
/// project, tags, description and file references.
pub fn format_task_for_clipboard(task: &Task, data: &AppData) -> (r: String)
    ensures
        r@ == clipboard_text(*task, *data),
{
    let mut out: Vec<char> = Vec::new();
    push_text(&mut out, "# Task: ");
    push_text(&mut out, task.title.as_str());
    push_text(&mut out, "\n\n");
    push_text(&mut out, "**Status:** ");
    push_text(&mut out, if task.completed { "Completed" } else { "Pending" });
    push_text(&mut out, "\n");
    push_text(&mut out, "**Created:** ");
    push_text(&mut out, task.created_at.as_str());
    push_text(&mut out, "\n");
    push_project_and_tags(&mut out, task, data);
    if task.description.as_str().unicode_len() > 0 {
        push_text(&mut out, "## Description\n\n");
        push_text(&mut out, task.description.as_str());
        push_text(&mut out, "\n\n");
    }
    if task.file_references.len() > 0 {
        push_text(&mut out, "## File References\n\n");
        push_file_references(&mut out, &task.file_references);
    }
    assert(out@ =~= clipboard_text(*task, *data));
    string_of_chars(&out)
}

fn push_export_section(out: &mut Vec<char>, task: &Task, data: &AppData)
    ensures
        final(out)@ == old(out)@ + export_section(*task, *data),
{
    let ghost start = out@;
    push_export_head(out, task);
    if let Some(completed) = &task.completed_at {
        push_text(out, "**Completed:** ");
        push_text(out, completed.as_str());
        push_text(out, "\n");
    }
    push_project_and_tags(out, task, data);
    push_export_body(out, task);
    push_text(out, "---\n\n");
    assert(out@ =~= start + export_section(*task, *data));
}

/// Appends the task's section of an export file to `markdown`.
pub fn export_task_to_markdown(markdown: &mut String, task: &Task, data: &AppData)
    ensures
        final(markdown)@ == old(markdown)@ + export_section(*task, *data),
{
    let mut out = chars_of(markdown.as_str());
    push_export_section(&mut out, task, data);
    *markdown = string_of_chars(&out);
}

/// The export sections of `ts`, in order.
pub open spec fn export_sections(ts: Seq<Task>, data: AppData) -> Seq<char>
    decreases ts.len(),
{
    if ts.len() == 0 {
        Seq::empty()
    } else {
        export_sections(ts.drop_last(), data) + export_section(ts.last(), data)
    }
}

/// The heading of an export: its title, when it was made, and the project
/// it covers (or all tasks).
pub open spec fn export_heading(
    data: AppData,
    project_id: Option<Seq<char>>,
    generated_at: Seq<char>,
) -> Seq<char> {
    let scope = match project_id {
        Some(pid) => match data.project_index(pid) {
            Some(i) => "## Project: "@ + data.projects@[i].name@ + "\n\n"@ + if data.projects@[
                i
            ].description@.len() > 0 {
                data.projects@[i].description@ + "\n\n"@
            } else {
                Seq::empty()
            },
            None => Seq::empty(),
        },
        None => "## All Tasks\n\n"@,
    };
    "# Task Context Export\n\n"@ + "Generated: "@ + generated_at + "\n\n"@ + scope
}

/// A whole export: the heading, then the section of each task of the
/// project (of no project, for `None`), most recently updated first.
pub open spec fn export_text(
    data: AppData,
    project_id: Option<Seq<char>>,
    generated_at: Seq<char>,
) -> Seq<char> {
    export_heading(data, project_id, generated_at) + export_sections(
        sort_ordered(TaskOrder::UpdatedLast, tasks_in_project(data.tasks@, project_id)),
        data,
    )
}

fn push_export_heading(
    out: &mut Vec<char>,
    data: &AppData,
    project_id: Option<&str>,
    generated_at: &str,
)
    ensures
        final(out)@ == old(out)@ + export_heading(*data, opt_str_view(project_id), generated_at@),
{
    let ghost start = out@;
    push_text(out, "# Task Context Export\n\n");
    push_text(out, "Generated: ");
    push_text(out, generated_at);
    push_text(out, "\n\n");
    match project_id {
        Some(pid) => {
            if let Some(project) = data.get_project(pid) {
                push_text(out, "## Project: ");
                push_text(out, project.name.as_str());
                push_text(out, "\n\n");
                if project.description.as_str().unicode_len() > 0 {
                    push_text(out, project.description.as_str());
                    push_text(out, "\n\n");
                }
            }
        },
        None => push_text(out, "## All Tasks\n\n"),
    }
    assert(out@ =~= start + export_heading(*data, opt_str_view(project_id), generated_at@));
}

/// The markdown export of the tasks of `project_id`, stamped with
/// `generated_at`.
pub fn export_markdown(data: &AppData, project_id: Option<&str>, generated_at: &str) -> (r: String)
    ensures
        r@ == export_text(*data, opt_str_view(project_id), generated_at@),
{
    let mut out: Vec<char> = Vec::new();
    push_export_heading(&mut out, data, project_id, generated_at);
    let ghost head = out@;
    let tasks = sort_tasks(data.get_tasks_by_project(project_id), TaskOrder::UpdatedLast);
    let ghost ts = tasks@.map_values(|t: &Task| *t);
    let mut i: usize = 0;
    while i < tasks.len()
        invariant
            i <= tasks.len(),
            ts == tasks@.map_values(|t: &Task| *t),
            out@ == head + export_sections(ts.take(i as int), *data),
        decreases tasks.len() - i,
    {
        push_export_section(&mut out, tasks[i], data);
        proof {
            assert(ts.take(i as int + 1).drop_last() =~= ts.take(i as int));
            assert(ts[i as int] == *tasks[i as int]);
        }
        i = i + 1;
    }
    proof {
        assert(ts.take(i as int) =~= ts);
    }
    string_of_chars(&out)
}

} // verus!
