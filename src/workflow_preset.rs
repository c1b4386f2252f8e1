//! The built-in workflow presets. Each preset's command is run through
//! `bash -c` when a workstream is launched from it.
use vstd::prelude::*;
use crate::app_data::first_index_of;
use crate::chars::same_text;

verus! {

#[derive(Clone, Copy, Debug)]
pub struct WorkflowPreset {
    pub id: &'static str,
    pub name: &'static str,
    pub description: &'static str,
    pub command: &'static str,
}

/// The ids of the presets, in order.
pub open spec fn preset_ids() -> Seq<Seq<char>> {
    seq!["default"@, "opencode"@, "dev-server"@, "split-nvim-term"@, "custom"@]
}

/// The names of the presets, in order.
pub open spec fn preset_names() -> Seq<Seq<char>> {
    seq![
        "Default Workspace"@,
        "OpenCode Session"@,
        "Development Server"@,
        "Neovim + Terminal Split"@,
        "Custom Command"@,
    ]
}

/// The descriptions of the presets, in order.
pub open spec fn preset_descriptions() -> Seq<Seq<char>> {
    seq![
        "Opens a new wezterm window with neovim"@,
        "Opens wezterm with opencode CLI"@,
        "Opens wezterm and runs a dev server (placeholder)"@,
        "Opens wezterm with neovim in a split layout"@,
        "Placeholder for custom user command"@,
    ]
}

/// The commands of the presets, in order.
pub open spec fn preset_commands() -> Seq<Seq<char>> {
    seq![
        "wezterm start -- nvim"@,
        "wezterm start -- opencode"@,
        "wezterm start -- bash -c 'echo \"Dev server placeholder - customize this command\"'"@,
        "wezterm start -- bash -c 'nvim'"@,
        "wezterm start -- bash"@,
    ]
}

/// All presets, in display order.
pub fn get_all_presets() -> (r: Vec<WorkflowPreset>)
    ensures
        r@.map_values(|p: WorkflowPreset| p.id@) == preset_ids(),
        r@.map_values(|p: WorkflowPreset| p.name@) == preset_names(),
        r@.map_values(|p: WorkflowPreset| p.description@) == preset_descriptions(),
        r@.map_values(|p: WorkflowPreset| p.command@) == preset_commands(),
{
    let r = vec![
        WorkflowPreset {
            id: "default",
            name: "Default Workspace",
            description: "Opens a new wezterm window with neovim",
            command: "wezterm start -- nvim",
        },
        WorkflowPreset {
            id: "opencode",
            name: "OpenCode Session",
            description: "Opens wezterm with opencode CLI",
            command: "wezterm start -- opencode",
        },
        WorkflowPreset {
            id: "dev-server",
            name: "Development Server",
            description: "Opens wezterm and runs a dev server (placeholder)",
            command: "wezterm start -- bash -c 'echo \"Dev server placeholder - customize this command\"'",
        },
        WorkflowPreset {
            id: "split-nvim-term",
            name: "Neovim + Terminal Split",
            description: "Opens wezterm with neovim in a split layout",
            command: "wezterm start -- bash -c 'nvim'",
        },
        WorkflowPreset {
            id: "custom",
            name: "Custom Command",
            description: "Placeholder for custom user command",
            command: "wezterm start -- bash",
        },
    ];
    assert(r@.map_values(|p: WorkflowPreset| p.id@) =~= preset_ids());
    assert(r@.map_values(|p: WorkflowPreset| p.name@) =~= preset_names());
    assert(r@.map_values(|p: WorkflowPreset| p.description@) =~= preset_descriptions());
    assert(r@.map_values(|p: WorkflowPreset| p.command@) =~= preset_commands());
    r
}

/// The first preset whose id is `id`.
pub fn get_preset_by_id(id: &str) -> (r: Option<WorkflowPreset>)
    ensures
        match first_index_of(preset_ids(), id@) {
            Some(i) => r matches Some(p) && p.id@ == id@ && p.name@ == preset_names()[i]
                && p.description@ == preset_descriptions()[i] && p.command@ == preset_commands()[i],
            None => r is None,
        },
{
    let presets = get_all_presets();
    let ghost ids = presets@.map_values(|p: WorkflowPreset| p.id@);
    let mut i: usize = 0;
    while i < presets.len()
        invariant
            i <= presets.len(),
            ids == presets@.map_values(|p: WorkflowPreset| p.id@),
            ids == preset_ids(),
            presets@.map_values(|p: WorkflowPreset| p.name@) == preset_names(),
            presets@.map_values(|p: WorkflowPreset| p.description@) == preset_descriptions(),
            presets@.map_values(|p: WorkflowPreset| p.command@) == preset_commands(),
            forall|j: int| 0 <= j < i ==> ids[j] != id@,
        decreases presets.len() - i,
    {
        if same_text(presets[i].id, id) {
            proof {
                crate::app_data::lemma_first_index(ids, id@, i as int);
            }
            return Some(presets[i]);
        }
        i = i + 1;
    }
    proof {
        crate::app_data::lemma_no_index(ids, id@);
    }
    None
}

/// The preset named `default`.
pub fn get_default_preset() -> (r: WorkflowPreset)
    ensures
        r.id@ == "default"@,
        r.name@ == preset_names()[0],
        r.description@ == preset_descriptions()[0],
        r.command@ == preset_commands()[0],
{
    let key = "default";
    proof {
        assert(crate::app_data::is_first_index(preset_ids(), key@, 0));
        crate::app_data::lemma_first_index(preset_ids(), key@, 0);
    }
    match get_preset_by_id(key) {
        Some(p) => p,
        None => get_all_presets()[0],
    }
}

} // verus!
