use vstd::prelude::*;

use crate::ids::text_equals;
use crate::read_model::Availability;

verus! {

/// Commands of the workbench that keyboard shortcuts can trigger.
#[derive(Clone, Copy, Debug, PartialEq, Eq, Structural)]
pub enum CommandId {
    SaveDraft,
    CancelDraft,
    FocusChartRail,
    RefreshView,
}

/// Presentation metadata of a command: label, shortcut, group and search keywords.
#[derive(Clone, Copy, Debug, PartialEq, Eq)]
pub struct CommandMetadata {
    pub id: CommandId,
    pub label: &'static str,
    pub shortcut: &'static str,
    pub group: &'static str,
    pub keywords: &'static [&'static str],
}

/// Views of a keyword list.
pub open spec fn keyword_texts(keywords: Seq<&'static str>) -> Seq<Seq<char>> {
    keywords.map_values(|k: &'static str| k@)
}

/// The metadata every command carries.
pub open spec fn spec_metadata(id: CommandId) -> (Seq<char>, Seq<char>, Seq<char>, Seq<Seq<char>>) {
    match id {
        CommandId::SaveDraft => ("Save"@, "Ctrl/\u{2318} S"@, "Resource editing"@, seq!["commit"@, "revision"@, "draft"@]),
        CommandId::CancelDraft => ("Cancel"@, "Esc"@, "Resource editing"@, seq!["revert"@, "discard"@, "draft"@]),
        CommandId::FocusChartRail => ("Focus charts"@, "Alt 1"@, "Navigation"@, seq!["workspace"@, "rail"@, "charts"@]),
        CommandId::RefreshView => ("Refresh"@, "Ctrl/\u{2318} R"@, "View"@, seq!["recalculate"@, "scene"@, "retry"@]),
    }
}

/// The metadata of `id`.
pub fn metadata(id: CommandId) -> (r: CommandMetadata)
    ensures
        r.id == id,
        (r.label@, r.shortcut@, r.group@, keyword_texts(r.keywords@)) == spec_metadata(id),
{
    let r = match id {
        CommandId::SaveDraft => CommandMetadata {
            id: CommandId::SaveDraft,
            label: "Save",
            shortcut: "Ctrl/\u{2318} S",
            group: "Resource editing",
            keywords: &["commit", "revision", "draft"],
        },
        CommandId::CancelDraft => CommandMetadata {
            id: CommandId::CancelDraft,
            label: "Cancel",
            shortcut: "Esc",
            group: "Resource editing",
            keywords: &["revert", "discard", "draft"],
        },
        CommandId::FocusChartRail => CommandMetadata {
            id: CommandId::FocusChartRail,
            label: "Focus charts",
            shortcut: "Alt 1",
            group: "Navigation",
            keywords: &["workspace", "rail", "charts"],
        },
        CommandId::RefreshView => CommandMetadata {
            id: CommandId::RefreshView,
            label: "Refresh",
            shortcut: "Ctrl/\u{2318} R",
            group: "View",
            keywords: &["recalculate", "scene", "retry"],
        },
    };
    proof {
        assert(keyword_texts(r.keywords@) =~= spec_metadata(id).3);
    }
    r
}

/// Which command a key press triggers. The save shortcut works while typing in a form; the
/// other shortcuts are suppressed while typing so that normal entry is preserved.
pub open spec fn spec_command_for_key(key: Seq<char>, primary_modifier: bool, alt_modifier: bool, typing: bool) -> Option<CommandId> {
    if primary_modifier && (key =~= seq!['s'] || key =~= seq!['S']) {
        Some(CommandId::SaveDraft)
    } else if typing {
        None
    } else if key =~= "Escape"@ {
        Some(CommandId::CancelDraft)
    } else if alt_modifier && key =~= seq!['1'] {
        Some(CommandId::FocusChartRail)
    } else if primary_modifier && (key =~= seq!['r'] || key =~= seq!['R']) {
        Some(CommandId::RefreshView)
    } else {
        None
    }
}

fn is_single(key: &str, c: char) -> (r: bool)
    ensures
        r == (key@ =~= seq![c]),
{
    if key.unicode_len() == 1 {
        let first = key.get_char(0);
        if first == c {
            assert(key@ =~= seq![c]);
            return true;
        }
    }
    false
}

pub fn command_for_key(key: &str, primary_modifier: bool, alt_modifier: bool, typing: bool) -> (r: Option<CommandId>)
    ensures
        r == spec_command_for_key(key@, primary_modifier, alt_modifier, typing),
{
    if primary_modifier && (is_single(key, 's') || is_single(key, 'S')) {
        return Some(CommandId::SaveDraft);
    }
    if typing {
        return None;
    }
    if text_equals(key, "Escape") {
        return Some(CommandId::CancelDraft);
    }
    if alt_modifier && is_single(key, '1') {
        return Some(CommandId::FocusChartRail);
    }
    if primary_modifier && (is_single(key, 'r') || is_single(key, 'R')) {
        return Some(CommandId::RefreshView);
    }
    None
}

/// The tooltip of a command button: its label and shortcut, or, where the command is disabled
/// with a reason, its label and that reason.
pub open spec fn spec_command_title(label: Seq<char>, shortcut: Seq<char>, availability: Availability) -> Seq<char> {
    match availability {
        Availability::Disabled { reason: Some(reason) } => label + ": "@ + reason@,
        _ => label + " ("@ + shortcut + ")"@,
    }
}

pub fn command_title(command: &CommandMetadata, availability: &Availability) -> (r: String)
    ensures
        r@ == spec_command_title(command.label@, command.shortcut@, *availability),
{
    let mut text = command.label.to_owned();
    match availability.disabled_reason() {
        Some(reason) => {
            text.append(": ");
            text.append(reason);
        },
        None => {
            text.append(" (");
            text.append(command.shortcut);
            text.append(")");
        },
    }
    text
}

} // verus!
