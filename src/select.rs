//! Choosing how a selection is made, and what becomes of it.
use vstd::prelude::*;
use crate::error::FerryError;

verus! {

/// How the selection is to be produced.
#[derive(Debug)]
pub enum SelectionMode {
    /// The interactive picker over the immediate children of `start`.
    Interactive { start: String },
    /// A walk of `start`, keeping the entries whose path matches `pattern`.
    Regex { start: String, pattern: String },
    /// The named items, in order.
    Literal { items: Vec<String> },
}

/// What the orchestrator asks for, once the flags are validated.
#[derive(Debug)]
pub struct SelectPlan {
    pub mode: SelectionMode,
    pub dry_run: bool,
}

/// The start directory: the one given, or the current one.
pub open spec fn start_of(path: Option<String>) -> Seq<char> {
    match path {
        Some(p) => p@,
        None => seq!['.'],
    }
}

/// Validates the flags of a `select` and decides which selector runs.
/// `start_is_dir` tells whether the start path given with `path` names an
/// existing directory; it is not read where `path` is `None`.
pub fn handle_select_command(
    items: Vec<String>,
    regex: Option<String>,
    interactive: bool,
    path: Option<String>,
    dry_run: bool,
    start_is_dir: bool,
) -> (r: Result<SelectPlan, FerryError>)
    ensures
        path is Some && !start_is_dir ==> (r matches Err(FerryError::NotADirectory { path: p })
            && p@ == path->Some_0@),
        (path is None || start_is_dir) ==> {
            if interactive {
                if items.len() > 0 {
                    r matches Err(FerryError::ItemsWithInteractive)
                } else {
                    (r matches Ok(plan) && plan.dry_run == dry_run
                        && (plan.mode matches SelectionMode::Interactive { start }
                        && start@ == start_of(path)))
                }
            } else if regex is Some {
                if items.len() > 0 {
                    r matches Err(FerryError::ItemsWithRegex)
                } else {
                    (r matches Ok(plan) && plan.dry_run == dry_run
                        && (plan.mode matches SelectionMode::Regex { start, pattern }
                        && start@ == start_of(path) && pattern@ == regex->Some_0@))
                }
            } else if path is Some {
                r matches Err(FerryError::PathWithoutMode)
            } else if items.len() == 0 {
                (r matches Ok(plan) && plan.dry_run == dry_run
                    && (plan.mode matches SelectionMode::Interactive { start }
                    && start@ == seq!['.']))
            } else {
                (r matches Ok(plan) && plan.dry_run == dry_run
                    && (plan.mode matches SelectionMode::Literal { items: named }
                    && named@ == items@))
            }
        },
        // Explicit items never go with another mode: that is refused before
        // any selector runs.
        items.len() > 0 && (interactive || regex is Some) ==> (r matches Err(e)
            && e.is_validation()),
{
    if let Some(p) = &path {
        if !start_is_dir {
            return Err(FerryError::NotADirectory { path: p.clone() });
        }
    }
    let start = match &path {
        Some(p) => p.clone(),
        None => {
            proof {
                reveal_strlit(".");
            }
            ".".to_owned()
        },
    };
    let mode = if interactive {
        if items.len() > 0 {
            return Err(FerryError::ItemsWithInteractive);
        }
        SelectionMode::Interactive { start }
    } else if let Some(pattern) = regex {
        if items.len() > 0 {
            return Err(FerryError::ItemsWithRegex);
        }
        SelectionMode::Regex { start, pattern }
    } else {
        if path.is_some() {
            return Err(FerryError::PathWithoutMode);
        }
        if items.len() == 0 {
            SelectionMode::Interactive { start }
        } else {
            SelectionMode::Literal { items }
        }
    };
    Ok(SelectPlan { mode, dry_run })
}

/// What becomes of a selection once it is made.
#[derive(Debug)]
pub enum SelectOutcome {
    /// Nothing was found: the store is left as it is.
    NothingFound,
    /// A dry run: the selection is shown and not stored.
    DryRun(Vec<String>),
    /// The selection replaces what the store held.
    Save(Vec<String>),
}

/// Decides what becomes of a finished selection. A dry run never leads to
/// the store being written, whatever the mode that made the selection.
pub fn conclude_selection(selection: Vec<String>, dry_run: bool) -> (r: SelectOutcome)
    ensures
        selection.len() == 0 ==> r is NothingFound,
        selection.len() > 0 && dry_run ==> (r matches SelectOutcome::DryRun(s) && s@ == selection@),
        selection.len() > 0 && !dry_run ==> (r matches SelectOutcome::Save(s) && s@ == selection@),
        dry_run ==> !(r is Save),
{
    if selection.len() == 0 {
        SelectOutcome::NothingFound
    } else if dry_run {
        SelectOutcome::DryRun(selection)
    } else {
        SelectOutcome::Save(selection)
    }
}

} // verus!
