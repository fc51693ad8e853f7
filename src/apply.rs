//! Applying the stored selection: each item is copied or moved into the
//! working directory under the overwrite policy, and the store is cleared
//! once every item succeeded.
//!
//! The engine decides and the caller acts: each action asks for one piece of
//! outside work, whose outcome comes back as the next event.
use vstd::prelude::*;
use crate::error::FerryError;
use crate::paths::{base_name, base_name_of, join_path, joined};
use crate::string_views;

verus! {

#[derive(Clone, Copy, Debug, PartialEq, Eq, Structural)]
pub enum ApplyMode {
    /// Duplicate each item; the source stays.
    Copy,
    /// Rename each item into place.
    Move,
}

/// What stands at a destination path.
#[derive(Clone, Copy, Debug, PartialEq, Eq, Structural)]
pub enum Occupant {
    Absent,
    File,
    Directory,
    /// Something that is neither a regular file nor a directory.
    Other,
}

/// What must be removed at the destination before the transfer.
#[derive(Clone, Copy, Debug, PartialEq, Eq, Structural)]
pub enum Removal {
    Keep,
    RemoveFile,
    RemoveDirectory,
}

/// The work that the engine asks for next.
#[derive(Debug)]
pub enum ApplyAction {
    /// The store is empty: report it; nothing was touched.
    NothingSelected,
    /// Find the current working directory.
    LocateCurrentDir,
    /// Find what stands at `dest`.
    Inspect { dest: String },
    /// Carry out `removal` at `dest`, then copy or move `source` to `dest`.
    Transfer { source: String, dest: String, removal: Removal },
    /// Remove the store's file.
    ClearStore,
    /// Every item was applied and the store cleared.
    Finished,
    /// Stop with this error. Items applied before stay applied, and the
    /// store is left as it is.
    Abort(FerryError),
}

/// The outcome of the work that the last action asked for.
#[derive(Debug)]
pub enum ApplyEvent {
    /// The current working directory.
    CurrentDir(String),
    /// What stands at the destination.
    Inspected(Occupant),
    /// The transfer or the clearing succeeded.
    Succeeded,
    /// The work failed, with this message.
    Failed(String),
}

#[derive(Clone, Copy, Debug, PartialEq, Eq, Structural)]
pub enum ApplyPhase {
    Locating,
    Inspecting,
    Transferring,
    Clearing,
    Finished,
    Aborted,
}

/// The engine's state as mathematical values. `next` counts the items
/// applied so far; `dest` is the destination of the current item.
pub struct ApplyModel {
    pub mode: ApplyMode,
    pub force: bool,
    pub paths: Seq<Seq<char>>,
    pub cwd: Seq<char>,
    pub next: nat,
    pub dest: Seq<char>,
    pub phase: ApplyPhase,
}

/// Where `source` goes in `cwd`: under its own final component.
pub open spec fn destination_of(cwd: Seq<char>, source: Seq<char>) -> Option<Seq<char>> {
    match base_name_of(source) {
        Some(b) => Some(joined(cwd, b)),
        None => None,
    }
}

/// What is removed before the transfer, once overwriting is allowed: a
/// move clears the place first, a copy overwrites in place.
pub open spec fn removal_for(mode: ApplyMode, occupant: Occupant) -> Removal {
    match (mode, occupant) {
        (ApplyMode::Move, Occupant::File) => Removal::RemoveFile,
        (ApplyMode::Move, Occupant::Directory) => Removal::RemoveDirectory,
        _ => Removal::Keep,
    }
}

impl ApplyModel {
    pub open spec fn wf(self) -> bool {
        &&& self.next <= self.paths.len()
        &&& (self.phase == ApplyPhase::Locating ==> self.next == 0 && self.paths.len() > 0)
        &&& (self.phase == ApplyPhase::Inspecting || self.phase == ApplyPhase::Transferring)
            ==> self.next < self.paths.len() && destination_of(self.cwd, self.paths[self.next as int])
            == Some(self.dest)
        &&& (self.phase == ApplyPhase::Clearing || self.phase == ApplyPhase::Finished)
            ==> self.next == self.paths.len()
    }

    /// Whether `ev` answers the work that the current phase asked for.
    pub open spec fn expects(self, ev: ApplyEvent) -> bool {
        match self.phase {
            ApplyPhase::Locating => ev is CurrentDir || ev is Failed,
            ApplyPhase::Inspecting => ev is Inspected,
            ApplyPhase::Transferring => ev is Succeeded || ev is Failed,
            ApplyPhase::Clearing => ev is Succeeded || ev is Failed,
            _ => false,
        }
    }

    /// The action for item `next` of `paths`, and the phase it leads to.
    pub open spec fn item_action_ok(self, r: ApplyAction) -> bool {
        if self.next == self.paths.len() {
            r is ClearStore && self.phase == ApplyPhase::Clearing
        } else {
            match destination_of(self.cwd, self.paths[self.next as int]) {
                Some(d) => (r matches ApplyAction::Inspect { dest } && dest@ == d) && self.phase
                    == ApplyPhase::Inspecting,
                None => (r matches ApplyAction::Abort(FerryError::InvalidSource { path })
                    && path@ == self.paths[self.next as int]) && self.phase == ApplyPhase::Aborted,
            }
        }
    }
}

pub struct ApplySession {
    mode: ApplyMode,
    force: bool,
    paths: Vec<String>,
    cwd: String,
    next: usize,
    dest: String,
    phase: ApplyPhase,
}

impl View for ApplySession {
    type V = ApplyModel;

    closed spec fn view(&self) -> ApplyModel {
        ApplyModel {
            mode: self.mode,
            force: self.force,
            paths: string_views(self.paths@),
            cwd: self.cwd@,
            next: self.next as nat,
            dest: self.dest@,
            phase: self.phase,
        }
    }
}

impl ApplySession {
    pub closed spec fn inv(&self) -> bool {
        self@.wf() && self.paths.len() == self@.paths.len()
    }

    /// Opens a session over the stored paths.
    pub fn start(mode: ApplyMode, force: bool, paths: Vec<String>) -> (r: (ApplySession, ApplyAction))
        ensures
            r.0.inv(),
            r.0@.mode == mode,
            r.0@.force == force,
            r.0@.paths == string_views(paths@),
            r.0@.next == 0,
            paths.len() == 0 ==> r.1 is NothingSelected && r.0@.phase == ApplyPhase::Finished,
            paths.len() > 0 ==> r.1 is LocateCurrentDir && r.0@.phase == ApplyPhase::Locating,
    {
        let empty = paths.len() == 0;
        let s = ApplySession {
            mode,
            force,
            paths,
            cwd: String::new(),
            next: 0,
            dest: String::new(),
            phase: if empty {
                ApplyPhase::Finished
            } else {
                ApplyPhase::Locating
            },
        };
        if empty {
            (s, ApplyAction::NothingSelected)
        } else {
            (s, ApplyAction::LocateCurrentDir)
        }
    }

    /// Moves on to item `next`, or to clearing the store after the last.
    fn plan_item(&mut self) -> (r: ApplyAction)
        requires
            old(self)@.next <= old(self)@.paths.len(),
            old(self).paths.len() == old(self)@.paths.len(),
        ensures
            final(self).inv(),
            final(self)@.item_action_ok(r),
            final(self)@.mode == old(self)@.mode,
            final(self)@.force == old(self)@.force,
            final(self)@.paths == old(self)@.paths,
            final(self)@.cwd == old(self)@.cwd,
            final(self)@.next == old(self)@.next,
    {
        if self.next == self.paths.len() {
            self.phase = ApplyPhase::Clearing;
            return ApplyAction::ClearStore;
        }
        let source = self.paths[self.next].as_str();
        match base_name(source) {
            Some(b) => {
                self.dest = join_path(self.cwd.as_str(), b.as_str());
                self.phase = ApplyPhase::Inspecting;
                ApplyAction::Inspect { dest: self.dest.clone() }
            },
            None => {
                self.phase = ApplyPhase::Aborted;
                ApplyAction::Abort(FerryError::InvalidSource { path: source.to_owned() })
            },
        }
    }

    /// Takes the outcome of the last action and decides the next one.
    pub fn step(&mut self, ev: ApplyEvent) -> (r: ApplyAction)
        requires
            old(self).inv(),
            old(self)@.expects(ev),
        ensures
            final(self).inv(),
            final(self)@.mode == old(self)@.mode,
            final(self)@.force == old(self)@.force,
            final(self)@.paths == old(self)@.paths,
            !(ev is CurrentDir) ==> final(self)@.cwd == old(self)@.cwd,
            // The store is cleared only once every item was applied.
            r is ClearStore ==> final(self)@.next == final(self)@.paths.len(),
            ev matches ApplyEvent::Failed(m) ==> r == ApplyAction::Abort(FerryError::Io { message: m })
                && final(self)@.phase == ApplyPhase::Aborted,
            ev matches ApplyEvent::CurrentDir(c) ==> final(self)@.cwd == c@ && final(self)@.next == 0
                && final(self)@.item_action_ok(r),
            ev matches ApplyEvent::Inspected(o) ==> {
                let d = old(self)@.dest;
                final(self)@.next == old(self)@.next && if o != Occupant::Absent && !old(
                    self,
                )@.force {
                    (r matches ApplyAction::Abort(FerryError::DestinationExists { path })
                        && path@ == d) && final(self)@.phase == ApplyPhase::Aborted
                } else {
                    (r matches ApplyAction::Transfer { source, dest, removal }
                        && source@ == old(self)@.paths[old(self)@.next as int] && dest@ == d
                        && removal == (if o == Occupant::Absent {
                        Removal::Keep
                    } else {
                        removal_for(old(self)@.mode, o)
                    })) && final(self)@.phase == ApplyPhase::Transferring
                }
            },
            ev is Succeeded && old(self)@.phase == ApplyPhase::Transferring ==> final(self)@.next
                == old(self)@.next + 1 && final(self)@.cwd == old(self)@.cwd
                && final(self)@.item_action_ok(r),
            ev is Succeeded && old(self)@.phase == ApplyPhase::Clearing ==> r is Finished
                && final(self)@.phase == ApplyPhase::Finished,
    {
        match ev {
            ApplyEvent::Failed(m) => {
                self.phase = ApplyPhase::Aborted;
                ApplyAction::Abort(FerryError::Io { message: m })
            },
            ApplyEvent::CurrentDir(c) => {
                self.cwd = c;
                self.plan_item()
            },
            ApplyEvent::Inspected(o) => {
                if o != Occupant::Absent && !self.force {
                    self.phase = ApplyPhase::Aborted;
                    return ApplyAction::Abort(
                        FerryError::DestinationExists { path: self.dest.clone() },
                    );
                }
                let removal = match (self.mode, o) {
                    (ApplyMode::Move, Occupant::File) => Removal::RemoveFile,
                    (ApplyMode::Move, Occupant::Directory) => Removal::RemoveDirectory,
                    _ => Removal::Keep,
                };
                self.phase = ApplyPhase::Transferring;
                ApplyAction::Transfer {
                    source: self.paths[self.next].clone(),
                    dest: self.dest.clone(),
                    removal,
                }
            },
            ApplyEvent::Succeeded => {
                if self.phase == ApplyPhase::Clearing {
                    self.phase = ApplyPhase::Finished;
                    ApplyAction::Finished
                } else {
                    self.next += 1;
                    self.plan_item()
                }
            },
        }
    }
}

} // verus!
