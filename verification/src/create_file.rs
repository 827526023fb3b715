use vstd::prelude::*;
use crate::action::ActionState;

verus! {

/// What occupies the target path on disk: content and permission bits.
#[derive(Clone, Debug)]
pub struct FileEntry {
    pub content: String,
    pub mode: u32,
}

/// Failures of the file-creation primitive.
#[derive(Debug)]
pub enum CreateFileError {
    /// The target path was empty, so no file can be placed there.
    EmptyPath,
    /// The target path is already occupied and `force` was not given.
    Exists { path: String },
}

/// The file-creation primitive: a reversible action that places one file.
///
/// The state of the target path is handed in as a plain value (`None` for an
/// absent file, `Some` for a present one): the caller reads it from the real
/// filesystem before a call and writes it back afterwards. `try_execute`
/// saves whatever the slot held, so `revert` can restore it.
#[derive(Clone, Debug)]
pub struct CreateFile {
    pub path: String,
    pub user: Option<String>,
    pub group: Option<String>,
    pub mode: u32,
    pub content: String,
    pub force: bool,
    pub action_state: ActionState,
    pub saved: Option<FileEntry>,
}

impl CreateFile {
    /// A freshly planned instance: not yet applied, nothing displaced.
    pub open spec fn is_planned(self) -> bool {
        &&& self.action_state is Uncompleted
        &&& self.saved is None
    }

    /// Plans the placement of one file. Fails, before anything is mutated,
    /// exactly when the target path is empty.
    pub fn plan(
        path: String,
        user: Option<String>,
        group: Option<String>,
        mode: u32,
        content: String,
        force: bool,
    ) -> (r: Result<CreateFile, CreateFileError>)
        ensures
            r is Err <==> path@.len() == 0,
            r matches Err(e) ==> e is EmptyPath,
            r matches Ok(a) ==> {
                &&& a.path == path
                &&& a.user == user
                &&& a.group == group
                &&& a.mode == mode
                &&& a.content == content
                &&& a.force == force
                &&& a.is_planned()
            },
    {
        if path.as_str().is_empty() {
            Err(CreateFileError::EmptyPath)
        } else {
            Ok(CreateFile {
                path,
                user,
                group,
                mode,
                content,
                force,
                action_state: ActionState::Uncompleted,
                saved: None,
            })
        }
    }

    /// How `try_execute` relates its pre- and post-values: a no-op once
    /// `Completed`; a refusal when the slot is occupied without `force`;
    /// otherwise the planned entry is written and the displaced slot saved.
    pub open spec fn executes_to(
        pre: CreateFile,
        pre_slot: Option<FileEntry>,
        post: CreateFile,
        post_slot: Option<FileEntry>,
        r: Result<(), CreateFileError>,
    ) -> bool {
        if pre.action_state is Completed {
            post == pre && post_slot == pre_slot && r is Ok
        } else if pre_slot is Some && !pre.force {
            &&& post == pre
            &&& post_slot == pre_slot
            &&& match r {
                Err(CreateFileError::Exists { path }) => path@ == pre.path@,
                _ => false,
            }
        } else {
            &&& post == CreateFile {
                action_state: ActionState::Completed,
                saved: pre_slot,
                ..pre
            }
            &&& match post_slot {
                Some(e) => e.content@ == pre.content@ && e.mode == pre.mode,
                None => false,
            }
            &&& r is Ok
        }
    }

    /// How `revert` relates its pre- and post-values: a no-op once back to
    /// `Uncompleted`; otherwise the saved slot is restored.
    pub open spec fn reverts_to(
        pre: CreateFile,
        pre_slot: Option<FileEntry>,
        post: CreateFile,
        post_slot: Option<FileEntry>,
        r: Result<(), CreateFileError>,
    ) -> bool {
        if pre.action_state is Uncompleted {
            post == pre && post_slot == pre_slot && r is Ok
        } else {
            &&& post == CreateFile {
                action_state: ActionState::Uncompleted,
                saved: None,
                ..pre
            }
            &&& post_slot == pre.saved
            &&& r is Ok
        }
    }

    /// Applies the planned file, idempotently: once `Completed`, a repeated
    /// call changes nothing. Whatever the slot held is saved for `revert`.
    pub fn try_execute(&mut self, slot: &mut Option<FileEntry>) -> (r: Result<
        (),
        CreateFileError,
    >)
        ensures
            Self::executes_to(*old(self), *old(slot), *final(self), *final(slot), r),
    {
        match self.action_state {
            ActionState::Completed => Ok(()),
            _ => {
                if slot.is_some() && !self.force {
                    Err(CreateFileError::Exists { path: String::from_str(self.path.as_str()) })
                } else {
                    let entry = FileEntry {
                        content: String::from_str(self.content.as_str()),
                        mode: self.mode,
                    };
                    self.saved = slot.take();
                    *slot = Some(entry);
                    self.action_state = ActionState::Completed;
                    Ok(())
                }
            },
        }
    }

    /// Undoes `try_execute`, idempotently: once back to `Uncompleted`, a
    /// repeated call changes nothing. Restores whatever was displaced.
    pub fn revert(&mut self, slot: &mut Option<FileEntry>) -> (r: Result<(), CreateFileError>)
        ensures
            Self::reverts_to(*old(self), *old(slot), *final(self), *final(slot), r),
    {
        match self.action_state {
            ActionState::Uncompleted => Ok(()),
            _ => {
                *slot = self.saved.take();
                self.action_state = ActionState::Uncompleted;
                Ok(())
            },
        }
    }
}

} // verus!
