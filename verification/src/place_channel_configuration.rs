use vstd::prelude::*;
use crate::action::{ActionDescription, ActionState};
use crate::channel_content::{serialize_channels, spec_content};
use crate::create_file::{CreateFile, CreateFileError, FileEntry};

verus! {

/// Failures of planning a channel-configuration placement.
#[derive(Debug)]
pub enum PlaceChannelConfigurationError {
    /// The composed file-creation primitive refused its own plan; the
    /// original cause is kept for diagnostics.
    CreateFile(CreateFileError),
    /// No home directory could be resolved to place the configuration in.
    NoRootHome,
}

/// Places the channel configuration: serializes `(name, url)` channel pairs,
/// one `"<url> <name>"` line each, into `<home>/.nix-channels`, and delegates
/// the write and its undo to an owned file-creation primitive, while tracking
/// its own lifecycle state.
#[derive(Clone, Debug)]
pub struct PlaceChannelConfiguration {
    pub channels: Vec<(String, String)>,
    pub create_file: CreateFile,
    pub action_state: ActionState,
}

impl PlaceChannelConfigurationError {
    /// The human-readable message of this failure.
    pub open spec fn spec_message(self) -> Seq<char> {
        match self {
            PlaceChannelConfigurationError::CreateFile(_) => "Creating file"@,
            PlaceChannelConfigurationError::NoRootHome =>
                "No root home found to place channel configuration in"@,
        }
    }

    /// Renders the human-readable message of this failure; the wrapped
    /// cause, where there is one, stays available as the nested value.
    pub fn message(&self) -> (r: String)
        ensures
            r@ == self.spec_message(),
    {
        match self {
            PlaceChannelConfigurationError::CreateFile(_) => String::from_str("Creating file"),
            PlaceChannelConfigurationError::NoRootHome => String::from_str(
                "No root home found to place channel configuration in",
            ),
        }
    }
}

/// Relies on dirs::home_dir: the home directory of the current user, as the
/// host environment reports it, if any; handed on as a UTF-8 string.
#[verifier::external_body]
fn resolve_home_dir() -> (r: Option<String>) {
    dirs::home_dir().and_then(|p| p.to_str().map(|s| s.to_owned()))
}

impl PlaceChannelConfiguration {
    /// A freshly planned instance: the placer and its owned primitive are
    /// both unapplied, and the primitive has displaced nothing yet.
    pub open spec fn is_planned(self) -> bool {
        &&& self.action_state is Uncompleted
        &&& self.create_file.is_planned()
    }

    /// What a successful plan over `channels` and `force` produces: the
    /// serialized content and the fixed permission bits, fixed at plan time.
    pub open spec fn spec_planned(self, channels: Seq<(String, String)>, force: bool) -> bool {
        &&& self.channels@ == channels
        &&& self.create_file.content@ == spec_content(channels)
        &&& self.create_file.mode == 0o664u32
        &&& self.create_file.user is None
        &&& self.create_file.group is None
        &&& self.create_file.force == force
        &&& self.is_planned()
    }

    /// Plans the placement against an explicitly supplied home directory.
    /// `None` means the home directory could not be resolved; planning then
    /// fails with `NoRootHome` before anything else is attempted.
    pub fn plan_with_home(channels: Vec<(String, String)>, force: bool, home: Option<String>)
        -> (r: Result<PlaceChannelConfiguration, PlaceChannelConfigurationError>)
        ensures
            r is Err <==> home is None,
            r matches Err(e) ==> e is NoRootHome,
            r matches Ok(a) ==> {
                &&& a.spec_planned(channels@, force)
                &&& match home {
                    Some(h) => a.create_file.path@ == h@ + "/.nix-channels"@,
                    None => false,
                }
            },
    {
        let home = match home {
            Some(home) => home,
            None => {
                return Err(PlaceChannelConfigurationError::NoRootHome);
            },
        };
        let content = serialize_channels(&channels);
        let path = home.concat("/.nix-channels");
        proof {
            reveal_strlit("/.nix-channels");
        }
        match CreateFile::plan(path, None, None, 0o664, content, force) {
            Ok(create_file) => Ok(
                PlaceChannelConfiguration {
                    channels,
                    create_file,
                    action_state: ActionState::Uncompleted,
                },
            ),
            Err(e) => Err(PlaceChannelConfigurationError::CreateFile(e)),
        }
    }

    /// Plans the placement in the home directory the host resolves. Which
    /// branch is taken depends on the host environment; whichever home comes
    /// back, an `Ok` action is planned over it and an `Err` can only be the
    /// unresolved-home failure.
    pub fn plan(channels: Vec<(String, String)>, force: bool) -> (r: Result<
        PlaceChannelConfiguration,
        PlaceChannelConfigurationError,
    >)
        ensures
            r matches Ok(a) ==> a.spec_planned(channels@, force),
            r matches Err(e) ==> e is NoRootHome,
    {
        let home = resolve_home_dir();
        Self::plan_with_home(channels, force, home)
    }

    /// A one-line synopsis for tracing: names the resolved target path, not
    /// the raw channel list.
    pub fn tracing_synopsis(&self) -> (r: String)
        ensures
            r@ == "Place channel configuration at `"@ + self.create_file.path@ + "`"@,
    {
        String::from_str("Place channel configuration at `").concat(
            self.create_file.path.as_str(),
        ).concat("`")
    }

    /// The dry-run description of `execute`: one step, the synopsis.
    pub fn execute_description(&self) -> (r: Vec<ActionDescription>)
        ensures
            r@.len() == 1,
            r@[0].description@ == "Place channel configuration at `"@ + self.create_file.path@
                + "`"@,
            r@[0].explanation@ == Seq::<String>::empty(),
    {
        let d = ActionDescription::new(self.tracing_synopsis(), Vec::new());
        let mut v: Vec<ActionDescription> = Vec::new();
        v.push(d);
        v
    }

    /// The dry-run description of `revert`: one step, the removal.
    pub fn revert_description(&self) -> (r: Vec<ActionDescription>)
        ensures
            r@.len() == 1,
            r@[0].description@ == "Remove channel configuration at `"@ + self.create_file.path@
                + "`"@,
            r@[0].explanation@ == Seq::<String>::empty(),
    {
        let d = ActionDescription::new(
            String::from_str("Remove channel configuration at `").concat(
                self.create_file.path.as_str(),
            ).concat("`"),
            Vec::new(),
        );
        let mut v: Vec<ActionDescription> = Vec::new();
        v.push(d);
        v
    }

    /// How `execute` relates pre and post: a no-op once `Completed`;
    /// otherwise the owned primitive's `try_execute` runs, and exactly on
    /// its success the placer itself becomes `Completed`.
    pub open spec fn executes_to(
        pre: PlaceChannelConfiguration,
        pre_slot: Option<FileEntry>,
        post: PlaceChannelConfiguration,
        post_slot: Option<FileEntry>,
        r: Result<(), CreateFileError>,
    ) -> bool {
        if pre.action_state is Completed {
            post == pre && post_slot == pre_slot && r is Ok
        } else {
            &&& CreateFile::executes_to(pre.create_file, pre_slot, post.create_file, post_slot, r)
            &&& post.channels == pre.channels
            &&& post.action_state == if r is Ok {
                ActionState::Completed
            } else {
                pre.action_state
            }
        }
    }

    /// How `revert` relates pre and post: a no-op once `Uncompleted`;
    /// otherwise the owned primitive's `revert` runs, and exactly on its
    /// success the placer itself returns to `Uncompleted`.
    pub open spec fn reverts_to(
        pre: PlaceChannelConfiguration,
        pre_slot: Option<FileEntry>,
        post: PlaceChannelConfiguration,
        post_slot: Option<FileEntry>,
        r: Result<(), CreateFileError>,
    ) -> bool {
        if pre.action_state is Uncompleted {
            post == pre && post_slot == pre_slot && r is Ok
        } else {
            &&& CreateFile::reverts_to(pre.create_file, pre_slot, post.create_file, post_slot, r)
            &&& post.channels == pre.channels
            &&& post.action_state == if r is Ok {
                ActionState::Uncompleted
            } else {
                pre.action_state
            }
        }
    }

    /// Applies the placement by delegating to the owned primitive; any
    /// failure of the primitive propagates unchanged.
    pub fn execute(&mut self, slot: &mut Option<FileEntry>) -> (r: Result<(), CreateFileError>)
        ensures
            Self::executes_to(*old(self), *old(slot), *final(self), *final(slot), r),
    {
        match self.action_state {
            ActionState::Completed => Ok(()),
            _ => match self.create_file.try_execute(slot) {
                Ok(()) => {
                    self.action_state = ActionState::Completed;
                    Ok(())
                },
                Err(e) => Err(e),
            },
        }
    }

    /// Undoes the placement by delegating to the owned primitive; any
    /// failure of the primitive propagates unchanged.
    pub fn revert(&mut self, slot: &mut Option<FileEntry>) -> (r: Result<(), CreateFileError>)
        ensures
            Self::reverts_to(*old(self), *old(slot), *final(self), *final(slot), r),
    {
        match self.action_state {
            ActionState::Uncompleted => Ok(()),
            _ => match self.create_file.revert(slot) {
                Ok(()) => {
                    self.action_state = ActionState::Uncompleted;
                    Ok(())
                },
                Err(e) => Err(e),
            },
        }
    }

    /// The placer's own lifecycle state, for the owning planner.
    pub fn action_state(&self) -> (r: ActionState)
        ensures
            r == self.action_state,
    {
        self.action_state
    }

    /// Restores a persisted lifecycle state; everything else is untouched.
    pub fn set_action_state(&mut self, action_state: ActionState)
        ensures
            final(self).action_state == action_state,
            final(self).channels == old(self).channels,
            final(self).create_file == old(self).create_file,
    {
        self.action_state = action_state;
    }
}

/// Idempotence law: once an `execute` has succeeded, a second `execute`
/// changes neither the placer nor the on-disk slot, and succeeds, so the
/// on-disk content after two executes is the content after one.
pub proof fn lemma_execute_idempotent(
    a0: PlaceChannelConfiguration,
    s0: Option<FileEntry>,
    a1: PlaceChannelConfiguration,
    s1: Option<FileEntry>,
    r1: Result<(), CreateFileError>,
    a2: PlaceChannelConfiguration,
    s2: Option<FileEntry>,
    r2: Result<(), CreateFileError>,
)
    requires
        PlaceChannelConfiguration::executes_to(a0, s0, a1, s1, r1),
        r1 is Ok,
        PlaceChannelConfiguration::executes_to(a1, s1, a2, s2, r2),
    ensures
        s2 == s1,
        a2 == a1,
        r2 is Ok,
{
}

/// Round-trip law: executing a freshly planned placer and then reverting it
/// leaves the target path exactly as it was before the execute — absent if
/// it was absent, or the displaced entry restored.
pub proof fn lemma_execute_revert_round_trip(
    a0: PlaceChannelConfiguration,
    s0: Option<FileEntry>,
    a1: PlaceChannelConfiguration,
    s1: Option<FileEntry>,
    r1: Result<(), CreateFileError>,
    a2: PlaceChannelConfiguration,
    s2: Option<FileEntry>,
    r2: Result<(), CreateFileError>,
)
    requires
        a0.is_planned(),
        PlaceChannelConfiguration::executes_to(a0, s0, a1, s1, r1),
        r1 is Ok,
        PlaceChannelConfiguration::reverts_to(a1, s1, a2, s2, r2),
    ensures
        s2 == s0,
        r2 is Ok,
        a2.action_state is Uncompleted,
{
}

/// State-machine law: from the two lifecycle states an action is planned
/// into and moved between, `execute` and `revert` reach no state besides
/// `Uncompleted` and `Completed`; a successful `execute` lands on
/// `Completed` and a successful `revert` on `Uncompleted`.
pub proof fn lemma_state_machine(
    pre: PlaceChannelConfiguration,
    s0: Option<FileEntry>,
    post: PlaceChannelConfiguration,
    s1: Option<FileEntry>,
    r: Result<(), CreateFileError>,
)
    requires
        pre.action_state is Uncompleted || pre.action_state is Completed,
        PlaceChannelConfiguration::executes_to(pre, s0, post, s1, r) || PlaceChannelConfiguration::reverts_to(pre, s0, post, s1, r),
    ensures
        post.action_state is Uncompleted || post.action_state is Completed,
        PlaceChannelConfiguration::executes_to(pre, s0, post, s1, r) && r is Ok
            ==> post.action_state is Completed,
        PlaceChannelConfiguration::reverts_to(pre, s0, post, s1, r) && r is Ok
            ==> post.action_state is Uncompleted,
{
}

} // verus!
