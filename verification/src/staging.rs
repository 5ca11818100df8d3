//! The staging directory: the flat working area that holds the manifest and
//! one copy per cached object, and how it is removed.

use vstd::prelude::*;

verus! {

/// The staging directory, relative to the working directory.
pub const STAGING_DIRECTORY: &'static str = ".cache";

/// The staging directory as the source of a pack.
pub const PACK_SOURCE: &'static str = ".cache/";

/// The manifest file inside the staging directory.
pub const MANIFEST_PATH: &'static str = ".cache/data.json";

/// Why the staging directory was not removed.
#[derive(Clone, Copy, Debug, PartialEq, Eq, Structural)]
pub enum DeleteError {
    /// There is no staging directory.
    NotFound,
    /// The staging directory is there and could not be removed.
    NotRemoved,
}

/// What has just happened while the staging directory is removed.
#[derive(Clone, Copy, Debug, PartialEq, Eq, Structural)]
pub enum DeleteEvent {
    /// Nothing yet; `staging_exists` says whether a staging directory is
    /// there.
    Begin { staging_exists: bool },
    /// The directory and all it holds were removed, or not.
    Removed(bool),
}

/// What to do next while the staging directory is removed.
#[derive(Clone, Copy, Debug, PartialEq, Eq, Structural)]
pub enum DeleteAction {
    /// Remove the staging directory and all it holds.
    Remove,
    /// Stop: the staging directory is gone.
    Done,
    /// Stop, and this is why.
    Fail(DeleteError),
}

/// The step that follows an event of the removal.
pub open spec fn delete_action(event: DeleteEvent) -> DeleteAction {
    match event {
        DeleteEvent::Begin { staging_exists } => if staging_exists {
            DeleteAction::Remove
        } else {
            DeleteAction::Fail(DeleteError::NotFound)
        },
        DeleteEvent::Removed(ok) => if ok {
            DeleteAction::Done
        } else {
            DeleteAction::Fail(DeleteError::NotRemoved)
        },
    }
}

/// Says what to do next so that the staging directory is removed. Start
/// with `Begin`, do what is returned, and come back with what happened,
/// until the answer is `Done` or `Fail`.
pub fn del_restore_dir(event: DeleteEvent) -> (action: DeleteAction)
    ensures
        action == delete_action(event),
{
    match event {
        DeleteEvent::Begin { staging_exists } => {
            if staging_exists {
                DeleteAction::Remove
            } else {
                DeleteAction::Fail(DeleteError::NotFound)
            }
        },
        DeleteEvent::Removed(ok) => {
            if ok {
                DeleteAction::Done
            } else {
                DeleteAction::Fail(DeleteError::NotRemoved)
            }
        },
    }
}

/// What the disk answers while the staging directory is removed.
pub struct DeleteWorld {
    /// A staging directory is there.
    pub staging_exists: bool,
    /// A removal that is attempted works.
    pub removable: bool,
}

/// Whether a staging directory is there after an action, given whether one
/// was there before: a removal that works leaves none, and nothing else
/// makes a difference.
pub open spec fn staging_after(world: DeleteWorld, action: DeleteAction, before: bool) -> bool {
    match action {
        DeleteAction::Remove => before && !world.removable,
        _ => before,
    }
}

/// A removal that starts with `event` and is given at most `steps` answers
/// by the disk: the answer that ends it, and whether a staging directory is
/// there at the end.
pub open spec fn delete_end(world: DeleteWorld, event: DeleteEvent, staging: bool, steps: nat) -> (
    DeleteAction,
    bool,
)
    decreases steps,
{
    let action = delete_action(event);
    if steps == 0 || action is Done || action is Fail {
        (action, staging)
    } else {
        delete_end(
            world,
            DeleteEvent::Removed(world.removable),
            staging_after(world, action, staging),
            (steps - 1) as nat,
        )
    }
}

/// A whole removal, whatever the disk answers.
pub open spec fn removal(world: DeleteWorld) -> (DeleteAction, bool) {
    delete_end(
        world,
        DeleteEvent::Begin { staging_exists: world.staging_exists },
        world.staging_exists,
        1,
    )
}

/// A removal ends well exactly when the staging directory was there and
/// could be removed; then none is left. It fails with `NotFound` exactly
/// when none was there, and then nothing is attempted.
pub proof fn lemma_removal_outcome(world: DeleteWorld)
    ensures
        removal(world).0 is Done || removal(world).0 is Fail,
        removal(world).0 is Done <==> world.staging_exists && world.removable,
        removal(world).0 is Done ==> !removal(world).1,
        removal(world).0 == DeleteAction::Fail(DeleteError::NotFound) <==> !world.staging_exists,
        removal(world).0 == DeleteAction::Fail(DeleteError::NotRemoved) <==> world.staging_exists
            && !world.removable,
        removal(world).0 is Fail ==> removal(world).1 == world.staging_exists,
{
    reveal_with_fuel(delete_end, 2);
}

/// Removing the staging directory twice in a row: when the first removal
/// ends well, the second, run on what the first left, ends with `NotFound`,
/// whatever the disk would answer to an attempt.
pub proof fn lemma_second_removal_finds_nothing(first: DeleteWorld, second: DeleteWorld)
    requires
        removal(first).0 is Done,
        second.staging_exists == removal(first).1,
    ensures
        removal(second) == (DeleteAction::Fail(DeleteError::NotFound), false),
{
    reveal_with_fuel(delete_end, 2);
}

} // verus!
