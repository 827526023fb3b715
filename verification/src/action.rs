use vstd::prelude::*;

verus! {

/// Whether an action's effect is currently applied to the host.
///
/// A freshly planned action is `Uncompleted`; a successful `execute` moves it
/// to `Completed`, and a successful `revert` moves it back to `Uncompleted`.
/// `Progress` is reserved for an owning planner that persists a partially
/// applied action; the lifecycle of an action itself never produces it.
#[derive(Clone, Copy, Debug, PartialEq, Eq, Structural)]
pub enum ActionState {
    Uncompleted,
    Progress,
    Completed,
}

/// One human-readable step of an action's plan, for dry-run reporting.
#[derive(Clone, Debug)]
pub struct ActionDescription {
    pub description: String,
    pub explanation: Vec<String>,
}

impl ActionDescription {
    pub fn new(description: String, explanation: Vec<String>) -> (r: ActionDescription)
        ensures
            r.description == description,
            r.explanation == explanation,
    {
        ActionDescription { description, explanation }
    }
}

} // verus!
