use vstd::prelude::*;

verus! {

/// Why awaiting a spawned task gave no output.
#[derive(PartialEq, Eq, Structural, Clone, Copy, Debug)]
pub enum TaskHandleError {
    BodyPanicked,
}

impl TaskHandleError {
    /// The text that describes this error.
    pub fn message(&self) -> (r: String)
        ensures
            r@ == "task panicked"@,
    {
        match self {
            TaskHandleError::BodyPanicked => "task panicked".to_owned(),
        }
    }
}

} // verus!
