//! What the hosting application supplies to carry out lifecycle directives.

use vstd::prelude::*;

verus! {

/// What carrying out a directive comes to: nothing, or the reason for which
/// it failed.
pub type DirectiveResult = Result<(), String>;

/// The three lifecycle operations that the orchestrator can ask of a
/// replica. The hosting application implements them, and calls them for the
/// directives that it takes from the directive queue.
pub trait DirectiveHandler {
    fn stop(&self) -> DirectiveResult;

    fn start(&self) -> DirectiveResult;

    fn reset(&self) -> DirectiveResult;
}

} // verus!
