//! Undoable editing actions.
use vstd::prelude::*;

verus! {

/// An editing action that can be applied and taken back.
pub trait Command {
    fn apply(&self);

    fn undo(&self);
}

} // verus!
