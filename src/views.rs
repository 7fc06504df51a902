use crate::error::CoreError;
use vstd::prelude::*;

verus! {

/// Counts the changes a model has gone through (updates, flag resets), so
/// that a table view taken before a change is refused when it is read after it.
pub struct ModelEpoch {
    generation: u64,
}

/// The generation of a model at the moment a table view was taken.
#[derive(Clone, Copy, Debug, PartialEq, Eq, Structural)]
pub struct ViewStamp {
    generation: u64,
}

impl View for ModelEpoch {
    type V = nat;

    closed spec fn view(&self) -> nat {
        self.generation as nat
    }
}

impl View for ViewStamp {
    type V = nat;

    closed spec fn view(&self) -> nat {
        self.generation as nat
    }
}

/// Whether a view stamped `stamp` may still be read from a model at `epoch`.
pub open spec fn is_current(epoch: nat, stamp: nat) -> bool {
    epoch == stamp
}

impl ModelEpoch {
    /// The epoch of a freshly initialised model.
    pub fn new() -> (r: Self)
        ensures
            r@ == 0,
    {
        ModelEpoch { generation: 0 }
    }

    /// Stamps a view taken now.
    pub fn stamp(&self) -> (r: ViewStamp)
        ensures
            r@ == self@,
    {
        ViewStamp { generation: self.generation }
    }

    /// Whether one more change can be counted.
    pub fn can_advance(&self) -> (r: bool)
        ensures
            r <==> self@ < u64::MAX,
    {
        self.generation < u64::MAX
    }

    /// Records a change of the model; every view stamped before it goes stale.
    pub fn advance(&mut self)
        requires
            old(self)@ < u64::MAX,
        ensures
            final(self)@ == old(self)@ + 1,
    {
        self.generation = self.generation + 1;
    }

    /// Admits a view only if the model has not changed since it was stamped.
    pub fn check(&self, stamp: &ViewStamp) -> (r: Result<(), CoreError>)
        ensures
            is_current(self@, stamp@) ==> r is Ok,
            !is_current(self@, stamp@) ==> r == Err::<(), CoreError>(CoreError::StaleView),
    {
        if self.generation == stamp.generation {
            Ok(())
        } else {
            Err(CoreError::StaleView)
        }
    }
}

/// A view stamped at one epoch is refused at every later one: once the model
/// has changed, no earlier view is read again.
pub proof fn lemma_stale_view_rejected(before: ModelEpoch, stamp: ViewStamp, after: ModelEpoch)
    requires
        stamp@ == before@,
        after@ > before@,
    ensures
        !is_current(after@, stamp@),
{
}

} // verus!
