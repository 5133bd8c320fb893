use vstd::prelude::*;

use crate::error::ContextError;

verus! {

/// The request method a web hook is delivered with.
#[derive(Clone, Copy, PartialEq, Eq, Structural, Debug)]
pub enum HookMethod {
    Get,
    Post,
    Put,
    Patch,
    Delete,
    Head,
    Options,
    Connect,
    Trace,
}

/// A notification fired once a run's encodes have all succeeded.
pub enum Hook {
    Web(url::Url, HookMethod),
}

/// What delivering one hook gave.
pub enum HookOutcome {
    /// The endpoint answered; the flag tells whether its status was a success.
    Delivered(bool),
    /// The request could not be made; the message describes why.
    Failed(String),
}

/// Whether a delivery counts as successful.
pub open spec fn hook_ok(o: HookOutcome) -> bool {
    o matches HookOutcome::Delivered(true)
}

/// Reports the deliveries of every registered hook, made in registration
/// order: success when each was delivered with a success status, else
/// `HookFailed` with the position of the first that was not. A failed delivery
/// does not hide the ones after it: they are all in `outcomes`.
pub fn hooks_report(outcomes: &Vec<HookOutcome>) -> (r: Result<(), ContextError>)
    ensures
        (forall|i: int| 0 <= i < outcomes@.len() ==> hook_ok(#[trigger] outcomes@[i])) ==> r is Ok,
        forall|i: int|
            0 <= i < outcomes@.len() && !hook_ok(#[trigger] outcomes@[i]) && (forall|j: int|
                0 <= j < i ==> hook_ok(outcomes@[j])) ==> (r matches Err(ContextError::HookFailed(k))
                && k == i),
{
    let mut i: usize = 0;
    while i < outcomes.len()
        invariant
            i <= outcomes@.len(),
            forall|j: int| 0 <= j < i ==> hook_ok(#[trigger] outcomes@[j]),
        decreases outcomes@.len() - i,
    {
        let ok = match &outcomes[i] {
            HookOutcome::Delivered(s) => *s,
            HookOutcome::Failed(_) => false,
        };
        if !ok {
            proof {
                assert forall|a: int|
                    0 <= a < outcomes@.len() && !hook_ok(#[trigger] outcomes@[a]) && (forall|j: int|
                        0 <= j < a ==> hook_ok(outcomes@[j])) implies a == i by {
                    if a < i {
                    } else if a > i {
                        assert(hook_ok(outcomes@[i as int]));
                    }
                }
            }
            return Err(ContextError::HookFailed(i));
        }
        i = i + 1;
    }
    Ok(())
}

} // verus!
