//! The runtime that code on the current thread runs in. Entering a runtime
//! saves the one that was current, and leaving puts it back, so runtimes nest.
use vstd::prelude::*;

verus! {

/// Holds the context that was current before a runtime was entered.
pub struct EntryGuard<T> {
    old_context: Option<T>,
}

impl<T> EntryGuard<T> {
    /// The context that leaving with this guard puts back.
    pub closed spec fn saved(self) -> Option<T> {
        self.old_context
    }
}

/// Entering `state` while `context` is current: `state` becomes current, and
/// the guard keeps what was current before.
pub open spec fn entered<T>(context: Option<T>, state: T) -> (Option<T>, Option<T>) {
    (Some(state), context)
}

/// Makes `state` the current context and returns the guard that restores the
/// previous one.
pub fn enter<T>(context: &mut Option<T>, state: T) -> (guard: EntryGuard<T>)
    ensures
        (*final(context), guard.saved()) == entered(*old(context), state),
{
    let mut previous = Some(state);
    std::mem::swap(context, &mut previous);
    EntryGuard { old_context: previous }
}

/// Leaves the runtime that `guard` was made for: the context that was current
/// before it was entered is current again.
pub fn leave<T>(context: &mut Option<T>, guard: EntryGuard<T>)
    ensures
        *final(context) == guard.saved(),
{
    *context = guard.old_context;
}

/// The current context. Code that asks for it outside any runtime is wrong:
/// the caller checks that one was entered.
pub fn state<T>(context: &Option<T>) -> (s: &T)
    requires
        context is Some,
    ensures
        *s == context->0,
{
    context.as_ref().unwrap()
}

/// Law: leaving with the guard that entering made restores the context that
/// was current before, and entering one runtime inside another and leaving
/// both, innermost first, ends where it began.
pub proof fn lemma_leave_restores<T>(context: Option<T>, outer: T, inner: T)
    ensures
        entered(context, outer).1 == context,
        entered(entered(context, outer).0, inner).1 == Some(outer),
        entered(entered(context, outer).0, inner).0 == Some(inner),
{
}

} // verus!
