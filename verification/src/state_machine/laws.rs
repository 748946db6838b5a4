//! Laws of the stack: what the directives do to it, whatever the states
//! are.

use super::state_trait::StateTransition;
use super::{brings, ends_loop, stack_entered, stack_left};
use vstd::prelude::*;

verus! {

/// **The states below the active one are inert.** Whatever the active
/// state asks for, the states below it stay where they are and as they
/// are, and at most one state comes or goes.
pub proof fn law_suspended_states_are_inert<S>(stack: Seq<S>, trans: StateTransition<S>, entered: S)
    requires
        stack.len() > 0,
    ensures
        ({
            let after = if brings(trans).is_some() {
                stack_entered(stack, trans, entered)
            } else {
                stack_left(stack, trans)
            };
            &&& stack.len() - 1 <= after.len() <= stack.len() + 1
            &&& after.subrange(0, stack.len() - 1) == stack.drop_last()
        }),
{
    let after = if brings(trans).is_some() {
        stack_entered(stack, trans, entered)
    } else {
        stack_left(stack, trans)
    };
    assert(after.subrange(0, stack.len() - 1) =~= stack.drop_last());
}

/// **`Replace` keeps the depth.** The state that comes takes the place of
/// the active one, which is gone.
pub proof fn law_replace_keeps_depth<S>(stack: Seq<S>, new: S, entered: S)
    requires
        stack.len() > 0,
    ensures
        stack_entered(stack, StateTransition::Replace(new), entered).len() == stack.len(),
        stack_entered(stack, StateTransition::Replace(new), entered).last() == entered,
        !ends_loop(stack, StateTransition::Replace(new)),
{
}

/// **`Push`, then `Return`.** A `Push` puts the state that comes above the
/// active one, and the `Return` of that state leaves the stack as it was
/// before the `Push`: the state below is active again, as it was left.
pub proof fn law_push_then_return<S>(stack: Seq<S>, new: S, entered: S)
    ensures
        stack_entered(stack, StateTransition::Push(new), entered).len() == stack.len() + 1,
        stack_entered(stack, StateTransition::Push(new), entered).last() == entered,
        stack_left(
            stack_entered(stack, StateTransition::Push(new), entered),
            StateTransition::Return,
        ) == stack,
        stack.len() > 0 ==> !ends_loop(
            stack_entered(stack, StateTransition::Push(new), entered),
            StateTransition::Return,
        ),
{
    let pushed = stack_entered(stack, StateTransition::Push(new), entered);
    assert(pushed.drop_last() =~= stack);
}

/// **When the loop ends.** It ends on `Quit`, whatever is on the stack, and
/// on the `Return` that leaves the stack empty, and on nothing else.
pub proof fn law_loop_ends_on_quit_or_empty_stack<S>(stack: Seq<S>, trans: StateTransition<S>)
    requires
        stack.len() > 0,
    ensures
        ends_loop(stack, trans) <==> trans is Quit || (trans is Return && stack_left(
            stack,
            trans,
        ).len() == 0),
        trans is Quit ==> stack_left(stack, trans) == stack,
{
}

} // verus!
