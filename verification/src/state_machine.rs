//! The stack of application states.
//!
//! The stack owns the states from the first that was entered, at the
//! bottom, to the active one, at the top. Only the active state is handed
//! events. What it answers, a [`StateTransition`], changes the stack. The
//! loop that fetches the events and presents the frames is the caller's.

pub mod laws;
pub mod state_trait;

use graphics::Context;
use piston::input::{IdleArgs, Input, RenderArgs, UpdateArgs};
pub use state_trait::{State, StateTransition};
use vstd::prelude::*;

verus! {

/// An event of the loop, by the hook that it is for.
pub enum Event {
    /// A frame is due.
    Render(RenderArgs),
    /// A tick of the clock.
    Update(UpdateArgs),
    /// The loop has nothing else to do.
    Idle(IdleArgs),
    /// The user did something.
    Input(Input),
    /// An event that no hook is for.
    Other,
}

/// What the loop has to do after an event.
pub enum Action {
    /// Fetch the next event.
    Continue,
    /// Leave the loop.
    Quit,
    /// Set up a frame, have the stack draw on it, and present it.
    Render(RenderArgs),
}

/// The state that a directive brings, if it brings one.
pub open spec fn brings<S>(trans: StateTransition<S>) -> Option<S> {
    match trans {
        StateTransition::Replace(new) => Some(new),
        StateTransition::Push(new) => Some(new),
        _ => None,
    }
}

/// The stack that a directive leaves which brings no state: a `Return`
/// takes the active state off, `Quit` and `Continue` leave the stack as it
/// is.
pub open spec fn stack_left<S>(stack: Seq<S>, trans: StateTransition<S>) -> Seq<S> {
    match trans {
        StateTransition::Return => if stack.len() > 0 {
            stack.drop_last()
        } else {
            stack
        },
        _ => stack,
    }
}

/// The stack that a directive leaves which brings a state, where `entered`
/// is that state as its `init` left it: a `Replace` puts it in the place of
/// the active state, a `Push` puts it above.
pub open spec fn stack_entered<S>(stack: Seq<S>, trans: StateTransition<S>, entered: S) -> Seq<S> {
    match trans {
        StateTransition::Replace(_) => stack.drop_last().push(entered),
        _ => stack.push(entered),
    }
}

/// Whether a directive ends the loop: `Quit` does, and so does a `Return`
/// that leaves the stack empty.
pub open spec fn ends_loop<S>(stack: Seq<S>, trans: StateTransition<S>) -> bool {
    match trans {
        StateTransition::Quit => true,
        StateTransition::Return => stack.len() <= 1,
        _ => false,
    }
}

/// The stack of application states, with what the states share.
pub struct StateMachine<S: State> {
    stack: Vec<S>,
    resources: S::Resources,
}

impl<S: State> StateMachine<S> {
    /// The states, from the bottom of the stack to the active one.
    pub closed spec fn states(&self) -> Seq<S> {
        self.stack@
    }

    /// What the states share.
    pub closed spec fn shared(&self) -> S::Resources {
        self.resources
    }

    /// An empty stack around `resources`.
    pub fn new(resources: S::Resources) -> (machine: Self)
        ensures
            machine.states() == Seq::<S>::empty(),
            machine.shared() == resources,
    {
        StateMachine { stack: Vec::new(), resources }
    }

    /// Whether no state is left.
    pub fn is_stack_empty(&self) -> (empty: bool)
        ensures
            empty == (self.states().len() == 0),
    {
        self.stack.len() == 0
    }

    /// The number of states on the stack.
    pub fn depth(&self) -> (n: usize)
        ensures
            n == self.states().len(),
    {
        self.stack.len()
    }

    /// The active state.
    pub fn current_state(&self) -> (state: &S)
        requires
            self.states().len() > 0,
        ensures
            *state == self.states().last(),
    {
        let idx = self.stack.len() - 1;
        &self.stack[idx]
    }

    /// What the states share.
    pub fn resources(&self) -> (resources: &S::Resources)
        ensures
            *resources == self.shared(),
    {
        &self.resources
    }

    fn push(&mut self, state: S)
        ensures
            final(self).states() == old(self).states().push(state),
            final(self).shared() == old(self).shared(),
    {
        self.stack.push(state);
    }

    fn pop(&mut self) -> (state: Option<S>)
        ensures
            final(self).shared() == old(self).shared(),
            match state {
                Some(top) => old(self).states().len() > 0 && top == old(self).states().last()
                    && final(self).states() == old(self).states().drop_last(),
                None => old(self).states().len() == 0 && final(self).states() == old(self).states(),
            },
    {
        self.stack.pop()
    }

    /// Enters the first state: calls its `init`, once, with what the states
    /// share, and puts the state on the stack as `init` left it.
    pub fn start(&mut self, initial_state: S)
        ensures
            exists|entering: &mut S, shared: &mut S::Resources|
                {
                    &&& *entering == initial_state
                    &&& *shared == old(self).shared()
                    &&& #[trigger] call_ensures(S::init, (entering, shared), ())
                    &&& final(self).states() == old(self).states().push(*final(entering))
                    &&& final(self).shared() == *final(shared)
                },
    {
        let mut initial_state = initial_state;
        initial_state.init(&mut self.resources);
        self.push(initial_state);
    }

    /// Has the active state, and no other, draw on the frame `gfx`: calls
    /// its `draw`, once, with the context, the frame, the arguments and what
    /// the states share.
    pub fn draw<'a>(&mut self, ctx: Context, gfx: &mut S::Frame<'a>, args: RenderArgs)
        requires
            old(self).states().len() > 0,
        ensures
            exists|active: &mut S, frame: &mut S::Frame<'a>, shared: &mut S::Resources|
                {
                    &&& *active == old(self).states().last()
                    &&& *frame == *old(gfx)
                    &&& *shared == old(self).shared()
                    &&& #[trigger] call_ensures(S::draw, (active, ctx, frame, args, shared), ())
                    &&& final(self).states() == old(self).states().drop_last().push(*final(active))
                    &&& *final(gfx) == *final(frame)
                    &&& final(self).shared() == *final(shared)
                },
    {
        let idx = self.stack.len() - 1;
        self.stack[idx].draw(ctx, gfx, args, &mut self.resources);
        assert(self.stack@ =~= old(self).stack@.drop_last().push(self.stack@.last()));
    }

    /// Carries out what the active state asked for, and says whether the
    /// loop ends.
    ///
    /// `Quit` and `Continue` leave the stack as it is, and a `Return` takes
    /// the active state off; none of them touches what the states share, and
    /// no `init` is called, so a state that a `Return` uncovers is as it was
    /// left. A state that `Replace` or `Push` brings has its `init` called,
    /// once, with what the states share, and goes on the stack as `init`
    /// left it: in the place of the active state, or above it.
    pub fn handle_state_transition_and_should_quit(&mut self, trans: StateTransition<S>) -> (quit:
        bool)
        requires
            trans is Replace ==> old(self).states().len() > 0,
        ensures
            quit == ends_loop(old(self).states(), trans),
            match brings(trans) {
                Some(new) => exists|entering: &mut S, shared: &mut S::Resources|
                    {
                        &&& *entering == new
                        &&& *shared == old(self).shared()
                        &&& #[trigger] call_ensures(S::init, (entering, shared), ())
                        &&& final(self).states() == stack_entered(
                            old(self).states(),
                            trans,
                            *final(entering),
                        )
                        &&& final(self).shared() == *final(shared)
                    },
                None => {
                    &&& final(self).states() == stack_left(old(self).states(), trans)
                    &&& final(self).shared() == old(self).shared()
                },
            },
    {
        match trans {
            StateTransition::Quit => true,
            StateTransition::Continue => false,
            StateTransition::Replace(new) => {
                let mut new = new;
                new.init(&mut self.resources);
                let idx = self.stack.len() - 1;
                self.stack.set(idx, new);
                assert(self.states() =~= stack_entered(old(self).states(), trans, new));
                false
            },
            StateTransition::Push(new) => {
                let mut new = new;
                new.init(&mut self.resources);
                self.push(new);
                false
            },
            StateTransition::Return => {
                self.pop();
                self.is_stack_empty()
            },
        }
    }

    /// Hands a tick to the active state, and to no other: calls its
    /// `update`, once, carries out the directive that it answers as
    /// `handle_state_transition_and_should_quit` does, and says whether the
    /// loop ends.
    pub fn update_and_should_quit(&mut self, args: UpdateArgs) -> (quit: bool)
        requires
            old(self).states().len() > 0,
        ensures
            exists|active: &mut S, trans: StateTransition<S>|
                {
                    &&& *active == old(self).states().last()
                    &&& #[trigger] call_ensures(S::update, (active, args), trans)
                    &&& quit == ends_loop(old(self).states(), trans)
                    &&& match brings(trans) {
                        Some(new) => exists|entering: &mut S, shared: &mut S::Resources|
                            {
                                &&& *entering == new
                                &&& *shared == old(self).shared()
                                &&& #[trigger] call_ensures(S::init, (entering, shared), ())
                                &&& final(self).states() == stack_entered(
                                    old(self).states().drop_last().push(*final(active)),
                                    trans,
                                    *final(entering),
                                )
                                &&& final(self).shared() == *final(shared)
                            },
                        None => final(self).states() == stack_left(
                            old(self).states().drop_last().push(*final(active)),
                            trans,
                        ) && final(self).shared() == old(self).shared(),
                    }
                },
    {
        let idx = self.stack.len() - 1;
        let trans = self.stack[idx].update(args);
        assert(self.stack@ =~= old(self).stack@.drop_last().push(self.stack@.last()));
        self.handle_state_transition_and_should_quit(trans)
    }

    /// Hands an idle event to the active state, and to no other: calls its
    /// `idle`, once, with what the states share, carries out the directive
    /// that it answers as `handle_state_transition_and_should_quit` does, and
    /// says whether the loop ends.
    pub fn idle_and_should_quit(&mut self, args: IdleArgs) -> (quit: bool)
        requires
            old(self).states().len() > 0,
        ensures
            exists|active: &mut S, idling: &mut S::Resources, trans: StateTransition<S>|
                {
                    &&& *active == old(self).states().last()
                    &&& *idling == old(self).shared()
                    &&& #[trigger] call_ensures(S::idle, (active, args, idling), trans)
                    &&& quit == ends_loop(old(self).states(), trans)
                    &&& match brings(trans) {
                        Some(new) => exists|entering: &mut S, shared: &mut S::Resources|
                            {
                                &&& *entering == new
                                &&& *shared == *final(idling)
                                &&& #[trigger] call_ensures(S::init, (entering, shared), ())
                                &&& final(self).states() == stack_entered(
                                    old(self).states().drop_last().push(*final(active)),
                                    trans,
                                    *final(entering),
                                )
                                &&& final(self).shared() == *final(shared)
                            },
                        None => final(self).states() == stack_left(
                            old(self).states().drop_last().push(*final(active)),
                            trans,
                        ) && final(self).shared() == *final(idling),
                    }
                },
    {
        let idx = self.stack.len() - 1;
        let trans = self.stack[idx].idle(args, &mut self.resources);
        assert(self.stack@ =~= old(self).stack@.drop_last().push(self.stack@.last()));
        self.handle_state_transition_and_should_quit(trans)
    }

    /// Hands an input event to the active state, and to no other: calls its
    /// `handle_input`, once, carries out the directive that it answers as
    /// `handle_state_transition_and_should_quit` does, and says whether the
    /// loop ends.
    pub fn handle_input_and_should_quit(&mut self, input: Input) -> (quit: bool)
        requires
            old(self).states().len() > 0,
        ensures
            exists|active: &mut S, trans: StateTransition<S>|
                {
                    &&& *active == old(self).states().last()
                    &&& #[trigger] call_ensures(S::handle_input, (active, input), trans)
                    &&& quit == ends_loop(old(self).states(), trans)
                    &&& match brings(trans) {
                        Some(new) => exists|entering: &mut S, shared: &mut S::Resources|
                            {
                                &&& *entering == new
                                &&& *shared == old(self).shared()
                                &&& #[trigger] call_ensures(S::init, (entering, shared), ())
                                &&& final(self).states() == stack_entered(
                                    old(self).states().drop_last().push(*final(active)),
                                    trans,
                                    *final(entering),
                                )
                                &&& final(self).shared() == *final(shared)
                            },
                        None => final(self).states() == stack_left(
                            old(self).states().drop_last().push(*final(active)),
                            trans,
                        ) && final(self).shared() == old(self).shared(),
                    }
                },
    {
        let idx = self.stack.len() - 1;
        let trans = self.stack[idx].handle_input(input);
        assert(self.stack@ =~= old(self).stack@.drop_last().push(self.stack@.last()));
        self.handle_state_transition_and_should_quit(trans)
    }

    /// One turn of the loop: hands `event` to the hook it is for, and says
    /// what the loop has to do next.
    ///
    /// A render event changes nothing: the loop is told to set up the frame
    /// and to call `draw`. An event that no hook is for changes nothing
    /// either. Every other event is handled by the function for its kind,
    /// and the loop is told to quit exactly where that function says so.
    pub fn handle_event(&mut self, event: Event) -> (action: Action)
        requires
            old(self).states().len() > 0,
        ensures
            match event {
                Event::Render(args) => action == Action::Render(args) && *final(self) == *old(self),
                Event::Other => action is Continue && *final(self) == *old(self),
                Event::Update(args) => !(action is Render) && exists|me: &mut Self|
                    {
                        &&& *me == *old(self)
                        &&& *final(me) == *final(self)
                        &&& #[trigger] call_ensures(
                            Self::update_and_should_quit,
                            (me, args),
                            action is Quit,
                        )
                    },
                Event::Idle(args) => !(action is Render) && exists|me: &mut Self|
                    {
                        &&& *me == *old(self)
                        &&& *final(me) == *final(self)
                        &&& #[trigger] call_ensures(
                            Self::idle_and_should_quit,
                            (me, args),
                            action is Quit,
                        )
                    },
                Event::Input(input) => !(action is Render) && exists|me: &mut Self|
                    {
                        &&& *me == *old(self)
                        &&& *final(me) == *final(self)
                        &&& #[trigger] call_ensures(
                            Self::handle_input_and_should_quit,
                            (me, input),
                            action is Quit,
                        )
                    },
            },
    {
        let quit = match event {
            Event::Render(args) => {
                return Action::Render(args);
            },
            Event::Update(args) => self.update_and_should_quit(args),
            Event::Idle(args) => self.idle_and_should_quit(args),
            Event::Input(input) => self.handle_input_and_should_quit(input),
            Event::Other => {
                return Action::Continue;
            },
        };
        let action = if quit {
            Action::Quit
        } else {
            Action::Continue
        };
        assert(quit == (action is Quit));
        action
    }
}

} // verus!
