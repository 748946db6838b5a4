//! What an application state can do, and what it can ask of the stack.

use graphics::Context;
use piston::input::{Button, ButtonArgs, ButtonState, IdleArgs, Input, Key, RenderArgs, UpdateArgs};
use vstd::prelude::*;

verus! {

/// `graphics::Context`, the drawing context of one frame. It is handed to
/// the active state's `draw` as it came.
#[verifier::external_type_specification]
#[verifier::external_body]
pub struct ExContext(Context);

/// `piston::input::RenderArgs`, the arguments of a render event.
#[verifier::external_type_specification]
#[verifier::external_body]
pub struct ExRenderArgs(RenderArgs);

/// `piston::input::UpdateArgs`, the arguments of an update event.
#[verifier::external_type_specification]
#[verifier::external_body]
pub struct ExUpdateArgs(UpdateArgs);

/// `piston::input::IdleArgs`, the arguments of an idle event.
#[verifier::external_type_specification]
#[verifier::external_body]
pub struct ExIdleArgs(IdleArgs);

/// `piston::input::Input`, an input event.
#[verifier::external_type_specification]
#[verifier::external_body]
pub struct ExInput(Input);

/// `piston::input::ButtonArgs`, the arguments of a button event.
#[verifier::external_type_specification]
#[verifier::external_body]
pub struct ExButtonArgs(ButtonArgs);

/// `piston::input::Button`, a button of the keyboard, the mouse or a
/// controller.
#[verifier::external_type_specification]
#[verifier::external_body]
pub struct ExButton(Button);

/// `piston::input::Key`, a key of the keyboard.
#[verifier::external_type_specification]
#[verifier::external_body]
pub struct ExKey(Key);

/// The button arguments of `input` where it is a button event, else
/// `None`: what `as_button` returns.
pub uninterp spec fn input_button(input: Input) -> Option<ButtonArgs>;

/// Whether the button event `args` is a press; else it is a release: what
/// `is_press` returns.
pub uninterp spec fn button_pressed(args: ButtonArgs) -> bool;

/// The button that the button event `args` is about: what `button`
/// returns.
pub uninterp spec fn button_of(args: ButtonArgs) -> Button;

/// The key that `button` is where it is a button of the keyboard, else
/// `None`: what `as_key` returns.
pub uninterp spec fn button_key(button: Button) -> Option<Key>;

/// Tells the variants of `piston::input::Input` apart: the arguments of
/// `Input::Button`, and `None` for every other variant. The contract gives
/// the result its name and claims nothing else.
#[verifier::external_body]
fn as_button(input: Input) -> (args: Option<ButtonArgs>)
    ensures
        args == input_button(input),
{
    match input {
        Input::Button(args) => Some(args),
        Input::Move(_) => None,
        Input::Text(_) => None,
        Input::Resize(_) => None,
        Input::Focus(_) => None,
        Input::Cursor(_) => None,
        Input::FileDrag(_) => None,
        Input::Close(_) => None,
    }
}

/// Tells the variants of `piston::input::ButtonState` apart, in the field
/// `state` of `piston::input::ButtonArgs`: `true` for `Press`, `false` for
/// `Release`. The contract gives the result its name and claims nothing
/// else.
#[verifier::external_body]
fn is_press(args: &ButtonArgs) -> (pressed: bool)
    ensures
        pressed == button_pressed(*args),
{
    match args.state {
        ButtonState::Press => true,
        ButtonState::Release => false,
    }
}

/// Reads the field `button` of `piston::input::ButtonArgs`. The contract
/// gives the result its name and claims nothing else.
#[verifier::external_body]
fn button(args: &ButtonArgs) -> (button: Button)
    ensures
        button == button_of(*args),
{
    args.button
}

/// Tells the variants of `piston::input::Button` apart: the key of
/// `Button::Keyboard`, and `None` for every other variant. The contract
/// gives the result its name and claims nothing else.
#[verifier::external_body]
fn as_key(button: Button) -> (key: Option<Key>)
    ensures
        key == button_key(button),
{
    match button {
        Button::Keyboard(key) => Some(key),
        Button::Mouse(_) => None,
        Button::Controller(_) => None,
        Button::Hat(_) => None,
    }
}

/// What a state asks of the stack when it has handled an event.
pub enum StateTransition<S> {
    /// End the whole application.
    Quit,
    /// Change nothing.
    Continue,
    /// Put the given state in the place of the active one.
    Replace(S),
    /// Leave the active state; the one below it becomes active again.
    Return,
    /// Put the given state above the active one, which stays below it.
    Push(S),
}

/// An application state. Every hook but `draw` has a default: `init` does
/// nothing, the hooks for events ask the stack to continue, and an input
/// event is handed down from `handle_input` to the hook for what it is.
pub trait State: Sized {
    /// What the states share: it is handed to `init`, `draw` and `idle`.
    type Resources;

    /// What a frame is drawn on.
    type Frame<'a>;

    /// Called once, when the state becomes the active one for the first
    /// time.
    fn init(&mut self, _resources: &mut Self::Resources)
        default_ensures
            *final(self) == *old(self),
            *final(_resources) == *old(_resources),
    {
    }

    /// Draws the state.
    fn draw<'a>(
        &mut self,
        ctx: Context,
        gfx: &mut Self::Frame<'a>,
        args: RenderArgs,
        resources: &mut Self::Resources,
    );

    /// Handles an input event. The default hands a button event to
    /// `handle_button_event` and answers what that answers; every other
    /// event passes: the state stays as it is and the stack continues.
    fn handle_input(&mut self, input: Input) -> (t: StateTransition<Self>)
        default_ensures
            match input_button(input) {
                Some(args) => exists|me: &mut Self|
                    {
                        &&& *me == *old(self)
                        &&& *final(me) == *final(self)
                        &&& #[trigger] call_ensures(Self::handle_button_event, (me, args), t)
                    },
                None => t is Continue && *final(self) == *old(self),
            },
    {
        match as_button(input) {
            Some(args) => self.handle_button_event(args),
            None => StateTransition::Continue,
        }
    }

    /// Advances the state by one tick.
    fn update(&mut self, _update_args: UpdateArgs) -> (t: StateTransition<Self>)
        default_ensures
            t is Continue,
            *final(self) == *old(self),
    {
        StateTransition::Continue
    }

    /// Called while the loop has nothing else to do.
    fn idle(&mut self, _idle_args: IdleArgs, _resources: &mut Self::Resources) -> (t:
        StateTransition<Self>)
        default_ensures
            t is Continue,
            *final(self) == *old(self),
            *final(_resources) == *old(_resources),
    {
        StateTransition::Continue
    }

    /// Handles a button event. The default hands the button of a press to
    /// `handle_button_pressed` and that of a release to
    /// `handle_button_released`, and answers what the hook answers.
    fn handle_button_event(&mut self, args: ButtonArgs) -> (t: StateTransition<Self>)
        default_ensures
            if button_pressed(args) {
                exists|me: &mut Self|
                    {
                        &&& *me == *old(self)
                        &&& *final(me) == *final(self)
                        &&& #[trigger] call_ensures(
                            Self::handle_button_pressed,
                            (me, button_of(args)),
                            t,
                        )
                    }
            } else {
                exists|me: &mut Self|
                    {
                        &&& *me == *old(self)
                        &&& *final(me) == *final(self)
                        &&& #[trigger] call_ensures(
                            Self::handle_button_released,
                            (me, button_of(args)),
                            t,
                        )
                    }
            },
    {
        let button = button(&args);
        if is_press(&args) {
            self.handle_button_pressed(button)
        } else {
            self.handle_button_released(button)
        }
    }

    /// Handles the press of a button. The default hands a key of the
    /// keyboard to `handle_key_pressed` and answers what that answers;
    /// every other button passes.
    fn handle_button_pressed(&mut self, button: Button) -> (t: StateTransition<Self>)
        default_ensures
            match button_key(button) {
                Some(key) => exists|me: &mut Self|
                    {
                        &&& *me == *old(self)
                        &&& *final(me) == *final(self)
                        &&& #[trigger] call_ensures(Self::handle_key_pressed, (me, key), t)
                    },
                None => t is Continue && *final(self) == *old(self),
            },
    {
        match as_key(button) {
            Some(key) => self.handle_key_pressed(key),
            None => StateTransition::Continue,
        }
    }

    /// Handles the release of a button. The default hands a key of the
    /// keyboard to `handle_key_released` and answers what that answers;
    /// every other button passes.
    fn handle_button_released(&mut self, button: Button) -> (t: StateTransition<Self>)
        default_ensures
            match button_key(button) {
                Some(key) => exists|me: &mut Self|
                    {
                        &&& *me == *old(self)
                        &&& *final(me) == *final(self)
                        &&& #[trigger] call_ensures(Self::handle_key_released, (me, key), t)
                    },
                None => t is Continue && *final(self) == *old(self),
            },
    {
        match as_key(button) {
            Some(key) => self.handle_key_released(key),
            None => StateTransition::Continue,
        }
    }

    /// Handles the press of a key.
    fn handle_key_pressed(&mut self, _key: Key) -> (t: StateTransition<Self>)
        default_ensures
            t is Continue,
            *final(self) == *old(self),
    {
        StateTransition::Continue
    }

    /// Handles the release of a key.
    fn handle_key_released(&mut self, _key: Key) -> (t: StateTransition<Self>)
        default_ensures
            t is Continue,
            *final(self) == *old(self),
    {
        StateTransition::Continue
    }
}

} // verus!
