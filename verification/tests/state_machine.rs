use app_scaffold::state_machine::{Action, Event, State, StateMachine, StateTransition};
use graphics::Context;
use piston::input::{
    Button, ButtonArgs, ButtonState, IdleArgs, Input, Key, MouseButton, RenderArgs, UpdateArgs,
};
use std::cell::RefCell;
use std::collections::VecDeque;
use std::rc::Rc;

type Log = Rc<RefCell<Vec<String>>>;

enum Plan {
    Continue,
    Quit,
    Return,
    Push(Scene),
    Replace(Scene),
}

struct Scene {
    name: &'static str,
    log: Log,
    plans: VecDeque<Plan>,
}

impl Scene {
    fn new(name: &'static str, log: &Log, plans: Vec<Plan>) -> Scene {
        Scene { name, log: log.clone(), plans: plans.into_iter().collect() }
    }

    fn note(&self, what: &str) {
        self.log.borrow_mut().push(format!("{}.{}", self.name, what));
    }

    fn next(&mut self) -> StateTransition<Scene> {
        match self.plans.pop_front() {
            None => StateTransition::Continue,
            Some(Plan::Continue) => StateTransition::Continue,
            Some(Plan::Quit) => StateTransition::Quit,
            Some(Plan::Return) => StateTransition::Return,
            Some(Plan::Push(s)) => StateTransition::Push(s),
            Some(Plan::Replace(s)) => StateTransition::Replace(s),
        }
    }
}

impl State for Scene {
    type Resources = Vec<String>;
    type Frame<'a> = Vec<String>;

    fn init(&mut self, resources: &mut Vec<String>) {
        self.note("init");
        resources.push(format!("warmed by {}", self.name));
    }

    fn draw<'a>(
        &mut self,
        _ctx: Context,
        gfx: &mut Vec<String>,
        _args: RenderArgs,
        _resources: &mut Vec<String>,
    ) {
        self.note("draw");
        gfx.push(format!("frame of {}", self.name));
    }

    fn handle_input(&mut self, _input: Input) -> StateTransition<Scene> {
        self.note("input");
        self.next()
    }

    fn update(&mut self, _update_args: UpdateArgs) -> StateTransition<Scene> {
        self.note("update");
        self.next()
    }

    fn idle(&mut self, _idle_args: IdleArgs, _resources: &mut Vec<String>) -> StateTransition<Scene> {
        self.note("idle");
        self.next()
    }
}

fn log() -> Log {
    Rc::new(RefCell::new(Vec::new()))
}

fn seen(log: &Log) -> Vec<String> {
    log.borrow().clone()
}

fn update() -> Event {
    Event::Update(UpdateArgs { dt: 0.25 })
}

fn idle() -> Event {
    Event::Idle(IdleArgs { dt: 0.5 })
}

fn render_args() -> RenderArgs {
    RenderArgs { ext_dt: 0.0, window_size: [640.0, 480.0], draw_size: [640, 480] }
}

fn key(state: ButtonState, key: Key) -> Input {
    Input::Button(ButtonArgs { state, button: Button::Keyboard(key), scancode: None })
}

fn mouse(state: ButtonState, button: MouseButton) -> Input {
    Input::Button(ButtonArgs { state, button: Button::Mouse(button), scancode: Some(7) })
}

#[test]
fn new_machine_has_no_state() {
    let machine: StateMachine<Scene> = StateMachine::new(vec!["shared".to_string()]);
    assert!(machine.is_stack_empty());
    assert_eq!(machine.depth(), 0);
    assert_eq!(machine.resources(), &vec!["shared".to_string()]);
}

#[test]
fn start_initialises_and_enters_the_first_state() {
    let l = log();
    let mut machine = StateMachine::new(Vec::new());
    machine.start(Scene::new("a", &l, vec![]));
    assert_eq!(seen(&l), vec!["a.init"]);
    assert_eq!(machine.depth(), 1);
    assert!(!machine.is_stack_empty());
    assert_eq!(machine.current_state().name, "a");
    assert_eq!(machine.resources(), &vec!["warmed by a".to_string()]);
}

#[test]
fn push_then_return_scenario() {
    let l = log();
    let b = Scene::new("b", &l, vec![Plan::Continue, Plan::Continue, Plan::Continue, Plan::Return]);
    let a = Scene::new("a", &l, vec![Plan::Push(b), Plan::Continue, Plan::Return]);
    let mut machine = StateMachine::new(Vec::new());
    machine.start(a);
    assert_eq!(seen(&l), vec!["a.init"]);

    assert!(matches!(machine.handle_event(update()), Action::Continue));
    assert_eq!(seen(&l), vec!["a.init", "a.update", "b.init"]);
    assert_eq!(machine.depth(), 2);
    assert_eq!(machine.current_state().name, "b");

    let mut frame = Vec::new();
    match machine.handle_event(Event::Render(render_args())) {
        Action::Render(args) => machine.draw(Context::new(), &mut frame, args),
        _ => panic!("expected a frame to be asked for"),
    }
    assert_eq!(frame, vec!["frame of b"]);
    assert!(matches!(machine.handle_event(update()), Action::Continue));
    assert!(matches!(machine.handle_event(Event::Input(key(ButtonState::Press, Key::A))), Action::Continue));
    assert!(matches!(machine.handle_event(idle()), Action::Continue));
    assert_eq!(
        seen(&l),
        vec!["a.init", "a.update", "b.init", "b.draw", "b.update", "b.input", "b.idle"]
    );

    assert!(matches!(machine.handle_event(update()), Action::Continue));
    assert_eq!(machine.depth(), 1);
    assert_eq!(machine.current_state().name, "a");
    assert_eq!(seen(&l).last().map(|s| s.as_str()), Some("b.update"));
    assert_eq!(seen(&l).iter().filter(|s| s.as_str() == "a.init").count(), 1);

    assert!(matches!(machine.handle_event(update()), Action::Continue));
    assert_eq!(seen(&l).last().map(|s| s.as_str()), Some("a.update"));
    assert!(matches!(machine.handle_event(update()), Action::Quit));
    assert!(machine.is_stack_empty());
    assert_eq!(
        seen(&l),
        vec![
            "a.init", "a.update", "b.init", "b.draw", "b.update", "b.input", "b.idle", "b.update",
            "a.update", "a.update",
        ]
    );
    assert_eq!(machine.resources(), &vec!["warmed by a".to_string(), "warmed by b".to_string()]);
}

#[test]
fn replace_scenario() {
    let l = log();
    let c = Scene::new("c", &l, vec![]);
    let a = Scene::new("a", &l, vec![Plan::Replace(c)]);
    let mut machine = StateMachine::new(Vec::new());
    machine.start(a);
    assert_eq!(machine.depth(), 1);
    assert!(matches!(machine.handle_event(update()), Action::Continue));
    assert_eq!(machine.depth(), 1);
    assert_eq!(machine.current_state().name, "c");
    assert_eq!(seen(&l), vec!["a.init", "a.update", "c.init"]);
    assert!(matches!(machine.handle_event(update()), Action::Continue));
    assert!(matches!(machine.handle_event(idle()), Action::Continue));
    assert!(matches!(machine.handle_event(Event::Input(key(ButtonState::Release, Key::B))), Action::Continue));
    assert_eq!(seen(&l), vec!["a.init", "a.update", "c.init", "c.update", "c.idle", "c.input"]);
}

#[test]
fn quit_ends_the_loop_and_leaves_the_stack() {
    let l = log();
    let b = Scene::new("b", &l, vec![Plan::Quit]);
    let a = Scene::new("a", &l, vec![Plan::Push(b)]);
    let mut machine = StateMachine::new(Vec::new());
    machine.start(a);
    assert!(matches!(machine.handle_event(idle()), Action::Continue));
    assert!(matches!(machine.handle_event(Event::Input(key(ButtonState::Press, Key::Q))), Action::Quit));
    assert_eq!(machine.depth(), 2);
    assert_eq!(seen(&l), vec!["a.init", "a.idle", "b.init", "b.input"]);
}

#[test]
fn render_and_other_events_change_nothing() {
    let l = log();
    let mut machine = StateMachine::new(Vec::new());
    machine.start(Scene::new("a", &l, vec![Plan::Quit]));
    assert!(matches!(machine.handle_event(Event::Other), Action::Continue));
    match machine.handle_event(Event::Render(render_args())) {
        Action::Render(args) => assert_eq!(args.draw_size, [640, 480]),
        _ => panic!("expected a frame to be asked for"),
    }
    assert_eq!(seen(&l), vec!["a.init"]);
    assert_eq!(machine.depth(), 1);
}

#[test]
fn draw_reaches_the_active_state_only() {
    let l = log();
    let b = Scene::new("b", &l, vec![]);
    let a = Scene::new("a", &l, vec![Plan::Push(b)]);
    let mut machine = StateMachine::new(Vec::new());
    machine.start(a);
    let mut frame = Vec::new();
    machine.draw(Context::new(), &mut frame, render_args());
    assert!(!machine.update_and_should_quit(UpdateArgs { dt: 0.1 }));
    machine.draw(Context::new(), &mut frame, render_args());
    assert_eq!(frame, vec!["frame of a", "frame of b"]);
    assert_eq!(seen(&l), vec!["a.init", "a.draw", "a.update", "b.init", "b.draw"]);
}

#[test]
fn each_directive_does_what_it_says() {
    let l = log();
    let mut machine = StateMachine::new(Vec::new());
    machine.start(Scene::new("a", &l, vec![]));
    assert!(!machine.handle_state_transition_and_should_quit(StateTransition::Continue));
    assert_eq!(machine.depth(), 1);
    assert!(!machine
        .handle_state_transition_and_should_quit(StateTransition::Push(Scene::new("b", &l, vec![]))));
    assert_eq!(machine.depth(), 2);
    assert_eq!(machine.current_state().name, "b");
    assert!(!machine.handle_state_transition_and_should_quit(StateTransition::Replace(Scene::new(
        "c",
        &l,
        vec![]
    ))));
    assert_eq!(machine.depth(), 2);
    assert_eq!(machine.current_state().name, "c");
    assert!(machine.handle_state_transition_and_should_quit(StateTransition::Quit));
    assert_eq!(machine.depth(), 2);
    assert!(!machine.handle_state_transition_and_should_quit(StateTransition::Return));
    assert_eq!(machine.depth(), 1);
    assert_eq!(machine.current_state().name, "a");
    assert!(machine.handle_state_transition_and_should_quit(StateTransition::Return));
    assert_eq!(machine.depth(), 0);
    assert!(machine.handle_state_transition_and_should_quit(StateTransition::Return));
    assert_eq!(machine.depth(), 0);
    assert_eq!(seen(&l), vec!["a.init", "b.init", "c.init"]);
}

#[test]
fn hooks_say_whether_to_quit() {
    let l = log();
    let a = Scene::new("a", &l, vec![Plan::Continue, Plan::Continue, Plan::Quit]);
    let mut machine = StateMachine::new(Vec::new());
    machine.start(a);
    assert!(!machine.update_and_should_quit(UpdateArgs { dt: 0.1 }));
    assert!(!machine.idle_and_should_quit(IdleArgs { dt: 0.1 }));
    assert!(machine.handle_input_and_should_quit(Input::Focus(true)));
    assert_eq!(seen(&l), vec!["a.init", "a.update", "a.idle", "a.input"]);
}

struct Still;

impl State for Still {
    type Resources = u32;
    type Frame<'a> = ();

    fn draw<'a>(&mut self, _ctx: Context, _gfx: &mut (), _args: RenderArgs, _resources: &mut u32) {
    }
}

#[test]
fn default_hooks_continue() {
    let mut s = Still;
    let mut shared = 5;
    s.init(&mut shared);
    assert_eq!(shared, 5);
    assert!(matches!(s.update(UpdateArgs { dt: 1.0 }), StateTransition::Continue));
    assert!(matches!(s.idle(IdleArgs { dt: 1.0 }, &mut shared), StateTransition::Continue));
    assert!(matches!(s.handle_input(key(ButtonState::Press, Key::A)), StateTransition::Continue));
    assert!(matches!(s.handle_input(key(ButtonState::Release, Key::A)), StateTransition::Continue));
    assert!(matches!(
        s.handle_input(mouse(ButtonState::Press, MouseButton::Left)),
        StateTransition::Continue
    ));
    assert!(matches!(s.handle_input(Input::Text("x".to_string())), StateTransition::Continue));
    assert!(matches!(s.handle_input(Input::Focus(false)), StateTransition::Continue));
    assert!(matches!(s.handle_key_pressed(Key::A), StateTransition::Continue));
    assert!(matches!(s.handle_key_released(Key::A), StateTransition::Continue));
    assert_eq!(shared, 5);
}

#[derive(Default)]
struct Keys {
    seen: Vec<String>,
}

impl State for Keys {
    type Resources = ();
    type Frame<'a> = ();

    fn draw<'a>(&mut self, _ctx: Context, _gfx: &mut (), _args: RenderArgs, _resources: &mut ()) {
    }

    fn handle_key_pressed(&mut self, key: Key) -> StateTransition<Keys> {
        self.seen.push(format!("pressed {:?}", key));
        if key == Key::Escape {
            StateTransition::Quit
        } else {
            StateTransition::Continue
        }
    }

    fn handle_key_released(&mut self, key: Key) -> StateTransition<Keys> {
        self.seen.push(format!("released {:?}", key));
        StateTransition::Return
    }
}

#[test]
fn default_dispatch_reaches_the_key_hooks() {
    let mut s = Keys::default();
    assert!(matches!(s.handle_input(key(ButtonState::Press, Key::A)), StateTransition::Continue));
    assert!(matches!(s.handle_input(key(ButtonState::Press, Key::Escape)), StateTransition::Quit));
    assert!(matches!(s.handle_input(key(ButtonState::Release, Key::B)), StateTransition::Return));
    assert!(matches!(
        s.handle_input(mouse(ButtonState::Press, MouseButton::Left)),
        StateTransition::Continue
    ));
    assert!(matches!(
        s.handle_input(mouse(ButtonState::Release, MouseButton::Right)),
        StateTransition::Continue
    ));
    assert!(matches!(s.handle_input(Input::Cursor(true)), StateTransition::Continue));
    assert_eq!(s.seen, vec!["pressed A", "pressed Escape", "released B"]);
}

#[derive(Default)]
struct Buttons {
    seen: Vec<String>,
}

impl State for Buttons {
    type Resources = ();
    type Frame<'a> = ();

    fn draw<'a>(&mut self, _ctx: Context, _gfx: &mut (), _args: RenderArgs, _resources: &mut ()) {
    }

    fn handle_button_pressed(&mut self, button: Button) -> StateTransition<Buttons> {
        self.seen.push(format!("pressed {:?}", button));
        StateTransition::Continue
    }

    fn handle_button_released(&mut self, button: Button) -> StateTransition<Buttons> {
        self.seen.push(format!("released {:?}", button));
        StateTransition::Quit
    }
}

#[test]
fn default_dispatch_tells_press_from_release() {
    let mut s = Buttons::default();
    assert!(matches!(
        s.handle_input(mouse(ButtonState::Press, MouseButton::Left)),
        StateTransition::Continue
    ));
    assert!(matches!(s.handle_input(key(ButtonState::Release, Key::C)), StateTransition::Quit));
    assert!(matches!(
        s.handle_button_event(ButtonArgs {
            state: ButtonState::Press,
            button: Button::Keyboard(Key::D),
            scancode: None
        }),
        StateTransition::Continue
    ));
    assert_eq!(s.seen, vec!["pressed Mouse(Left)", "released Keyboard(C)", "pressed Keyboard(D)"]);
}

#[test]
fn keys_drive_a_machine() {
    let mut machine: StateMachine<Keys> = StateMachine::new(());
    machine.start(Keys::default());
    assert!(matches!(
        machine.handle_event(Event::Input(key(ButtonState::Press, Key::A))),
        Action::Continue
    ));
    assert!(matches!(
        machine.handle_event(Event::Input(Input::Text("a".to_string()))),
        Action::Continue
    ));
    assert_eq!(machine.current_state().seen, vec!["pressed A"]);
    assert!(matches!(
        machine.handle_event(Event::Input(key(ButtonState::Press, Key::Escape))),
        Action::Quit
    ));
    assert_eq!(machine.depth(), 1);
    assert!(matches!(
        machine.handle_event(Event::Input(key(ButtonState::Release, Key::Escape))),
        Action::Quit
    ));
    assert!(machine.is_stack_empty());
}
