//! Lifecycle states of a run and the buttons that move between them.
use vstd::prelude::*;

verus! {

/// Where the game is in its lifecycle.
#[derive(Debug, Clone, Copy, PartialEq, Eq, Structural)]
pub enum GameState {
    MainMenu,
    Playing,
    Pause,
    GameOver,
    Exit,
}

/// The input edges of one tick: each is true only on the tick its control
/// went from released to pressed, whatever device it came from.
#[derive(Debug, Clone, Copy, PartialEq, Eq, Structural)]
pub struct Actions {
    pub jump: bool,
    /// Pause, resume, or go back to the menu.
    pub pause: bool,
    pub confirm: bool,
    pub cancel: bool,
}

impl Actions {
    /// No input on this tick.
    pub fn none() -> (a: Actions)
        ensures
            !a.jump && !a.pause && !a.confirm && !a.cancel,
    {
        Actions { jump: false, pause: false, confirm: false, cancel: false }
    }
}

/// The input edge that presses a button.
#[derive(Debug, Clone, Copy, PartialEq, Eq, Structural)]
pub enum Trigger {
    Pause,
    Confirm,
    Cancel,
}

/// A button shown in one state that moves the game to another when its
/// trigger is pressed.
#[derive(Debug, Clone, Copy, PartialEq, Eq, Structural)]
pub struct ChangeStateButton {
    pub shown_in: GameState,
    pub trigger: Trigger,
    pub target_state: GameState,
}

pub open spec fn pressed_spec(t: Trigger, a: Actions) -> bool {
    match t {
        Trigger::Pause => a.pause,
        Trigger::Confirm => a.confirm,
        Trigger::Cancel => a.cancel,
    }
}

pub open spec fn button_fires(b: ChangeStateButton, s: GameState, a: Actions) -> bool {
    b.shown_in == s && pressed_spec(b.trigger, a)
}

pub open spec fn button(shown_in: GameState, trigger: Trigger, target_state: GameState) -> ChangeStateButton {
    ChangeStateButton { shown_in, trigger, target_state }
}

/// The buttons of the game, the earlier ones taking precedence: start and exit
/// in the main menu, pause while playing, resume while paused, restart and
/// back to the menu after a game over.
pub open spec fn buttons_spec() -> Seq<ChangeStateButton> {
    seq![
        button(GameState::MainMenu, Trigger::Confirm, GameState::Playing),
        button(GameState::MainMenu, Trigger::Cancel, GameState::Exit),
        button(GameState::Playing, Trigger::Pause, GameState::Pause),
        button(GameState::Pause, Trigger::Pause, GameState::Playing),
        button(GameState::Pause, Trigger::Confirm, GameState::Playing),
        button(GameState::GameOver, Trigger::Confirm, GameState::Playing),
        button(GameState::GameOver, Trigger::Pause, GameState::MainMenu),
        button(GameState::GameOver, Trigger::Cancel, GameState::MainMenu),
    ]
}

/// The state that the input of a tick asks for, if any: at most one
/// transition per tick.
pub open spec fn requested_spec(s: GameState, a: Actions) -> Option<GameState> {
    match s {
        GameState::MainMenu => if a.confirm {
            Some(GameState::Playing)
        } else if a.cancel {
            Some(GameState::Exit)
        } else {
            None
        },
        GameState::Playing => if a.pause {
            Some(GameState::Pause)
        } else {
            None
        },
        GameState::Pause => if a.pause || a.confirm {
            Some(GameState::Playing)
        } else {
            None
        },
        GameState::GameOver => if a.confirm {
            Some(GameState::Playing)
        } else if a.pause || a.cancel {
            Some(GameState::MainMenu)
        } else {
            None
        },
        GameState::Exit => None,
    }
}

/// Whether trigger `t` is pressed in `a`.
pub fn pressed(t: Trigger, a: &Actions) -> (r: bool)
    ensures
        r == pressed_spec(t, *a),
{
    match t {
        Trigger::Pause => a.pause,
        Trigger::Confirm => a.confirm,
        Trigger::Cancel => a.cancel,
    }
}

/// The buttons of the game, in order of precedence.
pub fn change_state_buttons() -> (v: Vec<ChangeStateButton>)
    ensures
        v@ == buttons_spec(),
{
    let v = vec![
        ChangeStateButton { shown_in: GameState::MainMenu, trigger: Trigger::Confirm, target_state: GameState::Playing },
        ChangeStateButton { shown_in: GameState::MainMenu, trigger: Trigger::Cancel, target_state: GameState::Exit },
        ChangeStateButton { shown_in: GameState::Playing, trigger: Trigger::Pause, target_state: GameState::Pause },
        ChangeStateButton { shown_in: GameState::Pause, trigger: Trigger::Pause, target_state: GameState::Playing },
        ChangeStateButton { shown_in: GameState::Pause, trigger: Trigger::Confirm, target_state: GameState::Playing },
        ChangeStateButton { shown_in: GameState::GameOver, trigger: Trigger::Confirm, target_state: GameState::Playing },
        ChangeStateButton { shown_in: GameState::GameOver, trigger: Trigger::Pause, target_state: GameState::MainMenu },
        ChangeStateButton { shown_in: GameState::GameOver, trigger: Trigger::Cancel, target_state: GameState::MainMenu },
    ];
    assert(v@ =~= buttons_spec());
    v
}

/// The first button of the table that fires decides.
proof fn lemma_first_button_decides(s: GameState, a: Actions, i: int)
    requires
        0 <= i <= buttons_spec().len(),
        forall|j: int| 0 <= j < i ==> !button_fires(#[trigger] buttons_spec()[j], s, a),
        i < buttons_spec().len() ==> button_fires(buttons_spec()[i], s, a),
    ensures
        requested_spec(s, a) == (if i < buttons_spec().len() {
            Some(buttons_spec()[i].target_state)
        } else {
            None
        }),
{
}

/// The state that the input of a tick asks for while in state `s`: the target
/// of the first button shown in `s` whose trigger is pressed.
pub fn requested_transition(s: GameState, a: &Actions) -> (r: Option<GameState>)
    ensures
        r == requested_spec(s, *a),
{
    let buttons = change_state_buttons();
    let mut i: usize = 0;
    while i < buttons.len()
        invariant
            buttons@ == buttons_spec(),
            0 <= i <= buttons.len(),
            forall|j: int| 0 <= j < i ==> !button_fires(#[trigger] buttons_spec()[j], s, *a),
        decreases buttons.len() - i,
    {
        let b = buttons[i];
        if b.shown_in == s && pressed(b.trigger, a) {
            proof {
                lemma_first_button_decides(s, *a, i as int);
            }
            return Some(b.target_state);
        }
        i = i + 1;
    }
    proof {
        lemma_first_button_decides(s, *a, i as int);
    }
    None
}

} // verus!
