//! What the machine and its host exchange in one turn of the host's loop:
//! keyboard events in, an action for the display out.

use vstd::prelude::*;
use crate::machine::{Chip8, Machine};
use crate::state::{ChipState, Chip8Error};

verus! {

/// Width of the display in pixels.
pub const DISPLAY_WIDTH: u16 = 64;

/// Height of the display in pixels.
pub const DISPLAY_HEIGHT: u16 = 32;

/// Side of the square that shows one pixel in the host's window.
pub const SCALE: u16 = 10;

/// The keys of the host's keyboard that mean something to the machine.
#[derive(Debug, Clone, Copy, PartialEq, Eq, Structural)]
pub enum Key {
    Num1,
    Num2,
    Num3,
    Num4,
    Q,
    W,
    E,
    R,
    A,
    S,
    D,
    F,
    Z,
    X,
    C,
    V,
    Space,
    Other,
}

/// An event of the host's window.
#[derive(Debug, Clone, Copy, PartialEq, Eq, Structural)]
pub enum HostEvent {
    /// The user asked to leave.
    Quit,
    KeyDown(Key),
    KeyUp(Key),
    /// Anything else.
    Other,
}

/// What the host does after a step of the machine.
#[derive(Debug, Clone, Copy, PartialEq, Eq, Structural)]
pub enum HostAction {
    /// Nothing to show.
    Idle,
    /// Present the display buffer.
    Render,
    /// Blank the window.
    ClearScreen,
    /// Leave the loop on the user's request.
    Quit,
    /// Leave the loop and report the error that halted the machine.
    Fail(Chip8Error),
}

/// The place of a key on the keypad: the four rows `1234`, `QWER`, `ASDF`,
/// `ZXCV` of the keyboard, counted row by row from 0.
pub open spec fn keypad_index_spec(key: Key) -> Option<int> {
    match key {
        Key::Num1 => Some(0),
        Key::Num2 => Some(1),
        Key::Num3 => Some(2),
        Key::Num4 => Some(3),
        Key::Q => Some(4),
        Key::W => Some(5),
        Key::E => Some(6),
        Key::R => Some(7),
        Key::A => Some(8),
        Key::S => Some(9),
        Key::D => Some(10),
        Key::F => Some(11),
        Key::Z => Some(12),
        Key::X => Some(13),
        Key::C => Some(14),
        Key::V => Some(15),
        Key::Space => None,
        Key::Other => None,
    }
}

/// The execution state after the pause key: a paused machine runs again, a
/// halted one stays halted, any other is paused.
pub open spec fn toggle_pause_spec(state: ChipState) -> ChipState {
    match state {
        ChipState::Halt(e) => ChipState::Halt(e),
        ChipState::Pause => ChipState::Run,
        _ => ChipState::Pause,
    }
}

/// The input latch, the execution state and the wish to leave.
pub struct Console {
    pub keys: Seq<u8>,
    pub state: ChipState,
    pub quit: bool,
}

/// The effect of one event.
pub open spec fn event_spec(c: Console, event: HostEvent) -> Console {
    match event {
        HostEvent::Quit => Console { quit: true, ..c },
        HostEvent::KeyDown(Key::Space) => Console { state: toggle_pause_spec(c.state), ..c },
        HostEvent::KeyDown(key) => match keypad_index_spec(key) {
            Some(k) => Console { keys: c.keys.update(k, 1), ..c },
            None => c,
        },
        HostEvent::KeyUp(key) => match keypad_index_spec(key) {
            Some(k) => Console { keys: c.keys.update(k, 0), ..c },
            None => c,
        },
        HostEvent::Other => c,
    }
}

/// The effect of the first `n` of the events, in order.
pub open spec fn events_spec(c: Console, events: Seq<HostEvent>, n: int) -> Console
    decreases n,
{
    if n <= 0 {
        c
    } else {
        event_spec(events_spec(c, events, n - 1), events[n - 1])
    }
}

/// The execution state once the host has seen it: a display signal is
/// consumed by being seen, every other state stays.
pub open spec fn seen_spec(state: ChipState) -> ChipState {
    match state {
        ChipState::Draw => ChipState::Run,
        ChipState::Clear => ChipState::Run,
        _ => state,
    }
}

/// What the host is to do for a machine in state `state`.
pub open spec fn action_spec(state: ChipState, quit: bool) -> HostAction {
    if quit {
        HostAction::Quit
    } else {
        match state {
            ChipState::Halt(e) => HostAction::Fail(e),
            ChipState::Draw => HostAction::Render,
            ChipState::Clear => HostAction::ClearScreen,
            _ => HostAction::Idle,
        }
    }
}

/// The place of a key on the keypad, if it has one.
pub fn keypad_index(key: Key) -> (index: Option<usize>)
    ensures
        match keypad_index_spec(key) {
            Some(k) => index == Some(k as usize) && k < 16,
            None => index is None,
        },
{
    match key {
        Key::Num1 => Some(0),
        Key::Num2 => Some(1),
        Key::Num3 => Some(2),
        Key::Num4 => Some(3),
        Key::Q => Some(4),
        Key::W => Some(5),
        Key::E => Some(6),
        Key::R => Some(7),
        Key::A => Some(8),
        Key::S => Some(9),
        Key::D => Some(10),
        Key::F => Some(11),
        Key::Z => Some(12),
        Key::X => Some(13),
        Key::C => Some(14),
        Key::V => Some(15),
        Key::Space => None,
        Key::Other => None,
    }
}

/// Applies the host's events, in order, to the input latch and the execution
/// state: a key of the keypad is latched as down or up, the space bar pauses
/// or resumes, and a request to leave is returned as `true`.
pub fn keys_pressed(keys: &mut [u8; 16], state: &mut ChipState, events: &[HostEvent]) -> (quit:
    bool)
    ensures
        (Console { keys: final(keys)@, state: *final(state), quit }) == events_spec(
            Console { keys: old(keys)@, state: *old(state), quit: false },
            events@,
            events@.len() as int,
        ),
{
    let ghost start = Console { keys: keys@, state: *state, quit: false };
    let mut quit = false;
    let mut n: usize = 0;
    while n < events.len()
        invariant
            n <= events.len(),
            (Console { keys: keys@, state: *state, quit }) == events_spec(start, events@, n as int),
        decreases events.len() - n,
    {
        match events[n] {
            HostEvent::Quit => {
                quit = true;
            },
            HostEvent::KeyDown(Key::Space) => {
                *state = match *state {
                    ChipState::Halt(e) => ChipState::Halt(e),
                    ChipState::Pause => ChipState::Run,
                    _ => ChipState::Pause,
                };
            },
            HostEvent::KeyDown(key) => {
                if let Some(k) = keypad_index(key) {
                    keys[k] = 1;
                }
            },
            HostEvent::KeyUp(key) => {
                if let Some(k) = keypad_index(key) {
                    keys[k] = 0;
                }
            },
            HostEvent::Other => {},
        }
        n += 1;
    }
    quit
}

/// The window rectangle `(x, y, width, height)` that shows the display
/// rectangle of `width` by `height` pixels at (`x`, `y`). Each of the four
/// must fit in sixteen bits once scaled.
pub fn draw_rect(x: usize, y: usize, width: u16, height: u16) -> (rect: (i32, i32, u32, u32))
    requires
        x * SCALE <= u16::MAX,
        y * SCALE <= u16::MAX,
        width * SCALE <= u16::MAX,
        height * SCALE <= u16::MAX,
    ensures
        rect == (
            (x * SCALE) as i32,
            (y * SCALE) as i32,
            (width * SCALE) as u32,
            (height * SCALE) as u32,
        ),
{
    let scale: usize = SCALE as usize;
    ((x * scale) as i32, (y * scale) as i32, (width * SCALE) as u32, (height * SCALE) as u32)
}

/// The window rectangles of the lit pixels among the first `n` cells, in row-major order.
pub open spec fn lit_rects_spec(gfx: Seq<u8>, n: int) -> Seq<(i32, i32, u32, u32)>
    decreases n,
{
    if n <= 0 {
        Seq::empty()
    } else if gfx[n - 1] == 1 {
        lit_rects_spec(gfx, n - 1).push(
            ((((n - 1) % 64) * 10) as i32, (((n - 1) / 64) * 10) as i32, 10u32, 10u32),
        )
    } else {
        lit_rects_spec(gfx, n - 1)
    }
}

impl Chip8 {
    /// The rectangles that the host fills to present the display: one square
    /// for each lit pixel, in row-major order.
    pub fn lit_rects(&self) -> (rects: Vec<(i32, i32, u32, u32)>)
        ensures
            rects@ == lit_rects_spec(self@.gfx, 2048),
    {
        let mut rects: Vec<(i32, i32, u32, u32)> = Vec::new();
        let mut n: usize = 0;
        while n < 2048
            invariant
                n <= 2048,
                rects@ == lit_rects_spec(self@.gfx, n as int),
            decreases 2048 - n,
        {
            if self.gfx[n] == 1 {
                rects.push(draw_rect(n % 64, n / 64, 1, 1));
            }
            n += 1;
        }
        rects
    }

    /// The host's turn after a step: tells what to do for the state that the
    /// step left, takes a display signal back now that it has been seen, then
    /// applies the events that the host has collected since its last turn. A
    /// request to leave among them comes first, then an error that halted the
    /// machine, then the display signals.
    pub fn host_turn(&mut self, events: &[HostEvent]) -> (action: HostAction)
        ensures
            ({
                let c = events_spec(
                    Console {
                        keys: old(self)@.keys,
                        state: seen_spec(old(self)@.state),
                        quit: false,
                    },
                    events@,
                    events@.len() as int,
                );
                &&& final(self)@ == (Machine { keys: c.keys, state: c.state, ..old(self)@ })
                &&& action == action_spec(old(self)@.state, c.quit)
            }),
            old(self).wf() ==> final(self).wf(),
    {
        let observed = self.state;
        match observed {
            ChipState::Draw => {
                self.state = ChipState::Run;
            },
            ChipState::Clear => {
                self.state = ChipState::Run;
            },
            _ => {},
        }
        let quit = keys_pressed(&mut self.keys, &mut self.state, events);
        if quit {
            HostAction::Quit
        } else {
            match observed {
                ChipState::Halt(e) => HostAction::Fail(e),
                ChipState::Draw => HostAction::Render,
                ChipState::Clear => HostAction::ClearScreen,
                _ => HostAction::Idle,
            }
        }
    }
}

} // verus!
