//! A model of the automation worker: the thread that owns the native
//! input-injection and input-query handles and executes commands strictly
//! in arrival order, one at a time.
//!
//! The host performs the native operations; this model states what each
//! command does to the state a script can observe through queries. Mouse
//! moves fold into the tracked pointer position. Key and button state is
//! the host's, as sampled by the query backend: injected key and button
//! events reach the host asynchronously, so the model holds that state
//! constant rather than folding injections back into it.

use vstd::prelude::*;
use crate::event::Command;
use crate::model::{Coordinate, QueryKey};
use crate::text::{invalid_button_index_message, invalid_button_index_msg};

verus! {

/// What the worker sends back on a query's reply channel: a key or button
/// flag, or the pointer position.
#[derive(Clone, Copy, PartialEq, Eq, Structural, Debug)]
pub enum WorkerReply {
    Flag(bool),
    Pos(i32, i32),
}

/// The query-observable state of one worker: the pointer position and the
/// sampled key and button state. Button state is indexed by the numeric
/// button index that the query vocabulary uses.
pub struct WorkerState {
    pub pointer_x: i32,
    pub pointer_y: i32,
    pub keys_down: Vec<QueryKey>,
    pub buttons_down: Vec<bool>,
}

/// The spec-level view of a worker state.
pub struct WorkerModel {
    pub pointer_x: i32,
    pub pointer_y: i32,
    pub keys_down: Seq<QueryKey>,
    pub buttons_down: Seq<bool>,
}

impl View for WorkerState {
    type V = WorkerModel;

    open spec fn view(&self) -> WorkerModel {
        WorkerModel {
            pointer_x: self.pointer_x,
            pointer_y: self.pointer_y,
            keys_down: self.keys_down@,
            buttons_down: self.buttons_down@,
        }
    }
}

/// A sum clamped to the 32-bit signed range: a relative move cannot take
/// the pointer beyond the coordinate bounds.
pub open spec fn clamp_i32(v: int) -> i32 {
    if v > i32::MAX {
        i32::MAX
    } else if v < i32::MIN {
        i32::MIN
    } else {
        v as i32
    }
}

/// The worker state after one command: an absolute move sets the pointer,
/// a relative move offsets it within the coordinate bounds, and every
/// other command leaves the observable state unchanged.
pub open spec fn step_state(m: WorkerModel, c: Command) -> WorkerModel {
    match c {
        Command::MouseMove { x, y, coordinate } => match coordinate {
            Coordinate::Abs => WorkerModel { pointer_x: x, pointer_y: y, ..m },
            Coordinate::Rel => WorkerModel {
                pointer_x: clamp_i32(m.pointer_x as int + x as int),
                pointer_y: clamp_i32(m.pointer_y as int + y as int),
                ..m
            },
        },
        _ => m,
    }
}

/// The reply one command produces before the next command is taken:
/// queries answer from the current state, a button query with an index
/// beyond the sampled button state is an error naming the index, and
/// injection commands reply nothing.
pub open spec fn step_reply(m: WorkerModel, c: Command) -> Result<Option<WorkerReply>, Seq<char>> {
    match c {
        Command::KeyboardIsPressing { key } => Ok(
            Some(WorkerReply::Flag(m.keys_down.contains(key))),
        ),
        Command::MouseGetPos => Ok(Some(WorkerReply::Pos(m.pointer_x, m.pointer_y))),
        Command::MouseIsPressing { button } => if (button as int) < m.buttons_down.len() {
            Ok(Some(WorkerReply::Flag(m.buttons_down[button as int])))
        } else {
            Err(invalid_button_index_msg(button))
        },
        _ => Ok(None),
    }
}

/// Whether a vector of keys holds the given key.
pub fn contains_key(keys: &Vec<QueryKey>, key: QueryKey) -> (b: bool)
    ensures
        b == keys@.contains(key),
{
    let mut i: usize = 0;
    while i < keys.len()
        invariant
            i <= keys@.len(),
            forall|j: int| 0 <= j < i ==> keys@[j] != key,
        decreases keys@.len() - i,
    {
        if keys[i] == key {
            return true;
        }
        i += 1;
    }
    false
}

/// The reply to a button-down query against sampled button state: the
/// flag at the index, or an error naming an index beyond the sampled
/// range.
pub fn button_query_reply(pressed: &Vec<bool>, button: u32) -> (r: Result<bool, String>)
    ensures
        (button as int) < pressed@.len() ==> (r matches Ok(b) && b == pressed@[button as int]),
        (button as int) >= pressed@.len() ==> (r matches Err(m) && m@ == invalid_button_index_msg(
            button,
        )),
{
    if (button as usize) < pressed.len() {
        Ok(pressed[button as usize])
    } else {
        Err(invalid_button_index_message(button))
    }
}

impl WorkerState {
    /// A worker over freshly sampled host state.
    pub fn initial(
        pointer_x: i32,
        pointer_y: i32,
        keys_down: Vec<QueryKey>,
        buttons_down: Vec<bool>,
    ) -> (w: WorkerState)
        ensures
            w@ == (WorkerModel {
                pointer_x,
                pointer_y,
                keys_down: keys_down@,
                buttons_down: buttons_down@,
            }),
    {
        WorkerState { pointer_x, pointer_y, keys_down, buttons_down }
    }

    /// Executes one command against the model: updates the observable
    /// state and produces the command's reply, exactly as the spec-level
    /// step says.
    pub fn step(&mut self, c: &Command) -> (r: Result<Option<WorkerReply>, String>)
        ensures
            final(self)@ == step_state(old(self)@, *c),
            match step_reply(old(self)@, *c) {
                Ok(o) => r matches Ok(v) && v == o,
                Err(msg) => r matches Err(m) && m@ == msg,
            },
    {
        match c {
            Command::KeyboardIsPressing { key } => {
                let b = contains_key(&self.keys_down, *key);
                Ok(Some(WorkerReply::Flag(b)))
            },
            Command::MouseGetPos => Ok(Some(WorkerReply::Pos(self.pointer_x, self.pointer_y))),
            Command::MouseIsPressing { button } => {
                match button_query_reply(&self.buttons_down, *button) {
                    Ok(b) => Ok(Some(WorkerReply::Flag(b))),
                    Err(m) => Err(m),
                }
            },
            Command::MouseMove { x, y, coordinate } => {
                match coordinate {
                    Coordinate::Abs => {
                        self.pointer_x = *x;
                        self.pointer_y = *y;
                    },
                    Coordinate::Rel => {
                        self.pointer_x = clamped_add(self.pointer_x, *x);
                        self.pointer_y = clamped_add(self.pointer_y, *y);
                    },
                }
                Ok(None)
            },
            _ => Ok(None),
        }
    }
}

/// A 32-bit signed sum clamped to the representable range.
pub fn clamped_add(a: i32, b: i32) -> (r: i32)
    ensures
        r == clamp_i32(a as int + b as int),
{
    if b > 0 && a > i32::MAX - b {
        i32::MAX
    } else if b < 0 && a < i32::MIN - b {
        i32::MIN
    } else {
        a + b
    }
}

/// Query round trip: once a move is applied, a pointer-position query
/// replies with exactly the injected position, a key-down query for a key
/// that is up replies false, and queries leave the observable state
/// unchanged.
pub proof fn lemma_query_round_trip(m: WorkerModel, x: i32, y: i32, key: QueryKey)
    requires
        !m.keys_down.contains(key),
    ensures
        ({
            let moved = step_state(m, Command::MouseMove { x, y, coordinate: Coordinate::Abs });
            &&& step_reply(moved, Command::MouseGetPos) == Ok::<Option<WorkerReply>, Seq<char>>(
                Some(WorkerReply::Pos(x, y)),
            )
            &&& step_reply(moved, Command::KeyboardIsPressing { key }) == Ok::<
                Option<WorkerReply>,
                Seq<char>,
            >(Some(WorkerReply::Flag(false)))
            &&& step_state(moved, Command::MouseGetPos) == moved
            &&& step_state(moved, Command::KeyboardIsPressing { key }) == moved
        }),
{
}

} // verus!
