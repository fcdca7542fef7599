//! Automation commands and the builtin API surface behind them.
//!
//! `LuaEvent` is the message a builtin sends to the automation worker;
//! queries carry a one-shot reply channel. `Command` is its channel-free
//! content, used by the worker model's contracts. The `handle_*` functions
//! are the bodies of the builtins: they translate a script-level call into
//! an event, rejecting unknown names with a descriptive error and never
//! coercing them, and block on the reply channel for query calls.

use vstd::prelude::*;
use vstd::string::*;
use crate::model::{ButtonSend, Coordinate, Direction, KeySend, QueryKey};
use crate::model::{
    button_send_of_name, coordinate_of_name, key_send_of_name, parse_button_send,
    parse_coordinate, parse_key_send, parse_query_key, query_key_of_name,
};
use crate::text::{
    invalid_button_message, invalid_button_msg, invalid_char_message, invalid_char_msg,
    invalid_coordinate_message, invalid_coordinate_msg, invalid_key_message, invalid_key_msg,
    parse_u32, parse_u32_spec, reply_lost_message, reply_lost_msg, send_failed_message,
    send_failed_prefix,
};
use crate::channel::{channel_recv, channel_reply, channel_send, block_for_millis};
use crossbeam::channel::Sender;

verus! {

/// One message to the automation worker: an input action to inject, or a
/// state query carrying the channel on which the worker replies.
#[derive(Debug)]
pub enum LuaEvent {
    KeyboardPress { key: KeySend },
    KeyboardRelease { key: KeySend },
    KeyboardClick { key: KeySend },
    KeyboardIsPressing { key: QueryKey, res: Sender<bool> },
    KeyboardCharPress { ch: char },
    KeyboardCharRelease { ch: char },
    KeyboardCharClick { ch: char },
    MouseGetPos { res: Sender<(i32, i32)> },
    MouseMove { x: i32, y: i32, coordinate: Coordinate },
    MousePress { button: ButtonSend },
    MouseRelease { button: ButtonSend },
    MouseClick { button: ButtonSend },
    MouseIsPressing { button: u32, res: Sender<bool> },
}

/// The content of a `LuaEvent`, with reply channels stripped: what the
/// command asks the worker to do.
#[derive(Clone, Copy, PartialEq, Eq, Structural, Debug)]
pub enum Command {
    KeyboardPress { key: KeySend },
    KeyboardRelease { key: KeySend },
    KeyboardClick { key: KeySend },
    KeyboardIsPressing { key: QueryKey },
    KeyboardCharPress { ch: char },
    KeyboardCharRelease { ch: char },
    KeyboardCharClick { ch: char },
    MouseGetPos,
    MouseMove { x: i32, y: i32, coordinate: Coordinate },
    MousePress { button: ButtonSend },
    MouseRelease { button: ButtonSend },
    MouseClick { button: ButtonSend },
    MouseIsPressing { button: u32 },
}

impl View for LuaEvent {
    type V = Command;

    open spec fn view(&self) -> Command {
        match self {
            LuaEvent::KeyboardPress { key } => Command::KeyboardPress { key: *key },
            LuaEvent::KeyboardRelease { key } => Command::KeyboardRelease { key: *key },
            LuaEvent::KeyboardClick { key } => Command::KeyboardClick { key: *key },
            LuaEvent::KeyboardIsPressing { key, .. } => Command::KeyboardIsPressing { key: *key },
            LuaEvent::KeyboardCharPress { ch } => Command::KeyboardCharPress { ch: *ch },
            LuaEvent::KeyboardCharRelease { ch } => Command::KeyboardCharRelease { ch: *ch },
            LuaEvent::KeyboardCharClick { ch } => Command::KeyboardCharClick { ch: *ch },
            LuaEvent::MouseGetPos { .. } => Command::MouseGetPos,
            LuaEvent::MouseMove { x, y, coordinate } => Command::MouseMove {
                x: *x,
                y: *y,
                coordinate: *coordinate,
            },
            LuaEvent::MousePress { button } => Command::MousePress { button: *button },
            LuaEvent::MouseRelease { button } => Command::MouseRelease { button: *button },
            LuaEvent::MouseClick { button } => Command::MouseClick { button: *button },
            LuaEvent::MouseIsPressing { button, .. } => Command::MouseIsPressing {
                button: *button,
            },
        }
    }
}

/// The content of the `LuaEvent` that the worker receives for a received
/// event; what the worker acts on.
pub fn command_of_event(e: &LuaEvent) -> (c: Command)
    ensures
        c == e@,
{
    match e {
        LuaEvent::KeyboardPress { key } => Command::KeyboardPress { key: *key },
        LuaEvent::KeyboardRelease { key } => Command::KeyboardRelease { key: *key },
        LuaEvent::KeyboardClick { key } => Command::KeyboardClick { key: *key },
        LuaEvent::KeyboardIsPressing { key, .. } => Command::KeyboardIsPressing { key: *key },
        LuaEvent::KeyboardCharPress { ch } => Command::KeyboardCharPress { ch: *ch },
        LuaEvent::KeyboardCharRelease { ch } => Command::KeyboardCharRelease { ch: *ch },
        LuaEvent::KeyboardCharClick { ch } => Command::KeyboardCharClick { ch: *ch },
        LuaEvent::MouseGetPos { .. } => Command::MouseGetPos,
        LuaEvent::MouseMove { x, y, coordinate } => Command::MouseMove {
            x: *x,
            y: *y,
            coordinate: *coordinate,
        },
        LuaEvent::MousePress { button } => Command::MousePress { button: *button },
        LuaEvent::MouseRelease { button } => Command::MouseRelease { button: *button },
        LuaEvent::MouseClick { button } => Command::MouseClick { button: *button },
        LuaEvent::MouseIsPressing { button, .. } => Command::MouseIsPressing { button: *button },
    }
}

/// The command a named-key call translates to, by action.
pub open spec fn key_command(action: Direction, key: KeySend) -> Command {
    match action {
        Direction::Press => Command::KeyboardPress { key },
        Direction::Release => Command::KeyboardRelease { key },
        Direction::Click => Command::KeyboardClick { key },
    }
}

/// The command a literal-character call translates to, by action.
pub open spec fn char_command(action: Direction, ch: char) -> Command {
    match action {
        Direction::Press => Command::KeyboardCharPress { ch },
        Direction::Release => Command::KeyboardCharRelease { ch },
        Direction::Click => Command::KeyboardCharClick { ch },
    }
}

/// The command a mouse-button call translates to, by action.
pub open spec fn button_command(action: Direction, button: ButtonSend) -> Command {
    match action {
        Direction::Press => Command::MousePress { button },
        Direction::Release => Command::MouseRelease { button },
        Direction::Click => Command::MouseClick { button },
    }
}

/// The first character of a call's string argument, if any; the character
/// builtins act on it and reject an empty string.
pub open spec fn first_char(s: Seq<char>) -> Option<char> {
    if s.len() == 0 {
        None
    } else {
        Some(s[0])
    }
}

/// Translates a named-key call: a known name becomes its event, an unknown
/// one is rejected with a message naming the input.
pub fn build_key_event(action: Direction, name: &str) -> (r: Result<LuaEvent, String>)
    ensures
        match key_send_of_name(name@) {
            Some(k) => r matches Ok(e) && e@ == key_command(action, k),
            None => r matches Err(m) && m@ == invalid_key_msg(name@),
        },
{
    match parse_key_send(name) {
        Some(k) => Ok(
            match action {
                Direction::Press => LuaEvent::KeyboardPress { key: k },
                Direction::Release => LuaEvent::KeyboardRelease { key: k },
                Direction::Click => LuaEvent::KeyboardClick { key: k },
            },
        ),
        None => Err(invalid_key_message(name)),
    }
}

/// Translates a literal-character call: the first character of the
/// argument becomes the event; an empty argument is rejected.
pub fn build_char_event(action: Direction, text: &str) -> (r: Result<LuaEvent, String>)
    ensures
        match first_char(text@) {
            Some(c) => r matches Ok(e) && e@ == char_command(action, c),
            None => r matches Err(m) && m@ == invalid_char_msg(),
        },
{
    if text.unicode_len() == 0 {
        Err(invalid_char_message())
    } else {
        let c = text.get_char(0);
        Ok(
            match action {
                Direction::Press => LuaEvent::KeyboardCharPress { ch: c },
                Direction::Release => LuaEvent::KeyboardCharRelease { ch: c },
                Direction::Click => LuaEvent::KeyboardCharClick { ch: c },
            },
        )
    }
}

/// Translates a mouse-button call: a known button name becomes its event,
/// an unknown one is rejected with a message naming the input.
pub fn build_button_event(action: Direction, name: &str) -> (r: Result<LuaEvent, String>)
    ensures
        match button_send_of_name(name@) {
            Some(b) => r matches Ok(e) && e@ == button_command(action, b),
            None => r matches Err(m) && m@ == invalid_button_msg(name@),
        },
{
    match parse_button_send(name) {
        Some(b) => Ok(
            match action {
                Direction::Press => LuaEvent::MousePress { button: b },
                Direction::Release => LuaEvent::MouseRelease { button: b },
                Direction::Click => LuaEvent::MouseClick { button: b },
            },
        ),
        None => Err(invalid_button_message(name)),
    }
}

/// Translates a mouse-move call: a known coordinate mode becomes its
/// event, an unknown one is rejected with a message naming the input.
pub fn build_move_event(x: i32, y: i32, mode: &str) -> (r: Result<LuaEvent, String>)
    ensures
        match coordinate_of_name(mode@) {
            Some(c) => r matches Ok(e) && e@ == (Command::MouseMove { x, y, coordinate: c }),
            None => r matches Err(m) && m@ == invalid_coordinate_msg(mode@),
        },
{
    match parse_coordinate(mode) {
        Some(c) => Ok(LuaEvent::MouseMove { x, y, coordinate: c }),
        None => Err(invalid_coordinate_message(mode)),
    }
}

/// Whether a message reports a failed enqueue: the fixed prefix followed
/// by the channel's own description.
pub open spec fn is_send_failure(m: Seq<char>) -> bool {
    exists|detail: Seq<char>| m == send_failed_prefix() + detail
}

/// Enqueues one event for the worker. Failure means the worker is gone;
/// it is reported with the fixed prefix and is fatal to the script.
pub fn send_event(s: &Sender<LuaEvent>, e: LuaEvent) -> (r: Result<(), String>)
    ensures
        r matches Err(m) ==> is_send_failure(m@),
{
    match channel_send(s, e) {
        Ok(()) => Ok(()),
        Err(detail) => {
            let m = send_failed_message(detail.as_str());
            proof {
                assert(m@ == send_failed_prefix() + detail@);
            }
            Err(m)
        },
    }
}

/// The body of the named-key builtins (`keyboard.press` and friends, and
/// the top-level `press`): translate, then enqueue.
pub fn handle_key_action(s: &Sender<LuaEvent>, action: Direction, name: &str) -> (r: Result<
    (),
    String,
>)
    ensures
        key_send_of_name(name@) is None ==> (r matches Err(m) && m@ == invalid_key_msg(name@)),
        key_send_of_name(name@) is Some ==> (r is Ok || (r matches Err(m) && is_send_failure(
            m@,
        ))),
{
    let e = build_key_event(action, name)?;
    send_event(s, e)
}

/// The body of the literal-character builtins (`keyboard.char.press` and
/// friends): translate, then enqueue.
pub fn handle_char_action(s: &Sender<LuaEvent>, action: Direction, text: &str) -> (r: Result<
    (),
    String,
>)
    ensures
        first_char(text@) is None ==> (r matches Err(m) && m@ == invalid_char_msg()),
        first_char(text@) is Some ==> (r is Ok || (r matches Err(m) && is_send_failure(m@))),
{
    let e = build_char_event(action, text)?;
    send_event(s, e)
}

/// The body of the mouse-button builtins (`mouse.press` and friends):
/// translate, then enqueue.
pub fn handle_button_action(s: &Sender<LuaEvent>, action: Direction, name: &str) -> (r: Result<
    (),
    String,
>)
    ensures
        button_send_of_name(name@) is None ==> (r matches Err(m) && m@ == invalid_button_msg(
            name@,
        )),
        button_send_of_name(name@) is Some ==> (r is Ok || (r matches Err(m) && is_send_failure(
            m@,
        ))),
{
    let e = build_button_event(action, name)?;
    send_event(s, e)
}

/// The body of `mouse.move`: translate, then enqueue.
pub fn handle_mouse_move(s: &Sender<LuaEvent>, x: i32, y: i32, mode: &str) -> (r: Result<
    (),
    String,
>)
    ensures
        coordinate_of_name(mode@) is None ==> (r matches Err(m) && m@ == invalid_coordinate_msg(
            mode@,
        )),
        coordinate_of_name(mode@) is Some ==> (r is Ok || (r matches Err(m) && is_send_failure(
            m@,
        ))),
{
    let e = build_move_event(x, y, mode)?;
    send_event(s, e)
}

/// The body of `keyboard.is_pressing`: translate the key name, enqueue
/// the query with a fresh one-shot reply channel, and block until the
/// worker replies. A lost reply channel means the worker died and is a
/// script runtime error.
pub fn handle_key_query(s: &Sender<LuaEvent>, name: &str) -> (r: Result<bool, String>)
    ensures
        query_key_of_name(name@) is None ==> (r matches Err(m) && m@ == invalid_key_msg(name@)),
        query_key_of_name(name@) is Some ==> (r is Ok || (r matches Err(m) && (is_send_failure(
            m@,
        ) || m@ == reply_lost_msg()))),
{
    match parse_query_key(name) {
        None => Err(invalid_key_message(name)),
        Some(k) => {
            let (tx, rx) = channel_reply::<bool>();
            send_event(s, LuaEvent::KeyboardIsPressing { key: k, res: tx })?;
            match channel_recv(&rx) {
                Ok(b) => Ok(b),
                Err(()) => Err(reply_lost_message()),
            }
        },
    }
}

/// The body of `mouse.is_pressing`: parse the numeric button index,
/// enqueue the query with a fresh one-shot reply channel, and block for
/// the reply.
pub fn handle_button_query(s: &Sender<LuaEvent>, text: &str) -> (r: Result<bool, String>)
    ensures
        parse_u32_spec(text@) is None ==> (r matches Err(m) && m@ == invalid_button_msg(text@)),
        parse_u32_spec(text@) is Some ==> (r is Ok || (r matches Err(m) && (is_send_failure(m@)
            || m@ == reply_lost_msg()))),
{
    match parse_u32(text) {
        None => Err(invalid_button_message(text)),
        Some(b) => {
            let (tx, rx) = channel_reply::<bool>();
            send_event(s, LuaEvent::MouseIsPressing { button: b, res: tx })?;
            match channel_recv(&rx) {
                Ok(v) => Ok(v),
                Err(()) => Err(reply_lost_message()),
            }
        },
    }
}

/// The body of `mouse.get_pos`: enqueue the query with a fresh one-shot
/// reply channel and block for the position.
pub fn handle_get_pos(s: &Sender<LuaEvent>) -> (r: Result<(i32, i32), String>)
    ensures
        r matches Err(m) ==> is_send_failure(m@) || m@ == reply_lost_msg(),
{
    let (tx, rx) = channel_reply::<(i32, i32)>();
    send_event(s, LuaEvent::MouseGetPos { res: tx })?;
    match channel_recv(&rx) {
        Ok(p) => Ok(p),
        Err(()) => Err(reply_lost_message()),
    }
}

/// The body of `sleep`: blocks the script's execution thread for the given
/// number of milliseconds. It does not observe the cancellation flag, so a
/// stop takes effect only at the script's next interpreted step.
pub fn handle_sleep(ms: u64) {
    block_for_millis(ms);
}

} // verus!
