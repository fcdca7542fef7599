//! One script instance: an embedded Luau runtime plus a cancellation flag.
//!
//! Creating an instance builds a fresh runtime, hands the worker's receiving
//! end to the caller's worker spawner, registers the builtin API surface,
//! installs the interrupt hook that observes the cancellation flag, and
//! executes the script's top-level body. `execute` resets the flag and
//! drives the script's entry point to completion; `stop` raises the flag.
//! An execution error whose cause is exactly the interrupt hook's marker is
//! a cooperative stop; every other execution error is a genuine failure.

use vstd::prelude::*;
use std::sync::Arc;
use std::sync::atomic::{AtomicBool, Ordering};
use crossbeam::channel::{Receiver, Sender};
use crate::channel::{channel_unbounded, sender_clone};
use crate::event::{
    handle_button_action, handle_button_query, handle_char_action, handle_get_pos,
    handle_key_action, handle_key_query, handle_mouse_move, handle_sleep, LuaEvent,
};
use crate::model::Direction;
use crate::text::{interrupted_marker, str_eq};
use vstd::string::*;

verus! {

#[verifier::external_type_specification]
#[verifier::external_body]
pub struct ExLua(mlua::Lua);

#[verifier::external_type_specification]
#[verifier::external_body]
pub struct ExTable(mlua::Table);

#[verifier::external_type_specification]
#[verifier::external_body]
pub struct ExFunction(mlua::Function);

#[verifier::external_type_specification]
#[verifier::external_body]
pub struct ExThread(mlua::Thread);

#[verifier::external_type_specification]
#[verifier::external_body]
pub struct ExLuaError(mlua::Error);

/// Relies on `Arc::clone`: the clone is the same shared value.
#[verifier::external_body]
pub(crate) fn arc_clone<T>(a: &Arc<T>) -> (r: Arc<T>)
    ensures
        r == *a,
{
    Arc::clone(a)
}

/// Relies on mlua's `Lua::new_with`: a fresh runtime with the standard
/// libraries loaded and default options.
#[verifier::external_body]
fn lua_new() -> Result<mlua::Lua, mlua::Error> {
    mlua::Lua::new_with(mlua::StdLib::ALL, mlua::LuaOptions::default())
}

/// Relies on mlua's `Lua::load` and `Chunk::exec`: compiles the program
/// text and runs it to completion on the runtime's main thread.
#[verifier::external_body]
fn exec_chunk(lua: &mlua::Lua, source: &[u8]) -> Result<(), mlua::Error> {
    lua.load(source).exec()
}

/// Relies on mlua's `Lua::globals`: the runtime's global table.
#[verifier::external_body]
fn globals_table(lua: &mlua::Lua) -> mlua::Table {
    lua.globals()
}

/// Relies on mlua's `Lua::create_table`: a fresh empty table.
#[verifier::external_body]
fn new_table(lua: &mlua::Lua) -> Result<mlua::Table, mlua::Error> {
    lua.create_table()
}

/// Relies on mlua's `Table::set`: binds the name to the value in the table.
#[verifier::external_body]
fn table_set_table(tbl: &mlua::Table, name: &str, value: mlua::Table) -> Result<(), mlua::Error> {
    tbl.set(name, value)
}

/// Relies on mlua's `Lua::create_function` and `Table::set`: binds the name
/// to a builtin whose body is `handle_key_action` for the given action.
#[verifier::external_body]
fn table_set_key_fn(
    lua: &mlua::Lua,
    tbl: &mlua::Table,
    name: &str,
    action: Direction,
    s: Sender<LuaEvent>,
) -> Result<(), mlua::Error> {
    let f = lua.create_function(move |_, key: String| {
        handle_key_action(&s, action, &key).map_err(mlua::Error::RuntimeError)
    })?;
    tbl.set(name, f)
}

/// Relies on mlua's `Lua::create_function` and `Table::set`: binds the name
/// to a builtin whose body is `handle_char_action` for the given action.
#[verifier::external_body]
fn table_set_char_fn(
    lua: &mlua::Lua,
    tbl: &mlua::Table,
    name: &str,
    action: Direction,
    s: Sender<LuaEvent>,
) -> Result<(), mlua::Error> {
    let f = lua.create_function(move |_, text: String| {
        handle_char_action(&s, action, &text).map_err(mlua::Error::RuntimeError)
    })?;
    tbl.set(name, f)
}

/// Relies on mlua's `Lua::create_function` and `Table::set`: binds the name
/// to a builtin whose body is `handle_button_action` for the given action.
#[verifier::external_body]
fn table_set_button_fn(
    lua: &mlua::Lua,
    tbl: &mlua::Table,
    name: &str,
    action: Direction,
    s: Sender<LuaEvent>,
) -> Result<(), mlua::Error> {
    let f = lua.create_function(move |_, button: String| {
        handle_button_action(&s, action, &button).map_err(mlua::Error::RuntimeError)
    })?;
    tbl.set(name, f)
}

/// Relies on mlua's `Lua::create_function` and `Table::set`: binds the name
/// to a builtin whose body is `handle_mouse_move`.
#[verifier::external_body]
fn table_set_move_fn(
    lua: &mlua::Lua,
    tbl: &mlua::Table,
    name: &str,
    s: Sender<LuaEvent>,
) -> Result<(), mlua::Error> {
    let f = lua.create_function(move |_, (x, y, mode): (i32, i32, String)| {
        handle_mouse_move(&s, x, y, &mode).map_err(mlua::Error::RuntimeError)
    })?;
    tbl.set(name, f)
}

/// Relies on mlua's `Lua::create_function` and `Table::set`: binds the name
/// to a builtin whose body is `handle_key_query`; the call blocks the
/// script until the worker replies.
#[verifier::external_body]
fn table_set_key_query_fn(
    lua: &mlua::Lua,
    tbl: &mlua::Table,
    name: &str,
    s: Sender<LuaEvent>,
) -> Result<(), mlua::Error> {
    let f = lua.create_function(move |_, key: String| {
        handle_key_query(&s, &key).map_err(mlua::Error::RuntimeError)
    })?;
    tbl.set(name, f)
}

/// Relies on mlua's `Lua::create_function` and `Table::set`: binds the name
/// to a builtin whose body is `handle_button_query`; the call blocks the
/// script until the worker replies.
#[verifier::external_body]
fn table_set_button_query_fn(
    lua: &mlua::Lua,
    tbl: &mlua::Table,
    name: &str,
    s: Sender<LuaEvent>,
) -> Result<(), mlua::Error> {
    let f = lua.create_function(move |_, button: String| {
        handle_button_query(&s, &button).map_err(mlua::Error::RuntimeError)
    })?;
    tbl.set(name, f)
}

/// Relies on mlua's `Lua::create_function` and `Table::set`: binds the name
/// to a builtin whose body is `handle_get_pos`; the call blocks the script
/// until the worker replies.
#[verifier::external_body]
fn table_set_get_pos_fn(
    lua: &mlua::Lua,
    tbl: &mlua::Table,
    name: &str,
    s: Sender<LuaEvent>,
) -> Result<(), mlua::Error> {
    let f = lua.create_function(move |_, (): ()| {
        handle_get_pos(&s).map_err(mlua::Error::RuntimeError)
    })?;
    tbl.set(name, f)
}

/// Relies on mlua's `Lua::create_function` and `Table::set`: binds the name
/// to a builtin whose body is `handle_sleep`.
#[verifier::external_body]
fn table_set_sleep_fn(lua: &mlua::Lua, tbl: &mlua::Table, name: &str) -> Result<(), mlua::Error> {
    let f = lua.create_function(move |_, ms: u64| {
        handle_sleep(ms);
        Ok(())
    })?;
    tbl.set(name, f)
}

/// Relies on mlua's `Lua::set_interrupt`: the callback runs between the
/// runtime's own execution steps; raising an error from it aborts the
/// in-flight script. The callback's decision is `interrupt_decision` on
/// the current value of the cancellation flag.
#[verifier::external_body]
fn install_interrupt(lua: &mlua::Lua, flag: &Arc<AtomicBool>) {
    let flag = Arc::clone(flag);
    lua.set_interrupt(move |_| {
        match interrupt_decision(flag.load(Ordering::SeqCst)) {
            Some(marker) => Err(mlua::Error::RuntimeError(marker)),
            None => Ok(mlua::VmState::Continue),
        }
    });
}

/// Relies on mlua's `Table::get` on the globals table: the global bound to
/// the name, failing if it is absent or not a function.
#[verifier::external_body]
fn get_global_function(lua: &mlua::Lua, name: &str) -> Result<mlua::Function, mlua::Error> {
    lua.globals().get::<mlua::Function>(name)
}

/// Relies on mlua's `Lua::create_thread`: a cooperative execution context
/// around the function.
#[verifier::external_body]
fn create_lua_thread(lua: &mlua::Lua, f: mlua::Function) -> Result<mlua::Thread, mlua::Error> {
    lua.create_thread(f)
}

/// Relies on mlua's `Thread::resume`: drives the context until it finishes,
/// fails, or is aborted by the interrupt hook.
#[verifier::external_body]
fn resume_unit(th: &mlua::Thread) -> Result<(), mlua::Error> {
    th.resume::<()>(())
}

/// How a runtime error presents for classification: the text of the
/// underlying runtime-error condition — raised directly, as the interrupt
/// hook's abort is, or as the cause of an error from a host-implemented
/// builtin — or some other failure.
pub enum FailureKind {
    Runtime { cause: String },
    Other,
}

/// A failed execution: its shape for classification and its full
/// human-readable description.
pub struct LuaFailure {
    pub kind: FailureKind,
    pub message: String,
}

/// Relies on mlua's `Error` shape: `RuntimeError` is a runtime error —
/// the interrupt hook's abort reaches the caller as one, with its text
/// unchanged — and `CallbackError` wraps an error raised from a
/// host-implemented builtin, with the original error as its cause. The
/// display text describes the whole error. Each variant is inspected only
/// to move its fields.
#[verifier::external_body]
fn failure_of_error(e: mlua::Error) -> LuaFailure {
    let message = e.to_string();
    let kind = match &e {
        mlua::Error::RuntimeError(cause) => FailureKind::Runtime { cause: cause.clone() },
        mlua::Error::CallbackError { cause, .. } => match &**cause {
            mlua::Error::RuntimeError(cause) => FailureKind::Runtime { cause: cause.clone() },
            _ => FailureKind::Other,
        },
        _ => FailureKind::Other,
    };
    LuaFailure { kind, message }
}

/// The human-readable description of a creation error.
fn creation_error_text(e: mlua::Error) -> String {
    let f = failure_of_error(e);
    f.message
}

/// Whether a failed execution is a cooperative stop: its cause is exactly
/// the marker the interrupt hook raises when the cancellation flag is set.
pub open spec fn is_cooperative(f: LuaFailure) -> bool {
    f.kind matches FailureKind::Runtime { cause } && cause@ == interrupted_marker()
}

/// Classifies a failed execution; true exactly for a cooperative stop.
pub fn cooperative_stop(f: &LuaFailure) -> (b: bool)
    ensures
        b == is_cooperative(*f),
{
    match &f.kind {
        FailureKind::Runtime { cause } => str_eq(cause.as_str(), "interrupted"),
        FailureKind::Other => false,
    }
}

/// How one execution ended: naturally, by cooperative stop, or with a
/// failure carrying its description.
#[derive(Clone)]
pub enum ScriptOutcome {
    Completed,
    Stopped,
    Failed(String),
}

/// The classification of an execution result: a cooperative stop is not a
/// failure and is never reported; every other error is reported with its
/// description.
pub open spec fn spec_outcome_of(r: Result<(), LuaFailure>) -> ScriptOutcome {
    match r {
        Ok(()) => ScriptOutcome::Completed,
        Err(f) => if is_cooperative(f) {
            ScriptOutcome::Stopped
        } else {
            ScriptOutcome::Failed(f.message)
        },
    }
}

pub fn outcome_of(r: Result<(), LuaFailure>) -> (o: ScriptOutcome)
    ensures
        o == spec_outcome_of(r),
{
    match r {
        Ok(()) => ScriptOutcome::Completed,
        Err(f) => {
            if cooperative_stop(&f) {
                ScriptOutcome::Stopped
            } else {
                ScriptOutcome::Failed(f.message)
            }
        },
    }
}

/// A cancelled execution — one whose failure is exactly the interrupt
/// hook's marker — classifies as a cooperative stop and is never reported
/// as a failure.
pub proof fn lemma_cooperative_stop_not_failure(r: Result<(), LuaFailure>)
    requires
        r matches Err(f) && is_cooperative(f),
    ensures
        spec_outcome_of(r) == ScriptOutcome::Stopped,
        !(spec_outcome_of(r) matches ScriptOutcome::Failed(_)),
{
}

/// A genuine failure classifies as failed with exactly its own
/// description, so the failure handler is invoked with a message
/// identifying the offending input.
pub proof fn lemma_failure_reported(r: Result<(), LuaFailure>)
    requires
        r matches Err(f) && !is_cooperative(f),
    ensures
        r matches Err(f) && spec_outcome_of(r) == ScriptOutcome::Failed(f.message),
{
}

/// The program fragments an instance is created from: the base directory
/// whose modules scripts may require, the two fixed bootstrap fragments
/// read from it, and the user script's text.
pub struct ScriptSources {
    pub std_path: String,
    pub prelude: Vec<u8>,
    pub postlude: Vec<u8>,
    pub script: Vec<u8>,
}

pub open spec fn package_path_chunk_spec(std_path: Seq<char>) -> Seq<char> {
    "package = package or { path = \"\" }\npackage.path = package.path .. \";"@ + std_path
        + "/?.lua\""@
}

/// The program fragment that extends the module search path with the base
/// directory. The embedded runtime may not define the `package` library
/// itself; the fragment then creates the table, so the search-path
/// convention is still visible to the bootstrap fragments and to modules.
pub fn package_path_chunk(std_path: &str) -> (r: String)
    ensures
        r@ == package_path_chunk_spec(std_path@),
{
    let mut m: String = "package = package or { path = \"\" }\npackage.path = package.path .. \";"
        .to_owned();
    m.append(std_path);
    m.append("/?.lua\"");
    m
}

/// One script instance: the exclusively owned runtime handle and the
/// cancellation flag shared with the interrupt hook. The flag is set true
/// exactly once per instance to request a stop and reset only when a
/// fresh `execute` begins.
pub struct LuaInstance {
    pub lua: mlua::Lua,
    pub exit_flag: Arc<AtomicBool>,
}

/// Registers the builtin API surface into the runtime: extends the module
/// search path, runs the prelude, binds the `keyboard`, `mouse` and
/// `sleep` globals, and runs the postlude. Every builtin captures its own
/// handle to the worker's command channel.
fn register_builtins(
    lua: &mlua::Lua,
    sender: &Sender<LuaEvent>,
    sources: &ScriptSources,
) -> Result<(), String> {
    let chunk = package_path_chunk(sources.std_path.as_str());
    if let Err(e) = exec_chunk(lua, chunk.as_str().as_bytes()) {
        return Err(creation_error_text(e));
    }
    if let Err(e) = exec_chunk(lua, sources.prelude.as_slice()) {
        return Err(creation_error_text(e));
    }
    let globals = globals_table(lua);

    let keyboard = match new_table(lua) {
        Ok(t) => t,
        Err(e) => {
            return Err(creation_error_text(e));
        },
    };
    if let Err(e) = table_set_key_fn(lua, &keyboard, "press", Direction::Press, sender_clone(sender)) {
        return Err(creation_error_text(e));
    }
    if let Err(e) = table_set_key_fn(
        lua,
        &keyboard,
        "release",
        Direction::Release,
        sender_clone(sender),
    ) {
        return Err(creation_error_text(e));
    }
    if let Err(e) = table_set_key_fn(lua, &keyboard, "click", Direction::Click, sender_clone(sender)) {
        return Err(creation_error_text(e));
    }
    if let Err(e) = table_set_key_query_fn(lua, &keyboard, "is_pressing", sender_clone(sender)) {
        return Err(creation_error_text(e));
    }
    let char_tbl = match new_table(lua) {
        Ok(t) => t,
        Err(e) => {
            return Err(creation_error_text(e));
        },
    };
    if let Err(e) = table_set_char_fn(lua, &char_tbl, "press", Direction::Press, sender_clone(sender)) {
        return Err(creation_error_text(e));
    }
    if let Err(e) = table_set_char_fn(
        lua,
        &char_tbl,
        "release",
        Direction::Release,
        sender_clone(sender),
    ) {
        return Err(creation_error_text(e));
    }
    if let Err(e) = table_set_char_fn(lua, &char_tbl, "click", Direction::Click, sender_clone(sender)) {
        return Err(creation_error_text(e));
    }
    if let Err(e) = table_set_table(&keyboard, "char", char_tbl) {
        return Err(creation_error_text(e));
    }
    if let Err(e) = table_set_table(&globals, "keyboard", keyboard) {
        return Err(creation_error_text(e));
    }

    let mouse = match new_table(lua) {
        Ok(t) => t,
        Err(e) => {
            return Err(creation_error_text(e));
        },
    };
    if let Err(e) = table_set_get_pos_fn(lua, &mouse, "get_pos", sender_clone(sender)) {
        return Err(creation_error_text(e));
    }
    if let Err(e) = table_set_move_fn(lua, &mouse, "move", sender_clone(sender)) {
        return Err(creation_error_text(e));
    }
    if let Err(e) = table_set_button_fn(lua, &mouse, "press", Direction::Press, sender_clone(sender)) {
        return Err(creation_error_text(e));
    }
    if let Err(e) = table_set_button_fn(
        lua,
        &mouse,
        "release",
        Direction::Release,
        sender_clone(sender),
    ) {
        return Err(creation_error_text(e));
    }
    if let Err(e) = table_set_button_fn(lua, &mouse, "click", Direction::Click, sender_clone(sender)) {
        return Err(creation_error_text(e));
    }
    if let Err(e) = table_set_button_query_fn(lua, &mouse, "is_pressing", sender_clone(sender)) {
        return Err(creation_error_text(e));
    }
    if let Err(e) = table_set_table(&globals, "mouse", mouse) {
        return Err(creation_error_text(e));
    }

    if let Err(e) = table_set_sleep_fn(lua, &globals, "sleep") {
        return Err(creation_error_text(e));
    }

    if let Err(e) = exec_chunk(lua, sources.postlude.as_slice()) {
        return Err(creation_error_text(e));
    }
    Ok(())
}

impl LuaInstance {
    /// Creates an instance from the given program fragments: a fresh
    /// runtime, the worker channel (its receiving end goes to the caller's
    /// worker spawner), the builtin API surface, the interrupt hook over a
    /// fresh cancellation flag, and finally the user script's top-level
    /// body. Fails with a description if any fragment fails to load or
    /// execute; the caller then holds no instance.
    pub fn create_from_file<W: FnOnce(Receiver<LuaEvent>)>(
        sources: &ScriptSources,
        spawn_worker: W,
    ) -> (r: Result<LuaInstance, String>)
        requires
            forall|rx: Receiver<LuaEvent>| #[trigger] spawn_worker.requires((rx,)),
    {
        let lua = match lua_new() {
            Ok(l) => l,
            Err(e) => {
                return Err(creation_error_text(e));
            },
        };
        let (sender, receiver) = channel_unbounded::<LuaEvent>();
        register_builtins(&lua, &sender, sources)?;
        spawn_worker(receiver);

        let exit_flag = Arc::new(AtomicBool::new(false));
        install_interrupt(&lua, &exit_flag);
        if let Err(e) = exec_chunk(&lua, sources.script.as_slice()) {
            return Err(creation_error_text(e));
        }
        Ok(LuaInstance { lua, exit_flag })
    }

    /// Resets the cancellation flag, wraps the script's entry point
    /// (the global `Main`) in a fresh cooperative execution context, and
    /// resumes it to completion. Blocks for the lifetime of the script;
    /// the manager runs it on a dedicated thread. Fails if the entry
    /// point is absent or not a function, or if execution raises —
    /// including the abort raised by the interrupt hook after `stop`.
    pub fn execute(&self) -> (r: Result<(), LuaFailure>) {
        let entry = match get_global_function(&self.lua, "Main") {
            Ok(f) => f,
            Err(e) => {
                return Err(failure_of_error(e));
            },
        };
        let thread = match create_lua_thread(&self.lua, entry) {
            Ok(t) => t,
            Err(e) => {
                return Err(failure_of_error(e));
            },
        };
        self.exit_flag.store(false, Ordering::SeqCst);
        match resume_unit(&thread) {
            Ok(()) => Ok(()),
            Err(e) => Err(failure_of_error(e)),
        }
    }

    /// Requests a cooperative stop: raises the cancellation flag and
    /// returns without waiting for the running execution to observe it.
    pub fn stop(&self) -> (r: Result<(), String>)
        ensures
            r is Ok,
    {
        self.exit_flag.store(true, Ordering::SeqCst);
        Ok(())
    }
}

/// The body of a script's execution thread: drive the entry point to its
/// end and classify how it ended.
pub fn run_script(instance: &LuaInstance) -> ScriptOutcome {
    outcome_of(instance.execute())
}

/// The cancellation rule of the interrupt hook: raise the interrupted
/// marker exactly when the cancellation flag was observed set.
pub fn interrupt_decision(stop_requested: bool) -> (r: Option<String>)
    ensures
        match r {
            Some(m) => stop_requested && m@ == interrupted_marker(),
            None => !stop_requested,
        },
{
    if stop_requested {
        Some("interrupted".to_owned())
    } else {
        None
    }
}

} // verus!
