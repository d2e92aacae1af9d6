//! Handlers and the effects they ask of the embedding shell.
//!
//! A handler is a zero-argument action: it captures at most what was fixed
//! at registration time (a workspace digit, a piece of code), never a
//! per-call argument.  Invoking a command resolves its handler into an
//! [`Effect`], the one outside action the shell then performs — so the
//! dispatch path itself never blocks on the engine, a subprocess or the
//! tree lock.

use vstd::prelude::*;
use vstd::string::StringExecFns;
use crate::picker::PickerKind;
use crate::registry::CommandError;
use crate::registry::CommandRegistry;
use crate::script::ScriptQuery;

verus! {

/// Layout operations the shell's tree subsystem performs; opaque to this
/// core, which only routes them.
#[derive(Clone, Copy, Debug, PartialEq, Eq, Structural)]
pub enum LayoutCmd {
    TileSwitch,
    SplitVertical,
    SplitHorizontal,
    TileTabbed,
    TileStacked,
    FullscreenToggle,
    FocusLeft,
    FocusRight,
    FocusUp,
    FocusDown,
    MoveActiveLeft,
    MoveActiveRight,
    MoveActiveUp,
    MoveActiveDown,
    RemoveActive,
    ToggleFloat,
    ToggleFloatFocus,
}

/// Mode operations the shell's modes subsystem performs; opaque to this
/// core, which only routes them.
#[derive(Clone, Copy, Debug, PartialEq, Eq, Structural)]
pub enum ModeCmd {
    SetDefaultMode,
    SetCustomMode,
    SpawnLockScreen,
}

/// The two operations the tree accessor's exclusive handle offers.
#[derive(Clone, Copy, Debug, PartialEq, Eq, Structural)]
pub enum TreeOpKind {
    /// Switch the view to a workspace.
    SwitchTo,
    /// Send the active window to a workspace.
    SendActiveTo,
}

/// A registered, zero-argument action.
#[derive(Debug, PartialEq, Eq)]
pub enum Handler {
    /// Terminate the compositor.
    Quit,
    /// Send the captured code to the engine, fire-and-forget.
    ScriptExecute(String),
    /// Launch a picker session whose captured text is evaluated as code.
    DmenuEval,
    /// Launch a picker session whose captured text is evaluated as file
    /// input.
    DmenuLuaDofile,
    /// Clear all key bindings, then signal the engine to re-initialize.
    Restart,
    /// Switch to workspace `d` through the non-blocking tree lock.
    SwitchWorkspace(u8),
    /// Send the active window to workspace `d` through the non-blocking
    /// tree lock.
    MoveToWorkspace(u8),
    /// Delegate to the layout subsystem.
    Layout(LayoutCmd),
    /// Delegate to the modes subsystem.
    Mode(ModeCmd),
}

/// The one outside action the shell performs for an invoked handler.
#[derive(Debug, PartialEq, Eq)]
pub enum Effect {
    /// Halt the compositor.
    Terminate,
    /// Hand the query to the script bridge and do not wait for a response.
    SendFireAndForget(ScriptQuery),
    /// Run a picker session on a worker thread and forward its output.
    LaunchPicker(PickerKind),
    /// First clear all registered key bindings, then send the restart
    /// signal to the engine — in that order.
    ClearKeysThenRestart,
    /// Try the non-blocking tree lock and, only if it was acquired, apply
    /// the operation to the named workspace; if the lock is busy, drop the
    /// request silently.
    Workspace(TreeOpKind, u8),
    /// Delegate to the layout subsystem.
    Layout(LayoutCmd),
    /// Delegate to the modes subsystem.
    Mode(ModeCmd),
}

/// What each handler asks of the shell.
pub open spec fn effect_of(h: Handler) -> Effect {
    match h {
        Handler::Quit => Effect::Terminate,
        Handler::ScriptExecute(code) => Effect::SendFireAndForget(ScriptQuery::Execute(code)),
        Handler::DmenuEval => Effect::LaunchPicker(PickerKind::EvalCode),
        Handler::DmenuLuaDofile => Effect::LaunchPicker(PickerKind::EvalFile),
        Handler::Restart => Effect::ClearKeysThenRestart,
        Handler::SwitchWorkspace(d) => Effect::Workspace(TreeOpKind::SwitchTo, d),
        Handler::MoveToWorkspace(d) => Effect::Workspace(TreeOpKind::SendActiveTo, d),
        Handler::Layout(c) => Effect::Layout(c),
        Handler::Mode(c) => Effect::Mode(c),
    }
}

/// Resolve a handler into the effect the shell performs for it.
pub fn handler_effect(h: &Handler) -> (e: Effect)
    ensures
        e == effect_of(*h),
{
    match h {
        Handler::Quit => Effect::Terminate,
        Handler::ScriptExecute(code) => Effect::SendFireAndForget(
            ScriptQuery::Execute(code.clone()),
        ),
        Handler::DmenuEval => Effect::LaunchPicker(PickerKind::EvalCode),
        Handler::DmenuLuaDofile => Effect::LaunchPicker(PickerKind::EvalFile),
        Handler::Restart => Effect::ClearKeysThenRestart,
        Handler::SwitchWorkspace(d) => Effect::Workspace(TreeOpKind::SwitchTo, *d),
        Handler::MoveToWorkspace(d) => Effect::Workspace(TreeOpKind::SendActiveTo, *d),
        Handler::Layout(c) => Effect::Layout(*c),
        Handler::Mode(c) => Effect::Mode(*c),
    }
}

/// Look a command up by name and resolve it: the effect of the registered
/// handler, or `CommandNotFound` — reported to the caller, never a panic —
/// when the name was never registered.
pub fn dispatch(reg: &CommandRegistry, name: &str) -> (r: Result<Effect, CommandError>)
    ensures
        reg@.contains_key(name@) ==> r == Ok::<Effect, CommandError>(effect_of(reg@[name@])),
        !reg@.contains_key(name@) ==> r == Err::<Effect, CommandError>(
            CommandError::CommandNotFound,
        ),
{
    match reg.invoke(name) {
        Ok(h) => Ok(handler_effect(h)),
        Err(e) => Err(e),
    }
}

/// The code the `print_pointer` command sends to the engine: it prints the
/// pointer position kept in the engine's `wm.pointer` table.
pub open spec fn pointer_position_code() -> Seq<char> {
    "if wm == nil then print('wm table does not exist')\nelseif wm.pointer == nil then print('wm.pointer table does not exist')\nelse\nlocal x, y = wm.pointer.get_position()\nprint('The cursor is at ' .. x .. ', ' .. y)\nend"@
}

/// The pointer-printing code as an executable string.
pub fn print_pointer_code() -> (c: String)
    ensures
        c@ == pointer_position_code(),
{
    String::from_str(
        "if wm == nil then print('wm table does not exist')\nelseif wm.pointer == nil then print('wm.pointer table does not exist')\nelse\nlocal x, y = wm.pointer.get_position()\nprint('The cursor is at ' .. x .. ', ' .. y)\nend",
    )
}

/// The `way_cooler_quit` command: ask the shell to terminate the
/// compositor.
pub fn way_cooler_quit() -> (e: Effect)
    ensures
        e == Effect::Terminate,
{
    Effect::Terminate
}

/// The `print_pointer` command: send the pointer-printing code to the
/// engine, fire-and-forget.
pub fn print_pointer() -> (e: Effect)
    ensures
        (e matches Effect::SendFireAndForget(q) && q matches ScriptQuery::Execute(c) && c@
            == pointer_position_code()),
{
    Effect::SendFireAndForget(ScriptQuery::Execute(print_pointer_code()))
}

/// The `way_cooler_restart` command: every registered key binding is
/// cleared first, and only then is the restart signal sent to the engine;
/// no response is awaited, and a failed send is reported, never escalated.
pub fn way_cooler_restart() -> (e: Effect)
    ensures
        e == Effect::ClearKeysThenRestart,
{
    Effect::ClearKeysThenRestart
}

/// The `dmenu_eval` command: run a picker session off the dispatch thread
/// and evaluate whatever text it captures.
pub fn dmenu_eval() -> (e: Effect)
    ensures
        e == Effect::LaunchPicker(PickerKind::EvalCode),
{
    Effect::LaunchPicker(PickerKind::EvalCode)
}

/// The `dmenu_lua_dofile` command: run a picker session off the dispatch
/// thread and evaluate its captured text as file input.
pub fn dmenu_lua_dofile() -> (e: Effect)
    ensures
        e == Effect::LaunchPicker(PickerKind::EvalFile),
{
    Effect::LaunchPicker(PickerKind::EvalFile)
}

} // verus!
