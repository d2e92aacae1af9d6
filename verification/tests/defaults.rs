//! The default command set, dispatch, and the opportunistic tree policy.

use way_cooler_commands::defaults::register_defaults;
use way_cooler_commands::handlers::dispatch;
use way_cooler_commands::handlers::dmenu_eval;
use way_cooler_commands::handlers::dmenu_lua_dofile;
use way_cooler_commands::handlers::print_pointer;
use way_cooler_commands::handlers::way_cooler_quit;
use way_cooler_commands::handlers::way_cooler_restart;
use way_cooler_commands::handlers::Effect;
use way_cooler_commands::handlers::Handler;
use way_cooler_commands::handlers::LayoutCmd;
use way_cooler_commands::handlers::ModeCmd;
use way_cooler_commands::handlers::TreeOpKind;
use way_cooler_commands::picker::PickerKind;
use way_cooler_commands::registry::CommandError;
use way_cooler_commands::registry::CommandRegistry;
use way_cooler_commands::script::ScriptBridge;
use way_cooler_commands::script::ScriptQuery;
use way_cooler_commands::workspace::tree_attempt_outcome;
use way_cooler_commands::workspace::workspace_id_string;
use way_cooler_commands::workspace::TreeOutcome;

#[test]
fn workspace_commands_exist_for_every_digit_and_both_variants() {
    let mut reg = CommandRegistry::new();
    register_defaults(&mut reg);
    let mut found = 0;
    for d in 0u8..10u8 {
        let switch = format!("switch_workspace_{}", d);
        let moved = format!("move_to_workspace_{}", d);
        assert_eq!(reg.invoke(&switch), Ok(&Handler::SwitchWorkspace(d)));
        assert_eq!(reg.invoke(&moved), Ok(&Handler::MoveToWorkspace(d)));
        found += 2;
    }
    assert_eq!(found, 20);
}

#[test]
fn switch_workspace_5_with_busy_lock_mutates_nothing() {
    let mut reg = CommandRegistry::new();
    register_defaults(&mut reg);
    let effect = dispatch(&reg, "switch_workspace_5").unwrap();
    assert_eq!(effect, Effect::Workspace(TreeOpKind::SwitchTo, 5));
    // The tree lock is busy: the policy resolves to a silent skip, the
    // operation is never attempted, and the (model) workspace stays put.
    let mut current_workspace = "1".to_string();
    let lock_acquired = false;
    let outcome = tree_attempt_outcome(lock_acquired, false);
    assert_eq!(outcome, TreeOutcome::SkippedLockBusy);
    if lock_acquired {
        current_workspace = workspace_id_string(5);
    }
    assert_eq!(current_workspace, "1");
}

#[test]
fn acquired_lock_applies_or_reports() {
    assert_eq!(tree_attempt_outcome(true, true), TreeOutcome::Applied);
    assert_eq!(tree_attempt_outcome(true, false), TreeOutcome::OperationFailed);
    assert_eq!(workspace_id_string(0), "0");
    assert_eq!(workspace_id_string(9), "9");
}

#[test]
fn named_defaults_resolve_to_their_effects() {
    let mut reg = CommandRegistry::new();
    register_defaults(&mut reg);
    assert_eq!(dispatch(&reg, "way_cooler_quit"), Ok(Effect::Terminate));
    assert_eq!(dispatch(&reg, "way_cooler_restart"), Ok(Effect::ClearKeysThenRestart));
    assert_eq!(dispatch(&reg, "dmenu_eval"), Ok(Effect::LaunchPicker(PickerKind::EvalCode)));
    assert_eq!(
        dispatch(&reg, "dmenu_lua_dofile"),
        Ok(Effect::LaunchPicker(PickerKind::EvalFile))
    );
    match dispatch(&reg, "print_pointer").unwrap() {
        Effect::SendFireAndForget(ScriptQuery::Execute(code)) => {
            assert!(code.starts_with("if wm == nil then"));
            assert!(code.ends_with("end"));
        }
        other => panic!("print_pointer resolved to {:?}", other),
    }
    assert_eq!(
        dispatch(&reg, "horizontal_vertical_switch"),
        Ok(Effect::Layout(LayoutCmd::TileSwitch))
    );
    assert_eq!(dispatch(&reg, "close_window"), Ok(Effect::Layout(LayoutCmd::RemoveActive)));
    assert_eq!(dispatch(&reg, "lock_screen"), Ok(Effect::Mode(ModeCmd::SpawnLockScreen)));
    assert_eq!(dispatch(&reg, "no_such_command"), Err(CommandError::CommandNotFound));
}

#[test]
fn command_functions_name_their_effects() {
    assert_eq!(way_cooler_quit(), Effect::Terminate);
    assert_eq!(way_cooler_restart(), Effect::ClearKeysThenRestart);
    assert_eq!(dmenu_eval(), Effect::LaunchPicker(PickerKind::EvalCode));
    assert_eq!(dmenu_lua_dofile(), Effect::LaunchPicker(PickerKind::EvalFile));
    match print_pointer() {
        Effect::SendFireAndForget(ScriptQuery::Execute(code)) => {
            assert!(code.contains("wm.pointer.get_position()"));
        }
        other => panic!("print_pointer resolved to {:?}", other),
    }
}

#[test]
fn greet_handler_reaches_the_engine_exactly_once() {
    let mut reg = CommandRegistry::new();
    register_defaults(&mut reg);
    reg.register(
        "greet".to_string(),
        Handler::ScriptExecute("print('hi')".to_string()),
    );
    // Invoking resolves immediately: nothing below blocks on the engine.
    let effect = dispatch(&reg, "greet").unwrap();
    let query = match effect {
        Effect::SendFireAndForget(q) => q,
        other => panic!("greet resolved to {:?}", other),
    };
    let mut bridge = ScriptBridge::new();
    assert!(bridge.has_ticket_capacity());
    // Fire-and-forget: the ticket is discarded without awaiting.
    let _ = bridge.send(query).unwrap();
    let seen = bridge.engine_take_next().unwrap();
    assert_eq!(seen.query, ScriptQuery::Execute("print('hi')".to_string()));
    assert_eq!(bridge.engine_take_next(), None);
}

#[test]
fn config_overrides_a_default_silently() {
    let mut reg = CommandRegistry::new();
    register_defaults(&mut reg);
    reg.register("way_cooler_quit".to_string(), Handler::Mode(ModeCmd::SpawnLockScreen));
    assert_eq!(dispatch(&reg, "way_cooler_quit"), Ok(Effect::Mode(ModeCmd::SpawnLockScreen)));
}
