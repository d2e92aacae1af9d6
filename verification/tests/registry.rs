//! The command registry: registration, lookup and the not-found path.

use way_cooler_commands::handlers::Handler;
use way_cooler_commands::registry::CommandError;
use way_cooler_commands::registry::CommandRegistry;

#[test]
fn distinct_names_call_own_handler() {
    let mut reg = CommandRegistry::new();
    reg.register("alpha".to_string(), Handler::Quit);
    reg.register("beta".to_string(), Handler::DmenuEval);
    assert_eq!(reg.invoke("alpha"), Ok(&Handler::Quit));
    assert_eq!(reg.invoke("beta"), Ok(&Handler::DmenuEval));
}

#[test]
fn last_registration_wins() {
    let mut reg = CommandRegistry::new();
    reg.register("greet".to_string(), Handler::ScriptExecute("print('a')".to_string()));
    reg.register("greet".to_string(), Handler::ScriptExecute("print('b')".to_string()));
    assert_eq!(
        reg.invoke("greet"),
        Ok(&Handler::ScriptExecute("print('b')".to_string()))
    );
}

#[test]
fn unknown_name_is_command_not_found() {
    let mut reg = CommandRegistry::new();
    reg.register("known".to_string(), Handler::Quit);
    assert_eq!(reg.invoke("unknown"), Err(CommandError::CommandNotFound));
    assert_eq!(CommandRegistry::new().invoke("anything"), Err(CommandError::CommandNotFound));
}

#[test]
fn disjoint_registrations_survive_in_either_order() {
    let mut one = CommandRegistry::new();
    one.register("first".to_string(), Handler::SwitchWorkspace(1));
    one.register("second".to_string(), Handler::SwitchWorkspace(2));
    let mut two = CommandRegistry::new();
    two.register("second".to_string(), Handler::SwitchWorkspace(2));
    two.register("first".to_string(), Handler::SwitchWorkspace(1));
    for reg in [&one, &two] {
        assert_eq!(reg.invoke("first"), Ok(&Handler::SwitchWorkspace(1)));
        assert_eq!(reg.invoke("second"), Ok(&Handler::SwitchWorkspace(2)));
    }
}

#[test]
fn empty_query_name_is_looked_up_not_crashed() {
    let mut reg = CommandRegistry::new();
    reg.register("real".to_string(), Handler::Quit);
    assert_eq!(reg.invoke(""), Err(CommandError::CommandNotFound));
}
