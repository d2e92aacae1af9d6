//! Picker sessions: the plan handed to the worker thread and the forwarded
//! query.

use way_cooler_commands::picker::forward_query;
use way_cooler_commands::picker::picker_plan;
use way_cooler_commands::picker::PickerKind;
use way_cooler_commands::picker::PRIMING_BYTE;
use way_cooler_commands::script::ScriptQuery;

#[test]
fn plan_spawns_dmenu_with_the_right_prompt() {
    let code_plan = picker_plan(PickerKind::EvalCode);
    assert_eq!(code_plan.program, "dmenu");
    assert_eq!(code_plan.prompt_flag, "-p");
    assert_eq!(code_plan.prompt, "Eval Lua code");
    assert_eq!(code_plan.priming_byte, b'\n');
    let file_plan = picker_plan(PickerKind::EvalFile);
    assert_eq!(file_plan.program, "dmenu");
    assert_eq!(file_plan.prompt_flag, "-p");
    assert_eq!(file_plan.prompt, "Eval Lua file");
    assert_eq!(file_plan.priming_byte, PRIMING_BYTE);
}

#[test]
fn empty_picker_output_forwards_an_empty_query_not_an_error() {
    assert_eq!(
        forward_query(PickerKind::EvalCode, String::new()),
        ScriptQuery::Execute(String::new())
    );
}

#[test]
fn captured_text_is_forwarded_verbatim() {
    assert_eq!(
        forward_query(PickerKind::EvalCode, "print(1)".to_string()),
        ScriptQuery::Execute("print(1)".to_string())
    );
    assert_eq!(
        forward_query(PickerKind::EvalFile, "init.lua".to_string()),
        ScriptQuery::ExecFile("init.lua".to_string())
    );
}
