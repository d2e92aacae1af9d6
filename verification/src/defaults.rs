//! Registration of the default commands.
//!
//! Five named commands (quit, pointer printing, the two picker commands and
//! restart), one switch and one move command per workspace digit `0`..`9`
//! built by a single factory rather than twenty hand-written handlers, and
//! the layout and mode delegations.  Some of these will later be registered
//! dynamically from configuration; the last-registration-wins policy of the
//! registry makes such overrides silent.

use vstd::prelude::*;
use vstd::string::StringExecFns;
use crate::handlers::Handler;
use crate::handlers::LayoutCmd;
use crate::handlers::ModeCmd;
use crate::handlers::pointer_position_code;
use crate::handlers::print_pointer_code;
use crate::registry::CommandRegistry;
use crate::workspace::digit_char;

verus! {

/// The name of the command switching to workspace `d`.
pub open spec fn switch_workspace_name(d: u8) -> Seq<char> {
    "switch_workspace_"@.push(digit_char(d))
}

/// The name of the command moving the active window to workspace `d`.
pub open spec fn move_to_workspace_name(d: u8) -> Seq<char> {
    "move_to_workspace_"@.push(digit_char(d))
}

/// The five named default commands stand in the mapping.
pub open spec fn core_defaults_registered(m: Map<Seq<char>, Handler>) -> bool {
    &&& m.contains_key("way_cooler_quit"@) && m["way_cooler_quit"@] == Handler::Quit
    &&& m.contains_key("print_pointer"@) && m["print_pointer"@] is ScriptExecute
        && m["print_pointer"@]->ScriptExecute_0@ == pointer_position_code()
    &&& m.contains_key("dmenu_eval"@) && m["dmenu_eval"@] == Handler::DmenuEval
    &&& m.contains_key("way_cooler_restart"@) && m["way_cooler_restart"@] == Handler::Restart
    &&& m.contains_key("dmenu_lua_dofile"@) && m["dmenu_lua_dofile"@] == Handler::DmenuLuaDofile
}

/// Both workspace commands stand in the mapping for every digit.
pub open spec fn workspace_defaults_registered(m: Map<Seq<char>, Handler>) -> bool {
    forall|d: u8|
        d <= 9 ==> ({
            &&& m.contains_key(#[trigger] switch_workspace_name(d))
            &&& m[switch_workspace_name(d)] == Handler::SwitchWorkspace(d)
            &&& m.contains_key(move_to_workspace_name(d))
            &&& m[move_to_workspace_name(d)] == Handler::MoveToWorkspace(d)
        })
}

/// The tiling and window commands stand in the mapping.
pub open spec fn layout_defaults_registered(m: Map<Seq<char>, Handler>) -> bool {
    &&& m.contains_key("horizontal_vertical_switch"@) && m["horizontal_vertical_switch"@]
        == Handler::Layout(LayoutCmd::TileSwitch)
    &&& m.contains_key("split_vertical"@) && m["split_vertical"@] == Handler::Layout(
        LayoutCmd::SplitVertical,
    )
    &&& m.contains_key("split_horizontal"@) && m["split_horizontal"@] == Handler::Layout(
        LayoutCmd::SplitHorizontal,
    )
    &&& m.contains_key("tile_tabbed"@) && m["tile_tabbed"@] == Handler::Layout(
        LayoutCmd::TileTabbed,
    )
    &&& m.contains_key("tile_stacked"@) && m["tile_stacked"@] == Handler::Layout(
        LayoutCmd::TileStacked,
    )
    &&& m.contains_key("fullscreen_toggle"@) && m["fullscreen_toggle"@] == Handler::Layout(
        LayoutCmd::FullscreenToggle,
    )
    &&& m.contains_key("focus_left"@) && m["focus_left"@] == Handler::Layout(LayoutCmd::FocusLeft)
    &&& m.contains_key("focus_right"@) && m["focus_right"@] == Handler::Layout(
        LayoutCmd::FocusRight,
    )
    &&& m.contains_key("focus_up"@) && m["focus_up"@] == Handler::Layout(LayoutCmd::FocusUp)
    &&& m.contains_key("focus_down"@) && m["focus_down"@] == Handler::Layout(LayoutCmd::FocusDown)
    &&& m.contains_key("move_active_left"@) && m["move_active_left"@] == Handler::Layout(
        LayoutCmd::MoveActiveLeft,
    )
    &&& m.contains_key("move_active_right"@) && m["move_active_right"@] == Handler::Layout(
        LayoutCmd::MoveActiveRight,
    )
    &&& m.contains_key("move_active_up"@) && m["move_active_up"@] == Handler::Layout(
        LayoutCmd::MoveActiveUp,
    )
    &&& m.contains_key("move_active_down"@) && m["move_active_down"@] == Handler::Layout(
        LayoutCmd::MoveActiveDown,
    )
    &&& m.contains_key("close_window"@) && m["close_window"@] == Handler::Layout(
        LayoutCmd::RemoveActive,
    )
    &&& m.contains_key("toggle_float_active"@) && m["toggle_float_active"@] == Handler::Layout(
        LayoutCmd::ToggleFloat,
    )
    &&& m.contains_key("toggle_float_focus"@) && m["toggle_float_focus"@] == Handler::Layout(
        LayoutCmd::ToggleFloatFocus,
    )
}

/// The mode commands stand in the mapping.
pub open spec fn mode_defaults_registered(m: Map<Seq<char>, Handler>) -> bool {
    &&& m.contains_key("default_mode"@) && m["default_mode"@] == Handler::Mode(
        ModeCmd::SetDefaultMode,
    )
    &&& m.contains_key("custom_mode"@) && m["custom_mode"@] == Handler::Mode(
        ModeCmd::SetCustomMode,
    )
    &&& m.contains_key("lock_screen"@) && m["lock_screen"@] == Handler::Mode(
        ModeCmd::SpawnLockScreen,
    )
}

/// Whether `k` names one of the default commands.
pub open spec fn is_default_command_name(k: Seq<char>) -> bool {
    ||| k == "way_cooler_quit"@
    ||| k == "print_pointer"@
    ||| k == "dmenu_eval"@
    ||| k == "way_cooler_restart"@
    ||| k == "dmenu_lua_dofile"@
    ||| k == "horizontal_vertical_switch"@
    ||| k == "split_vertical"@
    ||| k == "split_horizontal"@
    ||| k == "tile_tabbed"@
    ||| k == "tile_stacked"@
    ||| k == "fullscreen_toggle"@
    ||| k == "focus_left"@
    ||| k == "focus_right"@
    ||| k == "focus_up"@
    ||| k == "focus_down"@
    ||| k == "move_active_left"@
    ||| k == "move_active_right"@
    ||| k == "move_active_up"@
    ||| k == "move_active_down"@
    ||| k == "close_window"@
    ||| k == "toggle_float_active"@
    ||| k == "toggle_float_focus"@
    ||| k == "default_mode"@
    ||| k == "custom_mode"@
    ||| k == "lock_screen"@
    ||| (exists|d: u8| d <= 9 && k == switch_workspace_name(d))
    ||| (exists|d: u8| d <= 9 && k == move_to_workspace_name(d))
}

proof fn lemma_reveal_default_literals()
    ensures
        "way_cooler_quit"@.len() == 15,
        "print_pointer"@.len() == 13,
        "dmenu_eval"@.len() == 10,
        "way_cooler_restart"@.len() == 18,
        "dmenu_lua_dofile"@.len() == 16,
        "horizontal_vertical_switch"@.len() == 26,
        "split_vertical"@.len() == 14,
        "split_horizontal"@.len() == 16,
        "tile_tabbed"@.len() == 11,
        "tile_stacked"@.len() == 12,
        "fullscreen_toggle"@.len() == 17,
        "focus_left"@.len() == 10,
        "focus_right"@.len() == 11,
        "focus_up"@.len() == 8,
        "focus_down"@.len() == 10,
        "move_active_left"@.len() == 16,
        "move_active_right"@.len() == 17,
        "move_active_up"@.len() == 14,
        "move_active_down"@.len() == 16,
        "close_window"@.len() == 12,
        "toggle_float_active"@.len() == 19,
        "toggle_float_focus"@.len() == 18,
        "default_mode"@.len() == 12,
        "custom_mode"@.len() == 11,
        "lock_screen"@.len() == 11,
        "switch_workspace_"@.len() == 17,
        "move_to_workspace_"@.len() == 18,
        "way_cooler_quit"@[0] == 'w',
        "print_pointer"@[0] == 'p',
        "dmenu_eval"@[0] == 'd',
        "way_cooler_restart"@[0] == 'w',
        "dmenu_lua_dofile"@[0] == 'd',
        "horizontal_vertical_switch"@[0] == 'h',
        "split_vertical"@[0] == 's',
        "split_horizontal"@[0] == 's',
        "tile_tabbed"@[0] == 't',
        "tile_stacked"@[0] == 't',
        "fullscreen_toggle"@[0] == 'f',
        "focus_left"@[0] == 'f',
        "focus_right"@[0] == 'f',
        "focus_up"@[0] == 'f',
        "focus_down"@[0] == 'f',
        "move_active_left"@[0] == 'm',
        "move_active_right"@[0] == 'm',
        "move_active_up"@[0] == 'm',
        "move_active_down"@[0] == 'm',
        "close_window"@[0] == 'c',
        "toggle_float_active"@[0] == 't',
        "toggle_float_focus"@[0] == 't',
        "default_mode"@[0] == 'd',
        "custom_mode"@[0] == 'c',
        "lock_screen"@[0] == 'l',
        "switch_workspace_"@[0] == 's',
        "move_to_workspace_"@[0] == 'm',
        "focus_left"@[6] == 'l',
        "focus_down"@[6] == 'd',
        "move_active_left"@[12] == 'l',
        "move_active_down"@[12] == 'd',
{
    reveal_strlit("way_cooler_quit");
    reveal_strlit("print_pointer");
    reveal_strlit("dmenu_eval");
    reveal_strlit("way_cooler_restart");
    reveal_strlit("dmenu_lua_dofile");
    reveal_strlit("horizontal_vertical_switch");
    reveal_strlit("split_vertical");
    reveal_strlit("split_horizontal");
    reveal_strlit("tile_tabbed");
    reveal_strlit("tile_stacked");
    reveal_strlit("fullscreen_toggle");
    reveal_strlit("focus_left");
    reveal_strlit("focus_right");
    reveal_strlit("focus_up");
    reveal_strlit("focus_down");
    reveal_strlit("move_active_left");
    reveal_strlit("move_active_right");
    reveal_strlit("move_active_up");
    reveal_strlit("move_active_down");
    reveal_strlit("close_window");
    reveal_strlit("toggle_float_active");
    reveal_strlit("toggle_float_focus");
    reveal_strlit("default_mode");
    reveal_strlit("custom_mode");
    reveal_strlit("lock_screen");
    reveal_strlit("switch_workspace_");
    reveal_strlit("move_to_workspace_");
}

/// None of the fixed default names is a workspace command name: the
/// workspace names have lengths 18 and 19, and the fixed names of those
/// lengths start with another character.
proof fn lemma_fixed_names_not_workspace(d: u8)
    requires
        d <= 9,
    ensures
        "way_cooler_quit"@ != switch_workspace_name(d) && "way_cooler_quit"@
            != move_to_workspace_name(d),
        "print_pointer"@ != switch_workspace_name(d) && "print_pointer"@
            != move_to_workspace_name(d),
        "dmenu_eval"@ != switch_workspace_name(d) && "dmenu_eval"@ != move_to_workspace_name(d),
        "way_cooler_restart"@ != switch_workspace_name(d) && "way_cooler_restart"@
            != move_to_workspace_name(d),
        "dmenu_lua_dofile"@ != switch_workspace_name(d) && "dmenu_lua_dofile"@
            != move_to_workspace_name(d),
        "horizontal_vertical_switch"@ != switch_workspace_name(d) && "horizontal_vertical_switch"@
            != move_to_workspace_name(d),
        "split_vertical"@ != switch_workspace_name(d) && "split_vertical"@
            != move_to_workspace_name(d),
        "split_horizontal"@ != switch_workspace_name(d) && "split_horizontal"@
            != move_to_workspace_name(d),
        "tile_tabbed"@ != switch_workspace_name(d) && "tile_tabbed"@ != move_to_workspace_name(d),
        "tile_stacked"@ != switch_workspace_name(d) && "tile_stacked"@ != move_to_workspace_name(
            d,
        ),
        "fullscreen_toggle"@ != switch_workspace_name(d) && "fullscreen_toggle"@
            != move_to_workspace_name(d),
        "focus_left"@ != switch_workspace_name(d) && "focus_left"@ != move_to_workspace_name(d),
        "focus_right"@ != switch_workspace_name(d) && "focus_right"@ != move_to_workspace_name(d),
        "focus_up"@ != switch_workspace_name(d) && "focus_up"@ != move_to_workspace_name(d),
        "focus_down"@ != switch_workspace_name(d) && "focus_down"@ != move_to_workspace_name(d),
        "move_active_left"@ != switch_workspace_name(d) && "move_active_left"@
            != move_to_workspace_name(d),
        "move_active_right"@ != switch_workspace_name(d) && "move_active_right"@
            != move_to_workspace_name(d),
        "move_active_up"@ != switch_workspace_name(d) && "move_active_up"@
            != move_to_workspace_name(d),
        "move_active_down"@ != switch_workspace_name(d) && "move_active_down"@
            != move_to_workspace_name(d),
        "close_window"@ != switch_workspace_name(d) && "close_window"@ != move_to_workspace_name(
            d,
        ),
        "toggle_float_active"@ != switch_workspace_name(d) && "toggle_float_active"@
            != move_to_workspace_name(d),
        "toggle_float_focus"@ != switch_workspace_name(d) && "toggle_float_focus"@
            != move_to_workspace_name(d),
        "default_mode"@ != switch_workspace_name(d) && "default_mode"@ != move_to_workspace_name(
            d,
        ),
        "custom_mode"@ != switch_workspace_name(d) && "custom_mode"@ != move_to_workspace_name(d),
        "lock_screen"@ != switch_workspace_name(d) && "lock_screen"@ != move_to_workspace_name(d),
{
    lemma_reveal_default_literals();
    assert(switch_workspace_name(d).len() == 18);
    assert(move_to_workspace_name(d).len() == 19);
    assert(switch_workspace_name(d)[0] == 's');
    assert(move_to_workspace_name(d)[0] == 'm');
}

/// Workspace command names collide neither across digits nor across the
/// switch and move families.
proof fn lemma_workspace_name_pairs(a: u8, b: u8)
    requires
        a <= 9,
        b <= 9,
    ensures
        a != b ==> switch_workspace_name(a) != switch_workspace_name(b),
        a != b ==> move_to_workspace_name(a) != move_to_workspace_name(b),
        switch_workspace_name(a) != move_to_workspace_name(b),
{
    lemma_reveal_default_literals();
    assert(switch_workspace_name(a).len() == 18);
    assert(move_to_workspace_name(b).len() == 19);
    if a != b {
        crate::workspace::lemma_digit_char_injective(a, b);
        assert(switch_workspace_name(a)[17] == digit_char(a));
        assert(switch_workspace_name(b)[17] == digit_char(b));
        assert(move_to_workspace_name(a)[18] == digit_char(a));
        assert(move_to_workspace_name(b)[18] == digit_char(b));
    }
}

/// The factory for one workspace command name: the family prefix with the
/// digit's label appended.
fn workspace_command_name(prefix: &str, d: u8) -> (r: String)
    requires
        d <= 9,
    ensures
        r@ == prefix@.push(digit_char(d)),
{
    let mut s = String::from_str(prefix);
    s.append(crate::workspace::digit_label(d));
    proof {
        assert(s@ =~= prefix@.push(digit_char(d)));
    }
    s
}

fn register_named(reg: &mut CommandRegistry, name: &str, handler: Handler)
    requires
        name@.len() > 0,
    ensures
        final(reg)@ == old(reg)@.insert(name@, handler),
{
    reg.register(String::from_str(name), handler);
}

/// Register the default commands in the registry: the five named commands,
/// the twenty workspace commands, and the layout and mode delegations.
/// Only default names are touched; whatever else the registry held stays
/// exactly as it was.
pub fn register_defaults(reg: &mut CommandRegistry)
    ensures
        core_defaults_registered(final(reg)@),
        workspace_defaults_registered(final(reg)@),
        layout_defaults_registered(final(reg)@),
        mode_defaults_registered(final(reg)@),
        forall|k: Seq<char>| old(reg)@.contains_key(k) ==> final(reg)@.contains_key(k),
        forall|k: Seq<char>| #[trigger]
            final(reg)@.contains_key(k) ==> old(reg)@.contains_key(k) || is_default_command_name(
                k,
            ),
        forall|k: Seq<char>|
            old(reg)@.contains_key(k) && !is_default_command_name(k) ==> final(reg)@[k] == old(
                reg,
            )@[k],
{
    proof {
        lemma_reveal_default_literals();
    }
    register_named(reg, "way_cooler_quit", Handler::Quit);
    register_named(reg, "print_pointer", Handler::ScriptExecute(print_pointer_code()));
    register_named(reg, "dmenu_eval", Handler::DmenuEval);
    register_named(reg, "way_cooler_restart", Handler::Restart);
    register_named(reg, "dmenu_lua_dofile", Handler::DmenuLuaDofile);

    register_named(reg, "horizontal_vertical_switch", Handler::Layout(LayoutCmd::TileSwitch));
    register_named(reg, "split_vertical", Handler::Layout(LayoutCmd::SplitVertical));
    register_named(reg, "split_horizontal", Handler::Layout(LayoutCmd::SplitHorizontal));
    register_named(reg, "tile_tabbed", Handler::Layout(LayoutCmd::TileTabbed));
    register_named(reg, "tile_stacked", Handler::Layout(LayoutCmd::TileStacked));
    register_named(reg, "fullscreen_toggle", Handler::Layout(LayoutCmd::FullscreenToggle));
    register_named(reg, "focus_left", Handler::Layout(LayoutCmd::FocusLeft));
    register_named(reg, "focus_right", Handler::Layout(LayoutCmd::FocusRight));
    register_named(reg, "focus_up", Handler::Layout(LayoutCmd::FocusUp));
    register_named(reg, "focus_down", Handler::Layout(LayoutCmd::FocusDown));
    register_named(reg, "move_active_left", Handler::Layout(LayoutCmd::MoveActiveLeft));
    register_named(reg, "move_active_right", Handler::Layout(LayoutCmd::MoveActiveRight));
    register_named(reg, "move_active_up", Handler::Layout(LayoutCmd::MoveActiveUp));
    register_named(reg, "move_active_down", Handler::Layout(LayoutCmd::MoveActiveDown));
    register_named(reg, "close_window", Handler::Layout(LayoutCmd::RemoveActive));
    register_named(reg, "toggle_float_active", Handler::Layout(LayoutCmd::ToggleFloat));
    register_named(reg, "toggle_float_focus", Handler::Layout(LayoutCmd::ToggleFloatFocus));

    register_named(reg, "default_mode", Handler::Mode(ModeCmd::SetDefaultMode));
    register_named(reg, "custom_mode", Handler::Mode(ModeCmd::SetCustomMode));
    register_named(reg, "lock_screen", Handler::Mode(ModeCmd::SpawnLockScreen));

    let mut d: u8 = 0;
    while d < 10
        invariant
            d <= 10,
            core_defaults_registered(reg@),
            layout_defaults_registered(reg@),
            mode_defaults_registered(reg@),
            forall|e: u8|
                e < d ==> ({
                    &&& reg@.contains_key(#[trigger] switch_workspace_name(e))
                    &&& reg@[switch_workspace_name(e)] == Handler::SwitchWorkspace(e)
                    &&& reg@.contains_key(move_to_workspace_name(e))
                    &&& reg@[move_to_workspace_name(e)] == Handler::MoveToWorkspace(e)
                }),
            forall|k: Seq<char>| old(reg)@.contains_key(k) ==> reg@.contains_key(k),
            forall|k: Seq<char>| #[trigger]
                reg@.contains_key(k) ==> old(reg)@.contains_key(k) || is_default_command_name(k),
            forall|k: Seq<char>|
                old(reg)@.contains_key(k) && !is_default_command_name(k) ==> reg@[k] == old(
                    reg,
                )@[k],
        decreases 10 - d,
    {
        let sname = workspace_command_name("switch_workspace_", d);
        let mname = workspace_command_name("move_to_workspace_", d);
        proof {
            lemma_fixed_names_not_workspace(d);
            assert forall|e: u8| e < d implies switch_workspace_name(e) != switch_workspace_name(d)
                && switch_workspace_name(e) != move_to_workspace_name(d)
                && move_to_workspace_name(e) != switch_workspace_name(d)
                && move_to_workspace_name(e) != move_to_workspace_name(d) by {
                lemma_workspace_name_pairs(e, d);
                lemma_workspace_name_pairs(d, e);
            }
            lemma_workspace_name_pairs(d, d);
            assert(is_default_command_name(switch_workspace_name(d)));
            assert(is_default_command_name(move_to_workspace_name(d)));
        }
        reg.register(sname, Handler::SwitchWorkspace(d));
        reg.register(mname, Handler::MoveToWorkspace(d));
        d = d + 1;
    }
}

} // verus!
