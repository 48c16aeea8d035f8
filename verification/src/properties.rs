//! Properties of the library as a whole: of command lines, validation, merges,
//! extraction and the two screens.

use vstd::prelude::*;
use crate::app::{
    active_indices, active_param_index, default_toggled, editing_step, key_action, key_step,
    after_load, lemma_active_indices, normal_step, param_added, param_deleted, training_args, ActionModel,
    AppModel, InputMode, Tab,
};
use crate::config::{
    arg_of, command_of, config_from_params, deprecated_fields, fresh_names,
    has_field_named, inherited_names, last_named, lemma_last_named, merged_fields,
    path_query, type_from_name, validation_of, ConfigModel, FieldModel, ParamType, WarningModel,
};
use crate::input::Key;
use crate::mode_selection::{selector_step, tilde_expanded, SelectorModel};
use crate::parser::{
    argument_blocks, argument_blocks_from, argument_list_end, argument_spans_from, block_param,
    call_opening, closing_paren,
    first_group, group_text, lemma_closing_paren_bounds, param_of_block, params_of_blocks, params_of_script,
    regex_captures, ParamModel, NAME_PATTERN,
};
use crate::text::{
    contains_seq, first_occurrence, lemma_first_occurrence, lemma_occurrences_monotone,
    lemma_trim_leading, lowercased, occurrences_from, occurs_at, trim_leading, trimmed,
};
use crate::literals::{is_float_text, is_i64_text};

verus! {

/// A parameter that keeps the script's default gives no command-line argument.
pub proof fn law_default_gives_no_argument(f: FieldModel)
    requires
        f.use_default,
    ensures
        arg_of(f) is None,
{
}

/// An empty value is never warned about, whatever the file system holds.
pub proof fn law_empty_value_is_accepted(f: FieldModel, path_exists: bool)
    requires
        f.value.len() == 0,
    ensures
        validation_of(f, path_exists) is None,
{
}

/// Validation depends on the file system only for a parameter that has a path
/// to ask about: a path parameter with a nonempty value.
pub proof fn law_only_paths_ask_the_file_system(f: FieldModel)
    requires
        path_query(f) is None,
    ensures
        validation_of(f, true) == validation_of(f, false),
{
}

/// Every command line starts with the interpreter, a space and the script.
pub proof fn law_command_starts_with_program(
    python: Seq<char>,
    script: Seq<char>,
    fs: Seq<FieldModel>,
)
    ensures
        (python + " "@ + script).is_prefix_of(command_of(python, script, fs)),
    decreases fs.len(),
{
    if fs.len() > 0 {
        law_command_starts_with_program(python, script, fs.drop_last());
        let rest = command_of(python, script, fs.drop_last());
        match arg_of(fs.last()) {
            Some(a) => {
                assert((rest + " "@ + a).take(rest.len() as int) =~= rest);
            },
            None => {},
        }
    } else {
        assert((python + " "@ + script).is_prefix_of(python + " "@ + script));
    }
}

/// When every parameter keeps the script's default, the command line is the
/// interpreter and the script alone.
pub proof fn law_defaults_give_bare_command(python: Seq<char>, script: Seq<char>, fs: Seq<FieldModel>)
    requires
        forall|i: int| 0 <= i < fs.len() ==> (#[trigger] fs[i]).use_default,
    ensures
        command_of(python, script, fs) == python + " "@ + script,
    decreases fs.len(),
{
    if fs.len() > 0 {
        assert(fs.last().use_default);
        assert forall|i: int| 0 <= i < fs.drop_last().len() implies (
        #[trigger] fs.drop_last()[i]).use_default by {
            assert(fs.drop_last()[i] == fs[i]);
        }
        law_defaults_give_bare_command(python, script, fs.drop_last());
    }
}

/// Every parameter type survives the trip through its printed name.
pub proof fn law_type_name_roundtrip(t: ParamType)
    ensures
        type_from_name(t.label()) == t,
{
    reveal_strlit("Float");
    reveal_strlit("Integer");
    reveal_strlit("String");
    reveal_strlit("Boolean");
    reveal_strlit("Path");
    assert("Boolean"@[0] != "Integer"@[0]);
    match t {
        ParamType::Float => {
            assert("Float"@.len() != "Integer"@.len());
        },
        ParamType::Integer => {},
        ParamType::String => {
            assert("String"@.len() != "Integer"@.len());
            assert("String"@.len() != "Float"@.len());
            assert("String"@.len() != "Boolean"@.len());
            assert("String"@.len() != "Path"@.len());
        },
        ParamType::Boolean => {
            assert("Boolean"@ != "Integer"@);
            assert("Boolean"@.len() != "Float"@.len());
        },
        ParamType::Path => {
            assert("Path"@.len() != "Integer"@.len());
            assert("Path"@.len() != "Float"@.len());
            assert("Path"@.len() != "Boolean"@.len());
        },
    }
}

/// A configuration made of extracted parameters has one field per parameter,
/// in order, with its name, value and help text, keeping the script's default.
pub proof fn law_extracted_fields_keep_defaults(ps: Seq<ParamModel>)
    ensures
        config_from_params(ps).params.len() == ps.len(),
        forall|i: int|
            0 <= i < ps.len() ==> {
                let f = #[trigger] config_from_params(ps).params[i];
                &&& f.name == ps[i].name
                &&& f.value == ps[i].value
                &&& f.description == ps[i].description
                &&& f.use_default
            },
{
}

/// A merge keeps the parameters of the new configuration, in order, with their
/// names, types and help texts; a parameter that the old configuration also has
/// takes the value and the `use_default` flag of the last one of that name
/// there; any other keeps its own.
pub proof fn law_merge_keeps_new_parameters(old: Seq<FieldModel>, new: Seq<FieldModel>)
    ensures
        merged_fields(old, new).len() == new.len(),
        forall|i: int|
            0 <= i < new.len() ==> {
                let m = #[trigger] merged_fields(old, new)[i];
                &&& m.name == new[i].name
                &&& m.param_type == new[i].param_type
                &&& m.description == new[i].description
                &&& match last_named(old, new[i].name) {
                    Some(j) => 0 <= j < old.len() && old[j].name == new[i].name && m.value
                        == old[j].value && m.use_default == old[j].use_default && forall|k: int|
                        j < k < old.len() ==> old[k].name != new[i].name,
                    None => !has_field_named(old, new[i].name) && m.value == new[i].value
                        && m.use_default == new[i].use_default,
                }
            },
{
    assert forall|i: int| 0 <= i < new.len() implies {
        let m = #[trigger] merged_fields(old, new)[i];
        &&& m.name == new[i].name
        &&& m.param_type == new[i].param_type
        &&& m.description == new[i].description
        &&& match last_named(old, new[i].name) {
            Some(j) => 0 <= j < old.len() && old[j].name == new[i].name && m.value == old[j].value
                && m.use_default == old[j].use_default && forall|k: int|
                j < k < old.len() ==> old[k].name != new[i].name,
            None => !has_field_named(old, new[i].name) && m.value == new[i].value && m.use_default
                == new[i].use_default,
        }
    } by {
        lemma_last_named(old, new[i].name);
    }
}

/// The number of fields of `new` whose names `old` has.
pub open spec fn count_known(old: Seq<FieldModel>, new: Seq<FieldModel>) -> nat
    decreases new.len(),
{
    if new.len() == 0 {
        0
    } else {
        count_known(old, new.drop_last()) + if has_field_named(old, new.last().name) {
            1nat
        } else {
            0nat
        }
    }
}

/// The inherited names and the new names of a merge split the parameters of the
/// new configuration: as many of the first as it has parameters known to the old
/// configuration, all the others in the second, each known name in the first and
/// each unknown one in the second.
pub proof fn law_merge_splits_names(old: Seq<FieldModel>, new: Seq<FieldModel>)
    ensures
        inherited_names(old, new).len() == count_known(old, new),
        inherited_names(old, new).len() + fresh_names(old, new).len() == new.len(),
        forall|i: int|
            0 <= i < inherited_names(old, new).len() ==> has_field_named(
                old,
                #[trigger] inherited_names(old, new)[i],
            ),
        forall|i: int|
            0 <= i < fresh_names(old, new).len() ==> !has_field_named(
                old,
                #[trigger] fresh_names(old, new)[i],
            ),
    decreases new.len(),
{
    if new.len() > 0 {
        law_merge_splits_names(old, new.drop_last());
        let a = inherited_names(old, new.drop_last());
        let b = fresh_names(old, new.drop_last());
        assert(inherited_names(old, new) == if has_field_named(old, new.last().name) {
            a + seq![new.last().name]
        } else {
            a
        });
        assert(fresh_names(old, new) == if has_field_named(old, new.last().name) {
            b
        } else {
            b + seq![new.last().name]
        });
    }
}

/// The deprecated parameters of a merge are the fields of the old configuration
/// whose names the new one lacks: each of them is one, and each such field of
/// the old configuration is among them.
pub proof fn law_merge_deprecates_dropped(old: Seq<FieldModel>, new: Seq<FieldModel>)
    ensures
        forall|i: int|
            0 <= i < deprecated_fields(old, new).len() ==> !has_field_named(
                new,
                (#[trigger] deprecated_fields(old, new)[i]).name,
            ) && old.contains(deprecated_fields(old, new)[i]),
        forall|j: int|
            0 <= j < old.len() && !has_field_named(new, (#[trigger] old[j]).name)
                ==> deprecated_fields(old, new).contains(old[j]),
    decreases old.len(),
{
    if old.len() > 0 {
        law_merge_deprecates_dropped(old.drop_last(), new);
        let d = deprecated_fields(old.drop_last(), new);
        assert(deprecated_fields(old, new) == if has_field_named(new, old.last().name) {
            d
        } else {
            d + seq![old.last()]
        });
        assert forall|i: int| 0 <= i < deprecated_fields(old, new).len() implies !has_field_named(
            new,
            (#[trigger] deprecated_fields(old, new)[i]).name,
        ) && old.contains(deprecated_fields(old, new)[i]) by {
            if i < d.len() {
                let k = choose|k: int| 0 <= k < old.drop_last().len() && old.drop_last()[k] == d[i];
                assert(old[k] == d[i]);
            } else {
                assert(old[old.len() - 1] == old.last());
            }
        }
        assert forall|j: int|
            0 <= j < old.len() && !has_field_named(new, (#[trigger] old[j]).name) implies deprecated_fields(
            old,
            new,
        ).contains(old[j]) by {
            if j < old.len() - 1 {
                assert(old.drop_last()[j] == old[j]);
                let k = choose|k: int| 0 <= k < d.len() && d[k] == old[j];
                assert(deprecated_fields(old, new)[k] == old[j]);
            } else {
                assert(deprecated_fields(old, new)[d.len() as int] == old[j]);
            }
        }
    }
}

/// The names of the fields of `fs` are pairwise distinct.
pub open spec fn names_distinct(fs: Seq<FieldModel>) -> bool {
    forall|i: int, j: int| 0 <= i < j < fs.len() ==> fs[i].name != fs[j].name
}

/// Merging a configuration whose names are distinct into itself changes
/// nothing: every parameter keeps its value and flag, all are inherited, none is
/// new and none is deprecated.
pub proof fn law_merge_into_itself(fs: Seq<FieldModel>)
    requires
        names_distinct(fs),
    ensures
        merged_fields(fs, fs) == fs,
        fresh_names(fs, fs).len() == 0,
        inherited_names(fs, fs).len() == fs.len(),
        deprecated_fields(fs, fs).len() == 0,
{
    lemma_merge_into_itself_fields(fs);
    assert forall|i: int| 0 <= i < fs.len() implies has_field_named(fs, #[trigger] fs[i].name) by {
        assert(fs[i].name == fs[i].name);
    }
    law_merge_splits_names(fs, fs);
    lemma_all_known(fs, fs);
    lemma_nothing_dropped(fs);
}

/// Merging a configuration whose names are distinct into itself keeps its
/// fields.
proof fn lemma_merge_into_itself_fields(fs: Seq<FieldModel>)
    requires
        names_distinct(fs),
    ensures
        merged_fields(fs, fs) == fs,
{
    law_merge_keeps_new_parameters(fs, fs);
    assert forall|i: int| 0 <= i < fs.len() implies merged_fields(fs, fs)[i] == fs[i] by {
        lemma_last_named(fs, fs[i].name);
        assert(fs[i].name == fs[i].name);
        if last_named(fs, fs[i].name) is None {
            assert(has_field_named(fs, fs[i].name));
        }
    }
    assert(merged_fields(fs, fs) =~= fs);
}

/// A configuration drops none of its own fields.
proof fn lemma_nothing_dropped(fs: Seq<FieldModel>)
    ensures
        deprecated_fields(fs, fs).len() == 0,
{
    law_merge_deprecates_dropped(fs, fs);
    if deprecated_fields(fs, fs).len() > 0 {
        let f = deprecated_fields(fs, fs)[0];
        let k = choose|k: int| 0 <= k < fs.len() && fs[k] == f;
        assert(fs[k].name == f.name);
        assert(has_field_named(fs, f.name));
    }
}

/// When every name of `new` is known to `old`, all of them are counted.
proof fn lemma_all_known(old: Seq<FieldModel>, new: Seq<FieldModel>)
    requires
        forall|i: int| 0 <= i < new.len() ==> has_field_named(old, #[trigger] new[i].name),
    ensures
        count_known(old, new) == new.len(),
    decreases new.len(),
{
    if new.len() > 0 {
        assert(has_field_named(old, new[new.len() - 1].name));
        assert forall|i: int| 0 <= i < new.drop_last().len() implies has_field_named(
            old,
            #[trigger] new.drop_last()[i].name,
        ) by {
            assert(new.drop_last()[i] == new[i]);
        }
        lemma_all_known(old, new.drop_last());
    }
}

/// Merging into a configuration without parameters keeps the new parameters as
/// they are; all of them are new, none is inherited and none deprecated.
pub proof fn law_merge_into_empty(new: Seq<FieldModel>)
    ensures
        merged_fields(seq![], new) == new,
        inherited_names(seq![], new).len() == 0,
        fresh_names(seq![], new).len() == new.len(),
        deprecated_fields(seq![], new).len() == 0,
{
    law_merge_keeps_new_parameters(seq![], new);
    assert(merged_fields(seq![], new) =~= new);
    law_merge_splits_names(seq![], new);
    lemma_none_known(new);
}

/// No name is known to an empty configuration.
proof fn lemma_none_known(new: Seq<FieldModel>)
    ensures
        count_known(seq![], new) == 0,
    decreases new.len(),
{
    if new.len() > 0 {
        lemma_none_known(new.drop_last());
    }
}

/// A script without `add_argument(` declares no argument list.
pub proof fn law_no_call_no_blocks(s: Seq<char>)
    requires
        !contains_seq(s, call_opening()),
    ensures
        argument_blocks(s).len() == 0,
{
    lemma_first_occurrence(s, call_opening(), 0);
    if first_occurrence(s, call_opening(), 0) is Some {
        let i = first_occurrence(s, call_opening(), 0)->0;
        assert(occurs_at(s, call_opening(), i));
    }
}

/// The argument list at `span` is a call of `s` found at or after `start`: it
/// starts right after an `add_argument(`, holds the text `block`, and ends at
/// the parenthesis that closes the call, or is empty when the call is never
/// closed.
pub open spec fn call_span(s: Seq<char>, start: int, span: (int, int), block: Seq<char>) -> bool {
    let a = span.0;
    let e = span.1;
    &&& start + call_opening().len() <= a <= e <= s.len()
    &&& occurs_at(s, call_opening(), a - call_opening().len())
    &&& block == s.subrange(a, e)
    &&& match closing_paren(s, a, 1, false, false, ' ') {
        Some(c) => c == e && s[e] == ')',
        None => e == a,
    }
}

/// The argument lists are the calls of the script, in order: each starts right
/// after an `add_argument(`, ends at the parenthesis that closes the call (or is
/// empty when the call is never closed), and the next one opens after that end;
/// there are no more of them than calls.
pub proof fn law_blocks_are_calls(s: Seq<char>, start: int)
    requires
        0 <= start,
    ensures
        argument_spans_from(s, start).len() == argument_blocks_from(s, start).len(),
        argument_blocks_from(s, start).len() <= occurrences_from(s, call_opening(), start),
        forall|k: int|
            0 <= k < argument_spans_from(s, start).len() ==> call_span(
                s,
                start,
                #[trigger] argument_spans_from(s, start)[k],
                argument_blocks_from(s, start)[k],
            ),
        forall|k: int, l: int|
            0 <= k < l < argument_spans_from(s, start).len() ==> #[trigger] argument_spans_from(
                s,
                start,
            )[k].1 + call_opening().len() <= #[trigger] argument_spans_from(s, start)[l].0,
    decreases s.len() - start,
{
    match first_occurrence(s, call_opening(), start) {
        None => {},
        Some(idx) => {
            lemma_first_occurrence(s, call_opening(), start);
            let len = call_opening().len() as int;
            let a = idx + len;
            let e = argument_list_end(s, a);
            lemma_closing_paren_bounds(s, a, 1, false, false, ' ');
            law_blocks_are_calls(s, e);
            let sp = argument_spans_from(s, start);
            let bs = argument_blocks_from(s, start);
            let rsp = argument_spans_from(s, e);
            let rbs = argument_blocks_from(s, e);
            assert(sp == seq![(a, e)] + rsp);
            assert(bs == seq![s.subrange(a, e)] + rbs);
            lemma_occurrences_monotone(s, call_opening(), start, idx);
            lemma_occurrences_monotone(s, call_opening(), idx + 1, e);
            assert(occurrences_from(s, call_opening(), idx) == 1 + occurrences_from(
                s,
                call_opening(),
                idx + 1,
            ));
            assert forall|k: int| 0 <= k < sp.len() implies call_span(
                s,
                start,
                #[trigger] sp[k],
                bs[k],
            ) by {
                if k == 0 {
                    assert(sp[0] == (a, e));
                    assert(bs[0] == s.subrange(a, e));
                } else {
                    assert(sp[k] == rsp[k - 1]);
                    assert(bs[k] == rbs[k - 1]);
                    assert(call_span(s, e, rsp[k - 1], rbs[k - 1]));
                }
            }
            assert forall|k: int, l: int| 0 <= k < l < sp.len() implies #[trigger] sp[k].1 + len
                <= #[trigger] sp[l].0 by {
                assert(sp[l] == rsp[l - 1]);
                assert(call_span(s, e, rsp[l - 1], rbs[l - 1]));
                if k > 0 {
                    assert(sp[k] == rsp[k - 1]);
                }
            }
        },
    }
}

/// Every parameter that a script declares has a name that does not start with
/// `--`, one of the five types, and a flag is a boolean with a value.
pub open spec fn param_well_formed(p: ParamModel) -> bool {
    &&& p.name.len() > 0
    &&& !occurs_at(p.name, "--"@, 0)
    &&& (p.param_type == "String"@ || p.param_type == "Integer"@ || p.param_type == "Float"@
        || p.param_type == "Boolean"@ || p.param_type == "Path"@)
    &&& p.is_flag ==> p.param_type == "Boolean"@ && p.value.len() > 0
}

/// The parameter of one argument list is well formed.
proof fn lemma_block_param_well_formed(b: Seq<char>)
    ensures
        param_of_block(b) matches Ok(Some(p)) ==> param_well_formed(p),
{
    reveal(block_param);
    reveal_strlit("false");
    reveal_strlit("--");
    let name = regex_captures(NAME_PATTERN@, b);
    match first_group(name) {
        Ok(raw) => {
            lemma_trim_leading(raw, "--"@);
        },
        Err(_) => {},
    }
}

/// Every parameter extracted from a script is well formed, and there are no
/// more of them than argument lists.
pub proof fn law_extracted_params_well_formed(bs: Seq<Seq<char>>)
    ensures
        params_of_blocks(bs) matches Ok(ps) ==> ps.len() <= bs.len() && forall|i: int|
            0 <= i < ps.len() ==> param_well_formed(#[trigger] ps[i]),
    decreases bs.len(),
{
    if bs.len() > 0 {
        law_extracted_params_well_formed(bs.drop_last());
        lemma_block_param_well_formed(bs.last());
        match params_of_blocks(bs.drop_last()) {
            Ok(ps) => match param_of_block(bs.last()) {
                Ok(Some(p)) => {
                    assert forall|i: int| 0 <= i < ps.push(p).len() implies param_well_formed(
                        #[trigger] ps.push(p)[i],
                    ) by {
                        if i < ps.len() {
                            assert(ps.push(p)[i] == ps[i]);
                        }
                    }
                },
                _ => {},
            },
            Err(_) => {},
        }
    }
}

/// Every parameter extracted from a script is well formed.
pub proof fn law_script_params_well_formed(code: Seq<char>)
    ensures
        params_of_script(code) matches Ok(ps) ==> forall|i: int|
            0 <= i < ps.len() ==> param_well_formed(#[trigger] ps[i]),
{
    law_extracted_params_well_formed(argument_blocks(code));
}

/// Switching a parameter's `use_default` twice on the Filter tab restores the
/// screen.
pub proof fn law_toggle_twice_restores(m: AppModel)
    ensures
        default_toggled(default_toggled(m)) == m,
{
    if m.selected_tab == Tab::Filter && m.selected_filter < m.config.params.len() {
        let i = m.selected_filter as int;
        let once = default_toggled(m);
        assert(default_toggled(once).config.params =~= m.config.params);
    }
}

/// Three presses of Tab come back to the same tab, with both selections reset.
pub proof fn law_tab_cycles(m: AppModel, path_exists: bool)
    requires
        m.input_mode == crate::app::InputMode::Normal,
    ensures
        normal_step(normal_step(normal_step(m, Key::Tab, path_exists), Key::Tab, path_exists), Key::Tab, path_exists).selected_tab
            == m.selected_tab,
{
}

/// Cancelling an edit leaves the configuration as it was.
pub proof fn law_cancelled_edit_keeps_config(m: AppModel, path_exists: bool)
    ensures
        editing_step(m, Key::Esc, path_exists).config == m.config,
{
}

/// Confirming an edit writes the edited value into the selected parameter and
/// into no other.
pub proof fn law_confirmed_edit_writes_value(m: AppModel, path_exists: bool)
    requires
        active_param_index(m) matches Some(i) && 0 <= i < m.config.params.len(),
    ensures
        ({
            let i = active_param_index(m)->0;
            let after = editing_step(m, Key::Enter, path_exists).config.params;
            &&& after.len() == m.config.params.len()
            &&& after[i].value == m.edit_buffer
            &&& after[i].name == m.config.params[i].name
            &&& forall|j: int| 0 <= j < after.len() && j != i ==> after[j] == m.config.params[j]
        }),
{
}

/// Deleting never removes the last parameter, and removes at most one.
pub proof fn law_delete_keeps_a_parameter(m: AppModel)
    ensures
        m.config.params.len() >= 1 ==> param_deleted(m).config.params.len() >= 1,
        param_deleted(m).config.params.len() == m.config.params.len() || param_deleted(
            m,
        ).config.params.len() + 1 == m.config.params.len(),
{
    crate::app::lemma_active_indices(m.config.params);
}

/// The main screen is in a sound state: it has at least one parameter, and on
/// the Filter tab the selected row is one of them.
pub open spec fn screen_sound(m: AppModel) -> bool {
    &&& m.config.params.len() >= 1
    &&& m.selected_tab == Tab::Filter ==> m.selected_filter < m.config.params.len()
}

/// No key press on the main screen leaves it without parameters or moves the
/// Filter tab's selection off its rows, whatever the file system answers.
pub proof fn law_keys_keep_screen_sound(m: AppModel, key: Key, path_exists: bool)
    requires
        screen_sound(m),
    ensures
        screen_sound(key_step(m, key, path_exists)),
{
    crate::app::lemma_active_indices(m.config.params);
}

/// Adding a parameter appends one and keeps the others.
pub proof fn law_add_appends(m: AppModel)
    ensures
        param_added(m).config.params.len() == m.config.params.len() + 1,
        param_added(m).config.params.take(m.config.params.len() as int) == m.config.params,
{
    assert(param_added(m).config.params.take(m.config.params.len() as int) =~= m.config.params);
}

/// The selection of the start screen's main menu stays among its three entries.
pub proof fn law_menu_selection_stays_in_menu(m: SelectorModel, key: Key)
    requires
        m.selected <= 2,
    ensures
        selector_step(m, key).selected <= 2,
{
}

/// A path that does not start with `~/` is left as it is.
pub proof fn law_plain_path_unchanged(path: Seq<char>, home: Option<Seq<char>>)
    requires
        !occurs_at(path, "~/"@, 0),
    ensures
        tilde_expanded(path, home) == path,
{
}


/// How a declared parameter is typed. It is a flag exactly when its action is
/// `store_true` or it has `const=True`. Otherwise a declared `int`, `float` or
/// `bool` makes it an integer, a float or a boolean; any other declaration, or
/// none, makes it a path exactly when its lowercased help text speaks of a path,
/// a dir or a directory, or its name holds `dir`, `weights` or `project`, and a
/// string otherwise.
pub proof fn law_extracted_type(
    name: Option<Seq<Option<Seq<char>>>>,
    help: Option<Seq<Option<Seq<char>>>>,
    default: Option<Seq<Option<Seq<char>>>>,
    action: Option<Seq<Option<Seq<char>>>>,
    declared: Option<Seq<Option<Seq<char>>>>,
    const_true: bool,
)
    ensures
        block_param(name, help, default, action, declared, const_true) matches Ok(Some(p)) ==> {
            let d = found_group(declared, 1);
            let textual = d != Some("int"@) && d != Some("float"@) && d != Some("bool"@);
            let pathlike = contains_seq(lowercased(p.description), "path"@) || contains_seq(
                lowercased(p.description),
                "dir"@,
            ) || contains_seq(lowercased(p.description), "directory"@) || contains_seq(
                p.name,
                "dir"@,
            ) || contains_seq(p.name, "weights"@) || contains_seq(p.name, "project"@);
            &&& p.is_flag <==> (const_true || found_group(action, 1) == Some("store_true"@))
            &&& p.is_flag ==> p.param_type == "Boolean"@
            &&& !p.is_flag ==> {
                &&& (p.param_type == "Integer"@ <==> d == Some("int"@))
                &&& (p.param_type == "Float"@ <==> d == Some("float"@))
                &&& (p.param_type == "Boolean"@ <==> d == Some("bool"@))
                &&& (p.param_type == "Path"@ <==> textual && pathlike)
                &&& (p.param_type == "String"@ <==> textual && !pathlike)
            }
        },
{
    reveal(block_param);
    reveal_strlit("int");
    reveal_strlit("float");
    reveal_strlit("bool");
    reveal_strlit("Integer");
    reveal_strlit("Float");
    reveal_strlit("Boolean");
    reveal_strlit("String");
    reveal_strlit("Path");
    reveal_strlit("store_true");
    assert("store_true"@.len() == 10);
    assert("Integer"@[0] != "Boolean"@[0]);
    assert("Integer"@ != "Boolean"@);
    assert("Integer"@.len() == 7 && "Boolean"@.len() == 7 && "Float"@.len() == 5);
    assert("String"@.len() == 6 && "Path"@.len() == 4);
    assert("int"@.len() == 3 && "float"@.len() == 5 && "bool"@.len() == 4);
    match declared {
        Some(g) => {
            assert(found_group(declared, 1) == group_text(g, 1));
        },
        None => {},
    }
    match action {
        Some(g) => {
            assert(found_group(action, 1) == group_text(g, 1));
        },
        None => {
            assert(Seq::<char>::empty() != "store_true"@);
        },
    }
}

/// Validation accepts an empty value; otherwise it accepts exactly an `i64` for
/// an integer, an `f64` literal for a float, `true` or `false` in any case for a
/// boolean, any text for a string, and a path that exists for a path. A value
/// that does not fit its type is reported with that type, and a missing path as
/// missing.
pub proof fn law_value_checks(f: FieldModel, path_exists: bool)
    requires
        f.value.len() > 0,
    ensures
        f.param_type == ParamType::Integer ==> (validation_of(f, path_exists) is None
            <==> is_i64_text(f.value)),
        f.param_type == ParamType::Float ==> (validation_of(f, path_exists) is None
            <==> is_float_text(f.value)),
        f.param_type == ParamType::Boolean ==> (validation_of(f, path_exists) is None <==> (
        lowercased(f.value) == "true"@ || lowercased(f.value) == "false"@)),
        f.param_type == ParamType::String ==> validation_of(f, path_exists) is None,
        f.param_type == ParamType::Path ==> (validation_of(f, path_exists) is None
            <==> path_exists),
        f.param_type == ParamType::Boolean && lowercased(f.value) != "true"@ && lowercased(f.value)
            != "false"@ ==> validation_of(f, path_exists) == Some(
            WarningModel {
                param_name: f.name,
                expected_type: ParamType::Boolean,
                invalid_value: f.value,
                message: "值 '"@ + f.value + "' 不是有效的 "@ + "Boolean"@ + " 类型"@,
            },
        ),
        f.param_type == ParamType::Integer && !is_i64_text(f.value) ==> validation_of(f, path_exists)
            == Some(
            WarningModel {
                param_name: f.name,
                expected_type: ParamType::Integer,
                invalid_value: f.value,
                message: "值 '"@ + f.value + "' 不是有效的 "@ + "Integer"@ + " 类型"@,
            },
        ),
        f.param_type == ParamType::Float && !is_float_text(f.value) ==> validation_of(f, path_exists)
            == Some(
            WarningModel {
                param_name: f.name,
                expected_type: ParamType::Float,
                invalid_value: f.value,
                message: "值 '"@ + f.value + "' 不是有效的 "@ + "Float"@ + " 类型"@,
            },
        ),
        f.param_type == ParamType::Path && !path_exists ==> validation_of(f, path_exists) == Some(
            WarningModel {
                param_name: f.name,
                expected_type: ParamType::Path,
                invalid_value: f.value,
                message: "路径 '"@ + f.value + "' 不存在"@,
            },
        ),
{
}

/// On the Parameters tab, `d` removes the selected row: the parameter at the
/// selected position among those that do not keep the script's default, which
/// is such a parameter, and no other, the rest keeping their order; unless it is
/// the only parameter. Anywhere else, or without a selected row, the parameters
/// stay as they are.
pub proof fn law_delete_removes_selected_row(m: AppModel, path_exists: bool)
    requires
        m.input_mode == InputMode::Normal,
    ensures
        ({
            let r = key_step(m, Key::Char('d'), path_exists);
            let old = m.config.params;
            let act = active_indices(old);
            if m.selected_tab == Tab::Parameters && m.selected_param < act.len() && old.len() > 1 {
                let idx = act[m.selected_param as int];
                &&& 0 <= idx < old.len()
                &&& !old[idx].use_default
                &&& r.config.params.len() + 1 == old.len()
                &&& forall|i: int| 0 <= i < idx ==> r.config.params[i] == old[i]
                &&& forall|i: int| idx < i < old.len() ==> r.config.params[i - 1] == old[i]
            } else {
                r.config.params == old
            }
        }),
{
    lemma_active_indices(m.config.params);
}

/// On the Filter tab, `t` switches `use_default` of the parameter at the Filter
/// tab's selected row, and changes nothing else of it or of any other
/// parameter. On another tab it changes nothing.
pub proof fn law_toggle_flips_filter_row(m: AppModel, path_exists: bool)
    requires
        m.input_mode == InputMode::Normal,
    ensures
        ({
            let r = key_step(m, Key::Char('t'), path_exists);
            let old = m.config.params;
            let k = m.selected_filter as int;
            if m.selected_tab == Tab::Filter && k < old.len() {
                &&& r.config.params.len() == old.len()
                &&& r.config.params[k] == FieldModel { use_default: !old[k].use_default, ..old[k] }
                &&& forall|i: int| 0 <= i < old.len() && i != k ==> r.config.params[i] == old[i]
            } else {
                r == m
            }
        }),
{
}

/// On the Actions tab, Enter performs the action of the selected row, in the
/// order the tab lists them: generate the command (as `g`), run the training,
/// open the save dialog (as `s`), open the load dialog (as `l`), add a parameter
/// (as `a`), delete one (as `d`), edit one (as `e`); below the list it does
/// nothing. Only the training row asks for outside work.
pub proof fn law_action_rows(m: AppModel, path_exists: bool)
    requires
        m.input_mode == InputMode::Normal,
        m.selected_tab == Tab::Actions,
    ensures
        ({
            let r = key_step(m, Key::Enter, path_exists);
            let row = m.selected_param;
            &&& row == 0 ==> r == key_step(m, Key::Char('g'), path_exists) && r.command_output
                == command_of(m.config.python_path, m.config.script_path, m.config.params)
            &&& row == 1 ==> r.config == m.config && r.command_output == "Running: "@ + command_of(
                m.config.python_path,
                m.config.script_path,
                m.config.params,
            ) + "\n"@ && key_action(m, Key::Enter) == (ActionModel::Train {
                program: m.config.python_path,
                script: m.config.script_path,
                args: training_args(m.config.params),
            })
            &&& row != 1 ==> key_action(m, Key::Enter) == ActionModel::Nothing
            &&& row == 2 ==> r == key_step(m, Key::Char('s'), path_exists) && r.show_save_dialog
                && r.show_load_dialog == m.show_load_dialog && r.input_mode == InputMode::SaveDialog
            &&& row == 3 ==> r == key_step(m, Key::Char('l'), path_exists) && r.show_load_dialog
                && r.show_save_dialog == m.show_save_dialog && r.input_mode == InputMode::LoadDialog
            &&& row == 4 ==> r == key_step(m, Key::Char('a'), path_exists) && r.config.params.len()
                == m.config.params.len() + 1 && r.config.params.last().name == "new_param"@
            &&& row == 5 ==> r == key_step(m, Key::Char('d'), path_exists)
            &&& row == 6 ==> r == key_step(m, Key::Char('e'), path_exists)
            &&& row >= 7 ==> r == m
        }),
{
    reveal_strlit("new_param");
}


/// The text that group `i` of a search found, if the search matched and the
/// group took part.
pub open spec fn found_group(c: Option<Seq<Option<Seq<char>>>>, i: int) -> Option<Seq<char>> {
    match c {
        Some(g) => if 0 <= i < g.len() {
            g[i]
        } else {
            None
        },
        None => None,
    }
}

/// What a declared parameter holds. Its name is the quoted `--name` found,
/// without its leading dashes, and is not empty. Its help text is the first
/// quoted help found (double quotes, else single), or empty. Its value is the
/// default found, without surrounding whitespace and then without one pair of
/// enclosing quotes, or empty without a default; a flag whose value would be
/// empty, `False` or `None` has the value `false`.
pub proof fn law_extracted_texts(
    name: Option<Seq<Option<Seq<char>>>>,
    help: Option<Seq<Option<Seq<char>>>>,
    default: Option<Seq<Option<Seq<char>>>>,
    action: Option<Seq<Option<Seq<char>>>>,
    declared: Option<Seq<Option<Seq<char>>>>,
    const_true: bool,
)
    ensures
        block_param(name, help, default, action, declared, const_true) matches Ok(Some(p)) ==> {
            let v = match found_group(default, 1) {
                Some(t) => trimmed(t),
                None => Seq::empty(),
            };
            let bare = if v.len() >= 2 && ((v[0] == '"' && v.last() == '"') || (v[0] == '\''
                && v.last() == '\'')) {
                v.subrange(1, v.len() - 1)
            } else {
                v
            };
            &&& found_group(name, 1) matches Some(raw) && p.name == trim_leading(raw, "--"@)
            &&& p.name.len() > 0
            &&& p.description == match found_group(help, 1) {
                Some(t) => t,
                None => match found_group(help, 2) {
                    Some(t) => t,
                    None => Seq::empty(),
                },
            }
            &&& !p.is_flag ==> p.value == bare
            &&& p.is_flag ==> p.value == (if bare.len() == 0 || bare == "False"@ || bare
                == "None"@ {
                "false"@
            } else {
                bare
            })
        },
{
    reveal(block_param);
}

/// The keys that move on the main screen. Up moves the Filter tab's row, or on
/// the other tabs the selected row, one up, stopping at the top. Down moves one
/// down, stopping at the last parameter shown on the Parameters tab, at the last
/// parameter on the Filter tab, and at the end of the action list on the Actions
/// tab. Tab goes to the next tab, the last one wrapping to the first, and selects
/// the first row of each. None of them changes the configuration; `q` only stops
/// the launcher.
pub proof fn law_navigation(m: AppModel, path_exists: bool)
    requires
        m.input_mode == InputMode::Normal,
    ensures
        ({
            let up = key_step(m, Key::Up, path_exists);
            let down = key_step(m, Key::Down, path_exists);
            let tab = key_step(m, Key::Tab, path_exists);
            let sp = m.selected_param;
            let sf = m.selected_filter;
            &&& up.config == m.config && down.config == m.config && tab.config == m.config
            &&& up.selected_tab == m.selected_tab && down.selected_tab == m.selected_tab
            &&& m.selected_tab == Tab::Filter ==> up.selected_param == sp && up.selected_filter == (
            if sf > 0 {
                (sf - 1) as nat
            } else {
                0
            })
            &&& m.selected_tab != Tab::Filter ==> up.selected_filter == sf && up.selected_param == (
            if sp > 0 {
                (sp - 1) as nat
            } else {
                0
            })
            &&& m.selected_tab == Tab::Parameters ==> down.selected_filter == sf
                && down.selected_param == (if sp + 1 < active_indices(m.config.params).len() {
                sp + 1
            } else {
                sp
            })
            &&& m.selected_tab == Tab::Filter ==> down.selected_param == sp && down.selected_filter
                == (if sf + 1 < m.config.params.len() {
                sf + 1
            } else {
                sf
            })
            &&& m.selected_tab == Tab::Actions ==> down.selected_filter == sf && down.selected_param
                == (if sp < 7 {
                sp + 1
            } else {
                sp
            })
            &&& tab.selected_param == 0 && tab.selected_filter == 0
            &&& m.selected_tab == Tab::Parameters ==> tab.selected_tab == Tab::Filter
            &&& m.selected_tab == Tab::Filter ==> tab.selected_tab == Tab::Actions
            &&& m.selected_tab == Tab::Actions ==> tab.selected_tab == Tab::Parameters
            &&& key_step(m, Key::Char('q'), path_exists) == AppModel { running: false, ..m }
        }),
{
}

/// On the Parameters tab, `e` starts editing the selected row: the edit holds
/// the value of the selected parameter among those that do not keep the
/// script's default, and the configuration is untouched. Without a selected row,
/// or on another tab, nothing changes.
pub proof fn law_edit_starts_on_selected_row(m: AppModel, path_exists: bool)
    requires
        m.input_mode == InputMode::Normal,
    ensures
        ({
            let r = key_step(m, Key::Char('e'), path_exists);
            let act = active_indices(m.config.params);
            if m.selected_tab == Tab::Parameters && m.selected_param < act.len() {
                &&& r.editing
                &&& r.input_mode == InputMode::Editing
                &&& r.edit_buffer == m.config.params[act[m.selected_param as int]].value
                &&& r.config == m.config
            } else {
                r == m
            }
        }),
{
    lemma_active_indices(m.config.params);
}

/// In the save dialog, characters and Backspace edit the path, Esc closes the
/// dialog, and Enter asks to save the configuration at the path, which nothing
/// else does; the configuration is never changed.
pub proof fn law_save_dialog_keys(m: AppModel, key: Key, path_exists: bool)
    requires
        m.input_mode == InputMode::SaveDialog,
    ensures
        ({
            let r = key_step(m, key, path_exists);
            &&& r.config == m.config
            &&& key == Key::Enter ==> key_action(m, key) == ActionModel::Save(m.save_path) && r == m
            &&& key != Key::Enter ==> key_action(m, key) == ActionModel::Nothing
            &&& key == Key::Esc ==> !r.show_save_dialog && r.input_mode == InputMode::Normal
                && r.save_path == m.save_path
            &&& key matches Key::Char(c) ==> r.save_path == m.save_path.push(c) && r.input_mode
                == InputMode::SaveDialog
            &&& key == Key::Backspace ==> r.save_path == (if m.save_path.len() > 0 {
                m.save_path.drop_last()
            } else {
                m.save_path
            })
        }),
{
}

/// In the load dialog, characters and Backspace edit the path, Esc closes the
/// dialog, and Enter asks to load the configuration at the path, which nothing
/// else does; the configuration is only replaced once a load succeeds.
pub proof fn law_load_dialog_keys(m: AppModel, key: Key, path_exists: bool, loaded: ConfigModel, error: Seq<char>)
    requires
        m.input_mode == InputMode::LoadDialog,
    ensures
        ({
            let r = key_step(m, key, path_exists);
            &&& r.config == m.config
            &&& key == Key::Enter ==> key_action(m, key) == ActionModel::Load(m.load_path) && r == m
            &&& key != Key::Enter ==> key_action(m, key) == ActionModel::Nothing
            &&& key == Key::Esc ==> !r.show_load_dialog && r.input_mode == InputMode::Normal
                && r.load_path == m.load_path
            &&& key matches Key::Char(c) ==> r.load_path == m.load_path.push(c) && r.input_mode
                == InputMode::LoadDialog
            &&& key == Key::Backspace ==> r.load_path == (if m.load_path.len() > 0 {
                m.load_path.drop_last()
            } else {
                m.load_path
            })
        }),
        after_load(m, Ok(loaded)).config == loaded,
        after_load(m, Err(error)).config == m.config,
        !after_load(m, Ok(loaded)).show_load_dialog && after_load(m, Ok(loaded)).input_mode
            == InputMode::Normal,
{
}

} // verus!
