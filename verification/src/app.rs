//! The main screen of the launcher as a state machine: each key press moves the
//! screen to its next state and may ask for outside work (loading or saving a
//! configuration, running the training), whose outcome is then handed back.

use vstd::prelude::*;
use crate::config::{
    arg_of, command_of, default_config, text_option_model, default_field, fields_model, validation_of, ConfigModel,
    FieldModel, MergeResult, ParamField, ParamType, TrainConfig, WarningModel,
};
use crate::input::Key;
use crate::text::{
    concat_text, owned_text, pop_char, push_char, split_words, texts_model, whitespace_words,
};

verus! {

/// What the main screen's keys currently act on.
#[derive(Debug, Clone, Copy, PartialEq, Eq, Structural)]
pub enum InputMode {
    Normal,
    Editing,
    SaveDialog,
    LoadDialog,
}

impl Default for InputMode {
    fn default() -> (r: Self)
        ensures
            r == InputMode::Normal,
    {
        InputMode::Normal
    }
}

/// The tabs of the main screen.
#[derive(Debug, Clone, Copy, PartialEq, Eq, Structural)]
pub enum Tab {
    /// The parameters to set (those that do not keep the script's default).
    Parameters,
    /// All parameters, where the choice of keeping the default is made.
    Filter,
    /// The list of actions.
    Actions,
}

impl Tab {
    /// The tab that follows, the first one following the last.
    pub open spec fn following(self) -> Tab {
        match self {
            Tab::Parameters => Tab::Filter,
            Tab::Filter => Tab::Actions,
            Tab::Actions => Tab::Parameters,
        }
    }

    /// The position of the tab, from 0.
    pub open spec fn position(self) -> nat {
        match self {
            Tab::Parameters => 0,
            Tab::Filter => 1,
            Tab::Actions => 2,
        }
    }

    /// The tab that follows.
    pub fn next(self) -> (r: Tab)
        ensures
            r == self.following(),
    {
        match self {
            Tab::Parameters => Tab::Filter,
            Tab::Filter => Tab::Actions,
            Tab::Actions => Tab::Parameters,
        }
    }

    /// The position of the tab, from 0.
    pub fn index(self) -> (r: usize)
        ensures
            r == self.position(),
    {
        match self {
            Tab::Parameters => 0,
            Tab::Filter => 1,
            Tab::Actions => 2,
        }
    }
}

/// The state of the main screen.
pub struct App {
    config: TrainConfig,
    command_output: String,
    running: bool,
    selected_tab: Tab,
    selected_param: usize,
    selected_filter: usize,
    editing: bool,
    edit_buffer: String,
    edit_warning: Option<String>,
    input_mode: InputMode,
    save_path: String,
    load_path: String,
    show_save_dialog: bool,
    show_load_dialog: bool,
    deprecated_params: Vec<ParamField>,
}

/// The mathematical content of an [`App`].
pub struct AppModel {
    pub config: ConfigModel,
    pub command_output: Seq<char>,
    pub running: bool,
    pub selected_tab: Tab,
    /// The position of the selected parameter among those of the Parameters tab
    /// (or of the selected action, on the Actions tab).
    pub selected_param: nat,
    /// The position of the selected parameter on the Filter tab.
    pub selected_filter: nat,
    pub editing: bool,
    pub edit_buffer: Seq<char>,
    pub edit_warning: Option<Seq<char>>,
    pub input_mode: InputMode,
    pub save_path: Seq<char>,
    pub load_path: Seq<char>,
    pub show_save_dialog: bool,
    pub show_load_dialog: bool,
    pub deprecated_params: Seq<FieldModel>,
}

impl View for App {
    type V = AppModel;

    closed spec fn view(&self) -> AppModel {
        AppModel {
            config: self.config@,
            command_output: self.command_output@,
            running: self.running,
            selected_tab: self.selected_tab,
            selected_param: self.selected_param as nat,
            selected_filter: self.selected_filter as nat,
            editing: self.editing,
            edit_buffer: self.edit_buffer@,
            edit_warning: text_option_model(self.edit_warning),
            input_mode: self.input_mode,
            save_path: self.save_path@,
            load_path: self.load_path@,
            show_save_dialog: self.show_save_dialog,
            show_load_dialog: self.show_load_dialog,
            deprecated_params: fields_model(self.deprecated_params@),
        }
    }
}

/// The outside work that a key press asks for.
pub enum AppAction {
    /// Nothing to do.
    Nothing,
    /// Load the configuration stored at the path, then report to
    /// [`App::load_finished`].
    Load(String),
    /// Save the configuration at the path, then report to [`App::save_finished`].
    Save(String),
    /// Run the training, then report to [`App::training_finished`].
    Train(TrainingRun),
}

/// A training run: the program to start and its arguments.
pub struct TrainingRun {
    pub program: String,
    pub script: String,
    pub args: Vec<String>,
}

/// The mathematical content of an [`AppAction`].
pub enum ActionModel {
    Nothing,
    Load(Seq<char>),
    Save(Seq<char>),
    Train { program: Seq<char>, script: Seq<char>, args: Seq<Seq<char>> },
}

impl View for AppAction {
    type V = ActionModel;

    open spec fn view(&self) -> ActionModel {
        match self {
            AppAction::Nothing => ActionModel::Nothing,
            AppAction::Load(p) => ActionModel::Load(p@),
            AppAction::Save(p) => ActionModel::Save(p@),
            AppAction::Train(run) => ActionModel::Train {
                program: run.program@,
                script: run.script@,
                args: texts_model(run.args@),
            },
        }
    }
}

/// The indices of the parameters that do not keep the script's default, in
/// order: the rows of the Parameters tab.
pub open spec fn active_indices(fs: Seq<FieldModel>) -> Seq<int>
    decreases fs.len(),
{
    if fs.len() == 0 {
        seq![]
    } else {
        let rest = active_indices(fs.drop_last());
        if !fs.last().use_default {
            rest.push(fs.len() - 1)
        } else {
            rest
        }
    }
}

/// The rows of the Parameters tab are parameters that do not keep the script's
/// default, listed in increasing order.
pub proof fn lemma_active_indices(fs: Seq<FieldModel>)
    ensures
        forall|k: int|
            0 <= k < active_indices(fs).len() ==> 0 <= #[trigger] active_indices(fs)[k] < fs.len()
                && !fs[active_indices(fs)[k]].use_default,
        forall|k: int, l: int|
            0 <= k < l < active_indices(fs).len() ==> #[trigger] active_indices(fs)[k]
                < #[trigger] active_indices(fs)[l],
    decreases fs.len(),
{
    if fs.len() > 0 {
        lemma_active_indices(fs.drop_last());
        let rest = active_indices(fs.drop_last());
        assert forall|k: int| 0 <= k < rest.len() implies !fs[#[trigger] rest[k]].use_default by {
            assert(fs.drop_last()[rest[k]] == fs[rest[k]]);
        }
    }
}

/// The index of the parameter selected on the Parameters tab, if there is one.
pub open spec fn active_param_index(m: AppModel) -> Option<int> {
    let act = active_indices(m.config.params);
    if m.selected_param < act.len() {
        Some(act[m.selected_param as int])
    } else {
        None
    }
}

/// `n - 1`, or 0 for 0.
pub open spec fn one_less(n: nat) -> nat {
    if n > 0 {
        (n - 1) as nat
    } else {
        0
    }
}

/// The arguments that a run passes to the script: the words of each parameter's
/// command-line argument, in order.
pub open spec fn training_args(fs: Seq<FieldModel>) -> Seq<Seq<char>>
    decreases fs.len(),
{
    if fs.len() == 0 {
        seq![]
    } else {
        let rest = training_args(fs.drop_last());
        match arg_of(fs.last()) {
            Some(a) => rest + whitespace_words(a),
            None => rest,
        }
    }
}

/// The message of an optional warning.
pub open spec fn message_of(w: Option<WarningModel>) -> Option<Seq<char>> {
    match w {
        Some(w) => Some(w.message),
        None => None,
    }
}

/// The screen that a new launcher shows for `config`, with the given deprecated
/// parameters.
pub open spec fn initial_model(config: ConfigModel, deprecated: Seq<FieldModel>) -> AppModel {
    AppModel {
        config,
        command_output: Seq::empty(),
        running: false,
        selected_tab: Tab::Parameters,
        selected_param: 0,
        selected_filter: 0,
        editing: false,
        edit_buffer: Seq::empty(),
        edit_warning: None,
        input_mode: InputMode::Normal,
        save_path: "config.json"@,
        load_path: "config.json"@,
        show_save_dialog: false,
        show_load_dialog: false,
        deprecated_params: deprecated,
    }
}

/// The command line is shown as the output.
pub open spec fn generated(m: AppModel) -> AppModel {
    AppModel {
        command_output: command_of(m.config.python_path, m.config.script_path, m.config.params),
        ..m
    }
}

/// The save dialog is opened.
pub open spec fn save_dialog_shown(m: AppModel) -> AppModel {
    AppModel { show_save_dialog: true, input_mode: InputMode::SaveDialog, ..m }
}

/// The load dialog is opened.
pub open spec fn load_dialog_shown(m: AppModel) -> AppModel {
    AppModel { show_load_dialog: true, input_mode: InputMode::LoadDialog, ..m }
}

/// The parameter that a new one starts as.
pub open spec fn new_param_field() -> FieldModel {
    default_field("new_param"@, ""@, ParamType::String, "New parameter"@)
}

/// A new text parameter is appended.
pub open spec fn param_added(m: AppModel) -> AppModel {
    AppModel {
        config: ConfigModel { params: m.config.params.push(new_param_field()), ..m.config },
        ..m
    }
}

/// On the Parameters tab, the selected parameter is removed, unless it is the
/// only parameter; the selection then stays within the remaining rows.
pub open spec fn param_deleted(m: AppModel) -> AppModel {
    let act = active_indices(m.config.params);
    if m.selected_tab == Tab::Parameters && m.selected_param < act.len() && m.config.params.len()
        > 1 {
        let params = m.config.params.remove(act[m.selected_param as int]);
        let c = active_indices(params).len();
        let sel = if m.selected_param >= c {
            one_less(c)
        } else {
            m.selected_param
        };
        AppModel { config: ConfigModel { params, ..m.config }, selected_param: sel, ..m }
    } else {
        m
    }
}

/// On the Filter tab, whether the selected parameter keeps the script's default
/// is switched.
pub open spec fn default_toggled(m: AppModel) -> AppModel {
    if m.selected_tab == Tab::Filter && m.selected_filter < m.config.params.len() {
        let f = m.config.params[m.selected_filter as int];
        let params = m.config.params.update(
            m.selected_filter as int,
            FieldModel { use_default: !f.use_default, ..f },
        );
        AppModel { config: ConfigModel { params, ..m.config }, ..m }
    } else {
        m
    }
}

/// The warning of the edited value is brought up to date, where `path_exists`
/// tells whether the value names an existing path.
pub open spec fn edit_checked(m: AppModel, path_exists: bool) -> AppModel {
    match active_param_index(m) {
        Some(idx) => if 0 <= idx < m.config.params.len() {
            let temp = FieldModel { value: m.edit_buffer, ..m.config.params[idx] };
            AppModel { edit_warning: message_of(validation_of(temp, path_exists)), ..m }
        } else {
            m
        },
        None => m,
    }
}

/// On the Parameters tab, editing of the selected parameter's value starts.
pub open spec fn editing_started(m: AppModel, path_exists: bool) -> AppModel {
    let act = active_indices(m.config.params);
    if m.selected_tab == Tab::Parameters && m.selected_param < act.len() {
        let m1 = AppModel {
            editing: true,
            input_mode: InputMode::Editing,
            edit_warning: None,
            ..m
        };
        let idx = act[m.selected_param as int];
        if 0 <= idx < m.config.params.len() {
            edit_checked(AppModel { edit_buffer: m.config.params[idx].value, ..m1 }, path_exists)
        } else {
            m1
        }
    } else {
        m
    }
}

/// The output announces the run of the command line.
pub open spec fn training_started(m: AppModel) -> AppModel {
    AppModel {
        command_output: "Running: "@ + command_of(
            m.config.python_path,
            m.config.script_path,
            m.config.params,
        ) + "\n"@,
        ..m
    }
}

/// The run that the training action asks for.
pub open spec fn training_run(m: AppModel) -> ActionModel {
    ActionModel::Train {
        program: m.config.python_path,
        script: m.config.script_path,
        args: training_args(m.config.params),
    }
}

/// The screen after a key press in the normal mode.
pub open spec fn normal_step(m: AppModel, key: Key, path_exists: bool) -> AppModel {
    match key {
        Key::Tab => AppModel {
            selected_tab: m.selected_tab.following(),
            selected_param: 0,
            selected_filter: 0,
            ..m
        },
        Key::Up => if m.selected_tab == Tab::Filter {
            AppModel { selected_filter: one_less(m.selected_filter), ..m }
        } else {
            AppModel { selected_param: one_less(m.selected_param), ..m }
        },
        Key::Down => match m.selected_tab {
            Tab::Parameters => {
                let max = one_less(active_indices(m.config.params).len());
                if m.selected_param < max {
                    AppModel { selected_param: m.selected_param + 1, ..m }
                } else {
                    m
                }
            },
            Tab::Filter => {
                let max = one_less(m.config.params.len());
                if m.selected_filter < max {
                    AppModel { selected_filter: m.selected_filter + 1, ..m }
                } else {
                    m
                }
            },
            Tab::Actions => if m.selected_param < 7 {
                AppModel { selected_param: m.selected_param + 1, ..m }
            } else {
                m
            },
        },
        Key::Enter => if m.selected_tab == Tab::Actions {
            if m.selected_param == 0 {
                generated(m)
            } else if m.selected_param == 1 {
                training_started(m)
            } else if m.selected_param == 2 {
                save_dialog_shown(m)
            } else if m.selected_param == 3 {
                load_dialog_shown(m)
            } else if m.selected_param == 4 {
                param_added(m)
            } else if m.selected_param == 5 {
                param_deleted(m)
            } else if m.selected_param == 6 {
                editing_started(m, path_exists)
            } else {
                m
            }
        } else {
            m
        },
        Key::Char(c) => if c == 'g' {
            generated(m)
        } else if c == 's' {
            save_dialog_shown(m)
        } else if c == 'l' {
            load_dialog_shown(m)
        } else if c == 'a' {
            param_added(m)
        } else if c == 'd' {
            param_deleted(m)
        } else if c == 'e' {
            editing_started(m, path_exists)
        } else if c == 't' {
            default_toggled(m)
        } else if c == 'q' {
            AppModel { running: false, ..m }
        } else {
            m
        },
        _ => m,
    }
}

/// The outside work that a key press in the normal mode asks for.
pub open spec fn normal_action(m: AppModel, key: Key) -> ActionModel {
    if key == Key::Enter && m.selected_tab == Tab::Actions && m.selected_param == 1 {
        training_run(m)
    } else {
        ActionModel::Nothing
    }
}

/// Editing ends; the value is kept when `commit` is set.
pub open spec fn editing_ended(m: AppModel, commit: bool) -> AppModel {
    let m1 = if commit {
        match active_param_index(m) {
            Some(idx) => if 0 <= idx < m.config.params.len() {
                let f = m.config.params[idx];
                let params = m.config.params.update(idx, FieldModel { value: m.edit_buffer, ..f });
                AppModel { config: ConfigModel { params, ..m.config }, ..m }
            } else {
                m
            },
            None => m,
        }
    } else {
        m
    };
    AppModel { editing: false, edit_warning: None, input_mode: InputMode::Normal, ..m1 }
}

/// `s` without its last character, if it has one.
pub open spec fn without_last(s: Seq<char>) -> Seq<char> {
    if s.len() > 0 {
        s.drop_last()
    } else {
        s
    }
}

/// The screen after a key press while a value is edited.
pub open spec fn editing_step(m: AppModel, key: Key, path_exists: bool) -> AppModel {
    match key {
        Key::Enter => editing_ended(m, true),
        Key::Esc => editing_ended(m, false),
        Key::Char(c) => edit_checked(AppModel { edit_buffer: m.edit_buffer.push(c), ..m }, path_exists),
        Key::Backspace => edit_checked(
            AppModel { edit_buffer: without_last(m.edit_buffer), ..m },
            path_exists,
        ),
        _ => m,
    }
}

/// The screen after a key press in the save dialog.
pub open spec fn save_dialog_step(m: AppModel, key: Key) -> AppModel {
    match key {
        Key::Esc => AppModel { show_save_dialog: false, input_mode: InputMode::Normal, ..m },
        Key::Char(c) => AppModel { save_path: m.save_path.push(c), ..m },
        Key::Backspace => AppModel { save_path: without_last(m.save_path), ..m },
        _ => m,
    }
}

/// The screen after a key press in the load dialog.
pub open spec fn load_dialog_step(m: AppModel, key: Key) -> AppModel {
    match key {
        Key::Esc => AppModel { show_load_dialog: false, input_mode: InputMode::Normal, ..m },
        Key::Char(c) => AppModel { load_path: m.load_path.push(c), ..m },
        Key::Backspace => AppModel { load_path: without_last(m.load_path), ..m },
        _ => m,
    }
}

/// The screen after a key press, where `path_exists` tells whether an edited
/// value names an existing path.
pub open spec fn key_step(m: AppModel, key: Key, path_exists: bool) -> AppModel {
    match m.input_mode {
        InputMode::Normal => normal_step(m, key, path_exists),
        InputMode::Editing => editing_step(m, key, path_exists),
        InputMode::SaveDialog => save_dialog_step(m, key),
        InputMode::LoadDialog => load_dialog_step(m, key),
    }
}

/// The outside work that a key press asks for: the training run from the Actions
/// tab, or loading or saving when a dialog is confirmed.
pub open spec fn key_action(m: AppModel, key: Key) -> ActionModel {
    match m.input_mode {
        InputMode::Normal => normal_action(m, key),
        InputMode::Editing => ActionModel::Nothing,
        InputMode::SaveDialog => if key == Key::Enter {
            ActionModel::Save(m.save_path)
        } else {
            ActionModel::Nothing
        },
        InputMode::LoadDialog => if key == Key::Enter {
            ActionModel::Load(m.load_path)
        } else {
            ActionModel::Nothing
        },
    }
}

/// The screen after a load, given the loaded configuration or the error.
pub open spec fn after_load(m: AppModel, outcome: Result<ConfigModel, Seq<char>>) -> AppModel {
    let m1 = match outcome {
        Ok(c) => AppModel { config: c, command_output: "Load from "@ + m.load_path, ..m },
        Err(e) => AppModel { command_output: "Error: "@ + e, ..m },
    };
    AppModel { show_load_dialog: false, input_mode: InputMode::Normal, ..m1 }
}

/// The screen after a save, given its error, if any.
pub open spec fn after_save(m: AppModel, outcome: Result<(), Seq<char>>) -> AppModel {
    let m1 = match outcome {
        Ok(()) => AppModel { command_output: "Saved to "@ + m.save_path, ..m },
        Err(e) => AppModel { command_output: "Error: "@ + e, ..m },
    };
    AppModel { show_save_dialog: false, input_mode: InputMode::Normal, ..m1 }
}

/// The screen after a run, given what it wrote to its standard output and error,
/// or why it could not start.
pub open spec fn after_training(m: AppModel, outcome: Result<(Seq<char>, Seq<char>), Seq<char>>) -> AppModel {
    match outcome {
        Ok((out, err)) => AppModel {
            command_output: if err.len() > 0 {
                m.command_output + out + err
            } else {
                m.command_output + out
            },
            ..m
        },
        Err(e) => AppModel { command_output: m.command_output + "Error: "@ + e, ..m },
    }
}

/// The model of the outcome of a load.
pub open spec fn load_outcome_model(o: Result<TrainConfig, String>) -> Result<ConfigModel, Seq<char>> {
    match o {
        Ok(c) => Ok(c@),
        Err(e) => Err(e@),
    }
}

/// The model of the outcome of a save.
pub open spec fn save_outcome_model(o: Result<(), String>) -> Result<(), Seq<char>> {
    match o {
        Ok(()) => Ok(()),
        Err(e) => Err(e@),
    }
}

/// The model of the outcome of a run.
pub open spec fn run_outcome_model(o: Result<(String, String), String>) -> Result<
    (Seq<char>, Seq<char>),
    Seq<char>,
> {
    match o {
        Ok((out, err)) => Ok((out@, err@)),
        Err(e) => Err(e@),
    }
}

/// The help line of a tab.
pub open spec fn help_line(t: Tab) -> Seq<char> {
    match t {
        Tab::Parameters => "Tab: Switch | ↑↓: Nav | e: Edit | d: Del | q: Quit"@,
        Tab::Filter => "Tab: Switch | ↑↓: Nav | t: Toggle Default | q: Quit"@,
        Tab::Actions => "Tab: Switch | ↑↓: Nav | Enter: Run | g: Gen | s: Save | l: Load | a: Add | q: Quit"@,
    }
}

/// The row of a parameter on the Parameters tab: `name = value (Type)`.
pub open spec fn parameter_row(f: FieldModel) -> Seq<char> {
    f.name + " = "@ + f.value + " ("@ + f.param_type.label() + ")"@
}

/// The row of a parameter on the Filter tab: whether it keeps the default, its
/// name and its value.
pub open spec fn filter_row(f: FieldModel) -> Seq<char> {
    "["@ + (if f.use_default {
        "✓ 默认"@
    } else {
        "✗ 修改"@
    }) + "] "@ + f.name + " = "@ + f.value
}

/// The detail panel of a parameter.
pub open spec fn parameter_detail(f: FieldModel) -> Seq<char> {
    "Name: "@ + f.name + "\nValue: "@ + f.value + "\nType: "@ + f.param_type.label()
        + "\nDescription: "@ + f.description
}

/// The detail panel of a parameter on the Filter tab, with whether it keeps the
/// script's default.
pub open spec fn filter_detail(f: FieldModel) -> Seq<char> {
    parameter_detail(f) + "\n状态: "@ + (if f.use_default {
        "✓ 使用脚本默认值"@
    } else {
        "✗ 需要手动设置"@
    })
}

/// The text of the warning panel of the edit popup.
pub open spec fn warning_panel(w: Seq<char>) -> Seq<char> {
    "⚠ "@ + w + "\n  (仍可保存，但可能导致训练错误)"@
}

/// The share, in percent, that each side of a centered popup leaves free when
/// the popup takes `percent` of the space.
pub fn side_margin(percent: u16) -> (r: u16)
    requires
        percent <= 100,
    ensures
        r == (100 - percent) / 2,
{
    (100 - percent) / 2
}

/// The row of a parameter on the Filter tab.
fn filter_row_text(p: &ParamField) -> (r: String)
    ensures
        r@ == filter_row(p@),
{
    let mut t = if p.use_default {
        owned_text("[✓ 默认")
    } else {
        owned_text("[✗ 修改")
    };
    proof {
        reveal_strlit("[✓ 默认");
        reveal_strlit("[✗ 修改");
        reveal_strlit("[");
        reveal_strlit("✓ 默认");
        reveal_strlit("✗ 修改");
    }
    assert(t@ == "["@ + (if p.use_default {
        "✓ 默认"@
    } else {
        "✗ 修改"@
    }));
    t.append("] ");
    t.append(p.name.as_str());
    t.append(" = ");
    t.append(p.value.as_str());
    t
}

/// The detail panel of a parameter.
fn detail_text(p: &ParamField) -> (r: String)
    ensures
        r@ == parameter_detail(p@),
{
    let mut t = concat_text("Name: ", p.name.as_str());
    t.append("\nValue: ");
    t.append(p.value.as_str());
    t.append("\nType: ");
    t.append(p.param_type.name());
    t.append("\nDescription: ");
    t.append(p.description.as_str());
    t
}

/// The indices of the parameters that do not keep the script's default.
pub fn active_param_indices(params: &Vec<ParamField>) -> (r: Vec<usize>)
    ensures
        r@.len() == active_indices(fields_model(params@)).len(),
        forall|k: int|
            0 <= k < r@.len() ==> #[trigger] r@[k] as int == active_indices(fields_model(params@))[k],
{
    let mut r: Vec<usize> = Vec::new();
    let mut i: usize = 0;
    while i < params.len()
        invariant
            i <= params@.len(),
            r@.len() == active_indices(fields_model(params@).take(i as int)).len(),
            forall|k: int|
                0 <= k < r@.len() ==> #[trigger] r@[k] as int == active_indices(
                    fields_model(params@).take(i as int),
                )[k],
        decreases params@.len() - i,
    {
        proof {
            let fs = fields_model(params@);
            assert(fs.take(i + 1).drop_last() =~= fs.take(i as int));
            assert(fs.take(i + 1).last() == params@[i as int]@);
        }
        if !params[i].use_default {
            r.push(i);
        }
        i = i + 1;
    }
    assert(fields_model(params@).take(params@.len() as int) =~= fields_model(params@));
    r
}

/// The model of an optional index.
pub open spec fn index_model(i: Option<usize>) -> Option<int> {
    match i {
        Some(i) => Some(i as int),
        None => None,
    }
}

/// The words of the command-line arguments of the parameters, in order.
pub fn training_arguments(params: &Vec<ParamField>) -> (r: Vec<String>)
    ensures
        texts_model(r@) == training_args(fields_model(params@)),
{
    let mut r: Vec<String> = Vec::new();
    let mut i: usize = 0;
    while i < params.len()
        invariant
            i <= params@.len(),
            texts_model(r@) == training_args(fields_model(params@).take(i as int)),
        decreases params@.len() - i,
    {
        proof {
            let fs = fields_model(params@);
            assert(fs.take(i + 1).drop_last() =~= fs.take(i as int));
        }
        match params[i].to_arg() {
            Some(a) => {
                let words = split_words(a.as_str());
                let ghost before = r@;
                let mut k: usize = 0;
                while k < words.len()
                    invariant
                        k <= words@.len(),
                        r@.len() == before.len() + k,
                        texts_model(r@) == texts_model(before) + texts_model(words@).take(k as int),
                    decreases words@.len() - k,
                {
                    let w = owned_text(words[k].as_str());
                    let ghost prev = r@;
                    r.push(w);
                    assert forall|j: int| 0 <= j < r@.len() implies #[trigger] texts_model(r@)[j] == (
                    texts_model(before) + texts_model(words@).take(k + 1))[j] by {
                        if j < prev.len() {
                            assert(r@[j] == prev[j]);
                            assert(texts_model(prev)[j] == (texts_model(before) + texts_model(words@).take(k as int))[j]);
                        }
                    }
                    assert(texts_model(r@) =~= texts_model(before) + texts_model(words@).take(
                        k + 1,
                    ));
                    k = k + 1;
                }
                assert(texts_model(words@).take(words@.len() as int) =~= texts_model(words@));
            },
            None => {},
        }
        i = i + 1;
    }
    assert(fields_model(params@).take(params@.len() as int) =~= fields_model(params@));
    r
}

impl App {
    /// The screen for the default configuration.
    pub fn new() -> (r: Self)
        ensures
            r@ == initial_model(default_config(), seq![]),
    {
        let r = App {
            config: TrainConfig::default(),
            command_output: String::new(),
            running: false,
            selected_tab: Tab::Parameters,
            selected_param: 0,
            selected_filter: 0,
            editing: false,
            edit_buffer: String::new(),
            edit_warning: None,
            input_mode: InputMode::Normal,
            save_path: owned_text("config.json"),
            load_path: owned_text("config.json"),
            show_save_dialog: false,
            show_load_dialog: false,
            deprecated_params: Vec::new(),
        };
        assert(r@.deprecated_params =~= seq![]);
        r
    }

    /// The screen for `config`; the deprecated parameters of the merge that
    /// produced it, if any, are kept.
    pub fn with_config(config: TrainConfig, merge_result: Option<MergeResult>) -> (r: Self)
        ensures
            r@ == initial_model(
                config@,
                match merge_result {
                    Some(m) => fields_model(m.deprecated_params@),
                    None => seq![],
                },
            ),
    {
        let deprecated_params = match merge_result {
            Some(m) => m.deprecated_params,
            None => Vec::new(),
        };
        let r = App {
            config,
            command_output: String::new(),
            running: false,
            selected_tab: Tab::Parameters,
            selected_param: 0,
            selected_filter: 0,
            editing: false,
            edit_buffer: String::new(),
            edit_warning: None,
            input_mode: InputMode::Normal,
            save_path: owned_text("config.json"),
            load_path: owned_text("config.json"),
            show_save_dialog: false,
            show_load_dialog: false,
            deprecated_params,
        };
        assert(r@.deprecated_params =~= match merge_result {
            Some(m) => fields_model(m.deprecated_params@),
            None => seq![],
        });
        r
    }

    /// The configuration being edited.
    pub fn config(&self) -> (r: &TrainConfig)
        ensures
            r@ == self@.config,
    {
        &self.config
    }

    /// The text of the output panel.
    pub fn command_output(&self) -> (r: &String)
        ensures
            r@ == self@.command_output,
    {
        &self.command_output
    }

    /// Whether the screen is still running.
    pub fn running(&self) -> (r: bool)
        ensures
            r == self@.running,
    {
        self.running
    }

    /// Marks the screen as running.
    pub fn set_running(&mut self, running: bool)
        ensures
            final(self)@ == (AppModel { running, ..old(self)@ }),
    {
        self.running = running;
    }

    /// The selected tab.
    pub fn selected_tab(&self) -> (r: Tab)
        ensures
            r == self@.selected_tab,
    {
        self.selected_tab
    }

    /// The selected row of the Parameters or Actions tab.
    pub fn selected_param(&self) -> (r: usize)
        ensures
            r == self@.selected_param,
    {
        self.selected_param
    }

    /// The selected row of the Filter tab.
    pub fn selected_filter(&self) -> (r: usize)
        ensures
            r == self@.selected_filter,
    {
        self.selected_filter
    }

    /// Whether a value is being edited.
    pub fn editing(&self) -> (r: bool)
        ensures
            r == self@.editing,
    {
        self.editing
    }

    /// The value being edited.
    pub fn edit_buffer(&self) -> (r: &String)
        ensures
            r@ == self@.edit_buffer,
    {
        &self.edit_buffer
    }

    /// The warning about the value being edited, if any.
    pub fn edit_warning(&self) -> (r: &Option<String>)
        ensures
            text_option_model(*r) == self@.edit_warning,
    {
        &self.edit_warning
    }

    /// What the keys currently act on.
    pub fn input_mode(&self) -> (r: InputMode)
        ensures
            r == self@.input_mode,
    {
        self.input_mode
    }

    /// The path in the save dialog.
    pub fn save_path(&self) -> (r: &String)
        ensures
            r@ == self@.save_path,
    {
        &self.save_path
    }

    /// The path in the load dialog.
    pub fn load_path(&self) -> (r: &String)
        ensures
            r@ == self@.load_path,
    {
        &self.load_path
    }

    /// Whether the save dialog is shown.
    pub fn save_dialog_open(&self) -> (r: bool)
        ensures
            r == self@.show_save_dialog,
    {
        self.show_save_dialog
    }

    /// Whether the load dialog is shown.
    pub fn load_dialog_open(&self) -> (r: bool)
        ensures
            r == self@.show_load_dialog,
    {
        self.show_load_dialog
    }

    /// The parameters that the configuration's merge dropped.
    pub fn deprecated_params(&self) -> (r: &Vec<ParamField>)
        ensures
            fields_model(r@) == self@.deprecated_params,
    {
        &self.deprecated_params
    }

    /// The index of the parameter selected on the Parameters tab, if any.
    pub fn get_active_param_index(&self) -> (r: Option<usize>)
        ensures
            index_model(r) == active_param_index(self@),
    {
        let act = active_param_indices(&self.config.params);
        if self.selected_param < act.len() {
            Some(act[self.selected_param])
        } else {
            None
        }
    }

    /// Shows the command line in the output panel.
    pub fn generate_command(&mut self)
        ensures
            final(self)@ == generated(old(self)@),
    {
        self.command_output = self.config.build_command();
    }

    /// Opens the save dialog.
    pub fn show_save_dialog(&mut self)
        ensures
            final(self)@ == save_dialog_shown(old(self)@),
    {
        self.show_save_dialog = true;
        self.input_mode = InputMode::SaveDialog;
    }

    /// Opens the load dialog.
    pub fn show_load_dialog(&mut self)
        ensures
            final(self)@ == load_dialog_shown(old(self)@),
    {
        self.show_load_dialog = true;
        self.input_mode = InputMode::LoadDialog;
    }

    /// Appends a new text parameter.
    pub fn add_param(&mut self)
        ensures
            final(self)@ == param_added(old(self)@),
    {
        self.config.params.push(
            ParamField::new("new_param", "", ParamType::String, "New parameter"),
        );
        assert(self@.config.params =~= old(self)@.config.params.push(new_param_field()));
    }

    /// On the Parameters tab, removes the selected parameter unless it is the
    /// only one.
    pub fn delete_param(&mut self)
        ensures
            final(self)@ == param_deleted(old(self)@),
    {
        if self.selected_tab == Tab::Parameters {
            let act = active_param_indices(&self.config.params);
            proof {
                lemma_active_indices(fields_model(self.config.params@));
            }
            if self.selected_param < act.len() {
                let idx = act[self.selected_param];
                if self.config.params.len() > 1 {
                    let ghost before = self.config.params@;
                    self.config.params.remove(idx);
                    assert(fields_model(self.config.params@) =~= fields_model(before).remove(
                        idx as int,
                    ));
                    let count = active_param_indices(&self.config.params).len();
                    if self.selected_param >= count {
                        self.selected_param = if count > 0 {
                            count - 1
                        } else {
                            0
                        };
                    }
                }
            }
        }
    }

    /// On the Filter tab, switches whether the selected parameter keeps the
    /// script's default.
    pub fn toggle_use_default(&mut self)
        ensures
            final(self)@ == default_toggled(old(self)@),
    {
        if self.selected_tab == Tab::Filter && self.selected_filter < self.config.params.len() {
            let i = self.selected_filter;
            let mut p = self.config.params[i].duplicate();
            p.use_default = !p.use_default;
            let ghost before = self.config.params@;
            let ghost pm = p@;
            self.config.params.set(i, p);
            assert(fields_model(self.config.params@) =~= fields_model(before).update(i as int, pm));
        }
    }

    /// Brings the warning about the edited value up to date; for a path, the file
    /// system is asked whether it exists.
    pub fn validate_edit_buffer(&mut self)
        ensures
            final(self)@ == edit_checked(old(self)@, true) || final(self)@ == edit_checked(
                old(self)@,
                false,
            ),
    {
        match self.get_active_param_index() {
            Some(idx) => {
                if idx < self.config.params.len() {
                    let param = &self.config.params[idx];
                    let temp = ParamField {
                        name: owned_text(param.name.as_str()),
                        value: owned_text(self.edit_buffer.as_str()),
                        param_type: param.param_type,
                        description: owned_text(param.description.as_str()),
                        use_default: param.use_default,
                    };
                    let w = temp.validate_value();
                    self.edit_warning = match w {
                        Some(w) => Some(w.message),
                        None => None,
                    };
                }
            },
            None => {},
        }
    }

    /// On the Parameters tab, starts editing the selected parameter's value.
    pub fn start_editing(&mut self)
        ensures
            final(self)@ == editing_started(old(self)@, true) || final(self)@ == editing_started(
                old(self)@,
                false,
            ),
    {
        if self.selected_tab == Tab::Parameters {
            let act = active_param_indices(&self.config.params);
            if self.selected_param < act.len() {
                let idx = act[self.selected_param];
                self.editing = true;
                self.input_mode = InputMode::Editing;
                self.edit_warning = None;
                if idx < self.config.params.len() {
                    self.edit_buffer = owned_text(self.config.params[idx].value.as_str());
                    self.validate_edit_buffer();
                }
            }
        }
    }

    /// Announces the training run in the output panel and returns the run to
    /// perform.
    pub fn run_training(&mut self) -> (r: TrainingRun)
        ensures
            final(self)@ == training_started(old(self)@),
            AppAction::Train(r)@ == training_run(old(self)@),
    {
        let cmd = self.config.build_command();
        let mut out = concat_text("Running: ", cmd.as_str());
        out.append("\n");
        self.command_output = out;
        TrainingRun {
            program: owned_text(self.config.python_path.as_str()),
            script: owned_text(self.config.script_path.as_str()),
            args: training_arguments(&self.config.params),
        }
    }

    /// The help line of the selected tab.
    pub fn help_text(&self) -> (r: &'static str)
        ensures
            r@ == help_line(self@.selected_tab),
    {
        match self.selected_tab {
            Tab::Parameters => "Tab: Switch | ↑↓: Nav | e: Edit | d: Del | q: Quit",
            Tab::Filter => "Tab: Switch | ↑↓: Nav | t: Toggle Default | q: Quit",
            Tab::Actions => "Tab: Switch | ↑↓: Nav | Enter: Run | g: Gen | s: Save | l: Load | a: Add | q: Quit",
        }
    }

    /// The rows of the Parameters tab: one per parameter that does not keep the
    /// script's default, in order.
    pub fn parameter_rows(&self) -> (r: Vec<String>)
        ensures
            r@.len() == active_indices(self@.config.params).len(),
            forall|k: int|
                0 <= k < r@.len() ==> #[trigger] r@[k]@ == parameter_row(
                    self@.config.params[active_indices(self@.config.params)[k]],
                ),
    {
        let act = active_param_indices(&self.config.params);
        proof {
            lemma_active_indices(self@.config.params);
        }
        let mut r: Vec<String> = Vec::new();
        let mut k: usize = 0;
        while k < act.len()
            invariant
                act@.len() == active_indices(self@.config.params).len(),
                forall|j: int|
                    0 <= j < act@.len() ==> #[trigger] act@[j] as int == active_indices(
                        self@.config.params,
                    )[j],
                forall|j: int|
                    0 <= j < active_indices(self@.config.params).len() ==> 0 <= #[trigger] active_indices(
                        self@.config.params,
                    )[j] < self@.config.params.len(),
                k <= act@.len(),
                r@.len() == k,
                forall|j: int|
                    0 <= j < k ==> #[trigger] r@[j]@ == parameter_row(
                        self@.config.params[active_indices(self@.config.params)[j]],
                    ),
            decreases act@.len() - k,
        {
            let p = &self.config.params[act[k]];
            let mut row = concat_text(p.name.as_str(), " = ");
            row.append(p.value.as_str());
            row.append(" (");
            row.append(p.param_type.name());
            row.append(")");
            r.push(row);
            k = k + 1;
        }
        r
    }

    /// The rows of the Filter tab: one per parameter, in order.
    pub fn filter_rows(&self) -> (r: Vec<String>)
        ensures
            r@.len() == self@.config.params.len(),
            forall|k: int|
                0 <= k < r@.len() ==> #[trigger] r@[k]@ == filter_row(self@.config.params[k]),
    {
        let mut r: Vec<String> = Vec::new();
        let mut k: usize = 0;
        while k < self.config.params.len()
            invariant
                k <= self@.config.params.len(),
                r@.len() == k,
                forall|j: int| 0 <= j < k ==> #[trigger] r@[j]@ == filter_row(self@.config.params[j]),
            decreases self@.config.params.len() - k,
        {
            r.push(filter_row_text(&self.config.params[k]));
            k = k + 1;
        }
        r
    }

    /// The detail panel of the parameter selected on the Parameters tab, if any.
    pub fn parameter_detail_text(&self) -> (r: Option<String>)
        ensures
            match active_param_index(self@) {
                Some(i) => r matches Some(t) && t@ == parameter_detail(self@.config.params[i]),
                None => r is None,
            },
    {
        proof {
            lemma_active_indices(self@.config.params);
        }
        match self.get_active_param_index() {
            Some(i) => Some(detail_text(&self.config.params[i])),
            None => None,
        }
    }

    /// The detail panel of the parameter selected on the Filter tab, if any.
    pub fn filter_detail_text(&self) -> (r: Option<String>)
        ensures
            if self@.selected_filter < self@.config.params.len() {
                r matches Some(t) && t@ == filter_detail(
                    self@.config.params[self@.selected_filter as int],
                )
            } else {
                r is None
            },
    {
        if self.selected_filter < self.config.params.len() {
            let p = &self.config.params[self.selected_filter];
            let mut t = detail_text(p);
            t.append("\n状态: ");
            if p.use_default {
                t.append("✓ 使用脚本默认值");
            } else {
                t.append("✗ 需要手动设置");
            }
            Some(t)
        } else {
            None
        }
    }

    /// The text of the edit popup: the value being edited and a cursor.
    pub fn edit_text(&self) -> (r: String)
        ensures
            r@ == self@.edit_buffer + "_"@,
    {
        concat_text(self.edit_buffer.as_str(), "_")
    }

    /// The text of the warning panel of the edit popup, if there is a warning.
    pub fn warning_text(&self) -> (r: Option<String>)
        ensures
            match self@.edit_warning {
                Some(w) => r matches Some(t) && t@ == warning_panel(w),
                None => r is None,
            },
    {
        match &self.edit_warning {
            Some(w) => {
                let mut t = concat_text("⚠ ", w.as_str());
                t.append("\n  (仍可保存，但可能导致训练错误)");
                Some(t)
            },
            None => None,
        }
    }

    /// The size, in percent of the screen, of the edit popup: larger when it
    /// shows a warning.
    pub fn edit_popup_size(&self) -> (r: (u16, u16))
        ensures
            r == (if self@.edit_warning is Some {
                (70u16, 35u16)
            } else {
                (60u16, 20u16)
            }),
    {
        if self.edit_warning.is_some() {
            (70, 35)
        } else {
            (60, 20)
        }
    }

    /// Reacts to a key press in the normal mode.
    fn handle_normal_key(&mut self, key: Key) -> (r: AppAction)
        ensures
            final(self)@ == normal_step(old(self)@, key, true) || final(self)@ == normal_step(
                old(self)@,
                key,
                false,
            ),
            r@ == normal_action(old(self)@, key),
    {
        match key {
            Key::Tab => {
                self.selected_tab = self.selected_tab.next();
                self.selected_param = 0;
                self.selected_filter = 0;
            },
            Key::Up => {
                if self.selected_tab == Tab::Filter {
                    if self.selected_filter > 0 {
                        self.selected_filter = self.selected_filter - 1;
                    }
                } else {
                    if self.selected_param > 0 {
                        self.selected_param = self.selected_param - 1;
                    }
                }
            },
            Key::Down => {
                match self.selected_tab {
                    Tab::Parameters => {
                        let count = active_param_indices(&self.config.params).len();
                        let max = if count > 0 {
                            count - 1
                        } else {
                            0
                        };
                        if self.selected_param < max {
                            self.selected_param = self.selected_param + 1;
                        }
                    },
                    Tab::Filter => {
                        let len = self.config.params.len();
                        let max = if len > 0 {
                            len - 1
                        } else {
                            0
                        };
                        if self.selected_filter < max {
                            self.selected_filter = self.selected_filter + 1;
                        }
                    },
                    Tab::Actions => {
                        if self.selected_param < 7 {
                            self.selected_param = self.selected_param + 1;
                        }
                    },
                }
            },
            Key::Enter => {
                if self.selected_tab == Tab::Actions {
                    if self.selected_param == 0 {
                        self.generate_command();
                    } else if self.selected_param == 1 {
                        let run = self.run_training();
                        return AppAction::Train(run);
                    } else if self.selected_param == 2 {
                        self.show_save_dialog();
                    } else if self.selected_param == 3 {
                        self.show_load_dialog();
                    } else if self.selected_param == 4 {
                        self.add_param();
                    } else if self.selected_param == 5 {
                        self.delete_param();
                    } else if self.selected_param == 6 {
                        self.start_editing();
                    }
                }
            },
            Key::Char(c) => {
                if c == 'g' {
                    self.generate_command();
                } else if c == 's' {
                    self.show_save_dialog();
                } else if c == 'l' {
                    self.show_load_dialog();
                } else if c == 'a' {
                    self.add_param();
                } else if c == 'd' {
                    self.delete_param();
                } else if c == 'e' {
                    self.start_editing();
                } else if c == 't' {
                    self.toggle_use_default();
                } else if c == 'q' {
                    self.running = false;
                }
            },
            _ => {},
        }
        AppAction::Nothing
    }

    /// Reacts to a key press while a value is edited.
    fn handle_editing_key(&mut self, key: Key)
        ensures
            final(self)@ == editing_step(old(self)@, key, true) || final(self)@ == editing_step(
                old(self)@,
                key,
                false,
            ),
    {
        match key {
            Key::Enter => {
                match self.get_active_param_index() {
                    Some(idx) => {
                        if idx < self.config.params.len() {
                            let mut p = self.config.params[idx].duplicate();
                            p.value = owned_text(self.edit_buffer.as_str());
                            let ghost before = self.config.params@;
                            let ghost pm = p@;
                            self.config.params.set(idx, p);
                            assert(fields_model(self.config.params@) =~= fields_model(
                                before,
                            ).update(idx as int, pm));
                        }
                    },
                    None => {},
                }
                self.editing = false;
                self.edit_warning = None;
                self.input_mode = InputMode::Normal;
            },
            Key::Esc => {
                self.editing = false;
                self.edit_warning = None;
                self.input_mode = InputMode::Normal;
            },
            Key::Char(c) => {
                push_char(&mut self.edit_buffer, c);
                self.validate_edit_buffer();
            },
            Key::Backspace => {
                pop_char(&mut self.edit_buffer);
                self.validate_edit_buffer();
            },
            _ => {},
        }
    }

    /// Reacts to a key press in the save dialog; confirming asks to save.
    fn handle_save_dialog_key(&mut self, key: Key) -> (r: AppAction)
        ensures
            final(self)@ == save_dialog_step(old(self)@, key),
            r@ == (if key == Key::Enter {
                ActionModel::Save(old(self)@.save_path)
            } else {
                ActionModel::Nothing
            }),
    {
        match key {
            Key::Enter => {
                return AppAction::Save(owned_text(self.save_path.as_str()));
            },
            Key::Esc => {
                self.show_save_dialog = false;
                self.input_mode = InputMode::Normal;
            },
            Key::Char(c) => {
                push_char(&mut self.save_path, c);
            },
            Key::Backspace => {
                pop_char(&mut self.save_path);
            },
            _ => {},
        }
        AppAction::Nothing
    }

    /// Reacts to a key press in the load dialog; confirming asks to load.
    fn handle_load_dialog_key(&mut self, key: Key) -> (r: AppAction)
        ensures
            final(self)@ == load_dialog_step(old(self)@, key),
            r@ == (if key == Key::Enter {
                ActionModel::Load(old(self)@.load_path)
            } else {
                ActionModel::Nothing
            }),
    {
        match key {
            Key::Enter => {
                return AppAction::Load(owned_text(self.load_path.as_str()));
            },
            Key::Esc => {
                self.show_load_dialog = false;
                self.input_mode = InputMode::Normal;
            },
            Key::Char(c) => {
                push_char(&mut self.load_path, c);
            },
            Key::Backspace => {
                pop_char(&mut self.load_path);
            },
            _ => {},
        }
        AppAction::Nothing
    }

    /// Reacts to a key press and returns the outside work it asks for; for an
    /// edited path value, the file system is asked whether it exists.
    pub fn handle_key(&mut self, key: Key) -> (r: AppAction)
        ensures
            final(self)@ == key_step(old(self)@, key, true) || final(self)@ == key_step(
                old(self)@,
                key,
                false,
            ),
            r@ == key_action(old(self)@, key),
    {
        match self.input_mode {
            InputMode::Normal => self.handle_normal_key(key),
            InputMode::Editing => {
                self.handle_editing_key(key);
                AppAction::Nothing
            },
            InputMode::SaveDialog => self.handle_save_dialog_key(key),
            InputMode::LoadDialog => self.handle_load_dialog_key(key),
        }
    }

    /// Takes the outcome of a load: the loaded configuration replaces the current
    /// one, or the error is shown; the dialog closes.
    pub fn load_finished(&mut self, outcome: Result<TrainConfig, String>)
        ensures
            final(self)@ == after_load(old(self)@, load_outcome_model(outcome)),
    {
        match outcome {
            Ok(config) => {
                self.config = config;
                self.command_output = concat_text("Load from ", self.load_path.as_str());
            },
            Err(e) => {
                self.command_output = concat_text("Error: ", e.as_str());
            },
        }
        self.show_load_dialog = false;
        self.input_mode = InputMode::Normal;
    }

    /// Takes the outcome of a save: the saved path or the error is shown; the
    /// dialog closes.
    pub fn save_finished(&mut self, outcome: Result<(), String>)
        ensures
            final(self)@ == after_save(old(self)@, save_outcome_model(outcome)),
    {
        match outcome {
            Ok(()) => {
                self.command_output = concat_text("Saved to ", self.save_path.as_str());
            },
            Err(e) => {
                self.command_output = concat_text("Error: ", e.as_str());
            },
        }
        self.show_save_dialog = false;
        self.input_mode = InputMode::Normal;
    }

    /// Takes the outcome of a run: what it wrote to its standard output, then to
    /// its standard error when there is any, or why it could not start, is added
    /// to the output panel.
    pub fn training_finished(&mut self, outcome: Result<(String, String), String>)
        ensures
            final(self)@ == after_training(old(self)@, run_outcome_model(outcome)),
    {
        match outcome {
            Ok((out, err)) => {
                self.command_output.append(out.as_str());
                if !err.as_str().is_empty() {
                    self.command_output.append(err.as_str());
                }
            },
            Err(e) => {
                self.command_output.append("Error: ");
                self.command_output.append(e.as_str());
            },
        }
    }
}

} // verus!
