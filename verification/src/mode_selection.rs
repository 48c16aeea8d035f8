//! The start screen of the launcher as a state machine: it chooses between
//! opening a stored configuration and extracting one from a script, optionally
//! merged with an older configuration.

use vstd::prelude::*;
use crate::config::{
    config_from_params, merge_model, ConfigModel, FieldModel, MergeModel, MergeResult, TrainConfig,
};
use crate::input::Key;
use crate::parser::{extract_params, params_of_script, ExtractError};
use crate::text::{
    concat_text, decimal, decimal_text, join_texts, joined, occurs_at, owned_text, pop_char,
    push_char, slice_text, texts_model,
};

verus! {

/// How the main screen is to start.
pub enum LaunchMode {
    /// With a stored configuration.
    OpenConfig(TrainConfig),
    /// With a configuration extracted from a script, and the merge with an older
    /// configuration that produced it, if there was one.
    ExtractFromScript { config: TrainConfig, merge_result: Option<MergeResult> },
}

/// The mathematical content of a [`LaunchMode`].
pub enum LaunchModel {
    OpenConfig(ConfigModel),
    ExtractFromScript { config: ConfigModel, merge_result: Option<MergeModel> },
}

/// The model of an optional merge result.
pub open spec fn merge_option_model(m: Option<MergeResult>) -> Option<MergeModel> {
    match m {
        Some(m) => Some(m@),
        None => None,
    }
}

/// The model of an optional configuration.
pub open spec fn config_option_model(c: Option<TrainConfig>) -> Option<ConfigModel> {
    match c {
        Some(c) => Some(c@),
        None => None,
    }
}

impl View for LaunchMode {
    type V = LaunchModel;

    open spec fn view(&self) -> LaunchModel {
        match self {
            LaunchMode::OpenConfig(c) => LaunchModel::OpenConfig(c@),
            LaunchMode::ExtractFromScript { config, merge_result } => LaunchModel::ExtractFromScript {
                config: config@,
                merge_result: merge_option_model(*merge_result),
            },
        }
    }
}

/// The model of an optional launch.
pub open spec fn launch_option_model(l: Option<LaunchMode>) -> Option<LaunchModel> {
    match l {
        Some(l) => Some(l@),
        None => None,
    }
}

/// The state of the start screen.
pub struct ModeSelector {
    selected: usize,
    script_path: String,
    config_path: String,
    editing_script: bool,
    editing_config: bool,
    error_msg: String,
    should_quit: bool,
    show_inherit_dialog: bool,
    inherit_selected: usize,
    inherit_config_path: String,
    editing_inherit_path: bool,
    show_merge_result: bool,
    pending_merge_result: Option<MergeResult>,
    pending_new_config: Option<TrainConfig>,
}

/// The mathematical content of a [`ModeSelector`].
pub struct SelectorModel {
    /// The selected entry of the main menu: open a configuration, extract from a
    /// script, or quit.
    pub selected: nat,
    pub script_path: Seq<char>,
    pub config_path: Seq<char>,
    pub editing_script: bool,
    pub editing_config: bool,
    pub error_msg: Seq<char>,
    pub should_quit: bool,
    pub show_inherit_dialog: bool,
    /// The selected answer of the inherit dialog: inherit (0) or not.
    pub inherit_selected: nat,
    pub inherit_config_path: Seq<char>,
    pub editing_inherit_path: bool,
    pub show_merge_result: bool,
    pub pending_merge_result: Option<MergeModel>,
    pub pending_new_config: Option<ConfigModel>,
}

impl View for ModeSelector {
    type V = SelectorModel;

    closed spec fn view(&self) -> SelectorModel {
        SelectorModel {
            selected: self.selected as nat,
            script_path: self.script_path@,
            config_path: self.config_path@,
            editing_script: self.editing_script,
            editing_config: self.editing_config,
            error_msg: self.error_msg@,
            should_quit: self.should_quit,
            show_inherit_dialog: self.show_inherit_dialog,
            inherit_selected: self.inherit_selected as nat,
            inherit_config_path: self.inherit_config_path@,
            editing_inherit_path: self.editing_inherit_path,
            show_merge_result: self.show_merge_result,
            pending_merge_result: merge_option_model(self.pending_merge_result),
            pending_new_config: config_option_model(self.pending_new_config),
        }
    }
}

/// The outside work that a key press on the start screen asks for.
pub enum SelectorAction {
    /// Nothing to do.
    Nothing,
    /// Start the main screen.
    Launch(LaunchMode),
    /// Load the configuration at the path (after `~` expansion), then report to
    /// [`ModeSelector::try_open_config`].
    OpenConfig(String),
    /// Read the script at the path (after `~` expansion), then report to
    /// [`ModeSelector::try_extract_from_script`].
    ExtractScript(String),
    /// Load the older configuration at the path (after `~` expansion), then
    /// report to [`ModeSelector::try_merge_config`].
    MergeConfig(String),
}

/// The mathematical content of a [`SelectorAction`].
pub enum SelectorActionModel {
    Nothing,
    Launch(LaunchModel),
    OpenConfig(Seq<char>),
    ExtractScript(Seq<char>),
    MergeConfig(Seq<char>),
}

impl View for SelectorAction {
    type V = SelectorActionModel;

    open spec fn view(&self) -> SelectorActionModel {
        match self {
            SelectorAction::Nothing => SelectorActionModel::Nothing,
            SelectorAction::Launch(l) => SelectorActionModel::Launch(l@),
            SelectorAction::OpenConfig(p) => SelectorActionModel::OpenConfig(p@),
            SelectorAction::ExtractScript(p) => SelectorActionModel::ExtractScript(p@),
            SelectorAction::MergeConfig(p) => SelectorActionModel::MergeConfig(p@),
        }
    }
}

/// What reading a file gave: it does not exist, it could not be read (with the
/// error's text), or its content.
pub enum FileOutcome<T> {
    Missing,
    Failed(String),
    Loaded(T),
}

/// The model of the outcome of loading a configuration.
pub enum ConfigOutcomeModel {
    Missing,
    Failed(Seq<char>),
    Loaded(ConfigModel),
}

/// The model of the outcome of loading a configuration.
pub open spec fn config_outcome_model(o: FileOutcome<TrainConfig>) -> ConfigOutcomeModel {
    match o {
        FileOutcome::Missing => ConfigOutcomeModel::Missing,
        FileOutcome::Failed(e) => ConfigOutcomeModel::Failed(e@),
        FileOutcome::Loaded(c) => ConfigOutcomeModel::Loaded(c@),
    }
}

/// `path` with a leading `~/` replaced by the home directory `home` and a `/`,
/// when there is a home directory.
pub open spec fn tilde_expanded(path: Seq<char>, home: Option<Seq<char>>) -> Seq<char> {
    if occurs_at(path, "~/"@, 0) && home is Some {
        home->0 + "/"@ + path.skip(2)
    } else {
        path
    }
}

/// `path` with a leading `~/` replaced by the home directory, if one is given.
pub fn expand_tilde(path: &str, home: Option<&str>) -> (r: String)
    ensures
        r@ == tilde_expanded(
            path@,
            match home {
                Some(h) => Some(h@),
                None => None,
            },
        ),
{
    let cs = crate::text::chars_of(path);
    let prefix = crate::text::chars_of("~/");
    proof {
        reveal_strlit("~/");
    }
    if crate::text::matches_at(&cs, &prefix, 0) {
        match home {
            Some(h) => {
                let mut r = concat_text(h, "/");
                let rest = slice_text(path, 2, cs.len());
                r.append(rest.as_str());
                assert(rest@ =~= path@.skip(2));
                return r;
            },
            None => {},
        }
    }
    owned_text(path)
}

/// The screen that the launcher starts with.
pub open spec fn initial_selector() -> SelectorModel {
    SelectorModel {
        selected: 0,
        script_path: "train.py"@,
        config_path: "config.json"@,
        editing_script: false,
        editing_config: false,
        error_msg: Seq::empty(),
        should_quit: false,
        show_inherit_dialog: false,
        inherit_selected: 0,
        inherit_config_path: "config.json"@,
        editing_inherit_path: false,
        show_merge_result: false,
        pending_merge_result: None,
        pending_new_config: None,
    }
}

/// `s` without its last character, if it has one.
pub open spec fn drop_last_char(s: Seq<char>) -> Seq<char> {
    if s.len() > 0 {
        s.drop_last()
    } else {
        s
    }
}

/// The edit of a path by a key: `Char` appends, `Backspace` removes the last
/// character.
pub open spec fn path_edited(p: Seq<char>, key: Key) -> Seq<char> {
    match key {
        Key::Char(c) => p.push(c),
        Key::Backspace => drop_last_char(p),
        _ => p,
    }
}

/// The start screen after a key press on the main menu.
pub open spec fn main_menu_step(m: SelectorModel, key: Key) -> SelectorModel {
    match key {
        Key::Up => if m.selected > 0 {
            SelectorModel { selected: (m.selected - 1) as nat, ..m }
        } else {
            m
        },
        Key::Down => if m.selected < 2 {
            SelectorModel { selected: m.selected + 1, ..m }
        } else {
            m
        },
        Key::Enter => if m.selected == 2 {
            SelectorModel { should_quit: true, ..m }
        } else {
            m
        },
        Key::Char(c) => if c == 'p' {
            SelectorModel { editing_script: true, ..m }
        } else if c == 'c' {
            SelectorModel { editing_config: true, ..m }
        } else if c == 'q' {
            SelectorModel { should_quit: true, ..m }
        } else {
            m
        },
        _ => m,
    }
}

/// The outside work that a key press on the main menu asks for.
pub open spec fn main_menu_action(m: SelectorModel, key: Key) -> SelectorActionModel {
    if key == Key::Enter && m.selected == 0 {
        SelectorActionModel::OpenConfig(m.config_path)
    } else if key == Key::Enter && m.selected == 1 {
        SelectorActionModel::ExtractScript(m.script_path)
    } else {
        SelectorActionModel::Nothing
    }
}

/// The start screen after a key press in the inherit dialog.
pub open spec fn inherit_dialog_step(m: SelectorModel, key: Key) -> SelectorModel {
    if m.editing_inherit_path {
        match key {
            Key::Enter => SelectorModel { editing_inherit_path: false, ..m },
            Key::Esc => SelectorModel { editing_inherit_path: false, ..m },
            _ => SelectorModel {
                inherit_config_path: path_edited(m.inherit_config_path, key),
                ..m
            },
        }
    } else {
        match key {
            Key::Up => SelectorModel {
                inherit_selected: if m.inherit_selected == 0 {
                    1
                } else {
                    0
                },
                ..m
            },
            Key::Down => SelectorModel {
                inherit_selected: if m.inherit_selected == 0 {
                    1
                } else {
                    0
                },
                ..m
            },
            Key::Enter => if m.inherit_selected == 0 {
                m
            } else {
                SelectorModel { pending_new_config: None, show_inherit_dialog: false, ..m }
            },
            Key::Char(c) => if c == 'e' {
                SelectorModel { editing_inherit_path: true, ..m }
            } else {
                m
            },
            Key::Esc => SelectorModel { show_inherit_dialog: false, pending_new_config: None, ..m },
            _ => m,
        }
    }
}

/// The outside work that a key press in the inherit dialog asks for: the merge,
/// or the launch with the new configuration alone.
pub open spec fn inherit_dialog_action(m: SelectorModel, key: Key) -> SelectorActionModel {
    if !m.editing_inherit_path && key == Key::Enter {
        if m.inherit_selected == 0 {
            SelectorActionModel::MergeConfig(m.inherit_config_path)
        } else {
            match m.pending_new_config {
                Some(c) => SelectorActionModel::Launch(
                    LaunchModel::ExtractFromScript { config: c, merge_result: None },
                ),
                None => SelectorActionModel::Nothing,
            }
        }
    } else {
        SelectorActionModel::Nothing
    }
}

/// The start screen after a key press while the merge result is shown.
pub open spec fn merge_result_step(m: SelectorModel, key: Key) -> SelectorModel {
    match key {
        Key::Enter => SelectorModel { pending_merge_result: None, show_merge_result: false, ..m },
        Key::Esc => SelectorModel {
            show_merge_result: false,
            pending_merge_result: None,
            pending_new_config: None,
            ..m
        },
        _ => m,
    }
}

/// The outside work that a key press while the merge result is shown asks for:
/// the launch with the merged configuration.
pub open spec fn merge_result_action(m: SelectorModel, key: Key) -> SelectorActionModel {
    if key == Key::Enter {
        match m.pending_merge_result {
            Some(r) => SelectorActionModel::Launch(
                LaunchModel::ExtractFromScript { config: r.config, merge_result: Some(r) },
            ),
            None => SelectorActionModel::Nothing,
        }
    } else {
        SelectorActionModel::Nothing
    }
}

/// The start screen after a key press: the merge result, the inherit dialog, a
/// path being edited, or else the main menu takes the key.
pub open spec fn selector_step(m: SelectorModel, key: Key) -> SelectorModel {
    if m.show_merge_result {
        merge_result_step(m, key)
    } else if m.show_inherit_dialog {
        inherit_dialog_step(m, key)
    } else if m.editing_script {
        match key {
            Key::Enter => SelectorModel { editing_script: false, ..m },
            Key::Esc => SelectorModel { editing_script: false, ..m },
            _ => SelectorModel { script_path: path_edited(m.script_path, key), ..m },
        }
    } else if m.editing_config {
        match key {
            Key::Enter => SelectorModel { editing_config: false, ..m },
            Key::Esc => SelectorModel { editing_config: false, ..m },
            _ => SelectorModel { config_path: path_edited(m.config_path, key), ..m },
        }
    } else if m.editing_inherit_path {
        match key {
            Key::Enter => SelectorModel { editing_inherit_path: false, ..m },
            Key::Esc => SelectorModel { editing_inherit_path: false, ..m },
            _ => SelectorModel {
                inherit_config_path: path_edited(m.inherit_config_path, key),
                ..m
            },
        }
    } else {
        main_menu_step(m, key)
    }
}

/// The outside work that a key press on the start screen asks for.
pub open spec fn selector_action(m: SelectorModel, key: Key) -> SelectorActionModel {
    if m.show_merge_result {
        merge_result_action(m, key)
    } else if m.show_inherit_dialog {
        inherit_dialog_action(m, key)
    } else if m.editing_script || m.editing_config || m.editing_inherit_path {
        SelectorActionModel::Nothing
    } else {
        main_menu_action(m, key)
    }
}

/// The start screen after the stored configuration was looked for.
pub open spec fn after_open(m: SelectorModel, o: ConfigOutcomeModel) -> SelectorModel {
    match o {
        ConfigOutcomeModel::Missing => SelectorModel {
            error_msg: "配置文件不存在: "@ + m.config_path,
            ..m
        },
        ConfigOutcomeModel::Failed(e) => SelectorModel { error_msg: "加载配置失败: "@ + e, ..m },
        ConfigOutcomeModel::Loaded(_) => m,
    }
}

/// The launch that opening the stored configuration gives, if it loaded.
pub open spec fn open_launch(o: ConfigOutcomeModel) -> Option<LaunchModel> {
    match o {
        ConfigOutcomeModel::Loaded(c) => Some(LaunchModel::OpenConfig(c)),
        _ => None,
    }
}

/// The start screen after the older configuration for a merge was looked for:
/// the merge of the pending configuration into it is shown, or the error.
pub open spec fn after_merge_load(m: SelectorModel, o: ConfigOutcomeModel) -> SelectorModel {
    match o {
        ConfigOutcomeModel::Missing => SelectorModel {
            error_msg: "继承配置文件不存在: "@ + m.inherit_config_path,
            show_inherit_dialog: false,
            ..m
        },
        ConfigOutcomeModel::Failed(e) => SelectorModel {
            error_msg: "加载继承配置失败: "@ + e,
            show_inherit_dialog: false,
            ..m
        },
        ConfigOutcomeModel::Loaded(old) => match m.pending_new_config {
            None => SelectorModel { show_inherit_dialog: false, ..m },
            Some(new) => SelectorModel {
                pending_new_config: None,
                pending_merge_result: Some(merge_model(old, new)),
                show_merge_result: true,
                show_inherit_dialog: false,
                ..m
            },
        },
    }
}

/// A path on the start screen: with a cursor while it is edited, else with the
/// key that edits it.
pub open spec fn path_line(p: Seq<char>, editing: bool, key_hint: Seq<char>) -> Seq<char> {
    if editing {
        "> "@ + p + "_"@
    } else {
        p + key_hint
    }
}

/// The paths line of the main menu.
pub open spec fn paths_line(m: SelectorModel) -> Seq<char> {
    "脚本: "@ + path_line(m.script_path, m.editing_script, " (按 'p' 编辑)"@) + " | 配置: "@
        + path_line(m.config_path, m.editing_config, " (按 'c' 编辑)"@)
}

/// The status line of the main menu: the error, or how to quit.
pub open spec fn status_line(m: SelectorModel) -> Seq<char> {
    if m.error_msg.len() > 0 {
        "错误: "@ + m.error_msg
    } else {
        "按 'q' 退出"@
    }
}

/// The first answer of the inherit dialog, with the path of the older
/// configuration.
pub open spec fn inherit_option_line(m: SelectorModel) -> Seq<char> {
    "是，继承配置: "@ + path_line(m.inherit_config_path, m.editing_inherit_path, " (按 'e' 编辑)"@)
}

/// The summary of the inherited parameters of a merge.
pub open spec fn inherited_summary(r: MergeModel) -> Seq<char> {
    "✓ 继承了 "@ + decimal(r.inherited_params.len()) + " 个参数的设置\n  "@ + joined(
        r.inherited_params,
        ", "@,
    )
}

/// The summary of the new parameters of a merge.
pub open spec fn new_summary(r: MergeModel) -> Seq<char> {
    "✓ 新增 "@ + decimal(r.new_params.len()) + " 个参数 (使用默认值)\n  "@ + joined(
        r.new_params,
        ", "@,
    )
}

/// The summary of the deprecated parameters of a merge.
pub open spec fn deprecated_summary(r: MergeModel) -> Seq<char> {
    if r.deprecated_params.len() == 0 {
        "✓ 没有弃用的参数"@
    } else {
        "⚠ 保留 "@ + decimal(r.deprecated_params.len()) + " 个旧参数 (在新脚本中不存在)\n  "@
            + joined(r.deprecated_params.map_values(|f: FieldModel| f.name), ", "@)
    }
}

/// The three summaries that the merge result screen shows.
pub struct MergeSummary {
    pub inherited: String,
    pub added: String,
    pub deprecated: String,
}

/// The summaries of a merge result.
pub fn merge_summary(r: &MergeResult) -> (s: MergeSummary)
    ensures
        s.inherited@ == inherited_summary(r@),
        s.added@ == new_summary(r@),
        s.deprecated@ == deprecated_summary(r@),
{
    let mut inherited = concat_text("✓ 继承了 ", decimal_text(r.inherited_params.len()).as_str());
    inherited.append(" 个参数的设置\n  ");
    inherited.append(join_texts(&r.inherited_params, ", ").as_str());
    let mut added = concat_text("✓ 新增 ", decimal_text(r.new_params.len()).as_str());
    added.append(" 个参数 (使用默认值)\n  ");
    added.append(join_texts(&r.new_params, ", ").as_str());
    let deprecated = if r.deprecated_params.len() == 0 {
        owned_text("✓ 没有弃用的参数")
    } else {
        let mut names: Vec<String> = Vec::new();
        let mut i: usize = 0;
        while i < r.deprecated_params.len()
            invariant
                i <= r.deprecated_params@.len(),
                names@.len() == i,
                forall|k: int| 0 <= k < i ==> #[trigger] names@[k]@ == r.deprecated_params@[k]@.name,
            decreases r.deprecated_params@.len() - i,
        {
            names.push(owned_text(r.deprecated_params[i].name.as_str()));
            i = i + 1;
        }
        assert(texts_model(names@) =~= r@.deprecated_params.map_values(|f: FieldModel| f.name));
        let mut t = concat_text("⚠ 保留 ", decimal_text(r.deprecated_params.len()).as_str());
        t.append(" 个旧参数 (在新脚本中不存在)\n  ");
        t.append(join_texts(&names, ", ").as_str());
        t
    };
    MergeSummary { inherited, added, deprecated }
}

/// A path on the start screen.
fn path_text(p: &String, editing: bool, key_hint: &str) -> (r: String)
    ensures
        r@ == path_line(p@, editing, key_hint@),
{
    if editing {
        let mut t = concat_text("> ", p.as_str());
        t.append("_");
        t
    } else {
        concat_text(p.as_str(), key_hint)
    }
}

impl ModeSelector {
    /// The start screen.
    pub fn new() -> (r: Self)
        ensures
            r@ == initial_selector(),
    {
        ModeSelector {
            selected: 0,
            script_path: owned_text("train.py"),
            config_path: owned_text("config.json"),
            editing_script: false,
            editing_config: false,
            error_msg: String::new(),
            should_quit: false,
            show_inherit_dialog: false,
            inherit_selected: 0,
            inherit_config_path: owned_text("config.json"),
            editing_inherit_path: false,
            show_merge_result: false,
            pending_merge_result: None,
            pending_new_config: None,
        }
    }

    /// The selected entry of the main menu.
    pub fn selected(&self) -> (r: usize)
        ensures
            r == self@.selected,
    {
        self.selected
    }

    /// The path of the script to extract from.
    pub fn script_path(&self) -> (r: &String)
        ensures
            r@ == self@.script_path,
    {
        &self.script_path
    }

    /// The path of the configuration to open.
    pub fn config_path(&self) -> (r: &String)
        ensures
            r@ == self@.config_path,
    {
        &self.config_path
    }

    /// Whether the script path is being edited.
    pub fn editing_script(&self) -> (r: bool)
        ensures
            r == self@.editing_script,
    {
        self.editing_script
    }

    /// Whether the configuration path is being edited.
    pub fn editing_config(&self) -> (r: bool)
        ensures
            r == self@.editing_config,
    {
        self.editing_config
    }

    /// The error shown, empty when there is none.
    pub fn error_msg(&self) -> (r: &String)
        ensures
            r@ == self@.error_msg,
    {
        &self.error_msg
    }

    /// Whether the user asked to quit.
    pub fn should_quit(&self) -> (r: bool)
        ensures
            r == self@.should_quit,
    {
        self.should_quit
    }

    /// Whether the inherit dialog is shown.
    pub fn inherit_dialog_open(&self) -> (r: bool)
        ensures
            r == self@.show_inherit_dialog,
    {
        self.show_inherit_dialog
    }

    /// The selected answer of the inherit dialog.
    pub fn inherit_selected(&self) -> (r: usize)
        ensures
            r == self@.inherit_selected,
    {
        self.inherit_selected
    }

    /// The path of the older configuration to inherit from.
    pub fn inherit_config_path(&self) -> (r: &String)
        ensures
            r@ == self@.inherit_config_path,
    {
        &self.inherit_config_path
    }

    /// Whether the path of the older configuration is being edited.
    pub fn editing_inherit_path(&self) -> (r: bool)
        ensures
            r == self@.editing_inherit_path,
    {
        self.editing_inherit_path
    }

    /// Whether the merge result is shown.
    pub fn merge_result_open(&self) -> (r: bool)
        ensures
            r == self@.show_merge_result,
    {
        self.show_merge_result
    }

    /// The merge result waiting for confirmation, if any.
    pub fn pending_merge_result(&self) -> (r: &Option<MergeResult>)
        ensures
            merge_option_model(*r) == self@.pending_merge_result,
    {
        &self.pending_merge_result
    }

    /// The paths line of the main menu.
    pub fn paths_text(&self) -> (r: String)
        ensures
            r@ == paths_line(self@),
    {
        let mut t = concat_text(
            "脚本: ",
            path_text(&self.script_path, self.editing_script, " (按 'p' 编辑)").as_str(),
        );
        t.append(" | 配置: ");
        t.append(path_text(&self.config_path, self.editing_config, " (按 'c' 编辑)").as_str());
        t
    }

    /// The status line of the main menu.
    pub fn status_text(&self) -> (r: String)
        ensures
            r@ == status_line(self@),
    {
        if !self.error_msg.as_str().is_empty() {
            concat_text("错误: ", self.error_msg.as_str())
        } else {
            owned_text("按 'q' 退出")
        }
    }

    /// The first answer of the inherit dialog.
    pub fn inherit_option_text(&self) -> (r: String)
        ensures
            r@ == inherit_option_line(self@),
    {
        concat_text(
            "是，继承配置: ",
            path_text(&self.inherit_config_path, self.editing_inherit_path, " (按 'e' 编辑)").as_str(),
        )
    }

    /// Reacts to a key press and returns the outside work it asks for.
    pub fn handle_key(&mut self, key: Key) -> (r: SelectorAction)
        ensures
            final(self)@ == selector_step(old(self)@, key),
            r@ == selector_action(old(self)@, key),
    {
        if self.show_merge_result {
            return self.handle_merge_result_key(key);
        }
        if self.show_inherit_dialog {
            return self.handle_inherit_dialog_key(key);
        }
        if self.editing_script {
            self.handle_editing_script_key(key);
            return SelectorAction::Nothing;
        }
        if self.editing_config {
            self.handle_editing_config_key(key);
            return SelectorAction::Nothing;
        }
        if self.editing_inherit_path {
            self.handle_editing_inherit_path_key(key);
            return SelectorAction::Nothing;
        }
        self.handle_main_menu_key(key)
    }

    /// Reacts to a key press while the script path is edited.
    fn handle_editing_script_key(&mut self, key: Key)
        ensures
            final(self)@ == (match key {
                Key::Enter | Key::Esc => SelectorModel { editing_script: false, ..old(self)@ },
                _ => SelectorModel { script_path: path_edited(old(self)@.script_path, key), ..old(self)@ },
            }),
    {
        match key {
            Key::Enter | Key::Esc => {
                self.editing_script = false;
            },
            _ => {
                edit_path(&mut self.script_path, key);
            },
        }
    }

    /// Reacts to a key press while the configuration path is edited.
    fn handle_editing_config_key(&mut self, key: Key)
        ensures
            final(self)@ == (match key {
                Key::Enter | Key::Esc => SelectorModel { editing_config: false, ..old(self)@ },
                _ => SelectorModel { config_path: path_edited(old(self)@.config_path, key), ..old(self)@ },
            }),
    {
        match key {
            Key::Enter | Key::Esc => {
                self.editing_config = false;
            },
            _ => {
                edit_path(&mut self.config_path, key);
            },
        }
    }

    /// Reacts to a key press while the path of the older configuration is edited.
    fn handle_editing_inherit_path_key(&mut self, key: Key)
        ensures
            final(self)@ == (match key {
                Key::Enter | Key::Esc => SelectorModel { editing_inherit_path: false, ..old(self)@ },
                _ => SelectorModel {
                    inherit_config_path: path_edited(old(self)@.inherit_config_path, key),
                    ..old(self)@
                },
            }),
    {
        match key {
            Key::Enter | Key::Esc => {
                self.editing_inherit_path = false;
            },
            _ => {
                edit_path(&mut self.inherit_config_path, key);
            },
        }
    }

    /// Reacts to a key press on the main menu.
    fn handle_main_menu_key(&mut self, key: Key) -> (r: SelectorAction)
        ensures
            final(self)@ == main_menu_step(old(self)@, key),
            r@ == main_menu_action(old(self)@, key),
    {
        match key {
            Key::Up => {
                if self.selected > 0 {
                    self.selected = self.selected - 1;
                }
            },
            Key::Down => {
                if self.selected < 2 {
                    self.selected = self.selected + 1;
                }
            },
            Key::Enter => {
                if self.selected == 0 {
                    return SelectorAction::OpenConfig(owned_text(self.config_path.as_str()));
                } else if self.selected == 1 {
                    return SelectorAction::ExtractScript(owned_text(self.script_path.as_str()));
                } else if self.selected == 2 {
                    self.should_quit = true;
                }
            },
            Key::Char(c) => {
                if c == 'p' {
                    self.editing_script = true;
                } else if c == 'c' {
                    self.editing_config = true;
                } else if c == 'q' {
                    self.should_quit = true;
                }
            },
            _ => {},
        }
        SelectorAction::Nothing
    }

    /// Reacts to a key press in the inherit dialog.
    fn handle_inherit_dialog_key(&mut self, key: Key) -> (r: SelectorAction)
        ensures
            final(self)@ == inherit_dialog_step(old(self)@, key),
            r@ == inherit_dialog_action(old(self)@, key),
    {
        if self.editing_inherit_path {
            self.handle_editing_inherit_path_key(key);
            return SelectorAction::Nothing;
        }
        match key {
            Key::Up | Key::Down => {
                self.inherit_selected = if self.inherit_selected == 0 {
                    1
                } else {
                    0
                };
            },
            Key::Enter => {
                if self.inherit_selected == 0 {
                    return SelectorAction::MergeConfig(
                        owned_text(self.inherit_config_path.as_str()),
                    );
                } else {
                    let config = self.pending_new_config.take();
                    self.show_inherit_dialog = false;
                    return match config {
                        Some(c) => SelectorAction::Launch(
                            LaunchMode::ExtractFromScript { config: c, merge_result: None },
                        ),
                        None => SelectorAction::Nothing,
                    };
                }
            },
            Key::Char(c) => {
                if c == 'e' {
                    self.editing_inherit_path = true;
                }
            },
            Key::Esc => {
                self.show_inherit_dialog = false;
                self.pending_new_config = None;
            },
            _ => {},
        }
        SelectorAction::Nothing
    }

    /// Reacts to a key press while the merge result is shown.
    fn handle_merge_result_key(&mut self, key: Key) -> (r: SelectorAction)
        ensures
            final(self)@ == merge_result_step(old(self)@, key),
            r@ == merge_result_action(old(self)@, key),
    {
        match key {
            Key::Enter => {
                let merge_result = self.pending_merge_result.take();
                self.show_merge_result = false;
                return match merge_result {
                    Some(m) => {
                        let config = m.config.duplicate();
                        SelectorAction::Launch(
                            LaunchMode::ExtractFromScript { config, merge_result: Some(m) },
                        )
                    },
                    None => SelectorAction::Nothing,
                };
            },
            Key::Esc => {
                self.show_merge_result = false;
                self.pending_merge_result = None;
                self.pending_new_config = None;
            },
            _ => {},
        }
        SelectorAction::Nothing
    }

    /// Takes the outcome of looking for the stored configuration: the launch
    /// with it, or the error.
    pub fn try_open_config(&mut self, outcome: FileOutcome<TrainConfig>) -> (r: Option<LaunchMode>)
        ensures
            final(self)@ == after_open(old(self)@, config_outcome_model(outcome)),
            launch_option_model(r) == open_launch(config_outcome_model(outcome)),
    {
        match outcome {
            FileOutcome::Missing => {
                self.error_msg = concat_text("配置文件不存在: ", self.config_path.as_str());
                None
            },
            FileOutcome::Failed(e) => {
                self.error_msg = concat_text("加载配置失败: ", e.as_str());
                None
            },
            FileOutcome::Loaded(c) => Some(LaunchMode::OpenConfig(c)),
        }
    }

    /// Takes the outcome of reading the script: its parameters are extracted
    /// and the inherit dialog opens for the configuration they make, or the
    /// error is shown. A script whose parameters cannot be read gives the
    /// extraction's error, with the screen unchanged.
    pub fn try_extract_from_script(&mut self, outcome: FileOutcome<String>) -> (r: Result<(), ExtractError>)
        ensures
            match outcome {
                FileOutcome::Missing => r is Ok && final(self)@ == (SelectorModel {
                    error_msg: "脚本文件不存在: "@ + old(self)@.script_path,
                    ..old(self)@
                }),
                FileOutcome::Failed(e) => r is Ok && final(self)@ == (SelectorModel {
                    error_msg: "读取脚本失败: "@ + e@,
                    ..old(self)@
                }),
                FileOutcome::Loaded(code) => match params_of_script(code@) {
                    Err(e) => r == Err::<(), ExtractError>(e) && final(self)@ == old(self)@,
                    Ok(ps) => r is Ok && if ps.len() == 0 {
                        final(self)@ == (SelectorModel {
                            error_msg: "未能从脚本中提取任何参数"@,
                            ..old(self)@
                        })
                    } else {
                        final(self)@ == (SelectorModel {
                            pending_new_config: Some(config_from_params(ps)),
                            show_inherit_dialog: true,
                            inherit_selected: 0,
                            inherit_config_path: old(self)@.config_path,
                            ..old(self)@
                        })
                    },
                },
            },
    {
        match outcome {
            FileOutcome::Missing => {
                self.error_msg = concat_text("脚本文件不存在: ", self.script_path.as_str());
                Ok(())
            },
            FileOutcome::Failed(e) => {
                self.error_msg = concat_text("读取脚本失败: ", e.as_str());
                Ok(())
            },
            FileOutcome::Loaded(code) => {
                let params = match extract_params(code.as_str()) {
                    Ok(p) => p,
                    Err(e) => {
                        return Err(e);
                    },
                };
                if params.len() == 0 {
                    self.error_msg = owned_text("未能从脚本中提取任何参数");
                    return Ok(());
                }
                let config = TrainConfig::from_parser_params(params);
                self.pending_new_config = Some(config);
                self.show_inherit_dialog = true;
                self.inherit_selected = 0;
                self.inherit_config_path = owned_text(self.config_path.as_str());
                Ok(())
            },
        }
    }

    /// Takes the outcome of looking for the older configuration: the pending
    /// configuration is merged into it and the merge result is shown, or the
    /// error is.
    pub fn try_merge_config(&mut self, outcome: FileOutcome<TrainConfig>)
        ensures
            final(self)@ == after_merge_load(old(self)@, config_outcome_model(outcome)),
    {
        match outcome {
            FileOutcome::Missing => {
                self.error_msg = concat_text(
                    "继承配置文件不存在: ",
                    self.inherit_config_path.as_str(),
                );
                self.show_inherit_dialog = false;
            },
            FileOutcome::Failed(e) => {
                self.error_msg = concat_text("加载继承配置失败: ", e.as_str());
                self.show_inherit_dialog = false;
            },
            FileOutcome::Loaded(old_config) => {
                match self.pending_new_config.take() {
                    Some(new_config) => {
                        let merge_result = old_config.merge_with_inheritance(new_config);
                        self.pending_merge_result = Some(merge_result);
                        self.show_merge_result = true;
                        self.show_inherit_dialog = false;
                    },
                    None => {
                        self.show_inherit_dialog = false;
                    },
                }
            },
        }
    }
}

/// Edits a path by a key: `Char` appends, `Backspace` removes the last
/// character.
fn edit_path(p: &mut String, key: Key)
    ensures
        final(p)@ == path_edited(old(p)@, key),
{
    match key {
        Key::Char(c) => {
            push_char(p, c);
        },
        Key::Backspace => {
            pop_char(p);
        },
        _ => {},
    }
}

} // verus!
