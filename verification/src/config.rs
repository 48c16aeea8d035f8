//! Training configurations: typed parameters, their validation, the command line
//! they produce, and the merge of a new configuration with an older one.

use vstd::prelude::*;
use std::collections::HashMap;
use crate::literals::{is_float_literal, is_float_text, is_i64_text, parses_as_i64};
use crate::parser::{params_model, Param, ParamModel};
use crate::text::{concat_text, lowercase_text, lowercased, path_exists, same_text, texts_model};

verus! {

/// The type of a parameter's value.
#[derive(Debug, Clone, Copy, PartialEq, Eq, Structural)]
pub enum ParamType {
    Float,
    Integer,
    String,
    Boolean,
    Path,
}

impl ParamType {
    /// The name of the type, as it is printed (`Float`, `Integer`, ...).
    pub open spec fn label(self) -> Seq<char> {
        match self {
            ParamType::Float => "Float"@,
            ParamType::Integer => "Integer"@,
            ParamType::String => "String"@,
            ParamType::Boolean => "Boolean"@,
            ParamType::Path => "Path"@,
        }
    }

    /// The name of the type, as it is printed.
    pub fn name(&self) -> (r: &'static str)
        ensures
            r@ == self.label(),
    {
        match self {
            ParamType::Float => "Float",
            ParamType::Integer => "Integer",
            ParamType::String => "String",
            ParamType::Boolean => "Boolean",
            ParamType::Path => "Path",
        }
    }
}

/// One parameter of a training configuration. `use_default` tells that the
/// script's own default is kept, so that the parameter is left off the command
/// line.
#[derive(Debug, Clone)]
pub struct ParamField {
    pub name: String,
    pub value: String,
    pub param_type: ParamType,
    pub description: String,
    pub use_default: bool,
}

/// The mathematical content of a [`ParamField`].
pub struct FieldModel {
    pub name: Seq<char>,
    pub value: Seq<char>,
    pub param_type: ParamType,
    pub description: Seq<char>,
    pub use_default: bool,
}

impl View for ParamField {
    type V = FieldModel;

    open spec fn view(&self) -> FieldModel {
        FieldModel {
            name: self.name@,
            value: self.value@,
            param_type: self.param_type,
            description: self.description@,
            use_default: self.use_default,
        }
    }
}

/// The models of a sequence of fields.
pub open spec fn fields_model(fs: Seq<ParamField>) -> Seq<FieldModel> {
    fs.map_values(|f: ParamField| f@)
}

/// The command-line argument of a field: none when the script's default is kept
/// or the value is empty; for a boolean, the bare switch `--name` when the value
/// is `true` and nothing otherwise; else `--name value`.
pub open spec fn arg_of(f: FieldModel) -> Option<Seq<char>> {
    if f.use_default || f.value.len() == 0 {
        None
    } else if f.param_type == ParamType::Boolean {
        if f.value == "true"@ {
            Some("--"@ + f.name)
        } else {
            None
        }
    } else {
        Some("--"@ + f.name + " "@ + f.value)
    }
}

/// A warning about a value that does not suit its parameter.
#[derive(Debug, Clone)]
pub struct ValidationWarning {
    pub param_name: String,
    pub expected_type: ParamType,
    pub invalid_value: String,
    pub message: String,
}

/// The mathematical content of a [`ValidationWarning`].
pub struct WarningModel {
    pub param_name: Seq<char>,
    pub expected_type: ParamType,
    pub invalid_value: Seq<char>,
    pub message: Seq<char>,
}

impl View for ValidationWarning {
    type V = WarningModel;

    open spec fn view(&self) -> WarningModel {
        WarningModel {
            param_name: self.param_name@,
            expected_type: self.expected_type,
            invalid_value: self.invalid_value@,
            message: self.message@,
        }
    }
}

/// The model of an optional warning.
pub open spec fn warning_model(w: Option<ValidationWarning>) -> Option<WarningModel> {
    match w {
        Some(w) => Some(w@),
        None => None,
    }
}

/// `v` is a well-formed value of type `t`: an `i64` for an integer, an `f64`
/// literal for a float, `true` or `false` in any case for a boolean; any text for
/// a string or a path.
pub open spec fn value_fits(t: ParamType, v: Seq<char>) -> bool {
    match t {
        ParamType::Integer => is_i64_text(v),
        ParamType::Float => is_float_text(v),
        ParamType::Boolean => lowercased(v) == "true"@ || lowercased(v) == "false"@,
        ParamType::String => true,
        ParamType::Path => true,
    }
}

/// The warning for a value that does not fit its type.
pub open spec fn mismatch_message(f: FieldModel) -> Seq<char> {
    "值 '"@ + f.value + "' 不是有效的 "@ + f.param_type.label() + " 类型"@
}

/// The warning for a path that does not exist.
pub open spec fn missing_path_message(f: FieldModel) -> Seq<char> {
    "路径 '"@ + f.value + "' 不存在"@
}

/// The outcome of validating `f`, where `path_exists` tells whether its value
/// names an existing path: an empty value is always accepted; a value that does
/// not fit the type is reported; a path that does not exist is reported.
pub open spec fn validation_of(f: FieldModel, path_exists: bool) -> Option<WarningModel> {
    if f.value.len() == 0 {
        None
    } else if !value_fits(f.param_type, f.value) {
        Some(
            WarningModel {
                param_name: f.name,
                expected_type: f.param_type,
                invalid_value: f.value,
                message: mismatch_message(f),
            },
        )
    } else if f.param_type == ParamType::Path && !path_exists {
        Some(
            WarningModel {
                param_name: f.name,
                expected_type: ParamType::Path,
                invalid_value: f.value,
                message: missing_path_message(f),
            },
        )
    } else {
        None
    }
}

/// A copy of a text.
fn copy_text(s: &String) -> (r: String)
    ensures
        r@ == s@,
{
    s.clone()
}

impl ParamField {
    /// A parameter that keeps the script's default (`use_default` is set).
    pub fn new(name: &str, value: &str, param_type: ParamType, description: &str) -> (r: Self)
        ensures
            r@ == (FieldModel {
                name: name@,
                value: value@,
                param_type,
                description: description@,
                use_default: true,
            }),
    {
        ParamField {
            name: String::from_str(name),
            value: String::from_str(value),
            param_type,
            description: String::from_str(description),
            use_default: true,
        }
    }

    /// The same parameter with `use_default` set as given.
    pub fn with_use_default(self, use_default: bool) -> (r: Self)
        ensures
            r@ == (FieldModel { use_default, ..self@ }),
    {
        let mut s = self;
        s.use_default = use_default;
        s
    }

    /// A copy of this parameter.
    pub fn duplicate(&self) -> (r: Self)
        ensures
            r@ == self@,
    {
        ParamField {
            name: copy_text(&self.name),
            value: copy_text(&self.value),
            param_type: self.param_type,
            description: copy_text(&self.description),
            use_default: self.use_default,
        }
    }

    /// The command-line argument of this parameter, if it has one.
    pub fn to_arg(&self) -> (r: Option<String>)
        ensures
            r matches Some(a) ==> arg_of(self@) == Some(a@),
            r is None <==> arg_of(self@) is None,
    {
        if self.use_default {
            return None;
        }
        if self.value.as_str().is_empty() {
            return None;
        }
        match self.param_type {
            ParamType::Boolean => {
                if same_text(self.value.as_str(), "true") {
                    Some(concat_text("--", self.name.as_str()))
                } else {
                    None
                }
            },
            _ => {
                let mut a = concat_text("--", self.name.as_str());
                a.append(" ");
                a.append(self.value.as_str());
                Some(a)
            },
        }
    }

    /// Whether the value fits the parameter's type.
    pub fn value_is_valid(&self) -> (r: bool)
        ensures
            r == value_fits(self.param_type, self.value@),
    {
        match self.param_type {
            ParamType::Integer => parses_as_i64(self.value.as_str()),
            ParamType::Float => is_float_literal(self.value.as_str()),
            ParamType::Boolean => {
                let lower = lowercase_text(self.value.as_str());
                same_text(lower.as_str(), "true") || same_text(lower.as_str(), "false")
            },
            ParamType::String => true,
            ParamType::Path => true,
        }
    }

    /// The warning for this parameter, given whether its value names an existing
    /// path.
    pub fn warning_given(&self, path_exists: bool) -> (r: Option<ValidationWarning>)
        ensures
            warning_model(r) == validation_of(self@, path_exists),
    {
        if self.value.as_str().is_empty() {
            return None;
        }
        if !self.value_is_valid() {
            let mut message = concat_text("值 '", self.value.as_str());
            message.append("' 不是有效的 ");
            message.append(self.param_type.name());
            message.append(" 类型");
            return Some(
                ValidationWarning {
                    param_name: copy_text(&self.name),
                    expected_type: self.param_type,
                    invalid_value: copy_text(&self.value),
                    message,
                },
            );
        }
        if self.param_type == ParamType::Path && !path_exists {
            let mut message = concat_text("路径 '", self.value.as_str());
            message.append("' 不存在");
            return Some(
                ValidationWarning {
                    param_name: copy_text(&self.name),
                    expected_type: ParamType::Path,
                    invalid_value: copy_text(&self.value),
                    message,
                },
            );
        }
        None
    }

    /// The path that validating this parameter asks the file system about: the
    /// value of a path parameter, when it is not empty; none otherwise.
    pub fn path_to_check(&self) -> (r: Option<String>)
        ensures
            text_option_model(r) == path_query(self@),
            r is Some <==> (self@.param_type == ParamType::Path && self@.value.len() > 0),
            r matches Some(q) ==> q@ == self@.value,
    {
        if self.param_type == ParamType::Path && !self.value.as_str().is_empty() {
            Some(copy_text(&self.value))
        } else {
            None
        }
    }

    /// Validates the value against the parameter's type; for a path, also asks
    /// the file system whether it exists. An empty value is always accepted.
    pub fn validate_value(&self) -> (r: Option<ValidationWarning>)
        ensures
            warning_model(r) == validation_of(self@, true) || warning_model(r) == validation_of(
                self@,
                false,
            ),
            path_query(self@) is None ==> warning_model(r) == validation_of(self@, true),
    {
        let exists = match self.path_to_check() {
            Some(q) => path_exists(q.as_str()),
            None => true,
        };
        self.warning_given(exists)
    }
}

/// The path that validating `f` asks the file system about: the value of a path
/// parameter, when it is not empty.
pub open spec fn path_query(f: FieldModel) -> Option<Seq<char>> {
    if f.param_type == ParamType::Path && f.value.len() > 0 {
        Some(f.value)
    } else {
        None
    }
}

/// The model of an optional text.
pub open spec fn text_option_model(t: Option<String>) -> Option<Seq<char>> {
    match t {
        Some(t) => Some(t@),
        None => None,
    }
}

/// A training configuration: the interpreter and script to run, the parameters
/// to pass, and extra environment variables.
#[derive(Debug, Clone)]
pub struct TrainConfig {
    pub script_path: String,
    pub python_path: String,
    pub params: Vec<ParamField>,
    pub env_vars: HashMap<String, String>,
}

/// The mathematical content of a [`TrainConfig`].
pub struct ConfigModel {
    pub script_path: Seq<char>,
    pub python_path: Seq<char>,
    pub params: Seq<FieldModel>,
    pub env_vars: Map<String, String>,
}

impl View for TrainConfig {
    type V = ConfigModel;

    open spec fn view(&self) -> ConfigModel {
        ConfigModel {
            script_path: self.script_path@,
            python_path: self.python_path@,
            params: fields_model(self.params@),
            env_vars: self.env_vars@,
        }
    }
}

/// The model of a field that keeps its default.
pub open spec fn default_field(
    name: Seq<char>,
    value: Seq<char>,
    param_type: ParamType,
    description: Seq<char>,
) -> FieldModel {
    FieldModel { name, value, param_type, description, use_default: true }
}

/// The configuration that a launcher starts from when it has none.
pub open spec fn default_config() -> ConfigModel {
    ConfigModel {
        script_path: "train.py"@,
        python_path: "python"@,
        params: seq![
            default_field("lr"@, "0.001"@, ParamType::Float, "Learning rate"@),
            default_field("epochs"@, "100"@, ParamType::Integer, "Number of epochs"@),
            default_field("batch-size"@, "32"@, ParamType::Integer, "Batch size"@),
            default_field("model"@, ""@, ParamType::String, "Model name"@),
            default_field("data-dir"@, ""@, ParamType::Path, "Data directory"@),
            default_field("checkpoint"@, ""@, ParamType::Path, "Checkpoint path"@),
            default_field("gpu"@, "0"@, ParamType::Integer, "GPU device ID"@),
            default_field("resume"@, "false"@, ParamType::Boolean, "Resume from checkpoint"@),
        ],
        env_vars: Map::empty(),
    }
}

/// The parameter type that a type name of the parser stands for; an unknown
/// name stands for a string.
pub open spec fn type_from_name(t: Seq<char>) -> ParamType {
    if t == "Integer"@ {
        ParamType::Integer
    } else if t == "Float"@ {
        ParamType::Float
    } else if t == "Boolean"@ {
        ParamType::Boolean
    } else if t == "Path"@ {
        ParamType::Path
    } else {
        ParamType::String
    }
}

/// The field that an extracted parameter becomes; it keeps the script's default.
pub open spec fn field_from_param(p: ParamModel) -> FieldModel {
    default_field(p.name, p.value, type_from_name(p.param_type), p.description)
}

/// The command line of a configuration: the interpreter, the script, then the
/// argument of each parameter that has one, each after a space.
pub open spec fn command_of(python: Seq<char>, script: Seq<char>, fs: Seq<FieldModel>) -> Seq<char>
    decreases fs.len(),
{
    if fs.len() == 0 {
        python + " "@ + script
    } else {
        let rest = command_of(python, script, fs.drop_last());
        match arg_of(fs.last()) {
            Some(a) => rest + " "@ + a,
            None => rest,
        }
    }
}

/// The warnings of a sequence of fields, in order, where `exists[i]` tells
/// whether the value of field `i` names an existing path.
pub open spec fn warnings_of(fs: Seq<FieldModel>, exists: Seq<bool>) -> Seq<WarningModel>
    decreases fs.len(),
{
    if fs.len() == 0 {
        seq![]
    } else {
        let rest = warnings_of(fs.drop_last(), exists.drop_last());
        match validation_of(fs.last(), exists.last()) {
            Some(w) => rest.push(w),
            None => rest,
        }
    }
}

/// The models of a sequence of warnings.
pub open spec fn warnings_model(ws: Seq<ValidationWarning>) -> Seq<WarningModel> {
    ws.map_values(|w: ValidationWarning| w@)
}

/// Some field of `fs` is named `name`.
pub open spec fn has_field_named(fs: Seq<FieldModel>, name: Seq<char>) -> bool {
    exists|i: int| 0 <= i < fs.len() && #[trigger] fs[i].name == name
}

/// The index of the last field of `fs` named `name`.
pub open spec fn last_named(fs: Seq<FieldModel>, name: Seq<char>) -> Option<int>
    decreases fs.len(),
{
    if fs.len() == 0 {
        None
    } else if fs.last().name == name {
        Some(fs.len() - 1)
    } else {
        last_named(fs.drop_last(), name)
    }
}

/// `f` with the value and the `use_default` flag of the last field of `old`
/// that has its name, if there is one.
pub open spec fn inherit(old: Seq<FieldModel>, f: FieldModel) -> FieldModel {
    match last_named(old, f.name) {
        Some(i) => FieldModel { value: old[i].value, use_default: old[i].use_default, ..f },
        None => f,
    }
}

/// The fields of a merge: those of `new`, in order, each inheriting from `old`.
pub open spec fn merged_fields(old: Seq<FieldModel>, new: Seq<FieldModel>) -> Seq<FieldModel> {
    new.map_values(|f: FieldModel| inherit(old, f))
}

/// The names of the fields of `new` that `old` also has, in order.
pub open spec fn inherited_names(old: Seq<FieldModel>, new: Seq<FieldModel>) -> Seq<Seq<char>> {
    new.filter_map(
        |f: FieldModel|
            if has_field_named(old, f.name) {
                Some(f.name)
            } else {
                None
            },
    )
}

/// The names of the fields of `new` that `old` lacks, in order.
pub open spec fn fresh_names(old: Seq<FieldModel>, new: Seq<FieldModel>) -> Seq<Seq<char>> {
    new.filter_map(
        |f: FieldModel|
            if has_field_named(old, f.name) {
                None
            } else {
                Some(f.name)
            },
    )
}

/// The fields of `old` whose names `new` lacks, in order.
pub open spec fn deprecated_fields(old: Seq<FieldModel>, new: Seq<FieldModel>) -> Seq<FieldModel> {
    old.filter_map(
        |f: FieldModel|
            if has_field_named(new, f.name) {
                None
            } else {
                Some(f)
            },
    )
}

/// The outcome of merging a configuration into an older one.
#[derive(Debug, Clone)]
pub struct MergeResult {
    pub config: TrainConfig,
    pub inherited_params: Vec<String>,
    pub new_params: Vec<String>,
    pub deprecated_params: Vec<ParamField>,
}

/// The mathematical content of a [`MergeResult`].
pub struct MergeModel {
    pub config: ConfigModel,
    pub inherited_params: Seq<Seq<char>>,
    pub new_params: Seq<Seq<char>>,
    pub deprecated_params: Seq<FieldModel>,
}

impl View for MergeResult {
    type V = MergeModel;

    open spec fn view(&self) -> MergeModel {
        MergeModel {
            config: self.config@,
            inherited_params: texts_model(self.inherited_params@),
            new_params: texts_model(self.new_params@),
            deprecated_params: fields_model(self.deprecated_params@),
        }
    }
}

/// The outcome of merging `new` into the older configuration `old`: the
/// configuration of `new` with the merged parameters, the inherited names, the
/// new names and the deprecated parameters.
pub open spec fn merge_model(old: ConfigModel, new: ConfigModel) -> MergeModel {
    MergeModel {
        config: ConfigModel { params: merged_fields(old.params, new.params), ..new },
        inherited_params: inherited_names(old.params, new.params),
        new_params: fresh_names(old.params, new.params),
        deprecated_params: deprecated_fields(old.params, new.params),
    }
}

/// The configuration made of extracted parameters, each keeping the script's
/// default, for the script `train.py` run by `python`.
pub open spec fn config_from_params(ps: Seq<ParamModel>) -> ConfigModel {
    ConfigModel {
        script_path: "train.py"@,
        python_path: "python"@,
        params: ps.map_values(|p: ParamModel| field_from_param(p)),
        env_vars: Map::empty(),
    }
}

/// `last_named` finds the last field with the name, and finds one exactly when
/// some field has it.
pub proof fn lemma_last_named(fs: Seq<FieldModel>, name: Seq<char>)
    ensures
        match last_named(fs, name) {
            Some(i) => 0 <= i < fs.len() && fs[i].name == name && forall|j: int|
                i < j < fs.len() ==> fs[j].name != name,
            None => !has_field_named(fs, name),
        },
    decreases fs.len(),
{
    if fs.len() > 0 && fs.last().name != name {
        lemma_last_named(fs.drop_last(), name);
        match last_named(fs.drop_last(), name) {
            Some(i) => {
                assert forall|j: int| i < j < fs.len() implies fs[j].name != name by {
                    if j < fs.len() - 1 {
                        assert(fs.drop_last()[j] == fs[j]);
                    }
                }
            },
            None => {
                assert forall|k: int| 0 <= k < fs.len() implies #[trigger] fs[k].name != name by {
                    if k < fs.len() - 1 {
                        assert(fs.drop_last()[k] == fs[k]);
                    }
                }
            },
        }
    }
}

/// The index of the last parameter of `fs` named `name`.
fn last_named_index(fs: &Vec<ParamField>, name: &String) -> (r: Option<usize>)
    ensures
        r is None <==> last_named(fields_model(fs@), name@) is None,
        r matches Some(k) ==> last_named(fields_model(fs@), name@) == Some(k as int),
{
    let mut i = fs.len();
    assert(fields_model(fs@).take(fs@.len() as int) =~= fields_model(fs@));
    while i > 0
        invariant
            i <= fs@.len(),
            last_named(fields_model(fs@), name@) == last_named(fields_model(fs@).take(i as int), name@),
        decreases i,
    {
        let ghost m = fields_model(fs@).take(i as int);
        assert(m.drop_last() =~= fields_model(fs@).take(i - 1));
        if fs[i - 1].name == *name {
            return Some(i - 1);
        }
        i = i - 1;
    }
    None
}

impl Default for TrainConfig {
    /// The configuration with the usual parameters of a training script.
    fn default() -> (r: Self)
        ensures
            r@ == default_config(),
    {
        let mut params: Vec<ParamField> = Vec::new();
        params.push(ParamField::new("lr", "0.001", ParamType::Float, "Learning rate"));
        params.push(ParamField::new("epochs", "100", ParamType::Integer, "Number of epochs"));
        params.push(ParamField::new("batch-size", "32", ParamType::Integer, "Batch size"));
        params.push(ParamField::new("model", "", ParamType::String, "Model name"));
        params.push(ParamField::new("data-dir", "", ParamType::Path, "Data directory"));
        params.push(ParamField::new("checkpoint", "", ParamType::Path, "Checkpoint path"));
        params.push(ParamField::new("gpu", "0", ParamType::Integer, "GPU device ID"));
        params.push(
            ParamField::new("resume", "false", ParamType::Boolean, "Resume from checkpoint"),
        );
        let r = TrainConfig {
            script_path: String::from_str("train.py"),
            python_path: String::from_str("python"),
            params,
            env_vars: HashMap::new(),
        };
        assert(r@.params =~= default_config().params);
        r
    }
}

impl TrainConfig {
    /// A copy of this configuration.
    pub fn duplicate(&self) -> (r: Self)
        ensures
            r@ == self@,
    {
        let mut params: Vec<ParamField> = Vec::new();
        let mut i: usize = 0;
        while i < self.params.len()
            invariant
                i <= self.params@.len(),
                params@.len() == i,
                fields_model(params@) == fields_model(self.params@).take(i as int),
            decreases self.params@.len() - i,
        {
            let ghost prev = params@;
            params.push(self.params[i].duplicate());
            assert forall|k: int| 0 <= k < i implies #[trigger] params@[k]@ == self.params@[k]@ by {
                assert(params@[k] == prev[k]);
                assert(fields_model(prev)[k] == fields_model(self.params@).take(i as int)[k]);
            }
            assert(fields_model(params@) =~= fields_model(self.params@).take(i + 1));
            i = i + 1;
        }
        assert(fields_model(self.params@).take(self.params@.len() as int) =~= fields_model(
            self.params@,
        ));
        TrainConfig {
            script_path: copy_text(&self.script_path),
            python_path: copy_text(&self.python_path),
            params,
            env_vars: self.env_vars.clone(),
        }
    }

    /// The configuration whose parameters are those extracted from a script, in
    /// order, each keeping the script's default.
    pub fn from_parser_params(params: Vec<Param>) -> (r: Self)
        ensures
            r@ == config_from_params(params_model(params@)),
    {
        let mut fields: Vec<ParamField> = Vec::new();
        let mut i: usize = 0;
        while i < params.len()
            invariant
                i <= params@.len(),
                fields@.len() == i,
                forall|k: int|
                    0 <= k < i ==> #[trigger] fields@[k]@ == field_from_param(params@[k]@),
            decreases params@.len() - i,
        {
            let p = &params[i];
            let t = p.param_type.as_str();
            let param_type = if same_text(t, "Integer") {
                ParamType::Integer
            } else if same_text(t, "Float") {
                ParamType::Float
            } else if same_text(t, "Boolean") {
                ParamType::Boolean
            } else if same_text(t, "Path") {
                ParamType::Path
            } else {
                ParamType::String
            };
            fields.push(
                ParamField::new(
                    p.name.as_str(),
                    p.value.as_str(),
                    param_type,
                    p.description.as_str(),
                ),
            );
            i = i + 1;
        }
        let r = TrainConfig {
            script_path: String::from_str("train.py"),
            python_path: String::from_str("python"),
            params: fields,
            env_vars: HashMap::new(),
        };
        assert(r@.params =~= params_model(params@).map_values(|p: ParamModel| field_from_param(p)));
        r
    }

    /// Merges `new_config` (freshly extracted) into this older configuration: the
    /// parameters are those of `new_config`, in order, and each that this
    /// configuration also has takes the value and `use_default` of the last one
    /// of that name here. The result lists the inherited names, the new names, and
    /// the parameters of this configuration that `new_config` no longer has.
    pub fn merge_with_inheritance(&self, new_config: TrainConfig) -> (r: MergeResult)
        ensures
            r@ == merge_model(self@, new_config@),
            r.config.script_path@ == new_config.script_path@,
            r.config.python_path@ == new_config.python_path@,
            r.config.env_vars == new_config.env_vars,
            r.config@.params == merged_fields(self@.params, new_config@.params),
            texts_model(r.inherited_params@) == inherited_names(self@.params, new_config@.params),
            texts_model(r.new_params@) == fresh_names(self@.params, new_config@.params),
            fields_model(r.deprecated_params@) == deprecated_fields(
                self@.params,
                new_config@.params,
            ),
    {
        let ghost old = self@.params;
        let ghost new = new_config@.params;
        let mut deprecated: Vec<ParamField> = Vec::new();
        let mut i: usize = 0;
        while i < self.params.len()
            invariant
                old == fields_model(self.params@),
                new == fields_model(new_config.params@),
                i <= self.params@.len(),
                fields_model(deprecated@) == deprecated_fields(old.take(i as int), new),
            decreases self.params@.len() - i,
        {
            let found = last_named_index(&new_config.params, &self.params[i].name);
            proof {
                lemma_last_named(new, old[i as int].name);
                assert(old.take(i + 1).drop_last() =~= old.take(i as int));
            }
            if found.is_none() {
                deprecated.push(self.params[i].duplicate());
            }
            assert(fields_model(deprecated@) =~= deprecated_fields(old.take(i + 1), new));
            i = i + 1;
        }
        assert(old.take(old.len() as int) =~= old);
        let mut merged: Vec<ParamField> = Vec::new();
        let mut inherited_params: Vec<String> = Vec::new();
        let mut new_params: Vec<String> = Vec::new();
        let mut j: usize = 0;
        while j < new_config.params.len()
            invariant
                old == fields_model(self.params@),
                new == fields_model(new_config.params@),
                j <= new_config.params@.len(),
                merged@.len() == j,
                fields_model(merged@) == merged_fields(old, new.take(j as int)),
                texts_model(inherited_params@) == inherited_names(old, new.take(j as int)),
                texts_model(new_params@) == fresh_names(old, new.take(j as int)),
            decreases new_config.params@.len() - j,
        {
            let p = &new_config.params[j];
            let found = last_named_index(&self.params, &p.name);
            assert(new[j as int] == p@);
            let ghost prev = merged@;
            proof {
                lemma_last_named(old, new[j as int].name);
                assert(new.take(j + 1).drop_last() =~= new.take(j as int));
            }
            match found {
                Some(k) => {
                    let q = &self.params[k];
                    assert(old[k as int] == q@);
                    assert(last_named(old, p@.name) == Some(k as int));
                    assert(inherit(old, p@).value == q@.value);
                    merged.push(
                        ParamField {
                            name: copy_text(&p.name),
                            value: copy_text(&q.value),
                            param_type: p.param_type,
                            description: copy_text(&p.description),
                            use_default: q.use_default,
                        },
                    );
                    inherited_params.push(copy_text(&p.name));
                    assert(merged@[j as int]@ == inherit(old, new[j as int]));
                },
                None => {
                    merged.push(p.duplicate());
                    new_params.push(copy_text(&p.name));
                    assert(merged@[j as int]@ == inherit(old, new[j as int]));
                },
            }
            assert forall|m: int| 0 <= m < j implies #[trigger] merged@[m]@ == inherit(old, new[m]) by {
                assert(merged@[m] == prev[m]);
                assert(fields_model(prev)[m] == merged_fields(old, new.take(j as int))[m]);
            }
            assert(fields_model(merged@) =~= merged_fields(old, new.take(j + 1)));
            assert(texts_model(inherited_params@) =~= inherited_names(old, new.take(j + 1)));
            assert(texts_model(new_params@) =~= fresh_names(old, new.take(j + 1)));
            j = j + 1;
        }
        assert(new.take(new.len() as int) =~= new);
        let config = TrainConfig {
            script_path: new_config.script_path,
            python_path: new_config.python_path,
            params: merged,
            env_vars: new_config.env_vars,
        };
        MergeResult { config, inherited_params, new_params, deprecated_params: deprecated }
    }

    /// The warnings of the parameters, in order, where `path_exists[i]` tells
    /// whether the value of parameter `i` names an existing path.
    pub fn warnings_given(&self, path_exists: &Vec<bool>) -> (r: Vec<ValidationWarning>)
        requires
            path_exists@.len() == self.params@.len(),
        ensures
            warnings_model(r@) == warnings_of(self@.params, path_exists@),
    {
        let mut r: Vec<ValidationWarning> = Vec::new();
        let mut i: usize = 0;
        while i < self.params.len()
            invariant
                path_exists@.len() == self.params@.len(),
                i <= self.params@.len(),
                warnings_model(r@) == warnings_of(
                    self@.params.take(i as int),
                    path_exists@.take(i as int),
                ),
            decreases self.params@.len() - i,
        {
            let w = self.params[i].warning_given(path_exists[i]);
            proof {
                assert(self@.params.take(i + 1).drop_last() =~= self@.params.take(i as int));
                assert(path_exists@.take(i + 1).drop_last() =~= path_exists@.take(i as int));
            }
            match w {
                Some(w) => {
                    r.push(w);
                },
                None => {},
            }
            assert(warnings_model(r@) =~= warnings_of(
                self@.params.take(i + 1),
                path_exists@.take(i + 1),
            ));
            i = i + 1;
        }
        assert(self@.params.take(self@.params.len() as int) =~= self@.params);
        assert(path_exists@.take(path_exists@.len() as int) =~= path_exists@);
        r
    }

    /// The paths that validating the parameters asks the file system about, one
    /// entry per parameter, in order.
    pub fn paths_to_check(&self) -> (r: Vec<Option<String>>)
        ensures
            r@.len() == self@.params.len(),
            forall|i: int|
                0 <= i < r@.len() ==> text_option_model(#[trigger] r@[i]) == path_query(
                    self@.params[i],
                ),
    {
        let mut r: Vec<Option<String>> = Vec::new();
        let mut i: usize = 0;
        while i < self.params.len()
            invariant
                i <= self.params@.len(),
                r@.len() == i,
                forall|k: int|
                    0 <= k < i ==> text_option_model(#[trigger] r@[k]) == path_query(
                        self@.params[k],
                    ),
            decreases self.params@.len() - i,
        {
            r.push(self.params[i].path_to_check());
            i = i + 1;
        }
        r
    }

    /// Validates every parameter, in order, and returns the warnings; the file
    /// system is asked whether each nonempty path value exists.
    pub fn validate_all(&self) -> (r: Vec<ValidationWarning>)
        ensures
            exists|exists: Seq<bool>|
                exists.len() == self@.params.len() && (forall|i: int|
                    0 <= i < exists.len() && path_query(#[trigger] self@.params[i]) is None
                        ==> exists[i]) && warnings_model(r@) == warnings_of(self@.params, exists),
    {
        let queries = self.paths_to_check();
        let mut found: Vec<bool> = Vec::new();
        let mut i: usize = 0;
        while i < queries.len()
            invariant
                queries@.len() == self@.params.len(),
                forall|k: int|
                    0 <= k < queries@.len() ==> text_option_model(#[trigger] queries@[k])
                        == path_query(self@.params[k]),
                i <= queries@.len(),
                found@.len() == i,
                forall|k: int|
                    0 <= k < i && path_query(#[trigger] self@.params[k]) is None ==> found@[k],
            decreases queries@.len() - i,
        {
            let e = match &queries[i] {
                Some(q) => path_exists(q.as_str()),
                None => true,
            };
            assert(queries@[i as int] is None ==> path_query(self@.params[i as int]) is None);
            found.push(e);
            i = i + 1;
        }
        self.warnings_given(&found)
    }

    /// The command line that runs the script with the configured parameters.
    pub fn build_command(&self) -> (r: String)
        ensures
            r@ == command_of(self@.python_path, self@.script_path, self@.params),
    {
        let mut cmd = concat_text(self.python_path.as_str(), " ");
        cmd.append(self.script_path.as_str());
        let mut i: usize = 0;
        while i < self.params.len()
            invariant
                i <= self.params@.len(),
                cmd@ == command_of(
                    self@.python_path,
                    self@.script_path,
                    self@.params.take(i as int),
                ),
            decreases self.params@.len() - i,
        {
            proof {
                assert(self@.params.take(i + 1).drop_last() =~= self@.params.take(i as int));
            }
            match self.params[i].to_arg() {
                Some(a) => {
                    cmd.append(" ");
                    cmd.append(a.as_str());
                },
                None => {},
            }
            i = i + 1;
        }
        assert(self@.params.take(self@.params.len() as int) =~= self@.params);
        cmd
    }
}

} // verus!
