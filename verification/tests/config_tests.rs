use ml_launcher::config::{ParamField, ParamType, TrainConfig};
use ml_launcher::literals::is_float_literal;
use ml_launcher::parser::Param;
use ml_launcher::text::{decimal_text, join_texts};

fn field(name: &str, value: &str, t: ParamType, use_default: bool) -> ParamField {
    ParamField::new(name, value, t, "d").with_use_default(use_default)
}

fn config(params: Vec<ParamField>) -> TrainConfig {
    let mut c = TrainConfig::default();
    c.params = params;
    c
}

#[test]
fn new_field_keeps_default() {
    let f = ParamField::new("lr", "0.1", ParamType::Float, "Learning rate");
    assert_eq!(f.name, "lr");
    assert_eq!(f.value, "0.1");
    assert_eq!(f.param_type, ParamType::Float);
    assert_eq!(f.description, "Learning rate");
    assert!(f.use_default);
    assert!(!f.with_use_default(false).use_default);
}

#[test]
fn arguments_of_fields() {
    assert_eq!(field("lr", "0.1", ParamType::Float, true).to_arg(), None);
    assert_eq!(field("lr", "", ParamType::Float, false).to_arg(), None);
    assert_eq!(field("lr", "0.1", ParamType::Float, false).to_arg(), Some("--lr 0.1".to_string()));
    assert_eq!(field("resume", "true", ParamType::Boolean, false).to_arg(), Some("--resume".to_string()));
    assert_eq!(field("resume", "True", ParamType::Boolean, false).to_arg(), None);
    assert_eq!(field("resume", "false", ParamType::Boolean, false).to_arg(), None);
    assert_eq!(field("data", "a b", ParamType::Path, false).to_arg(), Some("--data a b".to_string()));
}

#[test]
fn validation_of_values() {
    let w = field("epochs", "abc", ParamType::Integer, false).validate_value().unwrap();
    assert_eq!(w.param_name, "epochs");
    assert_eq!(w.expected_type, ParamType::Integer);
    assert_eq!(w.invalid_value, "abc");
    assert_eq!(w.message, "值 'abc' 不是有效的 Integer 类型");
    assert!(field("epochs", "-12", ParamType::Integer, false).validate_value().is_none());
    assert!(field("epochs", "", ParamType::Integer, false).validate_value().is_none());
    assert!(field("lr", "1e-3", ParamType::Float, false).validate_value().is_none());
    let w = field("lr", "1e", ParamType::Float, false).validate_value().unwrap();
    assert_eq!(w.message, "值 '1e' 不是有效的 Float 类型");
    assert!(field("b", "TRUE", ParamType::Boolean, false).validate_value().is_none());
    let w = field("b", "yes", ParamType::Boolean, false).validate_value().unwrap();
    assert_eq!(w.message, "值 'yes' 不是有效的 Boolean 类型");
    assert!(field("s", "anything", ParamType::String, false).validate_value().is_none());
}

#[test]
fn validation_of_paths() {
    let w = field("data", "/no/such/dir/here", ParamType::Path, false).validate_value().unwrap();
    assert_eq!(w.expected_type, ParamType::Path);
    assert_eq!(w.message, "路径 '/no/such/dir/here' 不存在");
    assert!(field("data", ".", ParamType::Path, false).validate_value().is_none());
    let f = field("data", "/no/such/dir/here", ParamType::Path, false);
    assert!(f.warning_given(true).is_none());
    assert!(f.warning_given(false).is_some());
}

#[test]
fn integer_syntax_matches_the_standard_library() {
    for s in ["0", "-0", "+5", "-", "+", "", " 1", "1 ", "12a", "9223372036854775807",
        "9223372036854775808", "-9223372036854775808", "-9223372036854775809", "007", "١"] {
        let f = ParamField::new("n", s, ParamType::Integer, "");
        assert_eq!(f.value_is_valid(), s.parse::<i64>().is_ok(), "{s}");
    }
}

#[test]
fn float_syntax_matches_the_standard_library() {
    for s in ["0", "1.", ".5", ".", "-.5", "+1.5e10", "1e", "1e+", "1E-7", "e5", "inf", "-Infinity",
        "NaN", "+nan", "infinit", "1.2.3", "1_000", " 1", "1 ", "", "-", "0x10", "1e5.0", "12.e3",
        "INF", "nAn", "1..2", "١", "+-1", "-+1", "1e+-5", "1.5E+05", "000.000", "e", ".e1",
        "1.e", "infinityx", "iNfInItY", "+inf", "nan1", "0.001", "3.14159", "-0.0", "1f", "1.0f64"] {
        let expected = s.parse::<f64>().is_ok();
        assert_eq!(is_float_literal(s), expected, "{s}");
        let f = ParamField::new("x", s, ParamType::Float, "");
        assert_eq!(f.value_is_valid(), expected, "{s}");
    }
}

#[test]
fn default_configuration() {
    let c = TrainConfig::default();
    assert_eq!(c.script_path, "train.py");
    assert_eq!(c.python_path, "python");
    let names: Vec<&str> = c.params.iter().map(|p| p.name.as_str()).collect();
    assert_eq!(names, vec!["lr", "epochs", "batch-size", "model", "data-dir", "checkpoint", "gpu", "resume"]);
    assert!(c.params.iter().all(|p| p.use_default));
    assert_eq!(c.params[7].param_type, ParamType::Boolean);
    assert!(c.env_vars.is_empty());
    assert_eq!(c.build_command(), "python train.py");
}

#[test]
fn command_with_set_parameters() {
    let c = config(vec![
        field("lr", "0.01", ParamType::Float, false),
        field("epochs", "5", ParamType::Integer, true),
        field("resume", "true", ParamType::Boolean, false),
        field("name", "", ParamType::String, false),
    ]);
    assert_eq!(c.build_command(), "python train.py --lr 0.01 --resume");
}

#[test]
fn validate_all_in_order() {
    let c = config(vec![
        field("a", "x", ParamType::Integer, true),
        field("b", "1", ParamType::Integer, false),
        field("c", "maybe", ParamType::Boolean, false),
    ]);
    let ws = c.validate_all();
    let names: Vec<&str> = ws.iter().map(|w| w.param_name.as_str()).collect();
    assert_eq!(names, vec!["a", "c"]);
    let ws = c.warnings_given(&vec![true, true, true]);
    assert_eq!(ws.len(), 2);
}

#[test]
fn configuration_from_extracted_parameters() {
    let ps = vec![
        Param { name: "lr".into(), value: "0.1".into(), param_type: "Float".into(), description: "r".into(), is_flag: false },
        Param { name: "amp".into(), value: "false".into(), param_type: "Boolean".into(), description: "".into(), is_flag: true },
        Param { name: "x".into(), value: "".into(), param_type: "Weird".into(), description: "".into(), is_flag: false },
        Param { name: "d".into(), value: "/".into(), param_type: "Path".into(), description: "".into(), is_flag: false },
        Param { name: "n".into(), value: "1".into(), param_type: "Integer".into(), description: "".into(), is_flag: false },
    ];
    let c = TrainConfig::from_parser_params(ps);
    let types: Vec<ParamType> = c.params.iter().map(|p| p.param_type).collect();
    assert_eq!(types, vec![ParamType::Float, ParamType::Boolean, ParamType::String, ParamType::Path, ParamType::Integer]);
    assert!(c.params.iter().all(|p| p.use_default));
    assert_eq!(c.script_path, "train.py");
    assert_eq!(c.python_path, "python");
    assert_eq!(c.params[0].description, "r");
}

#[test]
fn merge_inherits_values() {
    let old = config(vec![
        field("lr", "0.5", ParamType::Float, false),
        field("gone", "1", ParamType::Integer, false),
        field("epochs", "7", ParamType::Integer, true),
    ]);
    let mut new = config(vec![
        field("lr", "0.001", ParamType::Float, true),
        field("epochs", "100", ParamType::Integer, true),
        field("fresh", "x", ParamType::String, true),
    ]);
    new.script_path = "new.py".into();
    let r = old.merge_with_inheritance(new);
    assert_eq!(r.config.script_path, "new.py");
    let got: Vec<(&str, &str, bool)> =
        r.config.params.iter().map(|p| (p.name.as_str(), p.value.as_str(), p.use_default)).collect();
    assert_eq!(got, vec![("lr", "0.5", false), ("epochs", "7", true), ("fresh", "x", true)]);
    assert_eq!(r.inherited_params, vec!["lr", "epochs"]);
    assert_eq!(r.new_params, vec!["fresh"]);
    assert_eq!(r.deprecated_params.len(), 1);
    assert_eq!(r.deprecated_params[0].name, "gone");
}

#[test]
fn merge_takes_last_of_duplicate_names() {
    let old = config(vec![
        field("lr", "1", ParamType::Float, false),
        field("lr", "2", ParamType::Float, true),
    ]);
    let new = config(vec![field("lr", "9", ParamType::Float, false)]);
    let r = old.merge_with_inheritance(new);
    assert_eq!(r.config.params[0].value, "2");
    assert!(r.config.params[0].use_default);
}

#[test]
fn merge_into_itself_changes_nothing() {
    let c = config(vec![
        field("a", "1", ParamType::Integer, false),
        field("b", "x", ParamType::String, true),
    ]);
    let r = c.merge_with_inheritance(c.duplicate());
    let got: Vec<(String, String, bool)> =
        r.config.params.iter().map(|p| (p.name.clone(), p.value.clone(), p.use_default)).collect();
    assert_eq!(got, vec![("a".into(), "1".into(), false), ("b".into(), "x".into(), true)]);
    assert!(r.new_params.is_empty());
    assert!(r.deprecated_params.is_empty());
    assert_eq!(r.inherited_params.len(), 2);
}

#[test]
fn merge_into_empty_marks_all_new() {
    let old = config(vec![]);
    let new = config(vec![field("a", "1", ParamType::Integer, true)]);
    let r = old.merge_with_inheritance(new);
    assert_eq!(r.new_params, vec!["a"]);
    assert!(r.inherited_params.is_empty());
    assert!(r.deprecated_params.is_empty());
    assert_eq!(r.config.params[0].value, "1");
}

#[test]
fn type_names() {
    assert_eq!(ParamType::Float.name(), "Float");
    assert_eq!(ParamType::Integer.name(), "Integer");
    assert_eq!(ParamType::String.name(), "String");
    assert_eq!(ParamType::Boolean.name(), "Boolean");
    assert_eq!(ParamType::Path.name(), "Path");
}

#[test]
fn numerals_and_joins() {
    assert_eq!(decimal_text(0), "0");
    assert_eq!(decimal_text(7), "7");
    assert_eq!(decimal_text(1203), "1203");
    assert_eq!(join_texts(&vec![], ", "), "");
    assert_eq!(join_texts(&vec!["a".to_string()], ", "), "a");
    assert_eq!(join_texts(&vec!["a".to_string(), "b".to_string(), "c".to_string()], ", "), "a, b, c");
}

#[test]
fn path_queries_name_the_value() {
    let p = field("data", "/tmp/x", ParamType::Path, false);
    assert_eq!(p.path_to_check(), Some("/tmp/x".to_string()));
    assert_eq!(field("data", "", ParamType::Path, false).path_to_check(), None);
    assert_eq!(field("data", "/tmp/x", ParamType::String, false).path_to_check(), None);
    let c = config(vec![
        field("a", "1", ParamType::Integer, false),
        field("b", "/b", ParamType::Path, true),
        field("c", "", ParamType::Path, false),
    ]);
    assert_eq!(c.paths_to_check(), vec![None, Some("/b".to_string()), None]);
}

#[test]
fn validation_asks_about_the_value_not_the_name() {
    // The name names an existing directory, the value does not.
    let w = field(".", "/no/such/dir/here", ParamType::Path, false).validate_value();
    assert_eq!(w.unwrap().message, "路径 '/no/such/dir/here' 不存在");
    // The value names an existing directory, the name does not.
    assert!(field("/no/such/dir/here", ".", ParamType::Path, false).validate_value().is_none());
}

#[test]
fn validate_all_reports_missing_paths() {
    let c = config(vec![
        field("out", "/no/such/dir/here", ParamType::Path, true),
        field("here", ".", ParamType::Path, false),
        field("n", "2", ParamType::Integer, false),
    ]);
    let ws = c.validate_all();
    assert_eq!(ws.len(), 1);
    assert_eq!(ws[0].param_name, "out");
    assert_eq!(ws[0].message, "路径 '/no/such/dir/here' 不存在");
}
