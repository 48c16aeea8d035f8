use ml_launcher::parser::{
    extract_argument_blocks, extract_params, param_from_matches, ExtractError, Param, Patterns,
};

fn find<'a>(ps: &'a [Param], name: &str) -> &'a Param {
    ps.iter().find(|p| p.name == name).expect("parameter present")
}

#[test]
fn blocks_of_simple_script() {
    let code = "p.add_argument('--lr', type=float, default=0.1)\np.add_argument('--x')";
    let b = extract_argument_blocks(code);
    assert_eq!(b, vec!["'--lr', type=float, default=0.1".to_string(), "'--x'".to_string()]);
}

#[test]
fn blocks_with_nested_parentheses() {
    let code = "add_argument('--size', default=max(1, (2 + 3)), help='n')";
    assert_eq!(extract_argument_blocks(code), vec!["'--size', default=max(1, (2 + 3)), help='n'"]);
}

#[test]
fn blocks_ignore_parentheses_in_strings() {
    let code = "add_argument('--x', help=\"a ) b\") rest";
    assert_eq!(extract_argument_blocks(code), vec!["'--x', help=\"a ) b\""]);
}

#[test]
fn blocks_skip_escaped_characters() {
    let code = "add_argument('--x', help='it\\'s )') tail";
    assert_eq!(extract_argument_blocks(code), vec!["'--x', help='it\\'s )'"]);
}

#[test]
fn unclosed_call_gives_empty_block() {
    let code = "add_argument('--x', default=1";
    assert_eq!(extract_argument_blocks(code), vec![String::new()]);
}

#[test]
fn no_call_no_blocks() {
    assert!(extract_argument_blocks("print('hello')").is_empty());
    assert!(extract_params("import argparse").unwrap().is_empty());
}

#[test]
fn blocks_with_non_ascii_text() {
    let code = "add_argument('--目录', help='数据 (路径)')";
    assert_eq!(extract_argument_blocks(code), vec!["'--目录', help='数据 (路径)'"]);
}

const SCRIPT: &str = r#"
import argparse
parser = argparse.ArgumentParser()
parser.add_argument('--lr', type=float, default=0.001, help='learning rate')
parser.add_argument("--epochs", type=int, default=100, help="Number of epochs")
parser.add_argument('--use-amp', action='store_true', help='mixed precision')
parser.add_argument('--data', type=str, default='./data', help='Data Directory')
parser.add_argument('--weights', default="yolo.pt")
parser.add_argument('--name', default='exp', help='run name')
parser.add_argument('--flag2', action="store_const", const=True, default=False)
parser.add_argument('--sizes', nargs='+', type=int, default=[640, 640])
parser.add_argument('--verbose', type=bool, default=True)
parser.add_argument('positional')
"#;

#[test]
fn extracts_typical_script() {
    let ps = extract_params(SCRIPT).unwrap();
    let names: Vec<&str> = ps.iter().map(|p| p.name.as_str()).collect();
    assert_eq!(
        names,
        vec!["lr", "epochs", "use-amp", "data", "weights", "name", "flag2", "sizes", "verbose"]
    );
    let lr = find(&ps, "lr");
    assert_eq!((lr.value.as_str(), lr.param_type.as_str(), lr.description.as_str()), ("0.001", "Float", "learning rate"));
    assert!(!lr.is_flag);
    let epochs = find(&ps, "epochs");
    assert_eq!((epochs.value.as_str(), epochs.param_type.as_str()), ("100", "Integer"));
    let amp = find(&ps, "use-amp");
    assert_eq!((amp.value.as_str(), amp.param_type.as_str()), ("false", "Boolean"));
    assert!(amp.is_flag);
    let data = find(&ps, "data");
    assert_eq!((data.value.as_str(), data.param_type.as_str()), ("./data", "Path"));
    let weights = find(&ps, "weights");
    assert_eq!((weights.value.as_str(), weights.param_type.as_str()), ("yolo.pt", "Path"));
    let name = find(&ps, "name");
    assert_eq!((name.value.as_str(), name.param_type.as_str()), ("exp", "String"));
    let flag2 = find(&ps, "flag2");
    assert_eq!((flag2.value.as_str(), flag2.param_type.as_str()), ("false", "Boolean"));
    assert!(flag2.is_flag);
    let sizes = find(&ps, "sizes");
    assert_eq!((sizes.value.as_str(), sizes.param_type.as_str()), ("[640, 640]", "Integer"));
    let verbose = find(&ps, "verbose");
    assert_eq!((verbose.value.as_str(), verbose.param_type.as_str()), ("True", "Boolean"));
}

#[test]
fn flag_keeps_a_given_default() {
    let ps = extract_params("add_argument('--on', action='store_true', default=True)").unwrap();
    assert_eq!(ps[0].value, "True");
    let ps = extract_params("add_argument('--off', action='store_true', default=None)").unwrap();
    assert_eq!(ps[0].value, "false");
}

#[test]
fn repeated_dashes_are_trimmed() {
    let ps = extract_params("add_argument('----x', default=1)").unwrap();
    assert_eq!(ps[0].name, "x");
}

#[test]
fn default_is_trimmed_and_unquoted() {
    let ps = extract_params("add_argument('--a', default= 'v w' )").unwrap();
    assert_eq!(ps[0].value, "v w");
    let ps = extract_params("add_argument('--b', default=  7 )").unwrap();
    assert_eq!(ps[0].value, "7");
}

#[test]
fn help_text_marks_paths_in_any_case() {
    let ps = extract_params("add_argument('--out', default='o', help='Output PATH')").unwrap();
    assert_eq!(ps[0].param_type, "Path");
    let ps = extract_params("add_argument('--project-name', default='p')").unwrap();
    assert_eq!(ps[0].param_type, "Path");
}

#[test]
fn unknown_python_type_is_string() {
    let ps = extract_params("add_argument('--m', type=list, default=1)").unwrap();
    assert_eq!(ps[0].param_type, "String");
}

#[test]
fn lone_quote_default_is_an_error() {
    let r = extract_params("add_argument('--x', help='default=\",')");
    assert!(matches!(r, Err(ExtractError::LoneQuote)));
}

#[test]
fn missing_group_is_an_error() {
    let name = Some(vec![Some("'--x'".to_string()), None]);
    let r = param_from_matches(&name, &None, &None, &None, &None, false);
    assert!(matches!(r, Err(ExtractError::MissingGroup)));
}

#[test]
fn param_from_matches_builds_flag() {
    let name = Some(vec![Some("'--go'".to_string()), Some("--go".to_string())]);
    let action = Some(vec![Some("action='store_true'".to_string()), Some("store_true".to_string())]);
    let help = Some(vec![Some("help='x'".to_string()), None, Some("Go fast".to_string())]);
    let p = param_from_matches(&name, &help, &None, &action, &None, false).unwrap().unwrap();
    assert_eq!(p.name, "go");
    assert_eq!(p.value, "false");
    assert_eq!(p.param_type, "Boolean");
    assert_eq!(p.description, "Go fast");
    assert!(p.is_flag);
}

#[test]
fn param_from_matches_without_name_is_skipped() {
    let r = param_from_matches(&None, &None, &None, &None, &None, true).unwrap();
    assert!(r.is_none());
}

#[test]
fn search_patterns_compile() {
    assert!(Patterns::compile().is_some());
}

#[test]
fn name_needs_quotes_and_dashes() {
    let ps = extract_params("add_argument(--a, default=1)\nadd_argument('-b', default=2)\nadd_argument(\"--c\")").unwrap();
    let names: Vec<&str> = ps.iter().map(|p| p.name.as_str()).collect();
    assert_eq!(names, vec!["c"]);
}

#[test]
fn default_loses_unicode_whitespace() {
    let ps = extract_params("add_argument('--lr', default=\u{3000}0.01\u{a0}\t)").unwrap();
    assert_eq!(ps[0].value, "0.01");
    let ps = extract_params("add_argument('--lr', default=0.01)").unwrap();
    assert_eq!(ps[0].value, "0.01");
    assert_eq!(ps[0].param_type, "String");
}

#[test]
fn blocks_are_the_calls_in_order() {
    let code = "add_argument('--a', f(x)) add_argument( add_argument('--b')";
    // The second call is never closed: its list is empty, and the search
    // resumes right after its opening, so the third call is still found.
    assert_eq!(extract_argument_blocks(code), vec!["'--a', f(x)", "", "'--b'"]);
    let calls = code.matches("add_argument(").count();
    assert!(extract_argument_blocks(code).len() <= calls);
}

#[test]
fn extracted_names_never_start_with_dashes() {
    let ps = extract_params("add_argument('------deep', default=1) add_argument('--x-y')").unwrap();
    let names: Vec<&str> = ps.iter().map(|p| p.name.as_str()).collect();
    assert_eq!(names, vec!["deep", "x-y"]);
    assert!(ps.iter().all(|p| !p.name.starts_with("--")));
}
