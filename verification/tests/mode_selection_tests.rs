use ml_launcher::config::{ParamField, ParamType, TrainConfig};
use ml_launcher::input::Key;
use ml_launcher::mode_selection::{
    expand_tilde, merge_summary, FileOutcome, LaunchMode, ModeSelector, SelectorAction,
};

const SCRIPT: &str = "p.add_argument('--lr', type=float, default=0.1)\np.add_argument('--new', default='n')";

fn old_config() -> TrainConfig {
    let mut c = TrainConfig::default();
    c.params = vec![
        ParamField::new("lr", "0.5", ParamType::Float, "r").with_use_default(false),
        ParamField::new("old", "1", ParamType::Integer, "o"),
    ];
    c
}

fn read_script(s: &mut ModeSelector) {
    assert!(matches!(s.handle_key(Key::Down), SelectorAction::Nothing));
    match s.handle_key(Key::Enter) {
        SelectorAction::ExtractScript(p) => assert_eq!(p, "train.py"),
        _ => panic!("expected a script read"),
    }
    s.try_extract_from_script(FileOutcome::Loaded(SCRIPT.to_string())).unwrap();
}

#[test]
fn start_screen_defaults() {
    let s = ModeSelector::new();
    assert_eq!(s.selected(), 0);
    assert_eq!(s.script_path(), "train.py");
    assert_eq!(s.config_path(), "config.json");
    assert_eq!(s.inherit_config_path(), "config.json");
    assert!(!s.should_quit());
    assert!(s.error_msg().is_empty());
    assert_eq!(s.status_text(), "按 'q' 退出");
    assert_eq!(s.paths_text(), "脚本: train.py (按 'p' 编辑) | 配置: config.json (按 'c' 编辑)");
}

#[test]
fn menu_selection_is_bounded() {
    let mut s = ModeSelector::new();
    for _ in 0..5 {
        let _ = s.handle_key(Key::Down);
    }
    assert_eq!(s.selected(), 2);
    let _ = s.handle_key(Key::Enter);
    assert!(s.should_quit());
    let mut s = ModeSelector::new();
    let _ = s.handle_key(Key::Up);
    assert_eq!(s.selected(), 0);
    let _ = s.handle_key(Key::Char('q'));
    assert!(s.should_quit());
}

#[test]
fn open_config_flow() {
    let mut s = ModeSelector::new();
    match s.handle_key(Key::Enter) {
        SelectorAction::OpenConfig(p) => assert_eq!(p, "config.json"),
        _ => panic!("expected an open"),
    }
    assert!(s.try_open_config(FileOutcome::Missing).is_none());
    assert_eq!(s.error_msg(), "配置文件不存在: config.json");
    assert_eq!(s.status_text(), "错误: 配置文件不存在: config.json");
    assert!(s.try_open_config(FileOutcome::Failed("bad".into())).is_none());
    assert_eq!(s.error_msg(), "加载配置失败: bad");
    match s.try_open_config(FileOutcome::Loaded(old_config())) {
        Some(LaunchMode::OpenConfig(c)) => assert_eq!(c.params.len(), 2),
        _ => panic!("expected a launch"),
    }
}

#[test]
fn editing_paths() {
    let mut s = ModeSelector::new();
    let _ = s.handle_key(Key::Char('p'));
    assert!(s.editing_script());
    assert_eq!(s.paths_text(), "脚本: > train.py_ | 配置: config.json (按 'c' 编辑)");
    for _ in 0..2 {
        let _ = s.handle_key(Key::Backspace);
    }
    for c in "sh".chars() {
        let _ = s.handle_key(Key::Char(c));
    }
    let _ = s.handle_key(Key::Enter);
    assert!(!s.editing_script());
    assert_eq!(s.script_path(), "train.sh");
    let _ = s.handle_key(Key::Char('c'));
    assert!(s.editing_config());
    let _ = s.handle_key(Key::Char('x'));
    let _ = s.handle_key(Key::Esc);
    assert_eq!(s.config_path(), "config.jsonx");
}

#[test]
fn script_errors() {
    let mut s = ModeSelector::new();
    s.try_extract_from_script(FileOutcome::Missing).unwrap();
    assert_eq!(s.error_msg(), "脚本文件不存在: train.py");
    s.try_extract_from_script(FileOutcome::Failed("denied".into())).unwrap();
    assert_eq!(s.error_msg(), "读取脚本失败: denied");
    s.try_extract_from_script(FileOutcome::Loaded("print(1)".into())).unwrap();
    assert_eq!(s.error_msg(), "未能从脚本中提取任何参数");
    assert!(!s.inherit_dialog_open());
    assert!(s.try_extract_from_script(FileOutcome::Loaded("add_argument('--x', help='default=\",')".into())).is_err());
}

#[test]
fn extract_without_inheriting() {
    let mut s = ModeSelector::new();
    read_script(&mut s);
    assert!(s.inherit_dialog_open());
    assert_eq!(s.inherit_selected(), 0);
    assert_eq!(s.inherit_option_text(), "是，继承配置: config.json (按 'e' 编辑)");
    let _ = s.handle_key(Key::Down);
    assert_eq!(s.inherit_selected(), 1);
    match s.handle_key(Key::Enter) {
        SelectorAction::Launch(LaunchMode::ExtractFromScript { config, merge_result }) => {
            assert!(merge_result.is_none());
            let names: Vec<&str> = config.params.iter().map(|p| p.name.as_str()).collect();
            assert_eq!(names, vec!["lr", "new"]);
            assert_eq!(config.params[0].param_type, ParamType::Float);
        }
        _ => panic!("expected a launch"),
    }
    assert!(!s.inherit_dialog_open());
}

#[test]
fn extract_and_inherit() {
    let mut s = ModeSelector::new();
    read_script(&mut s);
    let _ = s.handle_key(Key::Char('e'));
    assert!(s.editing_inherit_path());
    assert_eq!(s.inherit_option_text(), "是，继承配置: > config.json_");
    let _ = s.handle_key(Key::Enter);
    match s.handle_key(Key::Enter) {
        SelectorAction::MergeConfig(p) => assert_eq!(p, "config.json"),
        _ => panic!("expected a merge"),
    }
    s.try_merge_config(FileOutcome::Loaded(old_config()));
    assert!(s.merge_result_open());
    assert!(!s.inherit_dialog_open());
    let summary = merge_summary(s.pending_merge_result().as_ref().unwrap());
    assert_eq!(summary.inherited, "✓ 继承了 1 个参数的设置\n  lr");
    assert_eq!(summary.added, "✓ 新增 1 个参数 (使用默认值)\n  new");
    assert_eq!(summary.deprecated, "⚠ 保留 1 个旧参数 (在新脚本中不存在)\n  old");
    match s.handle_key(Key::Enter) {
        SelectorAction::Launch(LaunchMode::ExtractFromScript { config, merge_result }) => {
            assert_eq!(config.params[0].value, "0.5");
            assert!(!config.params[0].use_default);
            let m = merge_result.unwrap();
            assert_eq!(m.config.params[0].value, "0.5");
            assert_eq!(m.new_params, vec!["new"]);
        }
        _ => panic!("expected a launch"),
    }
    assert!(!s.merge_result_open());
}

#[test]
fn merge_errors_close_the_dialog() {
    let mut s = ModeSelector::new();
    read_script(&mut s);
    s.try_merge_config(FileOutcome::Missing);
    assert_eq!(s.error_msg(), "继承配置文件不存在: config.json");
    assert!(!s.inherit_dialog_open());
    let mut s = ModeSelector::new();
    read_script(&mut s);
    s.try_merge_config(FileOutcome::Failed("oops".into()));
    assert_eq!(s.error_msg(), "加载继承配置失败: oops");
}

#[test]
fn escape_leaves_the_dialogs() {
    let mut s = ModeSelector::new();
    read_script(&mut s);
    let _ = s.handle_key(Key::Esc);
    assert!(!s.inherit_dialog_open());
    let mut s = ModeSelector::new();
    read_script(&mut s);
    let _ = s.handle_key(Key::Enter);
    s.try_merge_config(FileOutcome::Loaded(old_config()));
    let _ = s.handle_key(Key::Esc);
    assert!(!s.merge_result_open());
    assert!(s.pending_merge_result().is_none());
}

#[test]
fn summary_without_deprecated_parameters() {
    let c = TrainConfig::default();
    let r = c.merge_with_inheritance(c.duplicate());
    let summary = merge_summary(&r);
    assert_eq!(summary.deprecated, "✓ 没有弃用的参数");
    assert!(summary.inherited.starts_with("✓ 继承了 8 个参数的设置\n  lr, epochs, batch-size"));
    assert_eq!(summary.added, "✓ 新增 0 个参数 (使用默认值)\n  ");
}

#[test]
fn tilde_expansion() {
    assert_eq!(expand_tilde("~/a/b", Some("/home/u")), "/home/u/a/b");
    assert_eq!(expand_tilde("~/a", None), "~/a");
    assert_eq!(expand_tilde("/x/~/a", Some("/home/u")), "/x/~/a");
    assert_eq!(expand_tilde("~", Some("/home/u")), "~");
}
