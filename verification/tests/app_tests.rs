use ml_launcher::app::{side_margin, App, AppAction, InputMode, Tab};
use ml_launcher::config::{ParamField, ParamType, TrainConfig};
use ml_launcher::input::Key;

fn app_with(params: Vec<ParamField>) -> App {
    let mut c = TrainConfig::default();
    c.params = params;
    App::with_config(c, None)
}

fn f(name: &str, value: &str, t: ParamType, use_default: bool) -> ParamField {
    ParamField::new(name, value, t, "desc").with_use_default(use_default)
}

fn press(app: &mut App, keys: &[Key]) {
    for k in keys {
        let _ = app.handle_key(*k);
    }
}

fn type_text(app: &mut App, s: &str) {
    for c in s.chars() {
        let _ = app.handle_key(Key::Char(c));
    }
}

#[test]
fn new_app_starts_on_parameters() {
    let app = App::new();
    assert_eq!(app.selected_tab(), Tab::Parameters);
    assert_eq!(app.input_mode(), InputMode::Normal);
    assert_eq!(app.save_path(), "config.json");
    assert_eq!(app.load_path(), "config.json");
    assert_eq!(app.config().params.len(), 8);
    assert!(app.deprecated_params().is_empty());
    assert!(!app.running());
    assert_eq!(InputMode::default(), InputMode::Normal);
}

#[test]
fn tab_cycles_through_three_tabs() {
    let mut app = App::new();
    press(&mut app, &[Key::Tab]);
    assert_eq!(app.selected_tab(), Tab::Filter);
    assert_eq!(app.selected_tab().index(), 1);
    press(&mut app, &[Key::Tab]);
    assert_eq!(app.selected_tab(), Tab::Actions);
    press(&mut app, &[Key::Tab]);
    assert_eq!(app.selected_tab(), Tab::Parameters);
}

#[test]
fn selection_stays_in_bounds() {
    let mut app = app_with(vec![f("a", "1", ParamType::Integer, false), f("b", "2", ParamType::Integer, true), f("c", "3", ParamType::Integer, false)]);
    press(&mut app, &[Key::Down, Key::Down, Key::Down]);
    assert_eq!(app.selected_param(), 1);
    press(&mut app, &[Key::Up, Key::Up, Key::Up]);
    assert_eq!(app.selected_param(), 0);
    press(&mut app, &[Key::Tab, Key::Down, Key::Down, Key::Down, Key::Down]);
    assert_eq!(app.selected_filter(), 2);
    press(&mut app, &[Key::Tab]);
    for _ in 0..10 {
        press(&mut app, &[Key::Down]);
    }
    assert_eq!(app.selected_param(), 7);
}

#[test]
fn toggle_twice_restores() {
    let mut app = app_with(vec![f("a", "1", ParamType::Integer, true)]);
    press(&mut app, &[Key::Tab, Key::Char('t')]);
    assert!(!app.config().params[0].use_default);
    press(&mut app, &[Key::Char('t')]);
    assert!(app.config().params[0].use_default);
    press(&mut app, &[Key::Tab, Key::Char('t')]);
    assert!(app.config().params[0].use_default);
}

#[test]
fn edit_and_confirm() {
    let mut app = app_with(vec![f("a", "1", ParamType::Integer, true), f("b", "2", ParamType::Integer, false)]);
    press(&mut app, &[Key::Char('e')]);
    assert!(app.editing());
    assert_eq!(app.input_mode(), InputMode::Editing);
    assert_eq!(app.edit_buffer(), "2");
    assert_eq!(app.edit_text(), "2_");
    type_text(&mut app, "x");
    assert_eq!(app.edit_warning().as_deref(), Some("值 '2x' 不是有效的 Integer 类型"));
    assert_eq!(app.warning_text().as_deref(), Some("⚠ 值 '2x' 不是有效的 Integer 类型\n  (仍可保存，但可能导致训练错误)"));
    assert_eq!(app.edit_popup_size(), (70, 35));
    press(&mut app, &[Key::Backspace]);
    assert_eq!(app.edit_warning(), &None);
    assert_eq!(app.edit_popup_size(), (60, 20));
    type_text(&mut app, "5");
    press(&mut app, &[Key::Enter]);
    assert!(!app.editing());
    assert_eq!(app.input_mode(), InputMode::Normal);
    assert_eq!(app.config().params[1].value, "25");
    assert_eq!(app.config().params[0].value, "1");
}

#[test]
fn edit_and_cancel() {
    let mut app = app_with(vec![f("b", "2", ParamType::Integer, false)]);
    press(&mut app, &[Key::Char('e')]);
    type_text(&mut app, "99");
    press(&mut app, &[Key::Esc]);
    assert_eq!(app.config().params[0].value, "2");
    assert_eq!(app.input_mode(), InputMode::Normal);
}

#[test]
fn edit_needs_a_parameter_to_edit() {
    let mut app = app_with(vec![f("b", "2", ParamType::Integer, true)]);
    press(&mut app, &[Key::Char('e')]);
    assert!(!app.editing());
    assert_eq!(app.get_active_param_index(), None);
}

#[test]
fn delete_keeps_the_last_parameter() {
    let mut app = app_with(vec![f("a", "1", ParamType::Integer, false), f("b", "2", ParamType::Integer, false)]);
    press(&mut app, &[Key::Down, Key::Char('d')]);
    assert_eq!(app.config().params.len(), 1);
    assert_eq!(app.config().params[0].name, "a");
    assert_eq!(app.selected_param(), 0);
    press(&mut app, &[Key::Char('d')]);
    assert_eq!(app.config().params.len(), 1);
}

#[test]
fn add_appends_a_text_parameter() {
    let mut app = app_with(vec![]);
    press(&mut app, &[Key::Char('a')]);
    let p = &app.config().params[0];
    assert_eq!((p.name.as_str(), p.value.as_str(), p.param_type, p.description.as_str(), p.use_default), ("new_param", "", ParamType::String, "New parameter", true));
}

#[test]
fn generate_shows_command() {
    let mut app = app_with(vec![f("lr", "0.1", ParamType::Float, false)]);
    press(&mut app, &[Key::Char('g')]);
    assert_eq!(app.command_output(), "python train.py --lr 0.1");
}

#[test]
fn actions_tab_runs_training() {
    let mut app = app_with(vec![f("lr", "0.1", ParamType::Float, false), f("name", "a  b", ParamType::String, false), f("x", "1", ParamType::Integer, true)]);
    press(&mut app, &[Key::Tab, Key::Tab, Key::Down]);
    match app.handle_key(Key::Enter) {
        AppAction::Train(run) => {
            assert_eq!(run.program, "python");
            assert_eq!(run.script, "train.py");
            assert_eq!(run.args, vec!["--lr", "0.1", "--name", "a", "b"]);
        }
        _ => panic!("expected a training run"),
    }
    assert_eq!(app.command_output(), "Running: python train.py --lr 0.1 --name a  b\n");
    app.training_finished(Ok(("out\n".to_string(), String::new())));
    assert_eq!(app.command_output(), "Running: python train.py --lr 0.1 --name a  b\nout\n");
    app.training_finished(Ok(("".to_string(), "err".to_string())));
    assert!(app.command_output().ends_with("out\nerr"));
    app.training_finished(Err("no python".to_string()));
    assert!(app.command_output().ends_with("errError: no python"));
}

#[test]
fn save_dialog_flow() {
    let mut app = App::new();
    press(&mut app, &[Key::Char('s')]);
    assert!(app.save_dialog_open());
    assert_eq!(app.input_mode(), InputMode::SaveDialog);
    press(&mut app, &[Key::Backspace, Key::Backspace, Key::Backspace, Key::Backspace]);
    type_text(&mut app, "yaml");
    assert_eq!(app.save_path(), "config.yaml");
    match app.handle_key(Key::Enter) {
        AppAction::Save(p) => assert_eq!(p, "config.yaml"),
        _ => panic!("expected a save"),
    }
    app.save_finished(Ok(()));
    assert_eq!(app.command_output(), "Saved to config.yaml");
    assert!(!app.save_dialog_open());
    assert_eq!(app.input_mode(), InputMode::Normal);
    press(&mut app, &[Key::Char('s'), Key::Esc]);
    assert!(!app.save_dialog_open());
    press(&mut app, &[Key::Char('s')]);
    app.save_finished(Err("disk full".to_string()));
    assert_eq!(app.command_output(), "Error: disk full");
}

#[test]
fn load_dialog_flow() {
    let mut app = App::new();
    press(&mut app, &[Key::Char('l')]);
    assert!(app.load_dialog_open());
    match app.handle_key(Key::Enter) {
        AppAction::Load(p) => assert_eq!(p, "config.json"),
        _ => panic!("expected a load"),
    }
    let mut c = TrainConfig::default();
    c.script_path = "other.py".into();
    app.load_finished(Ok(c));
    assert_eq!(app.config().script_path, "other.py");
    assert_eq!(app.command_output(), "Load from config.json");
    assert!(!app.load_dialog_open());
    press(&mut app, &[Key::Char('l')]);
    app.load_finished(Err("bad json".to_string()));
    assert_eq!(app.command_output(), "Error: bad json");
    assert_eq!(app.config().script_path, "other.py");
}

#[test]
fn quit_key_stops_running() {
    let mut app = App::new();
    app.set_running(true);
    assert!(app.running());
    press(&mut app, &[Key::Other, Key::Char('q')]);
    assert!(!app.running());
}

#[test]
fn screen_texts() {
    let mut app = app_with(vec![f("lr", "0.1", ParamType::Float, false), f("gpu", "0", ParamType::Integer, true)]);
    assert_eq!(app.help_text(), "Tab: Switch | ↑↓: Nav | e: Edit | d: Del | q: Quit");
    assert_eq!(app.parameter_rows(), vec!["lr = 0.1 (Float)"]);
    assert_eq!(app.parameter_detail_text().as_deref(), Some("Name: lr\nValue: 0.1\nType: Float\nDescription: desc"));
    assert_eq!(app.filter_rows(), vec!["[✗ 修改] lr = 0.1", "[✓ 默认] gpu = 0"]);
    press(&mut app, &[Key::Tab, Key::Down]);
    assert_eq!(app.help_text(), "Tab: Switch | ↑↓: Nav | t: Toggle Default | q: Quit");
    assert_eq!(app.filter_detail_text().as_deref(), Some("Name: gpu\nValue: 0\nType: Integer\nDescription: desc\n状态: ✓ 使用脚本默认值"));
    press(&mut app, &[Key::Tab]);
    assert_eq!(app.help_text(), "Tab: Switch | ↑↓: Nav | Enter: Run | g: Gen | s: Save | l: Load | a: Add | q: Quit");
    assert_eq!(side_margin(60), 20);
    assert_eq!(side_margin(35), 32);
}

#[test]
fn keys_keep_a_parameter_and_the_filter_row() {
    let mut app = app_with(vec![f("a", "1", ParamType::Integer, false), f("b", "2", ParamType::Integer, false)]);
    // Delete both from the Parameters tab: the last one stays.
    press(&mut app, &[Key::Char('d'), Key::Char('d'), Key::Char('d')]);
    assert_eq!(app.config().params.len(), 1);
    // On the Filter tab the selection never leaves the rows.
    press(&mut app, &[Key::Tab, Key::Down, Key::Down, Key::Up, Key::Down]);
    assert_eq!(app.selected_tab(), Tab::Filter);
    assert!(app.selected_filter() < app.config().params.len());
}
