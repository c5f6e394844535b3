use modfetch::parser::Project;
use modfetch::ui::{Action, App, InputMode, Key};

fn project(id: &str, title: &str, downloads: i64) -> Project {
    Project {
        id: id.to_string(),
        title: title.to_string(),
        description: String::new(),
        versions: vec!["1.20.1".to_string()],
        downloads,
    }
}

fn app_with_results(projects: &Vec<Project>) -> App {
    let mut app = App::new();
    app.handle_key(Key::Char('e'), true);
    app.handle_key(Key::Char('x'), true);
    assert!(matches!(app.handle_key(Key::Enter, true), Action::Search(_)));
    app.send_query(projects);
    app
}

fn queue(app: &mut App, ids: &[(&str, &str)]) {
    for (id, title) in ids {
        let results = vec![project(id, title, 1)];
        app.handle_key(Key::Char('e'), true);
        app.handle_key(Key::Enter, true);
        app.send_query(&results);
        app.handle_key(Key::Enter, true);
    }
}

#[test]
fn results_fill_the_search_list() {
    let projects = vec![project("AANobbMI", "Sodium", 1000000), project("P7dR8mSH", "Fabric API", 42)];
    let app = app_with_results(&projects);
    assert_eq!(app.input_mode(), InputMode::SearchBarSelecting);
    assert_eq!(app.input(), "");
    assert_eq!(app.character_index(), 0);
    assert_eq!(app.search_index(), 0);
    let labels: Vec<&str> = app.search_list().iter().map(|e| e.label.as_str()).collect();
    assert_eq!(labels, vec!["Sodium (1000000 downloads) | AANobbMI", "Fabric API (42 downloads) | P7dR8mSH"]);
    assert_eq!(app.search_list()[1].id, "P7dR8mSH");
}

#[test]
fn search_cursor_stays_within_the_list() {
    let projects = vec![project("a", "A", 1), project("b", "B", 2), project("c", "C", 3)];
    let mut app = app_with_results(&projects);
    app.handle_key(Key::Up, true);
    assert_eq!(app.search_index(), 0);
    for _ in 0..5 {
        app.handle_key(Key::Down, true);
        assert!(app.search_index() < 3);
    }
    assert_eq!(app.search_index(), 2);
    app.handle_key(Key::Up, true);
    assert_eq!(app.search_index(), 1);
}

#[test]
fn empty_search_list_ignores_keys() {
    let mut app = app_with_results(&vec![]);
    app.handle_key(Key::Down, true);
    assert_eq!(app.search_index(), 0);
    app.handle_key(Key::Enter, true);
    assert_eq!(app.input_mode(), InputMode::SearchBarSelecting);
    assert!(app.installation_list().is_empty());
}

#[test]
fn committing_moves_the_highlighted_result() {
    let projects = vec![project("a", "A", 1), project("b", "B", 2)];
    let mut app = app_with_results(&projects);
    app.handle_key(Key::Down, true);
    app.handle_key(Key::Enter, true);
    assert_eq!(app.input_mode(), InputMode::Normal);
    assert!(app.search_list().is_empty());
    assert_eq!(app.search_index(), 0);
    assert_eq!(app.installation_list().len(), 1);
    assert_eq!(app.installation_list()[0].label, "B (2 downloads) | b");
    assert_eq!(app.installation_list()[0].id, "b");
}

#[test]
fn installation_cursor_reaches_the_download_slot() {
    let mut app = App::new();
    queue(&mut app, &[("a", "A"), ("b", "B")]);
    app.handle_key(Key::Right, true);
    assert_eq!(app.input_mode(), InputMode::InstalledModsSelecting);
    app.handle_key(Key::Up, true);
    assert_eq!(app.installation_index(), 0);
    for _ in 0..4 {
        app.handle_key(Key::Down, true);
        assert!(app.installation_index() <= 2);
    }
    assert_eq!(app.installation_index(), 2);
}

#[test]
fn backspace_removes_the_entry_under_the_cursor() {
    let mut app = App::new();
    queue(&mut app, &[("a", "A"), ("b", "B"), ("c", "C")]);
    app.handle_key(Key::Right, true);
    app.handle_key(Key::Down, true);
    app.handle_key(Key::Backspace, true);
    let ids: Vec<&str> = app.installation_list().iter().map(|e| e.id.as_str()).collect();
    assert_eq!(ids, vec!["a", "c"]);
    assert_eq!(app.installation_index(), 0);
    app.handle_key(Key::Backspace, true);
    app.handle_key(Key::Backspace, true);
    assert!(app.installation_list().is_empty());
    app.handle_key(Key::Backspace, true);
    assert!(app.installation_list().is_empty());
    assert_eq!(app.installation_index(), 0);
}

#[test]
fn download_pass_hands_over_queue_in_order() {
    let mut app = App::new();
    queue(&mut app, &[("AANobbMI", "Sodium"), ("P7dR8mSH", "Fabric API")]);
    app.handle_key(Key::Right, true);
    assert!(matches!(app.handle_key(Key::Enter, true), Action::Nothing));
    app.handle_key(Key::Down, true);
    app.handle_key(Key::Down, true);
    match app.handle_key(Key::Enter, true) {
        Action::Download(ids) => assert_eq!(ids, vec!["AANobbMI".to_string(), "P7dR8mSH".to_string()]),
        _ => panic!("expected a download pass"),
    }
    assert_eq!(app.input_mode(), InputMode::Downloading);
    assert_eq!(app.installation_list().len(), 2);
    app.finish_download();
    assert!(app.installation_list().is_empty());
    assert_eq!(app.installation_index(), 0);
    app.handle_key(Key::Char('q'), true);
    assert_eq!(app.input_mode(), InputMode::Normal);
}

#[test]
fn empty_queue_never_downloads() {
    let mut app = App::new();
    app.handle_key(Key::Right, true);
    assert!(matches!(app.handle_key(Key::Enter, true), Action::Nothing));
    assert_eq!(app.input_mode(), InputMode::InstalledModsSelecting);
}

#[test]
fn quit_and_mode_switches() {
    let mut app = App::new();
    assert!(matches!(app.handle_key(Key::Char('q'), true), Action::Quit));
    app.handle_key(Key::Right, true);
    assert_eq!(app.input_mode(), InputMode::InstalledModsSelecting);
    app.handle_key(Key::Left, true);
    assert_eq!(app.input_mode(), InputMode::Normal);
    app.handle_key(Key::Right, true);
    app.handle_key(Key::Char('e'), true);
    assert_eq!(app.input_mode(), InputMode::Editing);
    assert!(matches!(app.handle_key(Key::Char('q'), true), Action::Nothing));
    assert_eq!(app.input(), "q");
}

#[test]
fn list_keys_do_nothing_in_normal_mode() {
    let mut app = App::new();
    queue(&mut app, &[("a", "A")]);
    app.handle_key(Key::Down, true);
    app.handle_key(Key::Backspace, true);
    assert_eq!(app.installation_index(), 0);
    assert_eq!(app.installation_list().len(), 1);
    assert_eq!(app.input_mode(), InputMode::Normal);
}

#[test]
fn committing_from_an_empty_search_list_does_nothing() {
    let mut app = App::new();
    queue(&mut app, &[("a", "A")]);
    app.handle_key(Key::Char('e'), true);
    app.handle_key(Key::Char('z'), true);
    app.send_project_to_installation();
    assert_eq!(app.input_mode(), InputMode::Editing);
    assert_eq!(app.input(), "z");
    assert_eq!(app.character_index(), 1);
    assert_eq!(app.installation_list().len(), 1);
    assert_eq!(app.installation_index(), 0);
    assert!(app.search_list().is_empty());
}
