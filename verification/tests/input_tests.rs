use ssh_tailscale::input::{
    handle_key, poll_timeout, tick_over, KeyCode, KeyPress, Outcome, PAGE_SIZE, TICK_MILLIS,
};
use ssh_tailscale::record::NodeRecord;
use ssh_tailscale::selection::App;

fn app_of(names: &[&str]) -> App {
    App::new(
        names
            .iter()
            .enumerate()
            .map(|(i, n)| {
                NodeRecord::new(
                    n.to_string(),
                    format!("100.64.0.{}", i + 1),
                    String::new(),
                    "active".to_string(),
                )
                .unwrap()
            })
            .collect(),
    )
}

fn key(code: KeyCode) -> KeyPress {
    KeyPress { code, control: false }
}

fn ctrl(c: char) -> KeyPress {
    KeyPress { code: KeyCode::Char(c), control: true }
}

#[test]
fn the_cancel_keys_cancel() {
    let mut app = app_of(&["alpha", "beta", "gamma"]);
    assert_eq!(handle_key(&mut app, ctrl('c')), Outcome::Cancelled);
    assert_eq!(handle_key(&mut app, ctrl('q')), Outcome::Cancelled);
}

#[test]
fn cancel_with_partial_filter_text() {
    let mut app = app_of(&["alpha", "beta", "gamma"]);
    assert_eq!(handle_key(&mut app, key(KeyCode::Char('g'))), Outcome::Running);
    assert_eq!(handle_key(&mut app, key(KeyCode::Char('a'))), Outcome::Running);
    assert_eq!(app.filter(), "ga");
    assert_eq!(handle_key(&mut app, ctrl('c')), Outcome::Cancelled);
    assert_eq!(app.filter(), "ga");
    assert_eq!(app.filtered_nodes(), &vec![2]);
}

#[test]
fn cancel_in_an_empty_list() {
    let mut app = app_of(&["alpha"]);
    handle_key(&mut app, key(KeyCode::Char('z')));
    assert!(app.filtered_nodes().is_empty());
    assert_eq!(handle_key(&mut app, ctrl('q')), Outcome::Cancelled);
}

#[test]
fn q_and_c_without_ctrl_are_filter_text() {
    let mut app = app_of(&["quince", "cherry"]);
    assert_eq!(handle_key(&mut app, key(KeyCode::Char('q'))), Outcome::Running);
    assert_eq!(app.filter(), "q");
    assert_eq!(handle_key(&mut app, key(KeyCode::Char('c'))), Outcome::Running);
    assert_eq!(app.filter(), "qc");
}

#[test]
fn ctrl_with_another_letter_is_filter_text() {
    let mut app = app_of(&["alpha"]);
    assert_eq!(handle_key(&mut app, ctrl('a')), Outcome::Running);
    assert_eq!(app.filter(), "a");
    assert_eq!(handle_key(&mut app, ctrl('C')), Outcome::Running);
    assert_eq!(app.filter(), "aC");
}

#[test]
fn enter_confirms_the_selected_record() {
    let mut app = app_of(&["alpha", "beta", "gamma"]);
    handle_key(&mut app, key(KeyCode::Up));
    let outcome = handle_key(&mut app, key(KeyCode::Enter));
    match outcome {
        Outcome::Confirmed(node) => {
            assert_eq!(node.name(), "beta");
            assert_eq!(node.ip(), "100.64.0.2");
        }
        other => panic!("not confirmed: {:?}", other),
    }
    assert_eq!(app.selection(), 1);
}

#[test]
fn enter_after_filtering_confirms_the_match() {
    let mut app = app_of(&["apple", "berry", "banana"]);
    handle_key(&mut app, key(KeyCode::Char('a')));
    handle_key(&mut app, key(KeyCode::Char('n')));
    match handle_key(&mut app, key(KeyCode::Enter)) {
        Outcome::Confirmed(node) => assert_eq!(node.name(), "banana"),
        other => panic!("not confirmed: {:?}", other),
    }
}

#[test]
fn enter_without_a_selection_goes_on() {
    let mut app = app_of(&["alpha"]);
    handle_key(&mut app, key(KeyCode::Char('z')));
    assert_eq!(handle_key(&mut app, key(KeyCode::Enter)), Outcome::Running);
    let mut empty = app_of(&[]);
    assert_eq!(handle_key(&mut empty, key(KeyCode::Enter)), Outcome::Running);
}

#[test]
fn arrows_move_by_one() {
    let mut app = app_of(&["a1", "a2", "a3"]);
    assert_eq!(handle_key(&mut app, key(KeyCode::Up)), Outcome::Running);
    assert_eq!(app.selection(), 1);
    handle_key(&mut app, key(KeyCode::Up));
    handle_key(&mut app, key(KeyCode::Up));
    assert_eq!(app.selection(), 2);
    handle_key(&mut app, key(KeyCode::Down));
    assert_eq!(app.selection(), 1);
    handle_key(&mut app, key(KeyCode::Down));
    handle_key(&mut app, key(KeyCode::Down));
    assert_eq!(app.selection(), 0);
}

#[test]
fn k_and_j_move_like_the_arrows() {
    let mut app = app_of(&["a1", "a2", "a3"]);
    handle_key(&mut app, key(KeyCode::Char('k')));
    assert_eq!(app.selection(), 1);
    assert_eq!(app.filter(), "");
    handle_key(&mut app, ctrl('k'));
    assert_eq!(app.selection(), 2);
    handle_key(&mut app, key(KeyCode::Char('j')));
    assert_eq!(app.selection(), 1);
    handle_key(&mut app, ctrl('j'));
    assert_eq!(app.selection(), 0);
    assert_eq!(app.filter(), "");
    handle_key(&mut app, key(KeyCode::Char('K')));
    assert_eq!(app.filter(), "K");
}

#[test]
fn page_keys_move_by_a_page() {
    assert_eq!(PAGE_SIZE, 10);
    let names: Vec<String> = (0..30).map(|i| format!("n{}", i)).collect();
    let refs: Vec<&str> = names.iter().map(|s| s.as_str()).collect();
    let mut app = app_of(&refs);
    handle_key(&mut app, key(KeyCode::PageDown));
    assert_eq!(app.selection(), 10);
    handle_key(&mut app, key(KeyCode::PageDown));
    handle_key(&mut app, key(KeyCode::PageDown));
    assert_eq!(app.selection(), 29);
    handle_key(&mut app, key(KeyCode::PageUp));
    assert_eq!(app.selection(), 19);
    handle_key(&mut app, key(KeyCode::Home));
    assert_eq!(app.selection(), 0);
    handle_key(&mut app, key(KeyCode::End));
    assert_eq!(app.selection(), 29);
}

#[test]
fn backspace_and_escape_edit_the_filter() {
    let mut app = app_of(&["apple", "berry", "banana"]);
    handle_key(&mut app, key(KeyCode::Char('b')));
    handle_key(&mut app, key(KeyCode::Char('e')));
    assert_eq!(app.filter(), "be");
    assert_eq!(app.filtered_nodes(), &vec![1]);
    assert_eq!(handle_key(&mut app, key(KeyCode::Backspace)), Outcome::Running);
    assert_eq!(app.filter(), "b");
    assert_eq!(app.filtered_nodes(), &vec![1, 2]);
    assert_eq!(handle_key(&mut app, key(KeyCode::Esc)), Outcome::Running);
    assert_eq!(app.filter(), "");
    assert_eq!(app.filtered_nodes(), &vec![0, 1, 2]);
}

#[test]
fn other_keys_are_ignored() {
    let mut app = app_of(&["apple", "berry"]);
    handle_key(&mut app, key(KeyCode::Up));
    handle_key(&mut app, key(KeyCode::Char('e')));
    assert_eq!(handle_key(&mut app, key(KeyCode::Other)), Outcome::Running);
    assert_eq!(handle_key(&mut app, KeyPress { code: KeyCode::Other, control: true }), Outcome::Running);
    assert_eq!(app.filter(), "e");
    assert_eq!(app.selection(), 1);
    assert_eq!(app.filtered_nodes(), &vec![0, 1]);
}

#[test]
fn the_wait_is_what_is_left_of_the_tick() {
    assert_eq!(TICK_MILLIS, 100);
    assert_eq!(poll_timeout(0), 100);
    assert_eq!(poll_timeout(1), 99);
    assert_eq!(poll_timeout(99), 1);
    assert_eq!(poll_timeout(100), 0);
    assert_eq!(poll_timeout(101), 0);
    assert_eq!(poll_timeout(u64::MAX), 0);
}

#[test]
fn a_tick_is_over_after_its_length() {
    assert!(!tick_over(0));
    assert!(!tick_over(99));
    assert!(tick_over(100));
    assert!(tick_over(5000));
}
