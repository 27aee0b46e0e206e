use ssh_tailscale::record::NodeRecord;
use ssh_tailscale::screen::{
    count_text, render, row_for, ListArea, FOOTER_HEIGHT, HEADER_HEIGHT, IP_WIDTH, LEGEND,
    LIST_MIN_HEIGHT, MARGIN, NAME_WIDTH, NO_MATCHES, TITLE,
};
use ssh_tailscale::selection::App;

fn record(name: &str, ip: &str, status: &str) -> NodeRecord {
    NodeRecord::new(name.to_string(), ip.to_string(), "me@".to_string(), status.to_string()).unwrap()
}

fn three() -> App {
    App::new(vec![
        record("alpha", "100.64.0.1", "active; direct"),
        record("beta", "100.64.0.2", "offline"),
        record("gamma", "100.64.0.3", "idle"),
    ])
}

#[test]
fn the_fixed_texts_and_sizes() {
    assert_eq!(TITLE, "Tailscale SSH - Select a Node");
    assert_eq!(NO_MATCHES, "No nodes match your filter");
    assert_eq!(LEGEND, "Enter: Connect  Esc: Clear filter  \u{2191}/\u{2193}: Navigate  Ctrl+C: Exit");
    assert_eq!(NAME_WIDTH, 55);
    assert_eq!(IP_WIDTH, 20);
    assert_eq!((HEADER_HEIGHT, LIST_MIN_HEIGHT, FOOTER_HEIGHT, MARGIN), (3, 3, 3, 1));
}

#[test]
fn the_count_line() {
    assert_eq!(count_text(0), "Found 0 nodes");
    assert_eq!(count_text(1), "Found 1 nodes");
    assert_eq!(count_text(3), "Found 3 nodes");
    assert_eq!(count_text(120), "Found 120 nodes");
}

#[test]
fn a_row_has_columns_of_fixed_width() {
    let row = row_for(&record("alpha", "100.64.0.1", "active; direct"));
    assert_eq!(row.name, format!("{:<55}", "alpha"));
    assert_eq!(row.name.chars().count(), 55);
    assert_eq!(row.ip, format!("{:<20}", "100.64.0.1"));
    assert_eq!(row.ip.chars().count(), 20);
    assert_eq!(row.status, "active; direct");
    assert!(row.active);
}

#[test]
fn a_row_of_an_unreachable_node() {
    let row = row_for(&record("beta", "100.64.0.2", "offline"));
    assert_eq!(row.status, "offline");
    assert!(!row.active);
}

#[test]
fn a_long_name_is_not_cut() {
    let name = "n".repeat(60);
    let row = row_for(&record(&name, "100.64.0.1", "idle"));
    assert_eq!(row.name, name);
}

#[test]
fn the_screen_of_a_new_state() {
    let screen = render(&three());
    assert_eq!(screen.title, "Tailscale SSH - Select a Node");
    assert_eq!(screen.count, "Found 3 nodes");
    assert_eq!(screen.search, "Search: ");
    assert_eq!(screen.legend, LEGEND);
    match screen.list {
        ListArea::Rows { rows, highlighted } => {
            let names: Vec<&str> = rows.iter().map(|r| r.name.trim_end()).collect();
            assert_eq!(names, vec!["gamma", "beta", "alpha"]);
            let active: Vec<bool> = rows.iter().map(|r| r.active).collect();
            assert_eq!(active, vec![false, false, true]);
            assert_eq!(rows[2].ip.trim_end(), "100.64.0.1");
            assert_eq!(highlighted, 2);
        }
        other => panic!("no rows: {:?}", other),
    }
}

#[test]
fn the_highlight_moves_up_with_the_selection() {
    let mut app = three();
    app.move_selection_up();
    match render(&app).list {
        ListArea::Rows { highlighted, .. } => assert_eq!(highlighted, 1),
        other => panic!("no rows: {:?}", other),
    }
    app.move_selection_up();
    match render(&app).list {
        ListArea::Rows { rows, highlighted } => {
            assert_eq!(highlighted, 0);
            assert_eq!(rows[highlighted].name.trim_end(), "gamma");
        }
        other => panic!("no rows: {:?}", other),
    }
}

#[test]
fn the_screen_of_a_filtered_state() {
    let mut app = three();
    app.set_filter("a".to_string());
    app.set_filter("am".to_string());
    let screen = render(&app);
    assert_eq!(screen.count, "Found 3 nodes");
    assert_eq!(screen.search, "Search: am");
    match screen.list {
        ListArea::Rows { rows, highlighted } => {
            assert_eq!(rows.len(), 1);
            assert_eq!(rows[0].name.trim_end(), "gamma");
            assert_eq!(highlighted, 0);
        }
        other => panic!("no rows: {:?}", other),
    }
}

#[test]
fn no_matches_are_announced() {
    let mut app = three();
    app.set_filter("zzz".to_string());
    let screen = render(&app);
    assert_eq!(screen.list, ListArea::NoMatches);
    assert_eq!(screen.count, "Found 3 nodes");
    assert_eq!(screen.search, "Search: zzz");
}

#[test]
fn no_records_and_no_filter_show_nothing() {
    let app = App::new(Vec::new());
    let screen = render(&app);
    assert_eq!(screen.list, ListArea::Empty);
    assert_eq!(screen.count, "Found 0 nodes");
}

#[test]
fn no_records_and_a_filter_show_the_notice() {
    let mut app = App::new(Vec::new());
    app.set_filter("a".to_string());
    assert_eq!(render(&app).list, ListArea::NoMatches);
}
