use gtk_datawindow_demo::connection::Connection;
use gtk_datawindow_demo::tab::Panel;
use gtk_datawindow_demo::window::DataWindow;

fn titles(w: &DataWindow) -> Vec<String> {
    w.open_tabs.iter().map(|t| t.title.clone()).collect()
}

#[test]
fn side_list_entries() {
    let w = DataWindow::new();
    assert_eq!(w.window_list.len(), 50);
    for (i, entry) in w.window_list.iter().enumerate() {
        assert_eq!(*entry, format!("Window {}", i));
    }
    assert!(w.open_tabs.is_empty());
}

#[test]
fn add_tab_appends_and_focuses() {
    let mut w = DataWindow::new();
    let a = w.add_data_tab("Orders");
    assert_eq!(w.open_tabs.len(), 1);
    assert_eq!(w.current, 0);
    let b = w.add_data_tab("Orders");
    assert_ne!(a, b);
    assert_eq!(w.open_tabs.len(), 2);
    assert_eq!(w.current, 1);
    assert_eq!(titles(&w), vec!["Orders", "Orders"]);
    assert_eq!(w.open_tabs[1].tab.visible, Panel::List);
}

#[test]
fn close_tab_keeps_others() {
    let mut w = DataWindow::new();
    let a = w.add_data_tab("a");
    let b = w.add_data_tab("b");
    let c = w.add_data_tab("c");
    w.open_tabs[2].tab.toggle_list_view();
    assert!(w.close_tab(a));
    assert_eq!(w.open_tabs.len(), 2);
    assert_eq!(titles(&w), vec!["b", "c"]);
    assert_eq!(w.open_tabs[0].tab.visible, Panel::List);
    assert_eq!(w.open_tabs[1].tab.visible, Panel::Detail);
    assert_eq!(w.current, 1);
    // removal goes by identity, not by the index the page once had
    assert!(w.close_tab(c));
    assert_eq!(titles(&w), vec!["b"]);
    assert_eq!(w.current, 0);
    assert!(!w.close_tab(a));
    assert_eq!(w.open_tabs.len(), 1);
    assert!(w.close_tab(b));
    assert!(w.open_tabs.is_empty());
    assert_eq!(w.current, 0);
}

#[test]
fn close_focused_middle_tab() {
    let mut w = DataWindow::new();
    w.add_data_tab("a");
    let b = w.add_data_tab("b");
    w.add_data_tab("c");
    w.current = 1;
    assert!(w.close_tab(b));
    assert_eq!(w.current, 1);
    assert_eq!(titles(&w), vec!["a", "c"]);
}

#[test]
fn select_out_of_range_entry() {
    let mut w = DataWindow::new();
    assert_eq!(w.select_window_entry(50), None);
    assert!(w.open_tabs.is_empty());
}

#[test]
fn select_same_entry_twice() {
    let mut w = DataWindow::new();
    let a = w.select_window_entry(7);
    let b = w.select_window_entry(7);
    assert!(a.is_some() && b.is_some() && a != b);
    assert_eq!(titles(&w), vec!["Window 7", "Window 7"]);
}

#[test]
fn start_select_and_close_scenario() {
    let mut w = DataWindow::new();
    w.open_default_tabs();
    assert_eq!(titles(&w), vec!["Window 0", "Window 1", "Window 2"]);
    let id = w.select_window_entry(5);
    assert!(id.is_some());
    assert_eq!(w.open_tabs.len(), 4);
    assert_eq!(w.open_tabs[3].title, "Window 5");
    assert_eq!(w.current, 3);
    let second = w.open_tabs[1].id;
    assert!(w.close_tab(second));
    assert_eq!(titles(&w), vec!["Window 0", "Window 2", "Window 5"]);
    assert_eq!(w.current, 2);
}

#[test]
fn connection_forms_are_independent() {
    let first = Connection::new();
    let mut second = Connection::new();
    if let Connection::Url(u) = &mut second {
        u.push_str("/other");
    }
    drop(second);
    match first {
        Connection::Url(u) => assert_eq!(u, "postgres://postgre"),
        Connection::Scheme(_) => panic!("expected a url"),
    }
}

#[test]
fn platform_choices_offered() {
    let choices = Connection::platform_choices();
    let pairs: Vec<(String, String)> = choices.into_iter().map(|c| (c.id, c.name)).collect();
    assert_eq!(
        pairs,
        vec![
            ("pg".to_string(), "postgres".to_string()),
            ("my".to_string(), "mysql".to_string()),
            ("sq".to_string(), "sqlite".to_string()),
        ]
    );
}
