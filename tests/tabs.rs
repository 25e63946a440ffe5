use gtk_datawindow_demo::tab::{DataTab, DataToolbar, Panel};
use gtk_datawindow_demo::text::numbered;

#[test]
fn numbered_renders_decimal() {
    assert_eq!(numbered("Window ", 0), "Window 0");
    assert_eq!(numbered("Window ", 7), "Window 7");
    assert_eq!(numbered("n", 10), "n10");
    assert_eq!(numbered("", 1203), "1203");
    assert_eq!(numbered("x", usize::MAX), format!("x{}", usize::MAX));
}

#[test]
fn new_tab_shows_list_panel() {
    let tab = DataTab::new();
    assert_eq!(tab.visible, Panel::List);
    assert_eq!(tab.toolbar.detail.icon, "view-fullscreen");
    assert_eq!(tab.toolbar.detail.label, "View detail");
}

#[test]
fn toggle_parity() {
    let mut tab = DataTab::new();
    for n in 1..=7 {
        tab.toggle_list_view();
        let expected = if n % 2 == 0 { Panel::List } else { Panel::Detail };
        assert_eq!(tab.visible, expected);
    }
}

#[test]
fn toggle_updates_detail_control() {
    let mut tab = DataTab::new();
    tab.toggle_list_view();
    assert_eq!(tab.visible, Panel::Detail);
    assert_eq!(tab.toolbar.detail.icon, "view-restore");
    assert_eq!(tab.toolbar.detail.label, "List view");
    tab.toggle_list_view();
    assert_eq!(tab.toolbar.detail.icon, "view-fullscreen");
    assert_eq!(tab.toolbar.detail.label, "View detail");
}

#[test]
fn set_list_view_is_idempotent() {
    let mut tab = DataTab::new();
    tab.set_list_view(false);
    tab.set_list_view(false);
    assert_eq!(tab.visible, Panel::Detail);
    tab.set_list_view(true);
    assert_eq!(tab.visible, Panel::List);
    assert_eq!(tab.list_content.len(), 50);
}

#[test]
fn list_panel_rows() {
    let tab = DataTab::new();
    assert_eq!(tab.list_content.len(), 50);
    for (i, row) in tab.list_content.iter().enumerate() {
        assert_eq!(row.first, format!("I am a content in a tab{}", i));
        assert_eq!(row.second, format!("Cell 2 tab {}", i));
        assert!(row.active);
    }
    assert_eq!(tab.list_content[49].second, "Cell 2 tab 49");
}

#[test]
fn detail_panel_fields() {
    let tab = DataTab::new();
    assert_eq!(tab.detail_content.len(), 5);
    assert_eq!(tab.detail_content[0].label, "column 1");
    assert_eq!(tab.detail_content[0].value, "value 100");
    assert_eq!(tab.detail_content[4].label, "column 5");
    assert_eq!(tab.detail_content[4].value, "value 500");
}

#[test]
fn toolbar_buttons_in_order() {
    let toolbar = DataToolbar::new();
    let labels: Vec<String> = toolbar.buttons().into_iter().map(|b| b.label).collect();
    assert_eq!(
        labels,
        vec!["New", "Save", "Refresh", "Delete", "Undo", "Redo", "Search", "View detail"]
    );
    let icons: Vec<String> = toolbar.buttons().into_iter().map(|b| b.icon).collect();
    assert_eq!(icons[0], "list-add");
    assert_eq!(icons[7], "view-fullscreen");
}
