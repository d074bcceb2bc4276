use gtk_shell::event::Modifiers;
use gtk_shell::keys::Key;
use gtk_shell::clipboard::preferred_format;
use gtk_shell::event::{get_modifiers, modifiers_to_native_mask};
use gtk_shell::menu::{HotKey, Menu, MenuNode, accelerator_string, modifiers_to_gdk_modifier_string,
    strip_access_key};

fn no_mods() -> Modifiers {
    Modifiers { shift: false, alt: false, ctrl: false, meta: false, caps_lock: false }
}

#[test]
fn access_keys_are_stripped() {
    assert_eq!(strip_access_key("&File"), "File");
    assert_eq!(strip_access_key("A&&B"), "A&B");
    assert_eq!(strip_access_key("Save &As"), "Save As");
    assert_eq!(strip_access_key("plain"), "plain");
    assert_eq!(strip_access_key("trailing&"), "trailing");
    assert_eq!(strip_access_key(""), "");
}

#[test]
fn modifier_strings_keep_the_fixed_order() {
    let mut m = no_mods();
    assert_eq!(modifiers_to_gdk_modifier_string(m), "");
    m.ctrl = true;
    m.alt = true;
    assert_eq!(modifiers_to_gdk_modifier_string(m), "<Alt><Control>");
    m.shift = true;
    m.meta = true;
    assert_eq!(modifiers_to_gdk_modifier_string(m), "<Alt><Control><Shift><Meta>");
}

#[test]
fn accelerators_append_the_key_character() {
    let mut mods = no_mods();
    mods.ctrl = true;
    let hk = HotKey { mods, key: Key::Character('s') };
    assert_eq!(accelerator_string(&hk), Some(String::from("<Control>s")));
    let hk = HotKey { mods, key: Key::Enter };
    assert_eq!(accelerator_string(&hk), Some(String::from("<Control>\r")));
}

#[test]
fn unmappable_hotkeys_become_inert() {
    let hk = HotKey { mods: no_mods(), key: Key::F1 };
    assert_eq!(accelerator_string(&hk), None);
    let hk = HotKey { mods: no_mods(), key: Key::Clear };
    assert_eq!(accelerator_string(&hk), None);
}

#[test]
fn menu_tree_converts_to_the_native_model() {
    let mut edit = Menu::new();
    edit.add_item(2, "Copy", None, true, false);
    let mut menu = Menu::new();
    menu.add_item(1, "Save", None, true, false);
    menu.add_separator();
    menu.add_dropdown(edit, "Edit", true);
    let model = menu.to_model();
    assert_eq!(model.len(), 3);
    match &model[0] {
        MenuNode::Entry { child_id, command, enabled, accel } => {
            assert_eq!(child_id, "Save");
            assert_eq!(*command, 1);
            assert!(*enabled);
            assert_eq!(*accel, None);
        },
        _ => panic!("first item must be the entry"),
    }
    match &model[1] {
        MenuNode::Separator { child_id } => assert_eq!(child_id, "sep1"),
        _ => panic!("second item must be the separator"),
    }
    match &model[2] {
        MenuNode::SubMenu { child_id, children } => {
            assert_eq!(child_id, "Edit");
            assert_eq!(children.len(), 1);
            match &children[0] {
                MenuNode::Entry { command, .. } => assert_eq!(*command, 2),
                _ => panic!("submenu child must be the nested entry"),
            }
        },
        _ => panic!("third item must be the submenu"),
    }
}

#[test]
fn separator_numbering_restarts_per_level() {
    let mut inner = Menu::new();
    inner.add_separator();
    inner.add_separator();
    let mut menu = Menu::new();
    menu.add_separator();
    menu.add_dropdown(inner, "More", true);
    menu.add_separator();
    let model = menu.to_model();
    assert_eq!(model.len(), 3);
    assert!(matches!(&model[0], MenuNode::Separator { child_id } if child_id == "sep1"));
    assert!(matches!(&model[2], MenuNode::Separator { child_id } if child_id == "sep2"));
    match &model[1] {
        MenuNode::SubMenu { children, .. } => {
            assert!(matches!(&children[0], MenuNode::Separator { child_id } if child_id == "sep1"));
            assert!(matches!(&children[1], MenuNode::Separator { child_id } if child_id == "sep2"));
        },
        _ => panic!("middle item must be the submenu"),
    }
}

#[test]
fn labels_are_stripped_when_items_are_added() {
    let mut menu = Menu::new();
    menu.add_item(9, "&Quit", None, false, false);
    let model = menu.to_model();
    match &model[0] {
        MenuNode::Entry { child_id, enabled, .. } => {
            assert_eq!(child_id, "Quit");
            assert!(!*enabled);
        },
        _ => panic!("expected the entry"),
    }
}

#[test]
fn entry_hotkeys_reach_the_model() {
    let mut mods = no_mods();
    mods.ctrl = true;
    let hk = HotKey { mods, key: Key::Character('c') };
    let mut menu = Menu::new();
    menu.add_item(2, "Copy", Some(&hk), true, false);
    let model = menu.to_model();
    match &model[0] {
        MenuNode::Entry { accel, .. } => assert_eq!(*accel, Some(String::from("<Control>c"))),
        _ => panic!("expected the entry"),
    }
}

#[test]
fn modifier_masks_round_trip_through_decode() {
    let mut m = no_mods();
    m.alt = true;
    m.meta = true;
    let mask = modifiers_to_native_mask(m);
    let back = get_modifiers(Some(mask));
    assert_eq!(back, m);
    assert_eq!(modifiers_to_native_mask(no_mods()), 0);
}

#[test]
fn preferred_format_honors_caller_priority() {
    let candidates = vec![String::from("text/html"), String::from("text/plain")];
    let available = vec![String::from("text/plain"), String::from("image/png")];
    assert_eq!(preferred_format(&candidates, &available), Some(1));
    let both = vec![String::from("image/png"), String::from("text/plain")];
    assert_eq!(preferred_format(&both, &available), Some(0));
    let none = vec![String::from("text/rtf")];
    assert_eq!(preferred_format(&none, &available), None);
    assert_eq!(preferred_format(&Vec::new(), &available), None);
}
