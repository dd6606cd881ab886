use boot_select::catalog::BootCatalog;
use boot_select::store::{
    split_display_order, StorePath, BOOT_MANAGER_ID, DEFAULT_OBJECT_ELEMENT, DESCRIPTION_ELEMENT,
    DISPLAY_ORDER_ELEMENT,
};

fn fixture(p: &StorePath) -> Option<String> {
    match (p.object_id.as_str(), p.element.as_str()) {
        (BOOT_MANAGER_ID, DISPLAY_ORDER_ELEMENT) => Some("{A}\n{B}".to_string()),
        (BOOT_MANAGER_ID, DEFAULT_OBJECT_ELEMENT) => Some("{A}".to_string()),
        ("{A}", DESCRIPTION_ELEMENT) => Some("Windows 10".to_string()),
        ("{B}", DESCRIPTION_ELEMENT) => Some("Ubuntu".to_string()),
        _ => None,
    }
}

#[test]
fn split_two_ids() {
    assert_eq!(split_display_order("{A}\n{B}"), vec!["{A}".to_string(), "{B}".to_string()]);
}

#[test]
fn split_one_id() {
    assert_eq!(split_display_order("{A}"), vec!["{A}".to_string()]);
}

#[test]
fn split_empty_value() {
    assert_eq!(split_display_order(""), vec!["".to_string()]);
}

#[test]
fn split_keeps_empty_pieces() {
    assert_eq!(
        split_display_order("{A}\n\n{B}\n"),
        vec!["{A}".to_string(), "".to_string(), "{B}".to_string(), "".to_string()]
    );
}

#[test]
fn subkey_of_display_order() {
    assert_eq!(
        StorePath::display_order().subkey(),
        "BCD00000000\\Objects\\{9DEA862C-5CDD-4E70-ACC1-F32B344D4795}\\Elements\\24000001"
    );
}

#[test]
fn subkey_of_description() {
    let p = StorePath::description("{B}");
    assert_eq!(p.object_id, "{B}");
    assert_eq!(p.subkey(), "BCD00000000\\Objects\\{B}\\Elements\\12000004");
}

#[test]
fn subkey_of_default_object() {
    assert_eq!(
        StorePath::default_object().subkey(),
        "BCD00000000\\Objects\\{9DEA862C-5CDD-4E70-ACC1-F32B344D4795}\\Elements\\23000003"
    );
}

#[test]
fn load_resolves_every_id_in_order() {
    let c = BootCatalog::load(fixture).unwrap();
    assert_eq!(c.configuration.ordered_entries, vec!["{A}".to_string(), "{B}".to_string()]);
    assert_eq!(c.configuration.default_entry_id, "{A}");
    assert_eq!(c.entries.len(), 2);
    assert_eq!(c.entries[0].id, "{A}");
    assert_eq!(c.entries[0].display_name, "Windows 10");
    assert_eq!(c.entries[1].id, "{B}");
    assert_eq!(c.entries[1].display_name, "Ubuntu");
}

#[test]
fn load_fails_on_missing_display_order() {
    let e = BootCatalog::load(|p: &StorePath| {
        if p.element == DISPLAY_ORDER_ELEMENT {
            None
        } else {
            fixture(p)
        }
    })
    .unwrap_err();
    assert_eq!(e.path.object_id, BOOT_MANAGER_ID);
    assert_eq!(e.path.element, DISPLAY_ORDER_ELEMENT);
}

#[test]
fn load_fails_on_missing_default() {
    let e = BootCatalog::load(|p: &StorePath| {
        if p.element == DEFAULT_OBJECT_ELEMENT {
            None
        } else {
            fixture(p)
        }
    })
    .unwrap_err();
    assert_eq!(e.path.object_id, BOOT_MANAGER_ID);
    assert_eq!(e.path.element, DEFAULT_OBJECT_ELEMENT);
}

#[test]
fn load_fails_on_unknown_entry() {
    let e = BootCatalog::load(|p: &StorePath| {
        if p.element == DISPLAY_ORDER_ELEMENT {
            Some("{A}\n{C}\n{B}".to_string())
        } else {
            fixture(p)
        }
    })
    .unwrap_err();
    assert_eq!(e.path.object_id, "{C}");
    assert_eq!(e.path.element, DESCRIPTION_ELEMENT);
}

#[test]
fn load_counts_three_ids() {
    let c = BootCatalog::load(|p: &StorePath| {
        if p.element == DISPLAY_ORDER_ELEMENT {
            Some("{B}\n{A}\n{B}".to_string())
        } else {
            fixture(p)
        }
    })
    .unwrap();
    assert_eq!(c.entries.len(), 3);
    assert_eq!(c.entries[0].display_name, "Ubuntu");
    assert_eq!(c.entries[1].display_name, "Windows 10");
    assert_eq!(c.entries[2].display_name, "Ubuntu");
}
