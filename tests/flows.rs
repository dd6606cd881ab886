use boot_select::catalog::BootCatalog;
use boot_select::session::{Action, Event, Session};
use boot_select::store::{
    StorePath, BOOT_MANAGER_ID, DEFAULT_OBJECT_ELEMENT, DESCRIPTION_ELEMENT, DISPLAY_ORDER_ELEMENT,
};

fn store(p: &StorePath) -> Option<String> {
    match (p.object_id.as_str(), p.element.as_str()) {
        (BOOT_MANAGER_ID, DISPLAY_ORDER_ELEMENT) => Some("{A}\n{B}".to_string()),
        (BOOT_MANAGER_ID, DEFAULT_OBJECT_ELEMENT) => Some("{A}".to_string()),
        ("{A}", DESCRIPTION_ELEMENT) => Some("Windows 10".to_string()),
        ("{B}", DESCRIPTION_ELEMENT) => Some("Ubuntu".to_string()),
        _ => None,
    }
}

#[derive(Default)]
struct Record {
    set_default: Vec<String>,
    reboots: usize,
    entry_prompts: usize,
    reboot_prompts: usize,
}

/// Drives a run the way a front end does, answering the entry chooser by
/// label and the restart prompt with the given position.
fn drive(target: &str, pick: Option<&str>, reboot_pick: Option<usize>) -> Record {
    let catalog = BootCatalog::load(store).unwrap();
    let (mut session, mut action) = Session::start(target, catalog);
    let mut rec = Record::default();
    loop {
        let event = match &action {
            Action::SetDefault(id) => {
                rec.set_default.push(id.clone());
                Event::DefaultCommitted(true)
            }
            Action::ChooseEntry { labels, .. } => {
                rec.entry_prompts += 1;
                Event::EntryChosen(pick.and_then(|p| labels.iter().position(|l| l == p)))
            }
            Action::ConfirmReboot { .. } => {
                rec.reboot_prompts += 1;
                Event::RebootChosen(reboot_pick)
            }
            Action::Reboot => {
                rec.reboots += 1;
                Event::RebootAttempted
            }
            Action::ReportCommitFailure | Action::Finish => break,
        };
        action = session.step(event);
    }
    rec
}

#[test]
fn target_ubuntu_switches_and_reboots() {
    let rec = drive("ubuntu", None, None);
    assert_eq!(rec.set_default, vec!["{B}".to_string()]);
    assert_eq!(rec.reboots, 1);
    assert_eq!(rec.entry_prompts, 0);
    assert_eq!(rec.reboot_prompts, 0);
}

#[test]
fn no_arguments_select_ubuntu_then_reboot() {
    let rec = drive("", Some("Ubuntu"), Some(0));
    assert_eq!(rec.set_default, vec!["{B}".to_string()]);
    assert_eq!(rec.reboots, 1);
    assert_eq!(rec.entry_prompts, 1);
    assert_eq!(rec.reboot_prompts, 1);
}

#[test]
fn selecting_current_default_writes_nothing() {
    let rec = drive("", Some("Windows 10"), Some(1));
    assert!(rec.set_default.is_empty());
    assert_eq!(rec.reboots, 0);
    assert_eq!(rec.reboot_prompts, 1);
}

#[test]
fn cancelled_chooser_does_nothing() {
    let rec = drive("", None, Some(0));
    assert!(rec.set_default.is_empty());
    assert_eq!(rec.reboots, 0);
    assert_eq!(rec.entry_prompts, 1);
    assert_eq!(rec.reboot_prompts, 0);
}

#[test]
fn unmatched_target_falls_back_to_chooser() {
    let rec = drive("Fedora", Some("Ubuntu"), None);
    assert_eq!(rec.entry_prompts, 1);
    assert_eq!(rec.set_default, vec!["{B}".to_string()]);
    assert_eq!(rec.reboot_prompts, 1);
    assert_eq!(rec.reboots, 0);
}
