use rusant::call_pane::CallPane;
use rusant::contact_item::{ContactData, ContactItem};
use rusant::contact_list::{ContactList, ListTitle};

fn list_of(names: &[&str]) -> ContactList {
    let mut list = ContactList::new();
    list.set_model(names.iter().map(|n| ContactItem::new(n)).collect());
    list
}

fn actives(list: &ContactList) -> Vec<bool> {
    list.contacts().iter().map(|c| c.get_active()).collect()
}

fn names(list: &ContactList) -> Vec<String> {
    list.contacts().iter().map(|c| c.get_name()).collect()
}

#[test]
fn new_contact_is_unmarked_and_callable() {
    let c = ContactItem::new("Jakob");
    assert_eq!(c.get_name(), "Jakob");
    assert!(!c.get_active());
    assert!(c.call_buttons_visible());
    assert!(!c.selection_visible());
    assert!(c.is_visible());
    assert_eq!(c.n_bindings(), 0);
}

#[test]
fn selection_mode_swaps_buttons() {
    let mut c = ContactItem::new("Jakob");
    c.enter_selection_mode();
    assert!(!c.call_buttons_visible());
    assert!(c.selection_visible());
    c.leave_selection_mode();
    assert!(c.call_buttons_visible());
    assert!(!c.selection_visible());
}

#[test]
fn call_clicks_open_the_call_pane() {
    let c = ContactItem::new("Jakob");
    let mut pane = CallPane::new();
    assert!(pane.placeholder_visible());
    c.handle_call_click(&mut pane);
    assert!(pane.call_box_visible() && pane.action_bar_visible() && !pane.placeholder_visible());
    let mut pane2 = CallPane::new();
    c.handle_video_call_click(&mut pane2);
    assert!(pane2.call_box_visible() && pane2.action_bar_visible() && !pane2.placeholder_visible());
}

#[test]
fn contact_data_keeps_the_name() {
    let c = ContactItem::from_contact_data(ContactData { name: String::from("Daniel") });
    assert_eq!(c.get_name(), "Daniel");
    assert!(!c.get_active());
    assert_eq!(c.to_contact_data().name, "Daniel");
}

#[test]
fn new_list_counts_nothing() {
    let list = ContactList::new();
    assert_eq!(list.get_n_selected(), 0);
    assert_eq!(list.title(), ListTitle::Contacts);
    assert_eq!(list.title_text(), "Contacts");
    assert!(!list.in_selection_mode());
}

#[test]
fn inc_and_dec_selected() {
    let mut list = ContactList::new();
    assert_eq!(list.inc_n_selected(), 1);
    assert_eq!(list.inc_n_selected(), 2);
    assert_eq!(list.dec_n_selected(), 1);
    assert_eq!(list.get_n_selected(), 1);
}

#[test]
fn toggling_marks_and_counts() {
    let mut list = list_of(&["Jakob", "Felicitas", "Daniel"]);
    let felicitas = ContactItem::new("Felicitas");
    felicitas.handle_selection_toggle(&mut list);
    assert_eq!(actives(&list), vec![false, true, false]);
    assert_eq!(list.get_n_selected(), 1);
    assert_eq!(list.title(), ListTitle::Selected(1));
    assert_eq!(list.title_text(), "1 Selected");
    ContactItem::new("Daniel").handle_selection_toggle(&mut list);
    assert_eq!(list.title_text(), "2 Selected");
    felicitas.handle_selection_toggle(&mut list);
    assert_eq!(actives(&list), vec![false, false, true]);
    assert_eq!(list.get_n_selected(), 1);
}

#[test]
fn toggling_an_unknown_name_only_updates_the_title() {
    let mut list = list_of(&["Jakob"]);
    ContactItem::new("Nobody").handle_selection_toggle(&mut list);
    assert_eq!(actives(&list), vec![false]);
    assert_eq!(list.title(), ListTitle::Selected(0));
}

#[test]
fn toggling_a_shared_name_marks_the_first() {
    let mut list = list_of(&["Sam", "Sam"]);
    ContactItem::new("Sam").handle_selection_toggle(&mut list);
    assert_eq!(actives(&list), vec![true, false]);
}

#[test]
fn selection_button_and_cancel() {
    let mut list = list_of(&["Jakob", "Felicitas"]);
    list.click_selection_button();
    assert!(list.in_selection_mode());
    assert_eq!(list.title_text(), "0 Selected");
    assert!(list.contacts().iter().all(|c| c.selection_visible() && !c.call_buttons_visible()));
    ContactItem::new("Jakob").handle_selection_toggle(&mut list);
    list.click_select_cancel_button();
    assert!(!list.in_selection_mode());
    assert_eq!(list.title_text(), "Contacts");
    assert!(list.contacts().iter().all(|c| !c.selection_visible() && c.call_buttons_visible()));
    // Cancelling keeps the marks and their count.
    assert_eq!(actives(&list), vec![true, false]);
    assert_eq!(list.get_n_selected(), 1);
}

#[test]
fn delete_removes_marked_contacts() {
    let mut list = list_of(&["Jakob", "Felicitas", "Daniel"]);
    list.click_selection_button();
    ContactItem::new("Jakob").handle_selection_toggle(&mut list);
    ContactItem::new("Daniel").handle_selection_toggle(&mut list);
    list.click_delete_button();
    assert_eq!(names(&list), vec![String::from("Felicitas")]);
    assert_eq!(actives(&list), vec![false]);
    assert_eq!(list.get_n_selected(), 0);
    assert_eq!(list.title_text(), "Contacts");
    assert!(!list.in_selection_mode());
    assert!(list.contacts()[0].call_buttons_visible());
}

#[test]
fn search_is_case_insensitive() {
    let mut list = list_of(&["Jakob", "Felicitas", "Daniel"]);
    list.search_changed("LI");
    let shown: Vec<bool> = list.contacts().iter().map(|c| c.is_visible()).collect();
    assert_eq!(shown, vec![false, true, false]);
    list.search_changed("");
    assert!(list.contacts().iter().all(|c| c.is_visible()));
    list.search_changed("a");
    let shown: Vec<bool> = list.contacts().iter().map(|c| c.is_visible()).collect();
    assert_eq!(shown, vec![true, true, true]);
}

#[test]
fn add_dialog_appends_only_on_add() {
    let mut list = list_of(&["Jakob"]);
    list.add_contact_dialog_response("cancel", "Ignored");
    assert_eq!(names(&list), vec![String::from("Jakob")]);
    list.add_contact_dialog_response("add", "Felicitas");
    assert_eq!(names(&list), vec![String::from("Jakob"), String::from("Felicitas")]);
    assert_eq!(actives(&list), vec![false, false]);
}

#[test]
fn renamed_contact_reads_back_its_new_name() {
    let mut c = ContactItem::new("Jakob");
    c.set_name("Felicitas");
    assert_eq!(c.get_name(), "Felicitas");
    assert_eq!(c.get_name(), "Felicitas");
    assert!(!c.get_active());
}

#[test]
fn empty_search_shows_every_contact() {
    let mut list = list_of(&["Jakob", "Felicitas"]);
    list.search_changed("zzz");
    assert!(list.contacts().iter().all(|c| !c.is_visible()));
    list.search_changed("");
    assert!(list.contacts().iter().all(|c| c.is_visible()));
}
