use vstd::prelude::*;

use crate::call_pane::{idle_pane, CallPane, CallPaneView};
use crate::contact_item::{ContactData, ContactItem};
use crate::contact_list::{items_view, ContactList, ContactListView, ListTitle};

verus! {

/// The pages of the main window's stack.
#[derive(Clone, Copy, Debug, PartialEq, Eq, Structural)]
pub enum Page {
    /// The greeter, with the login button.
    Greeter,
    /// The leaflet with the contact list and the call pane.
    Leaflet,
}

/// The main window: which page shows, the contact list and the call pane.
pub struct MainWindow {
    page: Page,
    contact_list: ContactList,
    call_pane: CallPane,
}

/// The mathematical state of the main window.
pub struct MainWindowView {
    pub page: Page,
    pub contact: ContactListView,
    pub call_pane: CallPaneView,
}

impl View for MainWindow {
    type V = MainWindowView;

    closed spec fn view(&self) -> MainWindowView {
        MainWindowView { page: self.page, contact: self.contact_list@, call_pane: self.call_pane@ }
    }
}

impl MainWindow {
    /// The contact list is well formed.
    pub closed spec fn wf(&self) -> bool {
        self.contact_list.wf()
    }

    /// Initialize a new MainWindow: the greeter shows, the contact list holds the restored
    /// contacts and the call pane shows no call.
    pub fn new(restored: Vec<ContactItem>) -> (w: Self)
        ensures
            w.wf(),
            w@ == (MainWindowView {
                page: Page::Greeter,
                contact: ContactListView {
                    contacts: Some(items_view(restored@)),
                    selected: 0,
                    title: ListTitle::Contacts,
                    selection_mode: false,
                },
                call_pane: idle_pane(true),
            }),
    {
        let mut contact_list = ContactList::new();
        contact_list.set_model(restored);
        MainWindow { page: Page::Greeter, contact_list, call_pane: CallPane::new() }
    }

    /// Shows the greeter page.
    pub fn switch_to_greeter_page(&mut self)
        ensures
            final(self).wf() == old(self).wf(),
            final(self)@ == (MainWindowView { page: Page::Greeter, ..old(self)@ }),
    {
        self.page = Page::Greeter;
    }

    /// Shows the leaflet with the contacts and the call pane.
    pub fn switch_to_leaflet(&mut self)
        ensures
            final(self).wf() == old(self).wf(),
            final(self)@ == (MainWindowView { page: Page::Leaflet, ..old(self)@ }),
    {
        self.page = Page::Leaflet;
    }

    /// The page that shows.
    pub fn visible_page(&self) -> (p: Page)
        ensures
            p == self@.page,
    {
        self.page
    }

    /// The contact list.
    pub fn contact(&self) -> (c: &ContactList)
        ensures
            c@ == self@.contact,
            self.wf() ==> c.wf(),
    {
        &self.contact_list
    }

    /// The call pane.
    pub fn call_pane(&self) -> (p: &CallPane)
        ensures
            p@ == self@.call_pane,
    {
        &self.call_pane
    }

    /// The data saved of each contact of the list, in order, when the window closes.
    pub fn backup_data(&self) -> (data: Vec<ContactData>)
        requires
            self@.contact.contacts is Some,
        ensures
            data@.len() == self@.contact.contacts->0.len(),
            forall|i: int| 0 <= i < data@.len() ==> (#[trigger] data@[i]).name@ == self@.contact.contacts->0[i].name,
    {
        let contacts = self.contact_list.contacts();
        let mut data: Vec<ContactData> = Vec::new();
        let n = contacts.len();
        let mut i: usize = 0;
        while i < n
            invariant
                n == contacts@.len(),
                items_view(contacts@) == self@.contact.contacts->0,
                0 <= i <= n,
                data@.len() == i,
                forall|j: int| 0 <= j < i ==> (#[trigger] data@[j]).name@ == contacts@[j]@.name,
            decreases n - i,
        {
            data.push(contacts[i].to_contact_data());
            i = i + 1;
        }
        data
    }

    /// The contact list, to change it.
    pub fn contact_mut(&mut self) -> (c: &mut ContactList)
        ensures
            c@ == old(self)@.contact,
            old(self).wf() ==> c.wf(),
            final(self)@ == (MainWindowView { contact: final(c)@, ..old(self)@ }),
            final(self).wf() == final(c).wf(),
    {
        &mut self.contact_list
    }

    /// The call pane, to change it.
    pub fn call_pane_mut(&mut self) -> (p: &mut CallPane)
        ensures
            p@ == old(self)@.call_pane,
            final(self)@ == (MainWindowView { call_pane: final(p)@, ..old(self)@ }),
            final(self).wf() == old(self).wf(),
    {
        &mut self.call_pane
    }
}

} // verus!
