use vstd::prelude::*;

use crate::call_pane::{opened, CallPane};
use crate::contact_list::{toggled, toggle_allowed, ContactList};

verus! {

/// A contact as the contact list shows it: its name, whether it is marked, which of its
/// buttons show, whether the search lets it show, and how many property bindings it holds.
pub struct ContactItem {
    name: String,
    active: bool,
    call_visible: bool,
    video_call_visible: bool,
    selection_visible: bool,
    visible: bool,
    bindings: usize,
}

/// The mathematical state of a contact.
pub struct ContactItemView {
    pub name: Seq<char>,
    pub active: bool,
    pub call_visible: bool,
    pub video_call_visible: bool,
    pub selection_visible: bool,
    pub visible: bool,
    pub bindings: nat,
}

impl View for ContactItem {
    type V = ContactItemView;

    closed spec fn view(&self) -> ContactItemView {
        ContactItemView {
            name: self.name@,
            active: self.active,
            call_visible: self.call_visible,
            video_call_visible: self.video_call_visible,
            selection_visible: self.selection_visible,
            visible: self.visible,
            bindings: self.bindings as nat,
        }
    }
}

/// A new contact with a name: not marked, shown, with its call buttons and without its
/// selection box.
pub open spec fn fresh_contact(name: Seq<char>) -> ContactItemView {
    ContactItemView {
        name: name,
        active: false,
        call_visible: true,
        video_call_visible: true,
        selection_visible: false,
        visible: true,
        bindings: 0,
    }
}

/// A contact after a sequence of renames, in order.
pub open spec fn renamed(c: ContactItemView, renames: Seq<Seq<char>>) -> ContactItemView
    decreases renames.len(),
{
    if renames.len() == 0 {
        c
    } else {
        ContactItemView { name: renames.last(), ..renamed(c, renames.drop_last()) }
    }
}

/// A contact in selection mode: its call buttons hide and its selection box shows.
pub open spec fn in_selection_mode(c: ContactItemView) -> ContactItemView {
    ContactItemView { call_visible: false, video_call_visible: false, selection_visible: true, ..c }
}

/// A contact out of selection mode: its call buttons show and its selection box hides.
pub open spec fn out_of_selection_mode(c: ContactItemView) -> ContactItemView {
    ContactItemView { call_visible: true, video_call_visible: true, selection_visible: false, ..c }
}

/// What is saved of a contact between runs: its name.
#[derive(Clone, Debug)]
pub struct ContactData {
    pub name: String,
}

impl ContactItem {
    /// A contact restored from saved data.
    pub fn from_contact_data(data: ContactData) -> (c: Self)
        ensures
            c@ == fresh_contact(data.name@),
    {
        ContactItem::new(data.name.as_str())
    }

    /// The data saved of a contact.
    pub fn to_contact_data(&self) -> (d: ContactData)
        ensures
            d.name@ == self@.name,
    {
        ContactData { name: self.name.clone() }
    }

    /// Initialize a new ContactItem
    pub fn new(name: &str) -> (c: Self)
        ensures
            c@ == fresh_contact(name@),
    {
        ContactItem {
            name: String::from_str(name),
            active: false,
            call_visible: true,
            video_call_visible: true,
            selection_visible: false,
            visible: true,
            bindings: 0,
        }
    }

    /// What a click on the call button does: the call pane opens (the ring dialog is
    /// shown next).
    pub fn handle_call_click(&self, call_pane: &mut CallPane)
        ensures
            final(call_pane)@ == opened(old(call_pane)@),
    {
        call_pane.open_call();
    }

    /// What a click on the video call button does: the call pane opens.
    pub fn handle_video_call_click(&self, call_pane: &mut CallPane)
        ensures
            final(call_pane)@ == opened(old(call_pane)@),
    {
        call_pane.open_call();
    }

    /// What a toggle of the selection box does: the first contact of the list with this
    /// contact's name changes its mark, the count of marked contacts follows, and the
    /// title shows the count.
    pub fn handle_selection_toggle(&self, contact_list: &mut ContactList)
        requires
            old(contact_list).wf(),
            toggle_allowed(old(contact_list)@, self@.name),
        ensures
            final(contact_list).wf(),
            final(contact_list)@ == toggled(old(contact_list)@, self@.name),
    {
        contact_list.toggle_contact(self.name.as_str());
    }

    /// Hide/Show certain widgets when entering selection mode
    pub fn enter_selection_mode(&mut self)
        ensures
            final(self)@ == in_selection_mode(old(self)@),
    {
        self.call_visible = false;
        self.video_call_visible = false;
        self.selection_visible = true;
    }

    /// Show/Hide certain widgets when leaving selection mode
    pub fn leave_selection_mode(&mut self)
        ensures
            final(self)@ == out_of_selection_mode(old(self)@),
    {
        self.call_visible = true;
        self.video_call_visible = true;
        self.selection_visible = false;
    }

    /// The number of property bindings the contact holds.
    pub fn n_bindings(&self) -> (n: i32)
        requires
            self@.bindings <= i32::MAX,
        ensures
            n == self@.bindings,
    {
        self.bindings as i32
    }

    /// Whether the contact is marked.
    pub fn get_active(&self) -> (a: bool)
        ensures
            a == self@.active,
    {
        self.active
    }

    /// The contact's name.
    pub fn get_name(&self) -> (n: String)
        ensures
            n@ == self@.name,
    {
        self.name.clone()
    }

    /// Renames the contact (the "name" property).
    pub fn set_name(&mut self, name: &str)
        ensures
            final(self)@ == (ContactItemView { name: name@, ..old(self)@ }),
    {
        self.name = String::from_str(name);
    }

    /// Marks or unmarks the contact.
    pub fn set_active(&mut self, active: bool)
        ensures
            final(self)@ == (ContactItemView { active: active, ..old(self)@ }),
    {
        self.active = active;
    }

    /// Shows or hides the contact.
    pub fn set_visible(&mut self, visible: bool)
        ensures
            final(self)@ == (ContactItemView { visible: visible, ..old(self)@ }),
    {
        self.visible = visible;
    }

    /// Whether the contact shows.
    pub fn is_visible(&self) -> (v: bool)
        ensures
            v == self@.visible,
    {
        self.visible
    }

    /// Whether the call buttons show.
    pub fn call_buttons_visible(&self) -> (v: bool)
        ensures
            v == (self@.call_visible && self@.video_call_visible),
    {
        self.call_visible && self.video_call_visible
    }

    /// Whether the selection box shows.
    pub fn selection_visible(&self) -> (v: bool)
        ensures
            v == self@.selection_visible,
    {
        self.selection_visible
    }
}

} // verus!

verus! {

/// A contact's name reads back as the last name written, at creation or by a rename, and
/// renaming changes nothing else.
pub proof fn name_reads_back(created: Seq<char>, renames: Seq<Seq<char>>)
    ensures
        ({
            let last = if renames.len() == 0 { created } else { renames.last() };
            &&& renamed(fresh_contact(created), renames).name == last
            &&& renamed(fresh_contact(created), renames) == (ContactItemView {
                name: last,
                ..fresh_contact(created)
            })
        }),
    decreases renames.len(),
{
    if renames.len() > 0 {
        name_reads_back(created, renames.drop_last());
    }
}

} // verus!
