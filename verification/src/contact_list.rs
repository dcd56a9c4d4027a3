use vstd::prelude::*;

use crate::contact_item::{
    fresh_contact, in_selection_mode, out_of_selection_mode, ContactItem, ContactItemView,
};
use crate::text::{append_decimal, decimal, lowercase, occurs_in, text_contains, to_lowercase};

verus! {

/// The largest count of marked contacts that the `selected` property admits.
pub const MAX_SELECTED: i32 = 65535;

/// What the contact list's title says.
#[derive(Clone, Copy, Debug, PartialEq, Eq, Structural)]
pub enum ListTitle {
    /// "Contacts"
    Contacts,
    /// "{n} Selected"
    Selected(i32),
}

/// The text of a title.
pub open spec fn title_text_of(t: ListTitle) -> Seq<char> {
    match t {
        ListTitle::Contacts => "Contacts"@,
        ListTitle::Selected(n) => decimal(n as int) + " Selected"@,
    }
}

/// The contacts, the count of marked contacts that the `selected` property holds, the
/// title, and whether the list is in selection mode (action bar revealed, add, selection
/// and menu buttons hidden, cancel button shown).
pub struct ContactList {
    contacts: Vec<ContactItem>,
    contacts_set: bool,
    selected: i32,
    title: ListTitle,
    selection_mode: bool,
}

/// The mathematical state of a contact list; `contacts` is `None` until a model is set.
pub struct ContactListView {
    pub contacts: Option<Seq<ContactItemView>>,
    pub selected: int,
    pub title: ListTitle,
    pub selection_mode: bool,
}

/// The views of a sequence of contacts.
pub open spec fn items_view(v: Seq<ContactItem>) -> Seq<ContactItemView> {
    v.map_values(|c: ContactItem| c@)
}

impl View for ContactList {
    type V = ContactListView;

    closed spec fn view(&self) -> ContactListView {
        ContactListView {
            contacts: if self.contacts_set { Some(items_view(self.contacts@)) } else { None },
            selected: self.selected as int,
            title: self.title,
            selection_mode: self.selection_mode,
        }
    }
}

/// The number of marked contacts.
pub open spec fn count_active(s: Seq<ContactItemView>) -> nat
    decreases s.len(),
{
    if s.len() == 0 {
        0
    } else {
        count_active(s.drop_last()) + if s.last().active { 1nat } else { 0nat }
    }
}

/// `i` is the first position of a contact with this name.
pub open spec fn is_first_named(s: Seq<ContactItemView>, name: Seq<char>, i: int) -> bool {
    0 <= i < s.len() && s[i].name == name && forall|j: int| 0 <= j < i ==> s[j].name != name
}

/// The first position of a contact with this name, if any.
pub open spec fn first_named(s: Seq<ContactItemView>, name: Seq<char>) -> Option<int> {
    if exists|i: int| is_first_named(s, name, i) {
        Some(choose|i: int| is_first_named(s, name, i))
    } else {
        None
    }
}

/// A toggle of the contact named `name` keeps the `selected` property in its range.
pub open spec fn toggle_allowed(l: ContactListView, name: Seq<char>) -> bool {
    &&& l.contacts is Some
    &&& match first_named(l.contacts->0, name) {
        Some(i) => if l.contacts->0[i].active { l.selected > 0 } else { l.selected < MAX_SELECTED },
        None => true,
    }
}

/// The list after the selection box of the contact named `name` was toggled: the first
/// contact with that name changes its mark and the count follows; the title shows the count.
pub open spec fn toggled(l: ContactListView, name: Seq<char>) -> ContactListView {
    let s = l.contacts->0;
    match first_named(s, name) {
        Some(i) => {
            let was = s[i].active;
            let count = if was { l.selected - 1 } else { l.selected + 1 };
            ContactListView {
                contacts: Some(s.update(i, ContactItemView { active: !was, ..s[i] })),
                selected: count,
                title: ListTitle::Selected(count as i32),
                ..l
            }
        },
        None => ContactListView { title: ListTitle::Selected(l.selected as i32), ..l },
    }
}

/// Applies a change to every contact of an optional list.
pub open spec fn all_in_selection_mode(c: Option<Seq<ContactItemView>>) -> Option<Seq<ContactItemView>> {
    match c {
        Some(s) => Some(s.map_values(|x: ContactItemView| in_selection_mode(x))),
        None => None,
    }
}

/// Every contact of an optional list out of selection mode.
pub open spec fn all_out_of_selection_mode(c: Option<Seq<ContactItemView>>) -> Option<
    Seq<ContactItemView>,
> {
    match c {
        Some(s) => Some(s.map_values(|x: ContactItemView| out_of_selection_mode(x))),
        None => None,
    }
}

/// The list after a click on the selection button.
pub open spec fn selection_started(l: ContactListView) -> ContactListView {
    ContactListView {
        contacts: all_in_selection_mode(l.contacts),
        title: ListTitle::Selected(l.selected as i32),
        selection_mode: true,
        ..l
    }
}

/// The list after a click on the cancel button: marks and count stay.
pub open spec fn selection_cancelled(l: ContactListView) -> ContactListView {
    ContactListView {
        contacts: all_out_of_selection_mode(l.contacts),
        title: ListTitle::Contacts,
        selection_mode: false,
        ..l
    }
}

/// The list after a click on the delete button: the marked contacts are gone, the count
/// is reset and the list leaves selection mode.
pub open spec fn marked_deleted(l: ContactListView) -> ContactListView {
    let kept = l.contacts->0.filter(|c: ContactItemView| !c.active);
    ContactListView {
        contacts: Some(kept.map_values(|x: ContactItemView| out_of_selection_mode(x))),
        selected: 0,
        title: ListTitle::Contacts,
        selection_mode: false,
    }
}

/// A contact shows under a search when the lowercase query occurs in its lowercase name.
pub open spec fn matches_search(name: Seq<char>, query: Seq<char>) -> bool {
    occurs_in(lowercase(query), lowercase(name))
}

/// The list after the search text changed.
pub open spec fn searched(l: ContactListView, query: Seq<char>) -> ContactListView {
    ContactListView {
        contacts: match l.contacts {
            Some(s) => Some(
                s.map_values(
                    |x: ContactItemView| ContactItemView { visible: matches_search(x.name, query), ..x },
                ),
            ),
            None => None,
        },
        ..l
    }
}

/// The list after the add-contact dialog answered: with "add", a new contact with the
/// entered name joins the end of the list.
pub open spec fn dialog_answered(l: ContactListView, response: Seq<char>, text: Seq<char>) -> ContactListView {
    if response == "add"@ {
        ContactListView { contacts: Some(l.contacts->0.push(fresh_contact(text))), ..l }
    } else {
        l
    }
}

/// The list after `inc_n_selected` (`true`) or `dec_n_selected` (`false`).
pub open spec fn count_step(l: ContactListView, inc: bool) -> ContactListView {
    ContactListView { selected: if inc { l.selected + 1 } else { l.selected - 1 }, ..l }
}

/// The list after a sequence of increments (`true`) and decrements (`false`), in order.
pub open spec fn counted(l: ContactListView, steps: Seq<bool>) -> ContactListView
    decreases steps.len(),
{
    if steps.len() == 0 {
        l
    } else {
        count_step(counted(l, steps.drop_last()), steps.last())
    }
}

/// The number of increments less the number of decrements.
pub open spec fn net_count(steps: Seq<bool>) -> int
    decreases steps.len(),
{
    if steps.len() == 0 {
        0
    } else {
        net_count(steps.drop_last()) + if steps.last() { 1int } else { -1int }
    }
}

/// The count of marked contacts that the list holds is the number of its marked contacts.
pub open spec fn consistent(l: ContactListView) -> bool {
    l.contacts is Some && l.selected == count_active(l.contacts->0)
}

proof fn lemma_count_update(s: Seq<ContactItemView>, i: int, c: ContactItemView)
    requires
        0 <= i < s.len(),
    ensures
        count_active(s.update(i, c)) + (if s[i].active { 1int } else { 0int })
            == count_active(s) + (if c.active { 1int } else { 0int }),
    decreases s.len(),
{
    let t = s.update(i, c);
    if i == s.len() - 1 {
        assert(t.drop_last() =~= s.drop_last());
    } else {
        assert(t.drop_last() =~= s.drop_last().update(i, c));
        lemma_count_update(s.drop_last(), i, c);
    }
}

proof fn lemma_count_push(s: Seq<ContactItemView>, c: ContactItemView)
    ensures
        count_active(s.push(c)) == count_active(s) + if c.active { 1nat } else { 0nat },
{
    assert(s.push(c).drop_last() =~= s);
}

proof fn lemma_count_entering(s: Seq<ContactItemView>)
    ensures
        count_active(s.map_values(|x: ContactItemView| in_selection_mode(x))) == count_active(s),
    decreases s.len(),
{
    if s.len() > 0 {
        lemma_count_entering(s.drop_last());
        assert(s.map_values(|x: ContactItemView| in_selection_mode(x)).drop_last()
            =~= s.drop_last().map_values(|x: ContactItemView| in_selection_mode(x)));
    }
}

proof fn lemma_count_leaving(s: Seq<ContactItemView>)
    ensures
        count_active(s.map_values(|x: ContactItemView| out_of_selection_mode(x))) == count_active(s),
    decreases s.len(),
{
    if s.len() > 0 {
        lemma_count_leaving(s.drop_last());
        assert(s.map_values(|x: ContactItemView| out_of_selection_mode(x)).drop_last()
            =~= s.drop_last().map_values(|x: ContactItemView| out_of_selection_mode(x)));
    }
}

proof fn lemma_count_prefix(s: Seq<ContactItemView>, k: int)
    requires
        0 <= k <= s.len(),
    ensures
        count_active(s.take(k)) <= count_active(s),
    decreases s.len(),
{
    if k == s.len() {
        assert(s.take(k) =~= s);
    } else {
        assert(s.drop_last().take(k) =~= s.take(k));
        lemma_count_prefix(s.drop_last(), k);
    }
}

proof fn lemma_count_no_active(s: Seq<ContactItemView>)
    requires
        forall|i: int| 0 <= i < s.len() ==> !(#[trigger] s[i]).active,
    ensures
        count_active(s) == 0,
    decreases s.len(),
{
    if s.len() > 0 {
        lemma_count_no_active(s.drop_last());
    }
}

proof fn lemma_count_search(s: Seq<ContactItemView>, query: Seq<char>)
    ensures
        count_active(
            s.map_values(
                |x: ContactItemView| ContactItemView { visible: matches_search(x.name, query), ..x },
            ),
        ) == count_active(s),
    decreases s.len(),
{
    let f = |x: ContactItemView| ContactItemView { visible: matches_search(x.name, query), ..x };
    if s.len() > 0 {
        lemma_count_search(s.drop_last(), query);
        assert(s.map_values(f).drop_last() =~= s.drop_last().map_values(f));
    }
}

impl ContactList {
    /// The `selected` property lies in its declared range, and there are no contacts
    /// before a model is set.
    pub closed spec fn wf(&self) -> bool {
        &&& 0 <= self.selected <= MAX_SELECTED
        &&& !self.contacts_set ==> self.contacts@.len() == 0
    }

    /// Initialize a new ContactList: no model yet, nothing marked, titled "Contacts".
    pub fn new() -> (l: Self)
        ensures
            l.wf(),
            l@ == (ContactListView {
                contacts: None,
                selected: 0,
                title: ListTitle::Contacts,
                selection_mode: false,
            }),
    {
        ContactList {
            contacts: Vec::new(),
            contacts_set: false,
            selected: 0,
            title: ListTitle::Contacts,
            selection_mode: false,
        }
    }

    /// Sets the contacts of the list; the model can be set once.
    pub fn set_model(&mut self, model: Vec<ContactItem>)
        requires
            old(self).wf(),
            old(self)@.contacts is None,
        ensures
            final(self).wf(),
            final(self)@ == (ContactListView { contacts: Some(items_view(model@)), ..old(self)@ }),
    {
        self.contacts = model;
        self.contacts_set = true;
    }

    /// The contacts of the list, once a model is set.
    pub fn contacts(&self) -> (c: &Vec<ContactItem>)
        requires
            self@.contacts is Some,
        ensures
            items_view(c@) == self@.contacts->0,
    {
        &self.contacts
    }

    /// Increment n_selected by one
    pub fn inc_n_selected(&mut self) -> (n: i32)
        requires
            old(self).wf(),
            old(self)@.selected < MAX_SELECTED,
        ensures
            final(self).wf(),
            n == old(self)@.selected + 1,
            final(self)@ == (ContactListView { selected: n as int, ..old(self)@ }),
            final(self)@ == count_step(old(self)@, true),
    {
        self.selected = self.selected + 1;
        self.selected
    }

    /// Decrement n_selected by one
    pub fn dec_n_selected(&mut self) -> (n: i32)
        requires
            old(self).wf(),
            old(self)@.selected > 0,
        ensures
            final(self).wf(),
            n == old(self)@.selected - 1,
            final(self)@ == (ContactListView { selected: n as int, ..old(self)@ }),
            final(self)@ == count_step(old(self)@, false),
    {
        self.selected = self.selected - 1;
        self.selected
    }

    /// Get the current value of n_selected
    pub fn get_n_selected(&self) -> (n: i32)
        ensures
            n == self@.selected,
    {
        self.selected
    }

    /// What the title says.
    pub fn title(&self) -> (t: ListTitle)
        ensures
            t == self@.title,
    {
        self.title
    }

    /// The text of the title: "Contacts" or "{n} Selected".
    pub fn title_text(&self) -> (s: String)
        ensures
            s@ == title_text_of(self@.title),
    {
        match self.title {
            ListTitle::Contacts => String::from_str("Contacts"),
            ListTitle::Selected(n) => {
                let mut s = String::new();
                append_decimal(&mut s, n);
                s.append(" Selected");
                assert(s@ =~= title_text_of(self@.title));
                s
            },
        }
    }

    /// Whether the list is in selection mode.
    pub fn in_selection_mode(&self) -> (m: bool)
        ensures
            m == self@.selection_mode,
    {
        self.selection_mode
    }

    fn position_named(&self, name: &str) -> (r: Option<usize>)
        requires
            self@.contacts is Some,
        ensures
            match r {
                Some(i) => first_named(self@.contacts->0, name@) == Some(i as int),
                None => first_named(self@.contacts->0, name@) is None,
            },
    {
        let ghost s = self@.contacts->0;
        assert(s == items_view(self.contacts@));
        let target = String::from_str(name);
        let n = self.contacts.len();
        let mut i: usize = 0;
        while i < n
            invariant
                n == self.contacts@.len(),
                s == items_view(self.contacts@),
                s == self@.contacts->0,
                target@ == name@,
                0 <= i <= n,
                forall|j: int| 0 <= j < i ==> s[j].name != name@,
            decreases n - i,
        {
            let candidate = self.contacts[i].get_name();
            assert(s[i as int] == self.contacts@[i as int]@);
            if candidate == target {
                assert(is_first_named(s, name@, i as int));
                let ghost k = choose|k: int| is_first_named(s, name@, k);
                assert(k == i as int) by {
                    if k < i {
                        assert(s[k].name != name@);
                    }
                    if k > i {
                        assert(s[i as int].name == name@);
                    }
                }
                return Some(i);
            }
            i = i + 1;
        }
        None
    }

    /// The selection box of the contact named `name` was toggled.
    pub(crate) fn toggle_contact(&mut self, name: &str)
        requires
            old(self).wf(),
            toggle_allowed(old(self)@, name@),
        ensures
            final(self).wf(),
            final(self)@ == toggled(old(self)@, name@),
    {
        match self.position_named(name) {
            Some(i) => {
                let ghost s = old(self)@.contacts->0;
                let was = self.contacts[i].get_active();
                self.contacts[i].set_active(!was);
                if was {
                    self.dec_n_selected();
                } else {
                    self.inc_n_selected();
                }
                self.title = ListTitle::Selected(self.selected);
                assert(items_view(self.contacts@) =~= s.update(
                    i as int,
                    ContactItemView { active: !was, ..s[i as int] },
                ));
            },
            None => {
                self.title = ListTitle::Selected(self.selected);
            },
        }
    }

    /// A click on the selection button: every contact and the list enter selection mode,
    /// and the title shows the count of marked contacts.
    pub fn click_selection_button(&mut self)
        requires
            old(self).wf(),
        ensures
            final(self).wf(),
            final(self)@ == selection_started(old(self)@),
    {
        let ghost s = items_view(self.contacts@);
        let n = self.contacts.len();
        let mut i: usize = 0;
        while i < n
            invariant
                n == self.contacts@.len(),
                0 <= i <= n,
                s.len() == n,
                s == items_view(old(self).contacts@),
                self.selected == old(self).selected,
                self.title == old(self).title,
                self.selection_mode == old(self).selection_mode,
                self.contacts_set == old(self).contacts_set,
                old(self).wf(),
                forall|j: int| 0 <= j < i ==> (#[trigger] self.contacts@[j])@ == in_selection_mode(s[j]),
                forall|j: int| i <= j < n ==> (#[trigger] self.contacts@[j])@ == s[j],
            decreases n - i,
        {
            self.contacts[i].enter_selection_mode();
            i = i + 1;
        }
        assert(items_view(self.contacts@) =~= s.map_values(|x: ContactItemView| in_selection_mode(x)));
        self.selection_mode = true;
        self.title = ListTitle::Selected(self.selected);
    }

    fn leave_selection_mode_all(&mut self)
        requires
            old(self).wf(),
        ensures
            final(self).wf(),
            final(self).contacts_set == old(self).contacts_set,
            final(self).selected == old(self).selected,
            final(self).title == old(self).title,
            final(self).selection_mode == old(self).selection_mode,
            items_view(final(self).contacts@) == items_view(old(self).contacts@).map_values(
                |x: ContactItemView| out_of_selection_mode(x),
            ),
    {
        let ghost s = items_view(self.contacts@);
        let n = self.contacts.len();
        let mut i: usize = 0;
        while i < n
            invariant
                n == self.contacts@.len(),
                0 <= i <= n,
                s.len() == n,
                s == items_view(old(self).contacts@),
                self.selected == old(self).selected,
                self.title == old(self).title,
                self.selection_mode == old(self).selection_mode,
                self.contacts_set == old(self).contacts_set,
                old(self).wf(),
                forall|j: int| 0 <= j < i ==> (#[trigger] self.contacts@[j])@ == out_of_selection_mode(s[j]),
                forall|j: int| i <= j < n ==> (#[trigger] self.contacts@[j])@ == s[j],
            decreases n - i,
        {
            self.contacts[i].leave_selection_mode();
            i = i + 1;
        }
        assert(items_view(self.contacts@) =~= s.map_values(|x: ContactItemView| out_of_selection_mode(x)));
    }

    /// A click on the cancel button: every contact and the list leave selection mode and
    /// the title says "Contacts"; the marks and their count stay.
    pub fn click_select_cancel_button(&mut self)
        requires
            old(self).wf(),
        ensures
            final(self).wf(),
            final(self)@ == selection_cancelled(old(self)@),
    {
        self.leave_selection_mode_all();
        self.selection_mode = false;
        self.title = ListTitle::Contacts;
    }

    /// A click on the delete button: the marked contacts leave the list, the count goes
    /// back to zero, and the list leaves selection mode titled "Contacts".
    pub fn click_delete_button(&mut self)
        requires
            old(self).wf(),
            old(self)@.contacts is Some,
            count_active(old(self)@.contacts->0) <= old(self)@.selected - i32::MIN,
        ensures
            final(self).wf(),
            final(self)@ == marked_deleted(old(self)@),
    {
        let ghost s = items_view(self.contacts@);
        let mut kept: Vec<ContactItem> = Vec::new();
        let mut count: i32 = self.selected;
        let mut rest: Vec<ContactItem> = Vec::new();
        std::mem::swap(&mut rest, &mut self.contacts);
        let n = rest.len();
        assert(items_view(rest@).len() == rest@.len());
        let mut i: usize = 0;
        assert(s.take(0).filter(|c: ContactItemView| !c.active) =~= Seq::<ContactItemView>::empty());
        assert(items_view(rest@) =~= s.skip(0));
        while i < n
            invariant
                n == s.len(),
                0 <= i <= n,
                rest@.len() == n - i,
                items_view(rest@) == s.skip(i as int),
                items_view(kept@) == s.take(i as int).filter(|c: ContactItemView| !c.active),
                count == old(self).selected - count_active(s.take(i as int)),
                count_active(s) <= old(self).selected - i32::MIN,
                self.selected == old(self).selected,
                self.title == old(self).title,
                self.selection_mode == old(self).selection_mode,
                self.contacts_set == old(self).contacts_set,
                self.contacts_set,
                0 <= self.selected <= MAX_SELECTED,
            decreases n - i,
        {
            let ghost before = rest@;
            let item = rest.remove(0);
            proof {
                assert(items_view(before)[0] == before[0]@);
                assert(s.skip(i as int)[0] == s[i as int]);
                assert(item@ == s[i as int]);
                assert(items_view(rest@) =~= items_view(before).skip(1));
                assert(items_view(rest@) =~= s.skip(i + 1));
                assert(s.take(i + 1).drop_last() =~= s.take(i as int));
                assert(s.take(i + 1).last() == s[i as int]);
                lemma_count_prefix(s, i + 1);
            }
            if item.get_active() {
                count = count - 1;
            } else {
                kept.push(item);
            }
            proof {
                let f = |c: ContactItemView| !c.active;
                s.take(i as int).lemma_filter_push(s[i as int], f);
                assert(s.take(i as int).push(s[i as int]) =~= s.take(i + 1));
                assert(items_view(kept@) =~= s.take(i + 1).filter(f));
            }
            i = i + 1;
        }
        proof {
            assert(s.take(n as int) =~= s);
            let f = |c: ContactItemView| !c.active;
            let kept_view = s.filter(f);
            assert forall|j: int| 0 <= j < kept_view.len() implies !(#[trigger] kept_view[j]).active by {
                s.lemma_filter_pred(f, j);
            }
        }
        self.contacts = kept;
        self.selected = 0;
        self.leave_selection_mode_all();
        self.selection_mode = false;
        self.title = ListTitle::Contacts;
    }

    /// The search text changed: each contact shows when the lowercase query occurs in its
    /// lowercase name.
    pub fn search_changed(&mut self, query: &str)
        requires
            old(self).wf(),
        ensures
            final(self).wf(),
            final(self)@ == searched(old(self)@, query@),
            query@.len() == 0 ==> (final(self)@.contacts matches Some(shown) ==> forall|i: int|
                0 <= i < shown.len() ==> (#[trigger] shown[i]).visible),
    {
        let ghost s = items_view(self.contacts@);
        let lowered_query = to_lowercase(query);
        let n = self.contacts.len();
        let mut i: usize = 0;
        while i < n
            invariant
                n == self.contacts@.len(),
                0 <= i <= n,
                s.len() == n,
                s == items_view(old(self).contacts@),
                self.selected == old(self).selected,
                self.title == old(self).title,
                self.selection_mode == old(self).selection_mode,
                self.contacts_set == old(self).contacts_set,
                old(self).wf(),
                lowered_query@ == lowercase(query@),
                forall|j: int| 0 <= j < i ==> (#[trigger] self.contacts@[j])@ == (ContactItemView {
                    visible: matches_search(s[j].name, query@),
                    ..s[j]
                }),
                forall|j: int| i <= j < n ==> (#[trigger] self.contacts@[j])@ == s[j],
            decreases n - i,
        {
            let name = self.contacts[i].get_name();
            let lowered_name = to_lowercase(name.as_str());
            let shows = text_contains(lowered_name.as_str(), lowered_query.as_str());
            self.contacts[i].set_visible(shows);
            i = i + 1;
        }
        assert(items_view(self.contacts@) =~= s.map_values(
            |x: ContactItemView| ContactItemView { visible: matches_search(x.name, query@), ..x },
        ));
        proof {
            if query@.len() == 0 {
                assert(lowercase(query@) =~= Seq::<char>::empty());
                assert forall|name: Seq<char>| matches_search(name, query@) by {
                    assert(lowercase(name).subrange(0int, 0int + lowercase(query@).len()) =~= lowercase(query@));
                }
            }
        }
    }

    /// The add-contact dialog answered with `response` while its entry held `text`: with
    /// "add", a new contact with that name joins the end of the list.
    pub fn add_contact_dialog_response(&mut self, response: &str, text: &str)
        requires
            old(self).wf(),
            old(self)@.contacts is Some,
        ensures
            final(self).wf(),
            final(self)@ == dialog_answered(old(self)@, response@, text@),
    {
        if String::from_str(response) == String::from_str("add") {
            let ghost s = items_view(self.contacts@);
            let c = ContactItem::new(text);
            self.contacts.push(c);
            assert(items_view(self.contacts@) =~= s.push(fresh_contact(text@)));
        }
    }
}

} // verus!

verus! {

/// Marking or unmarking a contact keeps the count of marked contacts equal to the number
/// of marked contacts; so do selection mode, cancelling it, deleting the marked contacts,
/// searching, and adding a contact.
pub proof fn list_operations_keep_count(
    l: ContactListView,
    name: Seq<char>,
    query: Seq<char>,
    response: Seq<char>,
    text: Seq<char>,
)
    requires
        consistent(l),
    ensures
        toggle_allowed(l, name) ==> consistent(toggled(l, name)),
        consistent(selection_started(l)),
        consistent(selection_cancelled(l)),
        consistent(marked_deleted(l)),
        consistent(searched(l, query)),
        consistent(dialog_answered(l, response, text)),
{
    let s = l.contacts->0;
    if toggle_allowed(l, name) {
        if let Some(i) = first_named(s, name) {
            let k = choose|k: int| is_first_named(s, name, k);
            assert(is_first_named(s, name, k));
            lemma_count_update(s, i, ContactItemView { active: !s[i].active, ..s[i] });
        }
    }
    lemma_count_entering(s);
    lemma_count_leaving(s);
    let f = |c: ContactItemView| !c.active;
    let kept = s.filter(f);
    assert forall|j: int| 0 <= j < kept.len() implies !(#[trigger] kept[j]).active by {
        s.lemma_filter_pred(f, j);
    }
    lemma_count_no_active(kept);
    lemma_count_leaving(kept);
    lemma_count_search(s, query);
    lemma_count_push(s, fresh_contact(text));
}

/// When the count is consistent, a contact can always be unmarked, and marked as long as
/// fewer than 65535 contacts are marked.
pub proof fn consistent_toggle_allowed(l: ContactListView, name: Seq<char>)
    requires
        consistent(l),
        l.selected < MAX_SELECTED,
    ensures
        toggle_allowed(l, name),
{
    let s = l.contacts->0;
    if let Some(i) = first_named(s, name) {
        let k = choose|k: int| is_first_named(s, name, k);
        assert(is_first_named(s, name, k));
        if s[i].active {
            lemma_count_update(s, i, ContactItemView { active: false, ..s[i] });
        }
    }
}

/// Toggling the same contact twice gives back its mark and the count.
pub proof fn toggle_twice_restores(l: ContactListView, name: Seq<char>)
    requires
        toggle_allowed(l, name),
        toggle_allowed(toggled(l, name), name),
    ensures
        toggled(toggled(l, name), name).contacts == l.contacts,
        toggled(toggled(l, name), name).selected == l.selected,
{
    let s = l.contacts->0;
    if let Some(i) = first_named(s, name) {
        let k = choose|k: int| is_first_named(s, name, k);
        assert(is_first_named(s, name, k));
        let t = s.update(i, ContactItemView { active: !s[i].active, ..s[i] });
        assert(is_first_named(t, name, i));
        let k2 = choose|k: int| is_first_named(t, name, k);
        assert(is_first_named(t, name, k2));
        assert(k2 == i) by {
            if k2 < i {
                assert(t[k2].name == s[k2].name);
            }
            if k2 > i {
                assert(t[i].name == name);
            }
        }
        assert(t.update(i, ContactItemView { active: !t[i].active, ..t[i] }) =~= s);
    } else {
        assert(toggled(l, name).contacts == l.contacts);
    }
}

/// After deleting the marked contacts none is marked and the count is zero.
pub proof fn delete_leaves_nothing_marked(l: ContactListView)
    requires
        l.contacts is Some,
    ensures
        count_active(marked_deleted(l).contacts->0) == 0,
        marked_deleted(l).selected == 0,
{
    let s = l.contacts->0;
    let f = |c: ContactItemView| !c.active;
    let kept = s.filter(f);
    assert forall|j: int| 0 <= j < kept.len() implies !(#[trigger] kept[j]).active by {
        s.lemma_filter_pred(f, j);
    }
    lemma_count_no_active(kept);
    lemma_count_leaving(kept);
}

} // verus!

verus! {

/// Incrementing the count of marked contacts and then decrementing it gives back the list.
pub proof fn inc_then_dec_restores(l: ContactListView)
    ensures
        ({
            let up = ContactListView { selected: l.selected + 1, ..l };
            ContactListView { selected: up.selected - 1, ..up } == l
        }),
{
}

} // verus!

verus! {

/// After a sequence of increments and decrements, the count is the starting count plus
/// the increments less the decrements, and nothing else of the list changed; for a new
/// list it starts at zero.
pub proof fn count_is_increments_less_decrements(l: ContactListView, steps: Seq<bool>)
    ensures
        counted(l, steps) == (ContactListView { selected: l.selected + net_count(steps), ..l }),
    decreases steps.len(),
{
    if steps.len() > 0 {
        count_is_increments_less_decrements(l, steps.drop_last());
    }
}

} // verus!

verus! {

/// Searching ignores case on both sides: a contact shows exactly when its lowercased name
/// contains the lowercased query; so a query that lowercases like a contact's name finds
/// it, in particular its own name, and contacts whose names lowercase alike show or hide
/// together. Searching changes nothing but whether contacts show.
pub proof fn search_ignores_case(l: ContactListView, q: Seq<char>)
    requires
        l.contacts is Some,
    ensures
        ({
            let before = l.contacts->0;
            let after = searched(l, q).contacts->0;
            &&& after.len() == before.len()
            &&& forall|i: int| 0 <= i < before.len() ==> after[i].visible == occurs_in(
                lowercase(q),
                lowercase(before[i].name),
            )
            &&& forall|i: int| 0 <= i < before.len() && lowercase(before[i].name) == lowercase(q)
                ==> after[i].visible
            &&& forall|i: int| 0 <= i < before.len() && before[i].name == q ==> after[i].visible
            &&& forall|i: int, j: int|
                0 <= i < before.len() && 0 <= j < before.len() && lowercase(before[i].name)
                    == lowercase(before[j].name) ==> after[i].visible == after[j].visible
            &&& forall|i: int| 0 <= i < before.len() ==> (ContactItemView { visible: before[i].visible, ..after[i] }) == before[i]
            &&& searched(l, q).selected == l.selected
            &&& searched(l, q).title == l.title
            &&& searched(l, q).selection_mode == l.selection_mode
        }),
{
    let before = l.contacts->0;
    assert forall|i: int| 0 <= i < before.len() && lowercase(before[i].name) == lowercase(q)
        implies searched(l, q).contacts->0[i].visible by {
        let h = lowercase(before[i].name);
        assert(h.subrange(0int, 0int + lowercase(q).len()) =~= lowercase(q));
    }
}

/// Toggling a contact's selection box flips the mark of the first contact with that name,
/// counts one less when it was marked and one more when it was not, and the title then
/// shows the new count; when no contact has the name only the title changes, to the count.
pub proof fn toggle_title_shows_new_count(l: ContactListView, name: Seq<char>)
    requires
        l.contacts is Some,
    ensures
        ({
            let t = toggled(l, name);
            let before = l.contacts->0;
            &&& t.title == ListTitle::Selected(t.selected as i32)
            &&& t.selection_mode == l.selection_mode
            &&& t.contacts is Some
            &&& t.contacts->0.len() == before.len()
            &&& match first_named(before, name) {
                Some(i) => {
                    &&& 0 <= i < before.len()
                    &&& before[i].name == name
                    &&& t.contacts->0[i].active == !before[i].active
                    &&& t.selected == (if before[i].active { l.selected - 1 } else { l.selected + 1 })
                    &&& forall|j: int| 0 <= j < before.len() && j != i ==> t.contacts->0[j] == before[j]
                },
                None => {
                    &&& t.selected == l.selected
                    &&& t.contacts == l.contacts
                },
            }
        }),
{
    let before = l.contacts->0;
    if let Some(i) = first_named(before, name) {
        let k = choose|k: int| is_first_named(before, name, k);
        assert(is_first_named(before, name, k));
    }
}

} // verus!
