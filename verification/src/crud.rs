//! The list editor: names written `Surname, Name`, shown when they begin
//! with a filter prefix (upper or lower case alike), created, replaced and
//! deleted.
use vstd::prelude::*;
use vstd::string::*;
use crate::text::{lowercase, starts_with, to_lowercase};

verus! {

/// How a person is written in the list: surname, a comma and a space, name.
pub open spec fn formatted_name(name: Seq<char>, surname: Seq<char>) -> Seq<char> {
    surname + ", "@ + name
}

/// An entry is shown under a filter when, both in lower case, the entry
/// begins with the filter.
pub open spec fn shown_under(entry: Seq<char>, prefix: Seq<char>) -> bool {
    lowercase(prefix).is_prefix_of(lowercase(entry))
}

/// `i` is where `x` first occurs in `s`.
pub open spec fn is_first_index(s: Seq<Seq<char>>, x: Seq<char>, i: int) -> bool {
    &&& 0 <= i < s.len()
    &&& s[i] == x
    &&& forall|j: int| 0 <= j < i ==> s[j] != x
}

/// The entries of `s` shown under `prefix`, in order.
pub open spec fn shown_entries(s: Seq<Seq<char>>, prefix: Seq<char>) -> Seq<Seq<char>> {
    s.filter(|e: Seq<char>| shown_under(e, prefix))
}

/// The text of `surname, name`.
pub fn format_name(name: &str, surname: &str) -> (r: String)
    ensures
        r@ == formatted_name(name@, surname@),
{
    let mut r = String::new();
    r.append(surname);
    r.append(", ");
    r.append(name);
    r
}

/// The entries of the list editor, in the order they were made.
pub struct Crud {
    names: Vec<String>,
}

impl View for Crud {
    type V = Seq<Seq<char>>;

    closed spec fn view(&self) -> Seq<Seq<char>> {
        self.names@.map_values(|s: String| s@)
    }
}

impl Crud {
    /// A list holding `names`, in that order.
    pub fn new(names: Vec<String>) -> (c: Self)
        ensures
            c@ == names@.map_values(|s: String| s@),
    {
        Crud { names }
    }

    /// The number of entries.
    pub fn len(&self) -> (n: usize)
        ensures
            n == self@.len(),
    {
        self.names.len()
    }

    /// Where `entry` first occurs, if it occurs.
    pub fn position(&self, entry: &str) -> (i: Option<usize>)
        ensures
            match i {
                Some(i) => is_first_index(self@, entry@, i as int),
                None => !self@.contains(entry@),
            },
    {
        let mut i: usize = 0;
        while i < self.names.len()
            invariant
                i <= self.names@.len(),
                self@.len() == self.names@.len(),
                forall|j: int| 0 <= j < i ==> self@[j] != entry@,
            decreases self.names@.len() - i,
        {
            if str_equal(self.names[i].as_str(), entry) {
                return Some(i);
            }
            i = i + 1;
        }
        None
    }

    /// Adds `surname, name` at the end.
    pub fn create(&mut self, name: &str, surname: &str)
        ensures
            final(self)@ == old(self)@.push(formatted_name(name@, surname@)),
    {
        let entry = format_name(name, surname);
        self.names.push(entry);
        assert(self@ =~= old(self)@.push(formatted_name(name@, surname@)));
    }

    /// Replaces the first occurrence of `selected` by `surname, name`.
    pub fn update(&mut self, selected: &str, name: &str, surname: &str)
        requires
            old(self)@.contains(selected@),
        ensures
            exists|i: int| is_first_index(old(self)@, selected@, i)
                && final(self)@ == old(self)@.update(i, formatted_name(name@, surname@)),
    {
        let i = match self.position(selected) {
            Some(i) => i,
            None => 0,
        };
        let entry = format_name(name, surname);
        self.names.set(i, entry);
        assert(self@ =~= old(self)@.update(i as int, formatted_name(name@, surname@)));
    }

    /// Removes the first occurrence of `selected`.
    pub fn delete(&mut self, selected: &str)
        requires
            old(self)@.contains(selected@),
        ensures
            exists|i: int| is_first_index(old(self)@, selected@, i) && final(self)@ == old(self)@.remove(i),
    {
        let i = match self.position(selected) {
            Some(i) => i,
            None => 0,
        };
        self.names.remove(i);
        assert(self@ =~= old(self)@.remove(i as int));
    }

    /// The entries shown under the filter `prefix`, in order.
    pub fn shown(&self, prefix: &str) -> (r: Vec<String>)
        ensures
            r@.map_values(|s: String| s@) == shown_entries(self@, prefix@),
    {
        let low_prefix = to_lowercase(prefix);
        let mut r: Vec<String> = Vec::new();
        let mut i: usize = 0;
        while i < self.names.len()
            invariant
                i <= self.names@.len(),
                self@.len() == self.names@.len(),
                low_prefix@ == lowercase(prefix@),
                r@.map_values(|s: String| s@) == shown_entries(self@.take(i as int), prefix@),
            decreases self.names@.len() - i,
        {
            proof {
                reveal_with_fuel(Seq::<_>::filter, 1);
                assert(self@.take(i + 1).drop_last() =~= self@.take(i as int));
            }
            let low = to_lowercase(self.names[i].as_str());
            let ghost before = r@;
            if starts_with(low.as_str(), low_prefix.as_str()) {
                r.push(self.names[i].clone());
                assert(r@.map_values(|s: String| s@) =~= before.map_values(|s: String| s@).push(self@[i as int]));
            }
            i = i + 1;
        }
        assert(self@.take(self.names@.len() as int) =~= self@);
        r
    }
}

/// Whether two texts are the same.
fn str_equal(a: &str, b: &str) -> (r: bool)
    ensures
        r == (a@ == b@),
{
    let n = a.unicode_len();
    if n != b.unicode_len() {
        return false;
    }
    let mut i: usize = 0;
    while i < n
        invariant
            i <= n,
            n == a@.len(),
            n == b@.len(),
            forall|j: int| 0 <= j < i ==> a@[j] == b@[j],
        decreases n - i,
    {
        if a.get_char(i) != b.get_char(i) {
            return false;
        }
        i = i + 1;
    }
    assert(a@ =~= b@);
    true
}

/// Each entry shown under a filter is an entry of the list, and the shown
/// entries come in the list's order: the shown list never holds more than
/// the list, and every entry of the list that the filter admits is shown.
pub proof fn lemma_shown_entries(s: Seq<Seq<char>>, prefix: Seq<char>)
    ensures
        shown_entries(s, prefix).len() <= s.len(),
        forall|i: int| 0 <= i < shown_entries(s, prefix).len() ==>
            s.contains(#[trigger] shown_entries(s, prefix)[i]) && shown_under(shown_entries(s, prefix)[i], prefix),
        forall|e: Seq<char>| s.contains(e) && shown_under(e, prefix) ==> #[trigger] shown_entries(s, prefix).contains(e),
{
    let pred = |e: Seq<char>| shown_under(e, prefix);
    s.lemma_filter_len(pred);
    assert forall|i: int| 0 <= i < shown_entries(s, prefix).len() implies
        s.contains(#[trigger] shown_entries(s, prefix)[i]) && shown_under(shown_entries(s, prefix)[i], prefix) by {
        s.lemma_filter_pred(pred, i);
        s.lemma_filter_contains_rev(pred, shown_entries(s, prefix)[i]);
    }
    assert forall|e: Seq<char>| s.contains(e) && shown_under(e, prefix) implies #[trigger] shown_entries(s, prefix).contains(e) by {
        let i = choose|i: int| 0 <= i < s.len() && s[i] == e;
        s.lemma_filter_contains(pred, i);
    }
}

/// The messages of the list editor's window.
#[derive(Clone, Copy, Debug, PartialEq, Eq)]
pub enum CrudMessage {
    /// The create button was pressed.
    Create,
    /// The update button was pressed.
    Update,
    /// The delete button was pressed.
    Delete,
    /// The selection of the list changed.
    Select,
    /// The filter changed, or the entries did.
    Filter,
}

/// What the window holds when a message is handled.
#[derive(Debug)]
pub struct CrudInputs {
    /// The text of the name field.
    pub name: String,
    /// The text of the surname field.
    pub surname: String,
    /// The text of the filter field.
    pub prefix: String,
    /// The selected line of the list, counted from 1; 0 when none is.
    pub selected_line: i32,
    /// The text of the selected line, if one is selected.
    pub selected_text: Option<String>,
}

/// What the window does after a message.
#[derive(Debug)]
pub struct CrudReply {
    /// Show these lines in the list, replacing the ones shown.
    pub lines: Option<Vec<String>>,
    /// Enable (or disable) the update and delete buttons.
    pub edit_enabled: Option<bool>,
    /// Send these messages, in order.
    pub follow_up: Vec<CrudMessage>,
}

/// A message can be handled: update and delete need a selected line whose
/// text is an entry.
pub open spec fn crud_message_allowed(entries: Seq<Seq<char>>, msg: CrudMessage, inputs: CrudInputs) -> bool {
    (msg == CrudMessage::Update || msg == CrudMessage::Delete) ==> (inputs.selected_text matches Some(t) && entries.contains(t@))
}

/// The messages sent after a message: a change of the entries refilters,
/// a deletion also reselects, and filtering reselects.
pub open spec fn crud_follow_up(msg: CrudMessage) -> Seq<CrudMessage> {
    match msg {
        CrudMessage::Create => seq![CrudMessage::Filter],
        CrudMessage::Update => seq![CrudMessage::Filter],
        CrudMessage::Delete => seq![CrudMessage::Filter, CrudMessage::Select],
        CrudMessage::Select => Seq::empty(),
        CrudMessage::Filter => seq![CrudMessage::Select],
    }
}

/// Handles one message of the list editor's window.
pub fn handle_crud(crud: &mut Crud, msg: CrudMessage, inputs: &CrudInputs) -> (reply: CrudReply)
    requires
        crud_message_allowed(old(crud)@, msg, *inputs),
    ensures
        reply.follow_up@ == crud_follow_up(msg),
        msg == CrudMessage::Select ==> reply.follow_up@.len() == 0,
        msg == CrudMessage::Filter ==> reply.follow_up@ == seq![CrudMessage::Select],
        (msg == CrudMessage::Create || msg == CrudMessage::Update) ==> reply.follow_up@ == seq![CrudMessage::Filter],
        msg == CrudMessage::Delete ==> reply.follow_up@ == seq![CrudMessage::Filter, CrudMessage::Select],
        match msg {
            CrudMessage::Create => final(crud)@ == old(crud)@.push(formatted_name(inputs.name@, inputs.surname@)),
            CrudMessage::Update => exists|i: int| is_first_index(old(crud)@, inputs.selected_text->0@, i)
                && final(crud)@ == old(crud)@.update(i, formatted_name(inputs.name@, inputs.surname@)),
            CrudMessage::Delete => exists|i: int| is_first_index(old(crud)@, inputs.selected_text->0@, i)
                && final(crud)@ == old(crud)@.remove(i),
            _ => final(crud)@ == old(crud)@,
        },
        msg == CrudMessage::Select <==> reply.edit_enabled is Some,
        msg == CrudMessage::Select ==> reply.edit_enabled == Some(inputs.selected_line != 0),
        msg == CrudMessage::Filter <==> reply.lines is Some,
        reply.lines matches Some(lines) ==> lines@.map_values(|s: String| s@) == shown_entries(old(crud)@, inputs.prefix@),
{
    let mut follow_up: Vec<CrudMessage> = Vec::new();
    match msg {
        CrudMessage::Create => {
            crud.create(inputs.name.as_str(), inputs.surname.as_str());
            follow_up.push(CrudMessage::Filter);
            CrudReply { lines: None, edit_enabled: None, follow_up }
        },
        CrudMessage::Update => {
            match &inputs.selected_text {
                Some(t) => crud.update(t.as_str(), inputs.name.as_str(), inputs.surname.as_str()),
                None => {},
            }
            follow_up.push(CrudMessage::Filter);
            CrudReply { lines: None, edit_enabled: None, follow_up }
        },
        CrudMessage::Delete => {
            match &inputs.selected_text {
                Some(t) => crud.delete(t.as_str()),
                None => {},
            }
            follow_up.push(CrudMessage::Filter);
            follow_up.push(CrudMessage::Select);
            CrudReply { lines: None, edit_enabled: None, follow_up }
        },
        CrudMessage::Select => {
            CrudReply { lines: None, edit_enabled: Some(inputs.selected_line != 0), follow_up }
        },
        CrudMessage::Filter => {
            let lines = crud.shown(inputs.prefix.as_str());
            follow_up.push(CrudMessage::Select);
            CrudReply { lines: Some(lines), edit_enabled: None, follow_up }
        },
    }
}

/// Selecting sends nothing further, and every chain of messages sent in
/// reply ends: a message sent in reply to a message sent in reply to any
/// message sends nothing. No message, in particular, sends itself again.
pub proof fn lemma_follow_up_ends(msg: CrudMessage)
    ensures
        crud_follow_up(CrudMessage::Select).len() == 0,
        !crud_follow_up(msg).contains(msg),
        forall|i: int, j: int| 0 <= i < crud_follow_up(msg).len()
            && 0 <= j < crud_follow_up(#[trigger] crud_follow_up(msg)[i]).len()
            ==> crud_follow_up(#[trigger] crud_follow_up(crud_follow_up(msg)[i])[j]).len() == 0,
{
    assert(!crud_follow_up(msg).contains(msg)) by {
        if crud_follow_up(msg).contains(msg) {
            let k = choose|k: int| 0 <= k < crud_follow_up(msg).len() && crud_follow_up(msg)[k] == msg;
        }
    }
}

} // verus!
