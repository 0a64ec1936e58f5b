//! MacWinShare Server
//!
//! The server is the machine with the primary keyboard and mouse. This
//! module holds the server's decisions: the handshake check, what each
//! client message asks for, and the registry of connected clients with the
//! one that receives input. Sockets, TLS and the per-client writer tasks
//! belong to the application, which keeps one handle per client here.

use vstd::prelude::*;
use vstd::utf8::*;
use vstd::string::*;
use crate::protocol::{ClipboardFormat, Message, SpecMessage};
use crate::error::Error;
use crate::clipboard::text_of_clipboard_data;
use crate::text::str_eq;

verus! {

pub open spec fn expected_hello_message() -> Seq<char> {
    "Expected Hello message"@
}

/// A client's first message must be a `Hello`; gives the client's name and
/// protocol version.
pub fn expect_hello(message: Message) -> (r: Result<(String, u16, u16), Error>)
    ensures
        match message@ {
            SpecMessage::Hello { major, minor, name } => r matches Ok((n, a, b)) && n@ == name && a
                == major && b == minor,
            _ => r matches Err(Error::Protocol(t)) && t@ == expected_hello_message(),
        },
{
    match message {
        Message::Hello { name, major, minor } => Ok((name, major, minor)),
        _ => Err(Error::Protocol("Expected Hello message".to_owned())),
    }
}

/// What the application does for one message from a client.
#[derive(Debug)]
pub enum ServerAction {
    /// Nothing beyond logging.
    Ignore,
    /// The client described its screen.
    ClientScreen { width: i16, height: i16 },
    /// Text to place on the local clipboard.
    SetClipboardText(String),
}

/// Handles a message from a client: a screen description is noted, text
/// clipboard data is placed on the clipboard, anything else is only logged.
pub fn handle_client_message(message: Message) -> (r: ServerAction)
    ensures
        match message@ {
            SpecMessage::ScreenInfo { width, height, .. } => r == (ServerAction::ClientScreen {
                width,
                height,
            }),
            SpecMessage::ClipboardData { format, data, .. } => if format == ClipboardFormat::Text
                && valid_utf8(data) {
                r matches ServerAction::SetClipboardText(t) && t@ == decode_utf8(data)
            } else {
                r is Ignore
            },
            _ => r is Ignore,
        },
{
    match message {
        Message::ScreenInfo { width, height, .. } => ServerAction::ClientScreen { width, height },
        Message::ClipboardData { data, format, .. } => {
            match text_of_clipboard_data(format, data.as_slice()) {
                Some(text) => ServerAction::SetClipboardText(text),
                None => ServerAction::Ignore,
            }
        },
        _ => ServerAction::Ignore,
    }
}

/// The `Enter` message sent to the client that becomes active.
pub fn enter_message() -> (m: Message)
    ensures
        m@ == (SpecMessage::Enter { x: 100, y: 100, sequence_number: 0, modifier_mask: 0 }),
{
    Message::Enter { x: 100, y: 100, sequence_number: 0, modifier_mask: 0 }
}

/// The clients, by name, as a map.
pub open spec fn entries_map<T>(s: Seq<(String, T)>) -> Map<Seq<char>, T>
    decreases s.len(),
{
    if s.len() == 0 {
        Map::empty()
    } else {
        entries_map(s.drop_last()).insert(s.last().0@, s.last().1)
    }
}

/// No two entries have the same name.
pub open spec fn unique_names<T>(s: Seq<(String, T)>) -> bool {
    forall|i: int, j: int| 0 <= i < j < s.len() ==> #[trigger] s[i].0@ != #[trigger] s[j].0@
}

/// With unique names, the map holds exactly the entries' names, each with its
/// own handle.
pub proof fn lemma_entries_map<T>(s: Seq<(String, T)>)
    requires
        unique_names(s),
    ensures
        forall|k: Seq<char>| #[trigger]
            entries_map(s).contains_key(k) <==> exists|i: int| 0 <= i < s.len() && s[i].0@ == k,
        forall|i: int| 0 <= i < s.len() ==> #[trigger] entries_map(s)[s[i].0@] == s[i].1,
    decreases s.len(),
{
    if s.len() > 0 {
        let t = s.drop_last();
        let last = s.last();
        assert(unique_names(t));
        lemma_entries_map(t);
        assert(entries_map(s) == entries_map(t).insert(last.0@, last.1));
        assert forall|k: Seq<char>| #[trigger]
            entries_map(s).contains_key(k) <==> exists|i: int| 0 <= i < s.len() && s[i].0@ == k by {
            if entries_map(s).contains_key(k) {
                if k == last.0@ {
                    assert(s[s.len() - 1].0@ == k);
                } else {
                    assert(entries_map(t).contains_key(k));
                    let i = choose|i: int| 0 <= i < t.len() && t[i].0@ == k;
                    assert(s[i] == t[i]);
                }
            }
            if exists|i: int| 0 <= i < s.len() && s[i].0@ == k {
                let i = choose|i: int| 0 <= i < s.len() && s[i].0@ == k;
                if i < t.len() {
                    assert(t[i] == s[i]);
                    assert(entries_map(t).contains_key(k));
                }
            }
        }
        assert forall|i: int| 0 <= i < s.len() implies #[trigger] entries_map(s)[s[i].0@] == s[i].1 by {
            if i < t.len() {
                assert(t[i] == s[i]);
                assert(s[i].0@ != last.0@);
                assert(entries_map(t)[t[i].0@] == t[i].1);
            }
        }
    }
}

/// A registered client is found under its name with the handle it was
/// registered with; once unregistered it is not found; registering a new name
/// and unregistering it again leaves the clients as they were; the other
/// clients are untouched by either.
pub proof fn lemma_register_then_get<T>(clients: Map<Seq<char>, T>, name: Seq<char>, handle: T, other: Seq<char>)
    requires
        other != name,
    ensures
        clients.insert(name, handle).contains_key(name),
        clients.insert(name, handle)[name] == handle,
        !clients.remove(name).contains_key(name),
        !clients.contains_key(name) ==> clients.insert(name, handle).remove(name) == clients,
        clients.insert(name, handle).contains_key(other) == clients.contains_key(other),
        clients.remove(name).contains_key(other) == clients.contains_key(other),
        clients.contains_key(other) ==> clients.insert(name, handle)[other] == clients[other]
            && clients.remove(name)[other] == clients[other],
{
}

/// The registry of connected clients, each with the application's handle for
/// it, and the name of the client that receives input.
pub struct ClientRegistry<T> {
    clients: Vec<(String, T)>,
    active: Option<String>,
}

impl<T> ClientRegistry<T> {
    #[verifier::type_invariant]
    spec fn names_unique(self) -> bool {
        unique_names(self.clients@)
    }

    /// The clients by name.
    pub closed spec fn clients_view(self) -> Map<Seq<char>, T> {
        entries_map(self.clients@)
    }

    /// The name of the active client, if one was chosen.
    pub closed spec fn active_view(self) -> Option<Seq<char>> {
        match self.active {
            Some(n) => Some(n@),
            None => None,
        }
    }

    pub fn new() -> (r: Self)
        ensures
            r.clients_view() == Map::<Seq<char>, T>::empty(),
            r.active_view() is None,
    {
        ClientRegistry { clients: Vec::new(), active: None }
    }

    fn index_of(&self, name: &str) -> (r: Option<usize>)
        ensures
            match r {
                Some(i) => i < self.clients@.len() && self.clients@[i as int].0@ == name@,
                None => forall|i: int| 0 <= i < self.clients@.len() ==> #[trigger] self.clients@[i].0@ != name@,
            },
    {
        let mut i: usize = 0;
        while i < self.clients.len()
            invariant
                i <= self.clients@.len(),
                forall|j: int| 0 <= j < i ==> #[trigger] self.clients@[j].0@ != name@,
            decreases self.clients@.len() - i,
        {
            if str_eq(self.clients[i].0.as_str(), name) {
                return Some(i);
            }
            i = i + 1;
        }
        None
    }

    /// Whether a client with this name is connected.
    pub fn contains(&self, name: &str) -> (r: bool)
        ensures
            r == self.clients_view().contains_key(name@),
    {
        proof {
            use_type_invariant(self);
            lemma_entries_map(self.clients@);
        }
        self.index_of(name).is_some()
    }

    /// The handle of the client with this name.
    pub fn get(&self, name: &str) -> (r: Option<&T>)
        ensures
            match r {
                Some(h) => self.clients_view().contains_key(name@) && *h == self.clients_view()[name@],
                None => !self.clients_view().contains_key(name@),
            },
    {
        proof {
            use_type_invariant(self);
            lemma_entries_map(self.clients@);
        }
        match self.index_of(name) {
            Some(i) => Some(&self.clients[i].1),
            None => None,
        }
    }

    /// Registers a client; one that was registered under the same name is
    /// replaced.
    pub fn register(&mut self, name: String, handle: T)
        ensures
            final(self).clients_view() == old(self).clients_view().insert(name@, handle),
            final(self).active_view() == old(self).active_view(),
    {
        proof {
            use_type_invariant(&*self);
        }
        let ghost old_entries = self.clients@;
        let ghost key = name@;
        match self.index_of(name.as_str()) {
            Some(i) => {
                let mut entries = Vec::new();
                std::mem::swap(&mut entries, &mut self.clients);
                let _ = entries.remove(i);
                entries.push((name, handle));
                proof {
                    let s = entries@;
                    assert forall|a: int, b: int| 0 <= a < b < s.len() implies #[trigger] s[a].0@
                        != #[trigger] s[b].0@ by {
                        if b == s.len() - 1 {
                            if a < i {
                                assert(s[a] == old_entries[a]);
                            } else {
                                assert(s[a] == old_entries[a + 1]);
                            }
                        } else {
                            let oa = if a < i { a } else { a + 1 };
                            let ob = if b < i { b } else { b + 1 };
                            assert(s[a] == old_entries[oa]);
                            assert(s[b] == old_entries[ob]);
                        }
                    }
                    lemma_entries_map(s);
                    lemma_entries_map(old_entries);
                    assert forall|k: Seq<char>| #[trigger] entries_map(s).contains_key(k)
                        <==> (k == key || entries_map(old_entries).contains_key(k)) by {
                        if exists|j: int| 0 <= j < old_entries.len() && old_entries[j].0@ == k {
                            let j = choose|j: int| 0 <= j < old_entries.len() && old_entries[j].0@ == k;
                            if j < i {
                                assert(s[j] == old_entries[j]);
                            } else if j > i {
                                assert(s[j - 1] == old_entries[j]);
                            }
                        }
                        if exists|j: int| 0 <= j < s.len() && s[j].0@ == k {
                            let j = choose|j: int| 0 <= j < s.len() && s[j].0@ == k;
                            if j < s.len() - 1 {
                                if j < i {
                                    assert(s[j] == old_entries[j]);
                                } else {
                                    assert(s[j] == old_entries[j + 1]);
                                }
                            }
                        }
                    }
                    assert forall|k: Seq<char>| #[trigger] entries_map(s).contains_key(k) implies entries_map(s)[k]
                        == entries_map(old_entries).insert(key, handle)[k] by {
                        let j = choose|j: int| 0 <= j < s.len() && s[j].0@ == k;
                        if j < s.len() - 1 {
                            let oj = if j < i { j } else { j + 1 };
                            assert(s[j] == old_entries[oj]);
                        }
                    }
                    assert(entries_map(s) =~= entries_map(old_entries).insert(key, handle));
                }
                self.clients = entries;
            },
            None => {
                let mut entries = Vec::new();
                std::mem::swap(&mut entries, &mut self.clients);
                entries.push((name, handle));
                proof {
                    let s = entries@;
                    assert forall|a: int, b: int| 0 <= a < b < s.len() implies #[trigger] s[a].0@
                        != #[trigger] s[b].0@ by {
                        if b < s.len() - 1 {
                            assert(s[a] == old_entries[a]);
                            assert(s[b] == old_entries[b]);
                        } else {
                            assert(s[a] == old_entries[a]);
                        }
                    }
                    assert(s.drop_last() =~= old_entries);
                }
                self.clients = entries;
            },
        }
    }

    /// Removes the client with this name, if there is one. The active client
    /// is left as it was.
    pub fn unregister(&mut self, name: &str)
        ensures
            final(self).clients_view() == old(self).clients_view().remove(name@),
            final(self).active_view() == old(self).active_view(),
    {
        proof {
            use_type_invariant(&*self);
            lemma_entries_map(self.clients@);
        }
        let ghost old_entries = self.clients@;
        match self.index_of(name) {
            Some(i) => {
                let mut entries = Vec::new();
                std::mem::swap(&mut entries, &mut self.clients);
                let _ = entries.remove(i);
                proof {
                    let s = entries@;
                    assert forall|a: int, b: int| 0 <= a < b < s.len() implies #[trigger] s[a].0@
                        != #[trigger] s[b].0@ by {
                        let oa = if a < i { a } else { a + 1 };
                        let ob = if b < i { b } else { b + 1 };
                        assert(s[a] == old_entries[oa]);
                        assert(s[b] == old_entries[ob]);
                    }
                    lemma_entries_map(s);
                    assert forall|k: Seq<char>| #[trigger] entries_map(s).contains_key(k)
                        <==> entries_map(old_entries).remove(name@).contains_key(k) by {
                        if exists|j: int| 0 <= j < old_entries.len() && old_entries[j].0@ == k {
                            let j = choose|j: int| 0 <= j < old_entries.len() && old_entries[j].0@ == k;
                            if j < i {
                                assert(s[j] == old_entries[j]);
                            } else if j > i {
                                assert(s[j - 1] == old_entries[j]);
                            }
                        }
                        if exists|j: int| 0 <= j < s.len() && s[j].0@ == k {
                            let j = choose|j: int| 0 <= j < s.len() && s[j].0@ == k;
                            let oj = if j < i { j } else { j + 1 };
                            assert(s[j] == old_entries[oj]);
                        }
                    }
                    assert forall|k: Seq<char>| #[trigger] entries_map(s).contains_key(k) implies entries_map(s)[k]
                        == entries_map(old_entries)[k] by {
                        let j = choose|j: int| 0 <= j < s.len() && s[j].0@ == k;
                        let oj = if j < i { j } else { j + 1 };
                        assert(s[j] == old_entries[oj]);
                    }
                    assert(entries_map(s) =~= entries_map(old_entries).remove(name@));
                }
                self.clients = entries;
            },
            None => {
                assert(entries_map(old_entries) =~= entries_map(old_entries).remove(name@));
            },
        }
    }

    /// The handle of the active client, when one is chosen and connected.
    pub fn active_client(&self) -> (r: Option<&T>)
        ensures
            match self.active_view() {
                Some(n) => if self.clients_view().contains_key(n) {
                    r matches Some(h) && *h == self.clients_view()[n]
                } else {
                    r is None
                },
                None => r is None,
            },
    {
        match &self.active {
            Some(name) => self.get(name.as_str()),
            None => None,
        }
    }

    /// Makes the named client the active one. Gives the client that is to
    /// be sent `Leave` (the previous active client, when it is still
    /// connected) and the one to be sent `Enter`.
    pub fn switch_to(&mut self, client_name: &str) -> (r: Result<SwitchPlan, Error>)
        ensures
            final(self).clients_view() == old(self).clients_view(),
            old(self).clients_view().contains_key(client_name@) ==> {
                &&& final(self).active_view() == Some(client_name@)
                &&& r matches Ok(plan)
                &&& plan.enter@ == client_name@
                &&& match old(self).active_view() {
                    Some(n) => if old(self).clients_view().contains_key(n) {
                        plan.leave matches Some(l) && l@ == n
                    } else {
                        plan.leave is None
                    },
                    None => plan.leave is None,
                }
            },
            !old(self).clients_view().contains_key(client_name@) ==> {
                &&& final(self).active_view() == old(self).active_view()
                &&& r matches Err(Error::Connection(t)) && t@ == "Client "@ + client_name@
                    + " not found"@
            },
    {
        proof {
            use_type_invariant(&*self);
        }
        if self.contains(client_name) {
            let leave = match &self.active {
                Some(current) => {
                    if self.contains(current.as_str()) {
                        Some(current.clone())
                    } else {
                        None
                    }
                },
                None => None,
            };
            self.active = Some(client_name.to_owned());
            Ok(SwitchPlan { leave, enter: client_name.to_owned() })
        } else {
            let mut text = "Client ".to_owned();
            text.append(client_name);
            text.append(" not found");
            Err(Error::Connection(text))
        }
    }

    /// The registered clients with their handles.
    pub fn clients(&self) -> (r: &[(String, T)])
        ensures
            entries_map(r@) == self.clients_view(),
    {
        self.clients.as_slice()
    }
}

/// The clients that a switch addresses.
#[derive(Debug)]
pub struct SwitchPlan {
    /// The previous active client, to be sent `Leave`.
    pub leave: Option<String>,
    /// The new active client, to be sent `Enter`.
    pub enter: String,
}

} // verus!
