//! The chat history a front end gathers from the peer's events: messages
//! and notifications, grouped by room and ordered by timestamp.

use vstd::prelude::*;

verus! {

/// A chat message shown in a room: either sent by this peer (`peer_id`
/// is `None`) or received from a remote one.
#[derive(Debug, PartialEq, Eq)]
pub struct PeerMessage {
    pub message_id: String,
    pub peer_id: Option<String>,
    pub message: String,
    pub timestamp: u64,
}

/// A remote peer joined or left a room.
#[derive(Debug, PartialEq, Eq)]
pub struct PeerJoinedNotification {
    pub peer_id: String,
    pub topic: String,
    pub timestamp: u64,
    pub leave: bool,
}

/// A notification shown in a room.
#[derive(Debug, PartialEq, Eq)]
pub enum NotificationMessage {
    PeerJoined(PeerJoinedNotification),
}

/// One entry of a room's history.
#[derive(Debug, PartialEq, Eq)]
pub enum ChatMessage {
    PeerMessage(PeerMessage),
    NotificationMessage(NotificationMessage),
}

/// The mathematical value of a [`PeerMessage`].
pub struct PeerMessageView {
    pub message_id: Seq<char>,
    pub peer_id: Option<Seq<char>>,
    pub message: Seq<char>,
    pub timestamp: u64,
}

/// The mathematical value of a [`PeerJoinedNotification`].
pub struct PeerJoinedNotificationView {
    pub peer_id: Seq<char>,
    pub topic: Seq<char>,
    pub timestamp: u64,
    pub leave: bool,
}

/// The mathematical value of a [`NotificationMessage`].
pub enum NotificationMessageView {
    PeerJoined(PeerJoinedNotificationView),
}

/// The mathematical value of a [`ChatMessage`].
pub enum ChatMessageView {
    PeerMessage(PeerMessageView),
    NotificationMessage(NotificationMessageView),
}

impl View for PeerMessage {
    type V = PeerMessageView;

    open spec fn view(&self) -> PeerMessageView {
        PeerMessageView {
            message_id: self.message_id@,
            peer_id: match self.peer_id {
                Some(p) => Some(p@),
                None => None,
            },
            message: self.message@,
            timestamp: self.timestamp,
        }
    }
}

impl View for PeerJoinedNotification {
    type V = PeerJoinedNotificationView;

    open spec fn view(&self) -> PeerJoinedNotificationView {
        PeerJoinedNotificationView {
            peer_id: self.peer_id@,
            topic: self.topic@,
            timestamp: self.timestamp,
            leave: self.leave,
        }
    }
}

impl View for NotificationMessage {
    type V = NotificationMessageView;

    open spec fn view(&self) -> NotificationMessageView {
        match self {
            NotificationMessage::PeerJoined(n) => NotificationMessageView::PeerJoined(n@),
        }
    }
}

impl View for ChatMessage {
    type V = ChatMessageView;

    open spec fn view(&self) -> ChatMessageView {
        match self {
            ChatMessage::PeerMessage(m) => ChatMessageView::PeerMessage(m@),
            ChatMessage::NotificationMessage(n) => ChatMessageView::NotificationMessage(n@),
        }
    }
}

impl Clone for PeerMessage {
    fn clone(&self) -> (r: Self)
        ensures
            r@ == self@,
    {
        PeerMessage {
            message_id: self.message_id.clone(),
            peer_id: match &self.peer_id {
                Some(p) => Some(p.clone()),
                None => None,
            },
            message: self.message.clone(),
            timestamp: self.timestamp,
        }
    }
}

impl Clone for PeerJoinedNotification {
    fn clone(&self) -> (r: Self)
        ensures
            r@ == self@,
    {
        PeerJoinedNotification {
            peer_id: self.peer_id.clone(),
            topic: self.topic.clone(),
            timestamp: self.timestamp,
            leave: self.leave,
        }
    }
}

impl Clone for NotificationMessage {
    fn clone(&self) -> (r: Self)
        ensures
            r@ == self@,
    {
        match self {
            NotificationMessage::PeerJoined(n) => NotificationMessage::PeerJoined(n.clone()),
        }
    }
}

impl Clone for ChatMessage {
    fn clone(&self) -> (r: Self)
        ensures
            r@ == self@,
    {
        match self {
            ChatMessage::PeerMessage(m) => ChatMessage::PeerMessage(m.clone()),
            ChatMessage::NotificationMessage(n) => ChatMessage::NotificationMessage(n.clone()),
        }
    }
}

impl ChatMessage {
    /// The timestamp an entry is ordered by.
    pub open spec fn spec_timestamp(&self) -> u64 {
        match self {
            ChatMessage::PeerMessage(m) => m.timestamp,
            ChatMessage::NotificationMessage(n) => match n {
                NotificationMessage::PeerJoined(j) => j.timestamp,
            },
        }
    }

    pub fn timestamp(&self) -> (r: u64)
        ensures
            r == self.spec_timestamp(),
    {
        match self {
            ChatMessage::PeerMessage(m) => m.timestamp,
            ChatMessage::NotificationMessage(n) => match n {
                NotificationMessage::PeerJoined(j) => j.timestamp,
            },
        }
    }
}

/// Where a new entry lands in a history ordered by timestamp: after
/// everything older, before everything newer, replacing an entry with the
/// very same timestamp.
pub open spec fn spec_insert_entry(
    entries: Seq<(u64, ChatMessageView)>,
    k: u64,
    v: ChatMessageView,
) -> Seq<(u64, ChatMessageView)>
    decreases entries.len(),
{
    if entries.len() == 0 {
        seq![(k, v)]
    } else if entries.last().0 < k {
        entries.push((k, v))
    } else if entries.last().0 == k {
        entries.drop_last().push((k, v))
    } else {
        spec_insert_entry(entries.drop_last(), k, v).push(entries.last())
    }
}

/// [`spec_insert_entry`] lands exactly where a backwards scan stops: at
/// the position `idx` with everything from `idx` on newer than `k` and
/// the entry before `idx`, if any, not newer.
proof fn lemma_insert_at(entries: Seq<(u64, ChatMessageView)>, k: u64, v: ChatMessageView, idx: int)
    requires
        0 <= idx <= entries.len(),
        forall|j: int| idx <= j < entries.len() ==> (#[trigger] entries[j].0) > k,
        idx > 0 ==> entries[idx - 1].0 <= k,
    ensures
        spec_insert_entry(entries, k, v) == if idx > 0 && entries[idx - 1].0 == k {
            entries.update(idx - 1, (k, v))
        } else {
            entries.insert(idx, (k, v))
        },
    decreases entries.len(),
{
    if idx == entries.len() {
        if entries.len() == 0 {
            assert(spec_insert_entry(entries, k, v) =~= entries.insert(idx, (k, v)));
        } else if entries.last().0 == k {
            assert(entries.drop_last().push((k, v)) =~= entries.update(idx - 1, (k, v)));
        } else {
            assert(entries.last().0 < k);
            assert(entries.push((k, v)) =~= entries.insert(idx, (k, v)));
        }
    } else {
        assert(entries.last().0 > k);
        lemma_insert_at(entries.drop_last(), k, v, idx);
        if idx > 0 && entries[idx - 1].0 == k {
            assert(entries.drop_last().update(idx - 1, (k, v)).push(entries.last())
                =~= entries.update(idx - 1, (k, v)));
        } else {
            assert(entries.drop_last().insert(idx, (k, v)).push(entries.last()) =~= entries.insert(
                idx,
                (k, v),
            ));
        }
    }
}

/// One room's history, ordered by timestamp, at most one entry per
/// timestamp.
#[derive(Debug)]
pub struct Chat {
    messages: Vec<(u64, ChatMessage)>,
}

impl Chat {
    /// The history as (timestamp, entry) pairs, oldest first.
    pub closed spec fn entries(&self) -> Seq<(u64, ChatMessageView)> {
        self.messages@.map_values(|p: (u64, ChatMessage)| (p.0, p.1@))
    }

    /// Timestamps strictly increase along the history.
    pub closed spec fn wf(&self) -> bool {
        forall|i: int, j: int|
            0 <= i < j < self.messages@.len() ==> (#[trigger] self.messages@[i].0)
                < (#[trigger] self.messages@[j].0)
    }

    /// An empty room.
    pub fn new() -> (r: Chat)
        ensures
            r.wf(),
            r.entries() == Seq::<(u64, ChatMessageView)>::empty(),
    {
        let r = Chat { messages: Vec::new() };
        proof {
            assert(r.entries() =~= Seq::<(u64, ChatMessageView)>::empty());
        }
        r
    }

    /// File an entry under its timestamp, exactly as
    /// [`spec_insert_entry`] says: the history stays ordered, and an
    /// entry bearing the same timestamp is replaced.
    pub fn add_message(&mut self, message: ChatMessage)
        requires
            old(self).wf(),
        ensures
            final(self).wf(),
            final(self).entries() == spec_insert_entry(
                old(self).entries(),
                message.spec_timestamp(),
                message@,
            ),
    {
        let key = message.timestamp();
        let n = self.messages.len();
        let mut idx: usize = n;
        while idx > 0 && self.messages[idx - 1].0 > key
            invariant
                idx <= n,
                n == self.messages@.len(),
                forall|j: int| idx <= j < n ==> (#[trigger] self.messages@[j].0) > key,
            decreases idx,
        {
            idx -= 1;
        }
        let ghost old_entries = self.entries();
        proof {
            lemma_insert_at(old_entries, key, message@, idx as int);
        }
        if idx > 0 && {
            let prev = self.messages[idx - 1].0;
            prev == key
        } {
            self.messages.remove(idx - 1);
            self.messages.insert(idx - 1, (key, message));
            proof {
                assert(self.messages@ =~= old(self).messages@.update(idx - 1, self.messages@[idx
                    - 1]));
                assert(self.entries() =~= old_entries.update(idx - 1, (key, message@)));
            }
        } else {
            self.messages.insert(idx, (key, message));
            proof {
                assert(self.entries() =~= old_entries.insert(idx as int, (key, message@)));
            }
        }
    }

    /// The history, oldest first.
    pub fn get_messages(&self) -> (r: Vec<&ChatMessage>)
        ensures
            r@.len() == self.entries().len(),
            forall|i: int| 0 <= i < r@.len() ==> (#[trigger] r@[i])@ == self.entries()[i].1,
    {
        let n = self.messages.len();
        let mut out: Vec<&ChatMessage> = Vec::new();
        let mut i: usize = 0;
        while i < n
            invariant
                n == self.messages@.len(),
                i <= n,
                out@.len() == i,
                forall|j: int| 0 <= j < i ==> (#[trigger] out@[j])@ == self.entries()[j].1,
            decreases n - i,
        {
            out.push(&self.messages[i].1);
            i += 1;
        }
        out
    }
}

/// The chat histories of every room this front end has gathered
/// anything for.
#[derive(Debug)]
pub struct Chats {
    rooms: Vec<(String, Chat)>,
}

impl Chats {
    /// The room names, in the order the rooms were first written to.
    pub closed spec fn room_names(&self) -> Seq<Seq<char>> {
        self.rooms@.map_values(|p: (String, Chat)| p.0@)
    }

    /// Whether a room exists for `topic`.
    pub open spec fn has_room(&self, topic: Seq<char>) -> bool {
        exists|i: int| 0 <= i < self.room_names().len() && self.room_names()[i] == topic
    }

    /// The history of the room named `topic`.
    pub closed spec fn room_entries(&self, topic: Seq<char>) -> Seq<(u64, ChatMessageView)> {
        let i = choose|i: int| 0 <= i < self.rooms@.len() && self.rooms@[i].0@ == topic;
        self.rooms@[i].1.entries()
    }

    /// No room name appears twice, and every history is ordered.
    pub closed spec fn wf(&self) -> bool {
        &&& forall|i: int, j: int|
            0 <= i < j < self.rooms@.len() ==> (#[trigger] self.rooms@[i].0@)
                != (#[trigger] self.rooms@[j].0@)
        &&& forall|i: int| 0 <= i < self.rooms@.len() ==> (#[trigger] self.rooms@[i].1).wf()
    }

    /// No rooms at all.
    pub fn new() -> (r: Chats)
        ensures
            r.wf(),
            r.room_names() == Seq::<Seq<char>>::empty(),
    {
        let r = Chats { rooms: Vec::new() };
        proof {
            assert(r.room_names() =~= Seq::<Seq<char>>::empty());
        }
        r
    }

    /// The index of `topic`'s room, if one exists.
    fn find_room(&self, topic: &String) -> (r: Option<usize>)
        ensures
            match r {
                Some(i) => i < self.rooms@.len() && self.rooms@[i as int].0@ == topic@,
                None => !self.has_room(topic@),
            },
    {
        let n = self.rooms.len();
        let mut i: usize = 0;
        while i < n
            invariant
                n == self.rooms@.len(),
                i <= n,
                forall|j: int| 0 <= j < i ==> (#[trigger] self.rooms@[j].0@) != topic@,
            decreases n - i,
        {
            if self.rooms[i].0 == *topic {
                return Some(i);
            }
            i += 1;
        }
        None
    }

    /// File `message` in `topic`'s room, creating the room if this is the
    /// first entry for it.  Every other room is untouched.
    pub fn add_message(&mut self, topic: String, message: ChatMessage)
        requires
            old(self).wf(),
        ensures
            final(self).wf(),
            final(self).has_room(topic@),
            final(self).room_entries(topic@) == spec_insert_entry(
                if old(self).has_room(topic@) {
                    old(self).room_entries(topic@)
                } else {
                    Seq::<(u64, ChatMessageView)>::empty()
                },
                message.spec_timestamp(),
                message@,
            ),
            forall|t: Seq<char>|
                t != topic@ ==> #[trigger] final(self).has_room(t) == old(self).has_room(t),
            forall|t: Seq<char>|
                t != topic@ && old(self).has_room(t) ==> #[trigger] final(self).room_entries(t)
                    == old(self).room_entries(t),
    {
        match self.find_room(&topic) {
            Some(i) => {
                let mut pair = self.rooms.remove(i);
                pair.1.add_message(message);
                self.rooms.insert(i, pair);
                proof {
                    assert(self.rooms@.len() == old(self).rooms@.len());
                    assert forall|j: int| 0 <= j < self.rooms@.len() implies #[trigger] self
                        .rooms@[j].0@ == old(self).rooms@[j].0@ && (j != i ==> self.rooms@[j]
                        == old(self).rooms@[j]) by {}
                    assert(self.room_names() =~= old(self).room_names());
                    lemma_room_entries_at(self, i as int);
                    lemma_room_entries_at(old(self), i as int);
                    assert forall|t: Seq<char>|
                        t != topic@ && old(self).has_room(t) implies #[trigger] self.room_entries(t)
                        == old(self).room_entries(t) by {
                        let j = choose|j: int|
                            0 <= j < old(self).rooms@.len() && old(self).rooms@[j].0@ == t;
                        assert(j != i);
                        lemma_room_entries_at(self, j);
                        lemma_room_entries_at(old(self), j);
                    }
                }
            },
            None => {
                let mut chat = Chat::new();
                chat.add_message(message);
                let n = self.rooms.len();
                self.rooms.push((topic, chat));
                proof {
                    let ghost t = self.rooms@[n as int].0@;
                    assert(self.room_names()[n as int] == t);
                    assert forall|j: int|
                        0 <= j < n implies #[trigger] self.rooms@[j] == old(self).rooms@[j] by {}
                    assert(self.has_room(t));
                    assert forall|a: int, b: int|
                        0 <= a < b < self.rooms@.len() implies (#[trigger] self.rooms@[a].0@)
                        != (#[trigger] self.rooms@[b].0@) by {
                        if b == n && self.rooms@[a].0@ == self.rooms@[b].0@ {
                            assert(old(self).room_names()[a] == t);
                            assert(old(self).has_room(t));
                        }
                    }
                    assert(self.wf());
                    lemma_room_entries_at(self, n as int);
                    assert forall|s: Seq<char>|
                        s != t implies #[trigger] self.has_room(s) == old(self).has_room(s) by {
                        if self.has_room(s) {
                            let j = choose|j: int|
                                0 <= j < self.room_names().len() && self.room_names()[j] == s;
                            assert(j != n);
                            assert(old(self).room_names()[j] == s);
                        }
                        if old(self).has_room(s) {
                            let j = choose|j: int|
                                0 <= j < old(self).room_names().len() && old(self).room_names()[j]
                                    == s;
                            assert(self.room_names()[j] == s);
                        }
                    }
                    assert forall|s: Seq<char>|
                        s != t && old(self).has_room(s) implies #[trigger] self.room_entries(s)
                        == old(self).room_entries(s) by {
                        let j = choose|j: int|
                            0 <= j < old(self).rooms@.len() && old(self).rooms@[j].0@ == s;
                        lemma_room_entries_at(self, j);
                        lemma_room_entries_at(old(self), j);
                    }
                }
            },
        }
    }

    /// A copy of `topic`'s history, oldest first; empty if no room
    /// exists for it.
    pub fn get_messages(&self, topic: &String) -> (r: Vec<ChatMessage>)
        requires
            self.wf(),
        ensures
            r@.len() == if self.has_room(topic@) {
                self.room_entries(topic@).len()
            } else {
                0
            },
            self.has_room(topic@) ==> forall|i: int|
                0 <= i < r@.len() ==> (#[trigger] r@[i])@ == self.room_entries(topic@)[i].1,
    {
        match self.find_room(topic) {
            Some(i) => {
                proof {
                    lemma_room_entries_at(self, i as int);
                }
                let refs = self.rooms[i].1.get_messages();
                let n = refs.len();
                let mut out: Vec<ChatMessage> = Vec::new();
                let mut j: usize = 0;
                while j < n
                    invariant
                        n == refs@.len(),
                        j <= n,
                        out@.len() == j,
                        forall|l: int| 0 <= l < n ==> (#[trigger] refs@[l])@ == self.room_entries(
                            topic@,
                        )[l].1,
                        forall|l: int| 0 <= l < j ==> (#[trigger] out@[l])@ == self.room_entries(
                            topic@,
                        )[l].1,
                    decreases n - j,
                {
                    out.push(refs[j].clone());
                    j += 1;
                }
                out
            },
            None => Vec::new(),
        }
    }

    /// The names of every room, in first-written order.
    pub fn rooms(&self) -> (r: Vec<String>)
        ensures
            r@.len() == self.room_names().len(),
            forall|i: int| 0 <= i < r@.len() ==> (#[trigger] r@[i])@ == self.room_names()[i],
    {
        let n = self.rooms.len();
        let mut out: Vec<String> = Vec::new();
        let mut i: usize = 0;
        while i < n
            invariant
                n == self.rooms@.len(),
                i <= n,
                out@.len() == i,
                forall|j: int| 0 <= j < i ==> (#[trigger] out@[j])@ == self.room_names()[j],
            decreases n - i,
        {
            out.push(self.rooms[i].0.clone());
            i += 1;
        }
        out
    }
}

/// With room names unique, the history of the room at index `i` is the
/// history looked up by that room's name.
proof fn lemma_room_entries_at(chats: &Chats, i: int)
    requires
        chats.wf(),
        0 <= i < chats.rooms@.len(),
    ensures
        chats.has_room(chats.rooms@[i].0@),
        chats.room_entries(chats.rooms@[i].0@) == chats.rooms@[i].1.entries(),
{
    let t = chats.rooms@[i].0@;
    assert(chats.room_names()[i] == t);
    let j = choose|j: int| 0 <= j < chats.rooms@.len() && chats.rooms@[j].0@ == t;
    assert(chats.rooms@[i].0@ == t);
    assert(j == i);
}

} // verus!
