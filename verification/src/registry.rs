//! The registry: the one place that knows every session and every channel.
//!
//! It hands out session ids, keeps nicks unique, and finds or creates
//! channels by name. `DirectoryWorker` handles one request at a time, so a
//! check and the change that follows it are never interleaved with another
//! request.

use crate::find::{found_from, lemma_found_from};
use crate::mailbox::ChanError;
use crate::slots::{first_free, is_first_free, lemma_first_free, occupied, placed, vacated};
use crate::user_msg::User;
use vstd::prelude::*;

verus! {

/// The id of a session in the registry: the index of its slot.
pub type DirectoryId = u64;

/// The address of a channel: its position in the order of creation.
pub type ChannelThread = usize;

/// A handle to a channel.
#[derive(Debug, Clone, Copy, PartialEq, Eq, Structural)]
pub struct Channel {
    pub thread: ChannelThread,
}

/// Why the registry or a channel could not do what was asked.
#[derive(Debug, PartialEq, Eq)]
pub enum Error {
    /// Another session holds the nick.
    NickCollision,
    /// No session holds the nick.
    NickNotFound,
    SendError(&'static str),
    RecvError(&'static str),
}

impl From<ChanError> for Error {
    fn from(err: ChanError) -> (e: Error) {
        match err {
            ChanError::SendError(what) => Error::SendError(what),
            ChanError::RecvError(what) => Error::RecvError(what),
        }
    }
}

impl vstd::std_specs::convert::FromSpecImpl<ChanError> for Error {
    open spec fn obeys_from_spec() -> bool {
        true
    }

    open spec fn from_spec(err: ChanError) -> Error {
        match err {
            ChanError::SendError(what) => Error::SendError(what),
            ChanError::RecvError(what) => Error::RecvError(what),
        }
    }
}

/// A request to the registry.
#[derive(Debug, PartialEq, Eq)]
pub enum DirectoryThreadMsg {
    GetChannels,
    /// The channel's name, and the nick of the user who asks.
    GetChannelByName(String, String),
    GetUsers,
    GetUserByNick(String),
    /// Whoever gets the id back must put it into a `DirectoryEntry` before
    /// anything else, so that the id is released exactly once.
    NewUser(User),
    UpdateNick(DirectoryId, String),
    DestroyUser(DirectoryId),
    Exit,
}

/// A `DirectoryThreadMsg` as plain values.
pub enum DirectoryThreadMsgView {
    GetChannels,
    GetChannelByName(Seq<char>, Seq<char>),
    GetUsers,
    GetUserByNick(Seq<char>),
    NewUser(User),
    UpdateNick(int, Seq<char>),
    DestroyUser(int),
    Exit,
}

impl View for DirectoryThreadMsg {
    type V = DirectoryThreadMsgView;

    open spec fn view(&self) -> DirectoryThreadMsgView {
        match self {
            DirectoryThreadMsg::GetChannels => DirectoryThreadMsgView::GetChannels,
            DirectoryThreadMsg::GetChannelByName(name, nick) =>
                DirectoryThreadMsgView::GetChannelByName(name@, nick@),
            DirectoryThreadMsg::GetUsers => DirectoryThreadMsgView::GetUsers,
            DirectoryThreadMsg::GetUserByNick(nick) => DirectoryThreadMsgView::GetUserByNick(nick@),
            DirectoryThreadMsg::NewUser(user) => DirectoryThreadMsgView::NewUser(*user),
            DirectoryThreadMsg::UpdateNick(id, nick) => DirectoryThreadMsgView::UpdateNick(
                *id as int,
                nick@,
            ),
            DirectoryThreadMsg::DestroyUser(id) => DirectoryThreadMsgView::DestroyUser(*id as int),
            DirectoryThreadMsg::Exit => DirectoryThreadMsgView::Exit,
        }
    }
}

/// The answer of the registry.
#[derive(Debug, PartialEq, Eq)]
pub enum DirectoryReply {
    /// The request asks for no answer.
    Nothing,
    /// Every channel, in the order of creation.
    Channels(Vec<Channel>),
    /// The channel of the name asked for, and whether this request
    /// created it.
    Channel(Channel, bool),
    /// Every session, in slot order.
    Users(Vec<User>),
    User(Result<User, Error>),
    /// The id of the new session.
    Id(DirectoryId),
    Nick(Result<(), Error>),
}

/// A `DirectoryReply` as plain values.
pub enum DirectoryReplyView {
    Nothing,
    Channels(Seq<Channel>),
    Channel(Channel, bool),
    Users(Seq<User>),
    User(Result<User, Error>),
    Id(int),
    Nick(Result<(), Error>),
}

impl View for DirectoryReply {
    type V = DirectoryReplyView;

    open spec fn view(&self) -> DirectoryReplyView {
        match self {
            DirectoryReply::Nothing => DirectoryReplyView::Nothing,
            DirectoryReply::Channels(channels) => DirectoryReplyView::Channels(channels@),
            DirectoryReply::Channel(channel, created) => DirectoryReplyView::Channel(
                *channel,
                *created,
            ),
            DirectoryReply::Users(users) => DirectoryReplyView::Users(users@),
            DirectoryReply::User(r) => DirectoryReplyView::User(*r),
            DirectoryReply::Id(id) => DirectoryReplyView::Id(*id as int),
            DirectoryReply::Nick(r) => DirectoryReplyView::Nick(*r),
        }
    }
}

/// A session as the registry knows it.
#[derive(Debug)]
pub struct DUserEntry {
    pub thread: User,
    /// The nick that the session has claimed, if it has claimed one.
    pub nick: Option<String>,
}

/// A session in the registry, as plain values.
pub struct DUserEntryView {
    pub thread: User,
    /// The nick that the session has claimed, if it has claimed one.
    pub nick: Option<Seq<char>>,
}

impl DeepView for DUserEntry {
    type V = DUserEntryView;

    open spec fn deep_view(&self) -> DUserEntryView {
        DUserEntryView { thread: self.thread, nick: self.nick.deep_view() }
    }
}

/// The handles of the sessions, in slot order.
pub open spec fn session_handles(users: Seq<Option<DUserEntryView>>) -> Seq<User>
    decreases users.len(),
{
    if users.len() == 0 {
        Seq::empty()
    } else {
        let before = session_handles(users.drop_last());
        match users.last() {
            Some(entry) => before.push(entry.thread),
            None => before,
        }
    }
}

/// The handles of the first `n` channels.
pub open spec fn channel_handles(n: nat) -> Seq<Channel> {
    Seq::new(n, |i: int| Channel { thread: i as usize })
}

/// The state of the registry as plain values.
pub struct DirectoryWorkerView {
    /// The slot table of the sessions.
    pub users: Seq<Option<DUserEntryView>>,
    /// The names of the channels, in the order of creation. The handle of a
    /// channel is its position here.
    pub channels: Seq<Seq<char>>,
}

impl DirectoryWorkerView {
    /// Whether the session `id` holds `nick`: it has claimed it, and has
    /// claimed no other nick since.
    pub open spec fn holds(self, id: int, nick: Seq<char>) -> bool {
        occupied(self.users, id) && self.users[id]->0.nick == Some(nick)
    }

    /// Whether a session other than `id` holds `nick`.
    pub open spec fn collides(self, id: int, nick: Seq<char>) -> bool {
        exists|other: int| other != id && #[trigger] self.holds(other, nick)
    }

    /// The first slot at or after `from` whose session holds `nick`, or the
    /// length of the table where there is none.
    pub open spec fn holder_from(self, nick: Seq<char>, from: int) -> int
        decreases self.users.len() - from,
    {
        if from < 0 || from >= self.users.len() {
            self.users.len() as int
        } else if self.holds(from, nick) {
            from
        } else {
            self.holder_from(nick, from + 1)
        }
    }

    /// The registry after `msg`, and its answer.
    ///
    /// A new session takes the free slot with the lowest index and holds no
    /// nick. A nick can be claimed unless another session holds it; the
    /// session that holds it may claim it again. A channel is created when
    /// its name is asked for the first time, and found from then on.
    pub open spec fn step(self, msg: DirectoryThreadMsgView) -> (
        DirectoryWorkerView,
        DirectoryReplyView,
    ) {
        match msg {
            DirectoryThreadMsgView::GetChannels => (
                self,
                DirectoryReplyView::Channels(channel_handles(self.channels.len())),
            ),
            DirectoryThreadMsgView::GetChannelByName(name, nick) => {
                let at = found_from(self.channels, name, 0);
                if at < self.channels.len() {
                    (self, DirectoryReplyView::Channel(Channel { thread: at as usize }, false))
                } else {
                    (
                        DirectoryWorkerView { channels: self.channels.push(name), ..self },
                        DirectoryReplyView::Channel(Channel { thread: at as usize }, true),
                    )
                }
            },
            DirectoryThreadMsgView::GetUsers => (
                self,
                DirectoryReplyView::Users(session_handles(self.users)),
            ),
            DirectoryThreadMsgView::GetUserByNick(nick) => {
                let at = self.holder_from(nick, 0);
                if at < self.users.len() {
                    (self, DirectoryReplyView::User(Ok(self.users[at]->0.thread)))
                } else {
                    (self, DirectoryReplyView::User(Err(Error::NickNotFound)))
                }
            },
            DirectoryThreadMsgView::NewUser(user) => {
                let id = first_free(self.users);
                let entry = DUserEntryView { thread: user, nick: None };
                (
                    DirectoryWorkerView { users: placed(self.users, id, entry), ..self },
                    DirectoryReplyView::Id(id),
                )
            },
            DirectoryThreadMsgView::UpdateNick(id, nick) => {
                if self.collides(id, nick) {
                    (self, DirectoryReplyView::Nick(Err(Error::NickCollision)))
                } else if occupied(self.users, id) {
                    let entry = DUserEntryView { nick: Some(nick), ..self.users[id]->0 };
                    (
                        DirectoryWorkerView { users: self.users.update(id, Some(entry)), ..self },
                        DirectoryReplyView::Nick(Ok(())),
                    )
                } else {
                    (self, DirectoryReplyView::Nick(Ok(())))
                }
            },
            DirectoryThreadMsgView::DestroyUser(id) => (
                DirectoryWorkerView { users: vacated(self.users, id), ..self },
                DirectoryReplyView::Nothing,
            ),
            DirectoryThreadMsgView::Exit => (self, DirectoryReplyView::Nothing),
        }
    }

    /// No two sessions hold the same nick, and no two channels the same
    /// name.
    pub open spec fn wf(self) -> bool {
        &&& forall|a: int, b: int, nick: Seq<char>|
            #[trigger] self.holds(a, nick) && #[trigger] self.holds(b, nick) ==> a == b
        &&& forall|a: int, b: int|
            0 <= a < self.channels.len() && 0 <= b < self.channels.len() && #[trigger] self.channels[a]
                == #[trigger] self.channels[b] ==> a == b
    }
}

impl DirectoryWorkerView {
    /// The bounds of `holder_from`, and what it finds.
    pub proof fn lemma_holder_from(self, nick: Seq<char>, from: int)
        requires
            0 <= from <= self.users.len(),
        ensures
            from <= self.holder_from(nick, from) <= self.users.len(),
            forall|j: int|
                from <= j < self.holder_from(nick, from) ==> !#[trigger] self.holds(j, nick),
            self.holder_from(nick, from) < self.users.len() ==> self.holds(
                self.holder_from(nick, from),
                nick,
            ),
        decreases self.users.len() - from,
    {
        if from < self.users.len() && !self.holds(from, nick) {
            self.lemma_holder_from(nick, from + 1);
        }
    }

    /// Every request leaves nicks and channel names unique.
    pub proof fn lemma_step_keeps_wf(self, msg: DirectoryThreadMsgView)
        requires
            self.wf(),
        ensures
            self.step(msg).0.wf(),
    {
        let next = self.step(msg).0;
        match msg {
            DirectoryThreadMsgView::GetChannelByName(name, nick) => {
                lemma_found_from(self.channels, name, 0);
                assert forall|a: int, b: int|
                    0 <= a < next.channels.len() && 0 <= b < next.channels.len()
                        && #[trigger] next.channels[a] == #[trigger] next.channels[b] implies a
                    == b by {
                    if a < self.channels.len() && b < self.channels.len() {
                        assert(self.channels[a] == self.channels[b]);
                    }
                }
                assert forall|a: int, b: int, n: Seq<char>| #[trigger]
                    next.holds(a, n) && #[trigger] next.holds(b, n) implies a == b by {
                    assert(self.holds(a, n) && self.holds(b, n));
                }
            },
            DirectoryThreadMsgView::NewUser(user) => {
                lemma_first_free(self.users);
                let id = first_free(self.users);
                assert forall|a: int, b: int, n: Seq<char>| #[trigger]
                    next.holds(a, n) && #[trigger] next.holds(b, n) implies a == b by {
                    assert(a != id && b != id);
                    assert(self.holds(a, n) && self.holds(b, n));
                }
            },
            DirectoryThreadMsgView::UpdateNick(id, nick) => {
                if !self.collides(id, nick) && occupied(self.users, id) {
                    assert forall|a: int, b: int, n: Seq<char>| #[trigger]
                        next.holds(a, n) && #[trigger] next.holds(b, n) implies a == b by {
                        if a != id && b != id {
                            assert(self.holds(a, n) && self.holds(b, n));
                        } else if a != b {
                            let other = if a == id {
                                b
                            } else {
                                a
                            };
                            assert(self.holds(other, n));
                            assert(n == nick);
                            assert(self.collides(id, nick));
                        }
                    }
                }
            },
            DirectoryThreadMsgView::DestroyUser(id) => {
                assert forall|a: int, b: int, n: Seq<char>| #[trigger]
                    next.holds(a, n) && #[trigger] next.holds(b, n) implies a == b by {
                    assert(self.holds(a, n) && self.holds(b, n));
                }
            },
            _ => {},
        }
    }
}

/// The registry: the slot table of the sessions and the list of the
/// channels.
#[derive(Debug)]
pub struct DirectoryWorker {
    users: Vec<Option<DUserEntry>>,
    /// The names of the channels; the handle of a channel is its position.
    channels: Vec<String>,
}

impl View for DirectoryWorker {
    type V = DirectoryWorkerView;

    closed spec fn view(&self) -> DirectoryWorkerView {
        DirectoryWorkerView {
            users: self.users.deep_view(),
            channels: self.channels.deep_view(),
        }
    }
}

impl DirectoryWorker {
    /// A registry without sessions and without channels.
    pub fn new() -> (worker: Self)
        ensures
            worker@ == (DirectoryWorkerView { users: Seq::empty(), channels: Seq::empty() }),
    {
        let worker = DirectoryWorker { users: Vec::new(), channels: Vec::new() };
        assert(worker@.users =~= Seq::empty());
        assert(worker@.channels =~= Seq::empty());
        worker
    }

    /// Handles one request. The second part of the result says whether the
    /// registry shall stop.
    pub fn handle_msg(&mut self, msg: DirectoryThreadMsg) -> (out: (DirectoryReply, bool))
        ensures
            (final(self)@, out.0@) == old(self)@.step(msg@),
            out.1 == (msg is Exit),
    {
        match msg {
            DirectoryThreadMsg::GetChannels => (DirectoryReply::Channels(self.get_channels()), false),
            DirectoryThreadMsg::GetChannelByName(name, nick) => {
                let (channel, created) = self.get_channel_by_name(name, nick);
                (DirectoryReply::Channel(channel, created), false)
            },
            DirectoryThreadMsg::GetUsers => (DirectoryReply::Users(self.get_users()), false),
            DirectoryThreadMsg::GetUserByNick(nick) => (
                DirectoryReply::User(self.get_user_by_nick(&nick)),
                false,
            ),
            DirectoryThreadMsg::NewUser(user) => (DirectoryReply::Id(self.new_user(user)), false),
            DirectoryThreadMsg::UpdateNick(id, nick) => (
                DirectoryReply::Nick(self.update_nick(id, nick)),
                false,
            ),
            DirectoryThreadMsg::DestroyUser(id) => {
                self.destroy_user(id);
                (DirectoryReply::Nothing, false)
            },
            DirectoryThreadMsg::Exit => (DirectoryReply::Nothing, true),
        }
    }

    /// The handles of all channels, in the order of creation.
    pub fn get_channels(&self) -> (channels: Vec<Channel>)
        ensures
            channels@ == channel_handles(self@.channels.len()),
    {
        let mut out: Vec<Channel> = Vec::new();
        let mut i: usize = 0;
        while i < self.channels.len()
            invariant
                i <= self.channels.len(),
                out@ == channel_handles(i as nat),
            decreases self.channels.len() - i,
        {
            out.push(Channel { thread: i });
            i += 1;
            assert(out@ =~= channel_handles(i as nat));
        }
        out
    }

    /// Finds the channel called `name`, or creates it. The second part of
    /// the result says whether it was created.
    pub fn get_channel_by_name(&mut self, name: String, nick: String) -> (out: (Channel, bool))
        ensures
            (final(self)@, DirectoryReplyView::Channel(out.0, out.1)) == old(self)@.step(
                DirectoryThreadMsgView::GetChannelByName(name@, nick@),
            ),
    {
        let ghost names = self@.channels;
        let mut i: usize = 0;
        while i < self.channels.len() && self.channels[i] != name
            invariant
                i <= self.channels.len(),
                names == self@.channels,
                found_from(names, name@, 0) == found_from(names, name@, i as int),
            decreases self.channels.len() - i,
        {
            i += 1;
        }
        let channel = Channel { thread: i };
        if i < self.channels.len() {
            (channel, false)
        } else {
            self.channels.push(name);
            assert(self@.channels =~= names.push(name@));
            (channel, true)
        }
    }

    /// The handles of all sessions, in slot order.
    pub fn get_users(&self) -> (users: Vec<User>)
        ensures
            users@ == session_handles(self@.users),
    {
        let ghost slots = self.users.deep_view();
        let mut out: Vec<User> = Vec::new();
        let mut i: usize = 0;
        assert(slots.take(0) =~= Seq::empty());
        while i < self.users.len()
            invariant
                i <= self.users.len(),
                slots == self.users.deep_view(),
                out@ == session_handles(slots.take(i as int)),
            decreases self.users.len() - i,
        {
            assert(slots.take(i + 1).drop_last() =~= slots.take(i as int));
            assert(slots.take(i + 1).last() == self.users@[i as int].deep_view());
            match &self.users[i] {
                Some(entry) => {
                    out.push(entry.thread);
                },
                None => {},
            }
            i += 1;
        }
        assert(slots.take(self.users.len() as int) =~= slots);
        out
    }

    /// The session that holds `nick`.
    pub fn get_user_by_nick(&self, nick: &String) -> (r: Result<User, Error>)
        ensures
            (self@, DirectoryReplyView::User(r)) == self@.step(
                DirectoryThreadMsgView::GetUserByNick(nick@),
            ),
    {
        let mut i: usize = 0;
        while i < self.users.len() && !self.slot_holds(i, nick)
            invariant
                i <= self.users.len(),
                self@.holder_from(nick@, 0) == self@.holder_from(nick@, i as int),
            decreases self.users.len() - i,
        {
            i += 1;
        }
        if i < self.users.len() {
            match &self.users[i] {
                Some(entry) => Ok(entry.thread),
                None => Err(Error::NickNotFound),
            }
        } else {
            Err(Error::NickNotFound)
        }
    }

    /// Registers a session and returns its id.
    pub fn new_user(&mut self, user: User) -> (id: DirectoryId)
        ensures
            (final(self)@, DirectoryReplyView::Id(id as int)) == old(self)@.step(
                DirectoryThreadMsgView::NewUser(user),
            ),
    {
        let ghost slots = self.users.deep_view();
        let mut i: usize = 0;
        while i < self.users.len() && self.users[i].is_some()
            invariant
                i <= self.users.len(),
                slots == self.users.deep_view(),
                forall|j: int| 0 <= j < i ==> (#[trigger] slots[j]) is Some,
            decreases self.users.len() - i,
        {
            i += 1;
        }
        proof {
            if i < self.users.len() {
                assert(slots[i as int] == self.users@[i as int].deep_view());
            }
            assert(is_first_free(slots, i as int));
            lemma_first_free(slots);
        }
        let entry = DUserEntry { thread: user, nick: None };
        if i < self.users.len() {
            self.users[i] = Some(entry);
        } else {
            self.users.push(Some(entry));
        }
        assert(self.users.deep_view() =~= placed(
            slots,
            i as int,
            DUserEntryView { thread: user, nick: None },
        ));
        i as u64
    }

    /// Gives the session `id` the nick `nick`, unless another session holds
    /// it.
    pub fn update_nick(&mut self, id: DirectoryId, nick: String) -> (r: Result<(), Error>)
        ensures
            (final(self)@, DirectoryReplyView::Nick(r)) == old(self)@.step(
                DirectoryThreadMsgView::UpdateNick(id as int, nick@),
            ),
    {
        let ghost before = self@;
        let mut i: usize = 0;
        while i < self.users.len()
            invariant
                i <= self.users.len(),
                before == self@,
                forall|j: int| 0 <= j < i && j != id ==> !#[trigger] before.holds(j, nick@),
            decreases self.users.len() - i,
        {
            if i as u64 != id && self.slot_holds(i, &nick) {
                assert(before.holds(i as int, nick@));
                return Err(Error::NickCollision);
            }
            i += 1;
        }
        assert(!before.collides(id as int, nick@));
        if id < self.users.len() as u64 {
            let at = id as usize;
            let ghost slots = self.users.deep_view();
            assert(slots[at as int] == self.users@[at as int].deep_view());
            match &mut self.users[at] {
                Some(entry) => {
                    entry.nick = Some(nick);
                },
                None => {},
            }
            proof {
                if slots[at as int] is Some {
                    assert(self.users.deep_view() =~= slots.update(
                        at as int,
                        Some(DUserEntryView { nick: Some(nick@), ..slots[at as int]->0 }),
                    ));
                } else {
                    assert(self.users.deep_view() =~= slots);
                }
            }
        }
        Ok(())
    }

    /// Forgets the session `id` and frees its nick and its slot. Nothing
    /// happens where the slot is free already.
    pub fn destroy_user(&mut self, id: DirectoryId)
        ensures
            (final(self)@, DirectoryReplyView::Nothing) == old(self)@.step(
                DirectoryThreadMsgView::DestroyUser(id as int),
            ),
    {
        let ghost slots = self.users.deep_view();
        if id < self.users.len() as u64 {
            self.users[id as usize] = None;
            assert(self.users.deep_view() =~= vacated(slots, id as int));
        }
    }

    fn slot_holds(&self, at: usize, nick: &String) -> (b: bool)
        requires
            at < self.users.len(),
        ensures
            b == self@.holds(at as int, nick@),
    {
        assert(self.users.deep_view()[at as int] == self.users@[at as int].deep_view());
        match &self.users[at] {
            Some(entry) => match &entry.nick {
                Some(held) => *held == *nick,
                None => false,
            },
            None => false,
        }
    }
}

} // verus!
