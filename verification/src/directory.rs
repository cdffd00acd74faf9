//! The directory: what a session holds to reach the registry and the
//! channels, and the capabilities it gets from them.
//!
//! A request through the directory is answered before the call returns.
//! Notifications that the request sets off are not delivered by the call:
//! they wait in the directory's mail, in the order in which they arose,
//! until the owner of the directory takes them out and delivers them.
//!
//! A `DirectoryEntry` is the right to one session id, a `ChannelEntry` the
//! right to one slot of a channel. Neither can be copied, and each is given
//! up by `release`, which consumes it: a slot or an id is freed once.

use crate::channel::{
    ChannelId, ChannelReply, ChannelReplyView, ChannelThreadMsg,
    ChannelThreadMsgView, ChannelWorker, ChannelWorkerView,
};
use crate::mask::Mask;
use crate::registry::{
    Channel, ChannelThread, DirectoryId, DirectoryReplyView, DirectoryThreadMsgView,
    DirectoryWorker, DirectoryWorkerView, Error,
};
use crate::user_msg::{Delivery, DeliveryView, User};
use vstd::prelude::*;

verus! {

/// The state behind a directory as plain values.
pub struct DirectoryView {
    pub registry: DirectoryWorkerView,
    /// The channels, in the order of creation.
    pub channels: Seq<ChannelWorkerView>,
    /// The notifications that wait for delivery, oldest first.
    pub mail: Seq<DeliveryView>,
    /// The address that the next new mailbox gets.
    pub next_mailbox: u64,
}

impl DirectoryView {
    /// The registry's names are the names of the channels, nicks and names
    /// are unique.
    pub open spec fn wf(self) -> bool {
        &&& self.registry.wf()
        &&& self.channels.len() == self.registry.channels.len()
        &&& forall|i: int|
            0 <= i < self.channels.len() ==> (#[trigger] self.channels[i]).name
                == self.registry.channels[i]
    }

    /// Whether `channel` leads to a channel of this directory.
    pub open spec fn reaches(self, channel: Channel) -> bool {
        channel.thread < self.channels.len()
    }

    /// The directory after the registry has handled `msg`. A channel that
    /// the request creates starts empty.
    pub open spec fn ask_registry(self, msg: DirectoryThreadMsgView) -> DirectoryView {
        let (registry, reply) = self.registry.step(msg);
        DirectoryView {
            registry,
            channels: match (msg, reply) {
                (
                    DirectoryThreadMsgView::GetChannelByName(name, nick),
                    DirectoryReplyView::Channel(_, true),
                ) => self.channels.push(ChannelWorkerView { name, nick, users: Seq::empty() }),
                _ => self.channels,
            },
            mail: self.mail,
            next_mailbox: self.next_mailbox,
        }
    }

    /// The directory after the channel behind `channel` has handled `msg`:
    /// the notifications join the mail.
    pub open spec fn ask_channel(self, channel: Channel, msg: ChannelThreadMsgView) -> DirectoryView
        recommends
            self.reaches(channel),
    {
        let (next, out) = self.channels[channel.thread as int].step(msg);
        DirectoryView {
            channels: self.channels.update(channel.thread as int, next),
            mail: self.mail + out.deliveries,
            ..self
        }
    }

    /// What the channel behind `channel` answers to `msg`.
    pub open spec fn channel_reply(
        self,
        channel: Channel,
        msg: ChannelThreadMsgView,
    ) -> ChannelReplyView
        recommends
            self.reaches(channel),
    {
        self.channels[channel.thread as int].step(msg).1.reply
    }

    /// A request to the registry keeps the directory well formed.
    pub proof fn lemma_ask_registry_keeps_wf(self, msg: DirectoryThreadMsgView)
        requires
            self.wf(),
        ensures
            self.ask_registry(msg).wf(),
    {
        self.registry.lemma_step_keeps_wf(msg);
    }

    /// A request to a channel keeps the directory well formed.
    pub proof fn lemma_ask_channel_keeps_wf(self, channel: Channel, msg: ChannelThreadMsgView)
        requires
            self.wf(),
            self.reaches(channel),
        ensures
            self.ask_channel(channel, msg).wf(),
    {
        let next = self.ask_channel(channel, msg);
        assert forall|i: int| 0 <= i < next.channels.len() implies (#[trigger] next.channels[i]).name
            == next.registry.channels[i] by {
            assert(self.channels[i].name == self.registry.channels[i]);
        }
    }
}

/// The registry and the channels of one daemon, and the mail they have
/// produced.
#[derive(Debug)]
pub struct Directory {
    worker: DirectoryWorker,
    channels: Vec<ChannelWorker>,
    mail: Vec<Delivery>,
    next_mailbox: u64,
}

impl View for Directory {
    type V = DirectoryView;

    closed spec fn view(&self) -> DirectoryView {
        DirectoryView {
            registry: self.worker@,
            channels: Seq::new(self.channels.len() as nat, |i: int| self.channels@[i]@),
            mail: self.mail.deep_view(),
            next_mailbox: self.next_mailbox,
        }
    }
}

/// The right to the session id `id`.
#[derive(Debug)]
pub struct DirectoryEntry {
    id: DirectoryId,
}

impl View for DirectoryEntry {
    type V = int;

    /// The id that the entry owns.
    closed spec fn view(&self) -> int {
        self.id as int
    }
}

/// The right to the slot `id` of the channel behind `channel`.
#[derive(Debug)]
pub struct ChannelEntry {
    channel: Channel,
    id: ChannelId,
    mask: String,
    part_reason: Option<String>,
}

/// A `ChannelEntry` as plain values.
pub struct ChannelEntryView {
    pub channel: Channel,
    pub id: int,
    /// The mask under which the others will see the part.
    pub mask: Seq<char>,
    /// The reason that the part will carry, where one was set.
    pub part_reason: Option<Seq<char>>,
}

impl View for ChannelEntry {
    type V = ChannelEntryView;

    closed spec fn view(&self) -> ChannelEntryView {
        ChannelEntryView {
            channel: self.channel,
            id: self.id as int,
            mask: self.mask@,
            part_reason: self.part_reason.deep_view(),
        }
    }
}

impl Directory {
    /// A directory without sessions, channels or mail.
    pub fn new() -> (directory: Self)
        ensures
            directory@.wf(),
            directory@ == (DirectoryView {
                registry: DirectoryWorkerView { users: Seq::empty(), channels: Seq::empty() },
                channels: Seq::empty(),
                mail: Seq::empty(),
                next_mailbox: 0,
            }),
    {
        let directory = Directory {
            worker: DirectoryWorker::new(),
            channels: Vec::new(),
            mail: Vec::new(),
            next_mailbox: 0,
        };
        assert(directory@.channels =~= Seq::empty());
        assert(directory@.mail =~= Seq::empty());
        directory
    }

    /// A handle to a mailbox that no one has yet. Addresses are handed out
    /// in turn, from zero, and start again after the last one.
    pub fn new_mailbox(&mut self) -> (user: User)
        ensures
            user.thread == old(self)@.next_mailbox,
            final(self)@ == (DirectoryView {
                next_mailbox: if old(self)@.next_mailbox == u64::MAX {
                    0
                } else {
                    (old(self)@.next_mailbox + 1) as u64
                },
                ..old(self)@
            }),
    {
        let user = User::new(self.next_mailbox);
        self.next_mailbox = if self.next_mailbox == u64::MAX {
            0
        } else {
            self.next_mailbox + 1
        };
        assert(self@.channels =~= old(self)@.channels);
        user
    }

    /// Registers the session behind `user`. The entry that comes back owns
    /// the new id.
    pub fn new_user(&mut self, user: User) -> (entry: DirectoryEntry)
        requires
            old(self)@.wf(),
        ensures
            final(self)@.wf(),
            final(self)@ == old(self)@.ask_registry(DirectoryThreadMsgView::NewUser(user)),
            DirectoryReplyView::Id(entry@) == old(self)@.registry.step(
                DirectoryThreadMsgView::NewUser(user),
            ).1,
    {
        proof {
            self@.lemma_ask_registry_keeps_wf(DirectoryThreadMsgView::NewUser(user));
        }
        let id = self.worker.new_user(user);
        assert(self@.channels =~= old(self)@.channels);
        DirectoryEntry { id }
    }

    /// Forgets the session `id`.
    pub fn destroy_user(&mut self, id: DirectoryId)
        requires
            old(self)@.wf(),
        ensures
            final(self)@.wf(),
            final(self)@ == old(self)@.ask_registry(DirectoryThreadMsgView::DestroyUser(id as int)),
    {
        proof {
            self@.lemma_ask_registry_keeps_wf(DirectoryThreadMsgView::DestroyUser(id as int));
        }
        self.worker.destroy_user(id);
        assert(self@.channels =~= old(self)@.channels);
    }

    /// The session that holds `nick`.
    pub fn get_user_by_nick(&self, nick: String) -> (r: Result<User, Error>)
        ensures
            DirectoryReplyView::User(r) == self@.registry.step(
                DirectoryThreadMsgView::GetUserByNick(nick@),
            ).1,
    {
        self.worker.get_user_by_nick(&nick)
    }

    /// The channel called `name`, created now if it was not there; `nick`
    /// is the nick of the user who asks.
    pub fn get_channel_by_name(&mut self, name: String, nick: String) -> (channel: Channel)
        requires
            old(self)@.wf(),
        ensures
            final(self)@.wf(),
            final(self)@ == old(self)@.ask_registry(
                DirectoryThreadMsgView::GetChannelByName(name@, nick@),
            ),
            old(self)@.registry.step(DirectoryThreadMsgView::GetChannelByName(name@, nick@)).1
                matches DirectoryReplyView::Channel(c, _) && c == channel,
            final(self)@.reaches(channel),
            final(self)@.channels[channel.thread as int].name == name@,
    {
        let ghost msg = DirectoryThreadMsgView::GetChannelByName(name@, nick@);
        let ghost before = self@;
        proof {
            before.lemma_ask_registry_keeps_wf(msg);
            crate::find::lemma_found_from(before.registry.channels, name@, 0);
        }
        let (channel, created) = self.worker.get_channel_by_name(name.clone(), nick.clone());
        if created {
            let worker = ChannelWorker::new(name, nick);
            self.channels.push(worker);
            assert(self@.channels =~= before.ask_registry(msg).channels);
        } else {
            assert(self@.channels =~= before.channels);
        }
        channel
    }

    /// The handles of all sessions, in slot order.
    pub fn get_users(&self) -> (users: Vec<User>)
        ensures
            DirectoryReplyView::Users(users@) == self@.registry.step(
                DirectoryThreadMsgView::GetUsers,
            ).1,
    {
        self.worker.get_users()
    }

    /// The handles of all channels, in the order of creation.
    pub fn get_channels(&self) -> (channels: Vec<Channel>)
        ensures
            DirectoryReplyView::Channels(channels@) == self@.registry.step(
                DirectoryThreadMsgView::GetChannels,
            ).1,
    {
        self.worker.get_channels()
    }

    /// Gives the session `id` the nick `nick`, unless another session holds
    /// it.
    pub fn update_nick(&mut self, id: DirectoryId, nick: String) -> (r: Result<(), Error>)
        requires
            old(self)@.wf(),
        ensures
            final(self)@.wf(),
            final(self)@ == old(self)@.ask_registry(
                DirectoryThreadMsgView::UpdateNick(id as int, nick@),
            ),
            DirectoryReplyView::Nick(r) == old(self)@.registry.step(
                DirectoryThreadMsgView::UpdateNick(id as int, nick@),
            ).1,
    {
        proof {
            self@.lemma_ask_registry_keeps_wf(DirectoryThreadMsgView::UpdateNick(id as int, nick@));
        }
        let r = self.worker.update_nick(id, nick);
        assert(self@.channels =~= old(self)@.channels);
        r
    }

    /// Hands `msg` to the channel behind `channel` and returns its answer.
    /// The notifications join the mail. A handle that leads nowhere gives a
    /// send error and changes nothing.
    pub fn ask_channel(&mut self, channel: Channel, msg: ChannelThreadMsg) -> (r: Result<
        ChannelReply,
        Error,
    >)
        requires
            old(self)@.wf(),
        ensures
            final(self)@.wf(),
            match r {
                Ok(reply) => {
                    &&& old(self)@.reaches(channel)
                    &&& final(self)@ == old(self)@.ask_channel(channel, msg@)
                    &&& reply@ == old(self)@.channel_reply(channel, msg@)
                },
                Err(e) => {
                    &&& !old(self)@.reaches(channel)
                    &&& final(self)@ == old(self)@
                    &&& e == Error::SendError("ChannelThreadMsg")
                },
            },
    {
        if channel.thread >= self.channels.len() {
            return Err(Error::SendError("ChannelThreadMsg"));
        }
        let ghost before = self@;
        proof {
            before.lemma_ask_channel_keeps_wf(channel, msg@);
        }
        let out = self.channels[channel.thread].handle_msg(msg);
        let mut deliveries = out.deliveries;
        let ghost fresh = deliveries.deep_view();
        self.mail.append(&mut deliveries);
        assert(self@.mail =~= before.mail + fresh);
        assert(self@.channels =~= before.ask_channel(channel, msg@).channels);
        Ok(out.reply)
    }

    /// The name of the channel behind `channel`.
    pub fn channel_name(&self, channel: Channel) -> (r: Result<String, Error>)
        ensures
            match r {
                Ok(name) => self@.reaches(channel) && name@ == self@.channels[channel.thread as int].name,
                Err(e) => !self@.reaches(channel) && e == Error::SendError("ChannelThreadMsg"),
            },
    {
        if channel.thread >= self.channels.len() {
            return Err(Error::SendError("ChannelThreadMsg"));
        }
        Ok(self.channels[channel.thread].name().clone())
    }

    /// The nicks of the members of the channel behind `channel`, in slot
    /// order.
    pub fn channel_nicks(&self, channel: Channel) -> (r: Result<Vec<String>, Error>)
        ensures
            match r {
                Ok(nicks) => self@.reaches(channel) && nicks.deep_view()
                    == crate::channel::member_nicks(self@.channels[channel.thread as int].users),
                Err(e) => !self@.reaches(channel) && e == Error::SendError("ChannelThreadMsg"),
            },
    {
        if channel.thread >= self.channels.len() {
            return Err(Error::SendError("ChannelThreadMsg"));
        }
        Ok(self.channels[channel.thread].nicks())
    }

    /// Adds a notification to the mail.
    pub fn post(&mut self, delivery: Delivery)
        ensures
            final(self)@ == (DirectoryView { mail: old(self)@.mail.push(delivery@), ..old(self)@ }),
    {
        self.mail.push(delivery);
        assert(self@.mail =~= old(self)@.mail.push(delivery@));
        assert(self@.channels =~= old(self)@.channels);
    }

    /// Takes the waiting notifications out, oldest first.
    pub fn take_mail(&mut self) -> (mail: Vec<Delivery>)
        ensures
            mail.deep_view() == old(self)@.mail,
            final(self)@ == (DirectoryView { mail: Seq::empty(), ..old(self)@ }),
    {
        let mut mail: Vec<Delivery> = Vec::new();
        let ghost fresh = self.mail.deep_view();
        mail.append(&mut self.mail);
        assert(mail.deep_view() =~= fresh);
        assert(self@.mail =~= Seq::empty());
        assert(self@.channels =~= old(self)@.channels);
        mail
    }
}

impl DirectoryEntry {
    /// The id that this entry owns.
    pub fn id(&self) -> (id: DirectoryId)
        ensures
            id as int == self@,
    {
        self.id
    }

    /// Claims `nick` for the session of this entry.
    pub fn update_nick(&self, directory: &mut Directory, nick: String) -> (r: Result<(), Error>)
        requires
            old(directory)@.wf(),
        ensures
            final(directory)@.wf(),
            final(directory)@ == old(directory)@.ask_registry(
                DirectoryThreadMsgView::UpdateNick(self@, nick@),
            ),
            DirectoryReplyView::Nick(r) == old(directory)@.registry.step(
                DirectoryThreadMsgView::UpdateNick(self@, nick@),
            ).1,
    {
        directory.update_nick(self.id, nick)
    }

    /// Gives the id up: the registry forgets the session.
    pub fn release(self, directory: &mut Directory)
        requires
            old(directory)@.wf(),
        ensures
            final(directory)@.wf(),
            final(directory)@ == old(directory)@.ask_registry(
                DirectoryThreadMsgView::DestroyUser(self@),
            ),
    {
        directory.destroy_user(self.id)
    }
}

impl Channel {
    pub fn new(thread: ChannelThread) -> (channel: Self)
        ensures
            channel.thread == thread,
    {
        Channel { thread }
    }

    /// Joins `user`, shown as `mask`, to this channel. The entry that comes
    /// back owns the slot; it carries no mask and no part reason yet.
    pub fn join(&self, directory: &mut Directory, user: User, mask: Mask) -> (r: Result<
        ChannelEntry,
        Error,
    >)
        requires
            old(directory)@.wf(),
        ensures
            final(directory)@.wf(),
            match r {
                Ok(entry) => {
                    let msg = ChannelThreadMsgView::Join(user, mask@);
                    &&& old(directory)@.reaches(*self)
                    &&& final(directory)@ == old(directory)@.ask_channel(*self, msg)
                    &&& ChannelReplyView::Joined(entry@.id) == old(directory)@.channel_reply(
                        *self,
                        msg,
                    )
                    &&& entry@ == (ChannelEntryView {
                        channel: *self,
                        id: entry@.id,
                        mask: Seq::empty(),
                        part_reason: None,
                    })
                },
                Err(e) => {
                    &&& !old(directory)@.reaches(*self)
                    &&& final(directory)@ == old(directory)@
                    &&& e == Error::SendError("ChannelThreadMsg")
                },
            },
    {
        match directory.ask_channel(*self, ChannelThreadMsg::Join(user, mask)) {
            Ok(ChannelReply::Joined(id)) => Ok(
                ChannelEntry { channel: *self, id, mask: String::new(), part_reason: None },
            ),
            Ok(_) => {
                // A join is answered with a slot and with nothing else.
                assert(false);
                Err(Error::RecvError("ChannelThreadMsg"))
            },
            Err(e) => Err(e),
        }
    }

    /// Frees the slot `id` of this channel.
    fn part(
        &self,
        directory: &mut Directory,
        id: ChannelId,
        mask: String,
        reason: Option<String>,
    ) -> (r:
        Result<(), Error>)
        requires
            old(directory)@.wf(),
        ensures
            final(directory)@.wf(),
            match r {
                Ok(()) => {
                    &&& old(directory)@.reaches(*self)
                    &&& final(directory)@ == old(directory)@.ask_channel(
                        *self,
                        ChannelThreadMsgView::Part(id as int, mask@, reason.deep_view()),
                    )
                },
                Err(e) => {
                    &&& !old(directory)@.reaches(*self)
                    &&& final(directory)@ == old(directory)@
                    &&& e == Error::SendError("ChannelThreadMsg")
                },
            },
    {
        match directory.ask_channel(*self, ChannelThreadMsg::Part(id, mask, reason)) {
            Ok(_) => Ok(()),
            Err(e) => Err(e),
        }
    }
}

impl ChannelEntryView {
    /// The part that the release of this entry sends.
    pub open spec fn parting(self) -> ChannelThreadMsgView {
        ChannelThreadMsgView::Part(self.id, self.mask, self.part_reason)
    }
}

impl ChannelEntry {
    /// The channel that this entry belongs to.
    pub fn channel(&self) -> (channel: Channel)
        ensures
            channel == self@.channel,
    {
        self.channel
    }

    /// The slot that this entry owns.
    pub fn id(&self) -> (id: ChannelId)
        ensures
            id as int == self@.id,
    {
        self.id
    }

    /// Sets the mask under which the others will see the part.
    pub fn update_mask(&mut self, mask: String)
        ensures
            final(self)@ == (ChannelEntryView { mask: mask@, ..old(self)@ }),
    {
        self.mask = mask;
    }

    /// Sets, or takes back, the reason that the part will carry.
    pub fn part_reason(&mut self, reason: Option<String>)
        ensures
            final(self)@ == (ChannelEntryView { part_reason: reason.deep_view(), ..old(self)@ }),
    {
        self.part_reason = reason;
    }

    /// Sends `msg` to the other members, as coming from `mask`.
    pub fn privmsg(&self, directory: &mut Directory, mask: String, msg: String) -> (r: Result<
        (),
        Error,
    >)
        requires
            old(directory)@.wf(),
        ensures
            final(directory)@.wf(),
            match r {
                Ok(()) => {
                    &&& old(directory)@.reaches(self@.channel)
                    &&& final(directory)@ == old(directory)@.ask_channel(
                        self@.channel,
                        ChannelThreadMsgView::Privmsg(self@.id, mask@, msg@),
                    )
                },
                Err(e) => {
                    &&& !old(directory)@.reaches(self@.channel)
                    &&& final(directory)@ == old(directory)@
                    &&& e == Error::SendError("ChannelThreadMsg")
                },
            },
    {
        match directory.ask_channel(self.channel, ChannelThreadMsg::Privmsg(self.id, mask, msg)) {
            Ok(_) => Ok(()),
            Err(e) => Err(e),
        }
    }

    /// Asks the channel for the nicks of its members; they come as a
    /// notification.
    pub fn who(&self, directory: &mut Directory) -> (r: Result<(), Error>)
        requires
            old(directory)@.wf(),
        ensures
            final(directory)@.wf(),
            match r {
                Ok(()) => {
                    &&& old(directory)@.reaches(self@.channel)
                    &&& final(directory)@ == old(directory)@.ask_channel(
                        self@.channel,
                        ChannelThreadMsgView::Who(self@.id),
                    )
                },
                Err(e) => {
                    &&& !old(directory)@.reaches(self@.channel)
                    &&& final(directory)@ == old(directory)@
                    &&& e == Error::SendError("ChannelThreadMsg")
                },
            },
    {
        match directory.ask_channel(self.channel, ChannelThreadMsg::Who(self.id)) {
            Ok(_) => Ok(()),
            Err(e) => Err(e),
        }
    }

    /// Gives the slot up: the channel gets a part with the entry's mask
    /// and with the reason that was set, if any.
    pub fn release(self, directory: &mut Directory) -> (r: Result<(), Error>)
        requires
            old(directory)@.wf(),
        ensures
            final(directory)@.wf(),
            match r {
                Ok(()) => {
                    &&& old(directory)@.reaches(self@.channel)
                    &&& final(directory)@ == old(directory)@.ask_channel(
                        self@.channel,
                        self@.parting(),
                    )
                },
                Err(e) => {
                    &&& !old(directory)@.reaches(self@.channel)
                    &&& final(directory)@ == old(directory)@
                    &&& e == Error::SendError("ChannelThreadMsg")
                },
            },
    {
        let channel = self.channel;
        channel.part(directory, self.id, self.mask, self.part_reason)
    }
}

} // verus!
