//! The proxy of a remote user: a local stand-in for someone who is
//! connected to a linked server.
//!
//! A proxy is registered and joins channels as a session does, so that the
//! rest of the daemon cannot tell the two apart. It takes its orders from
//! the link that created it, and it accepts every notification without
//! putting anything onto a wire: there is no connection behind it.

use crate::channel::ChannelThreadMsgView;
use crate::config::{Config, ConfigDataView};
use crate::directory::{Directory, DirectoryEntry, DirectoryView};
use crate::mask::{Mask, MaskView};
use crate::membership::{
    entered, find_channel, join_channel, leave_all, leave_channel, released, released_all,
    stored_at, StoredChannel, StoredChannelView,
};
use crate::registry::{DirectoryReplyView, DirectoryThreadMsgView, Error};
use crate::user_msg::{Error as UserError, User, UserThreadMsg};
use vstd::prelude::*;

verus! {

/// An order of a link to one of its proxies.
#[derive(Debug, PartialEq, Eq)]
pub enum VirtualUserThreadMsg {
    /// The channel to join.
    Join(String),
    /// The channel to leave.
    Part(String),
    /// Channel, message.
    PrivmsgChan(String, String),
    Exit,
}

/// A `VirtualUserThreadMsg` as plain values.
pub enum VirtualUserThreadMsgView {
    Join(Seq<char>),
    Part(Seq<char>),
    PrivmsgChan(Seq<char>, Seq<char>),
    Exit,
}

impl View for VirtualUserThreadMsg {
    type V = VirtualUserThreadMsgView;

    open spec fn view(&self) -> VirtualUserThreadMsgView {
        match self {
            VirtualUserThreadMsg::Join(chan) => VirtualUserThreadMsgView::Join(chan@),
            VirtualUserThreadMsg::Part(chan) => VirtualUserThreadMsgView::Part(chan@),
            VirtualUserThreadMsg::PrivmsgChan(chan, msg) => VirtualUserThreadMsgView::PrivmsgChan(
                chan@,
                msg@,
            ),
            VirtualUserThreadMsg::Exit => VirtualUserThreadMsgView::Exit,
        }
    }
}

/// A proxy as plain values.
pub struct VirtualUserWorkerView {
    /// The proxy's own mailbox.
    pub user: User,
    /// The proxy's id in the registry.
    pub entry: int,
    pub config: ConfigDataView,
    /// The channels that the proxy is in, in the order of joining.
    pub channels: Seq<StoredChannelView>,
    pub mask: MaskView,
}

/// A proxy and the directory after one order, and whether the proxy ends
/// with it.
pub struct ProxyTurn {
    pub worker: VirtualUserWorkerView,
    pub directory: DirectoryView,
    pub exit: bool,
}

/// The turn that leaves `worker` and `directory`.
pub open spec fn proxy_turn(
    worker: VirtualUserWorkerView,
    directory: DirectoryView,
    exit: bool,
) -> ProxyTurn {
    ProxyTurn { worker, directory, exit }
}

impl VirtualUserWorkerView {
    /// The proxy enters the channel called `chan` under its nick and mask.
    pub open spec fn on_join(self, chan: Seq<char>, directory: DirectoryView) -> ProxyTurn {
        let after = entered(self.channels, directory, chan, self.mask.nick, self.mask);
        ProxyTurn {
            worker: VirtualUserWorkerView { channels: after.0, ..self },
            directory: after.1,
            exit: false,
        }
    }

    /// The proxy gives up its slot in the channel called `chan`, if it is
    /// in it; the part carries no reason of its own.
    pub open spec fn on_part(self, chan: Seq<char>, directory: DirectoryView) -> ProxyTurn {
        let at = stored_at(self.channels, chan);
        if at < self.channels.len() {
            ProxyTurn {
                worker: VirtualUserWorkerView { channels: self.channels.remove(at), ..self },
                directory: released(directory, self.channels[at].thread),
                exit: false,
            }
        } else {
            proxy_turn(self, directory, false)
        }
    }

    /// The proxy sends `text` to the channel called `chan`, if it is in
    /// it.
    pub open spec fn on_privmsg_chan(
        self,
        chan: Seq<char>,
        text: Seq<char>,
        directory: DirectoryView,
    ) -> ProxyTurn {
        let at = stored_at(self.channels, chan);
        if at < self.channels.len() && directory.reaches(self.channels[at].thread.channel) {
            let entry = self.channels[at].thread;
            proxy_turn(
                self,
                directory.ask_channel(
                    entry.channel,
                    ChannelThreadMsgView::Privmsg(entry.id, self.mask.for_privmsg(), text),
                ),
                false,
            )
        } else {
            proxy_turn(self, directory, false)
        }
    }

    /// What an order of the link does to the proxy and the directory.
    pub open spec fn ordered(
        self,
        msg: VirtualUserThreadMsgView,
        directory: DirectoryView,
    ) -> ProxyTurn {
        match msg {
            VirtualUserThreadMsgView::Join(chan) => self.on_join(chan, directory),
            VirtualUserThreadMsgView::Part(chan) => self.on_part(chan, directory),
            VirtualUserThreadMsgView::PrivmsgChan(chan, text) => self.on_privmsg_chan(
                chan,
                text,
                directory,
            ),
            VirtualUserThreadMsgView::Exit => proxy_turn(self, directory, true),
        }
    }

    /// The directory after the proxy has given up everything it holds: its
    /// id first, then its channels in the order of joining.
    pub open spec fn torn_down(self, directory: DirectoryView) -> DirectoryView {
        released_all(
            directory.ask_registry(DirectoryThreadMsgView::DestroyUser(self.entry)),
            self.channels,
        )
    }
}

/// The proxy of one remote user.
#[derive(Debug)]
pub struct VirtualUserWorker {
    user: User,
    directory_entry: DirectoryEntry,
    config: Config,
    channels: Vec<StoredChannel>,
    mask: Mask,
}

impl View for VirtualUserWorker {
    type V = VirtualUserWorkerView;

    closed spec fn view(&self) -> VirtualUserWorkerView {
        VirtualUserWorkerView {
            user: self.user,
            entry: self.directory_entry@,
            config: self.config@,
            channels: self.channels.deep_view(),
            mask: self.mask@,
        }
    }
}

impl VirtualUserWorker {
    /// A proxy for the remote user `mask`, registered under `entry` with
    /// the mailbox `user`. It claims the nick of the mask. Where another
    /// user holds the nick there is no proxy, and the entry is given up.
    pub fn new(
        user: User,
        entry: DirectoryEntry,
        directory: &mut Directory,
        config: Config,
        mask: Mask,
    ) -> (r: Result<Self, Error>)
        requires
            old(directory)@.wf(),
        ensures
            final(directory)@.wf(),
            match r {
                Ok(worker) => {
                    let claim = DirectoryThreadMsgView::UpdateNick(entry@, mask@.nick);
                    &&& old(directory)@.registry.step(claim).1 == DirectoryReplyView::Nick(Ok(()))
                    &&& final(directory)@ == old(directory)@.ask_registry(claim)
                    &&& worker@ == (VirtualUserWorkerView {
                        user,
                        entry: entry@,
                        config: config@,
                        channels: Seq::empty(),
                        mask: mask@,
                    })
                },
                Err(e) => {
                    let claim = DirectoryThreadMsgView::UpdateNick(entry@, mask@.nick);
                    &&& old(directory)@.registry.step(claim).1 == DirectoryReplyView::Nick(
                        Err(Error::NickCollision),
                    )
                    &&& e == Error::NickCollision
                    &&& final(directory)@ == old(directory)@.ask_registry(claim).ask_registry(
                        DirectoryThreadMsgView::DestroyUser(entry@),
                    )
                },
            },
    {
        match entry.update_nick(directory, mask.nick.clone()) {
            Ok(()) => {
                let worker = VirtualUserWorker {
                    user,
                    directory_entry: entry,
                    config,
                    channels: Vec::new(),
                    mask,
                };
                assert(worker@.channels =~= Seq::empty());
                Ok(worker)
            },
            Err(_) => {
                entry.release(directory);
                Err(Error::NickCollision)
            },
        }
    }

    /// The mask of the remote user.
    pub fn get_mask(&self) -> (mask: &Mask)
        ensures
            mask@ == self@.mask,
    {
        &self.mask
    }

    /// The proxy's own mailbox.
    pub fn user(&self) -> (user: User)
        ensures
            user == self@.user,
    {
        self.user
    }

    /// Handles one notification: none changes anything, and none but
    /// `Exit` ends the proxy. A request for the mask is answered by the
    /// second part of the result.
    pub fn handle_user_msg(&mut self, msg: UserThreadMsg) -> (out: (
        bool,
        Option<Result<Mask, UserError>>,
    ))
        ensures
            final(self)@ == old(self)@,
            out.0 == (msg is Exit),
            match out.1 {
                Some(Ok(mask)) => msg is GetMask && mask@ == old(self)@.mask,
                Some(Err(_)) => false,
                None => !(msg is GetMask),
            },
    {
        match msg {
            UserThreadMsg::GetMask => (false, Some(Ok(self.mask.clone()))),
            UserThreadMsg::Exit => (true, None),
            _ => (false, None),
        }
    }

    /// Carries out one order of the link.
    pub fn handle_vuser_msg(
        &mut self,
        msg: VirtualUserThreadMsg,
        directory: &mut Directory,
    ) -> (exit:
        bool)
        requires
            old(directory)@.wf(),
        ensures
            final(directory)@.wf(),
            proxy_turn(final(self)@, final(directory)@, exit) == old(self)@.ordered(
                msg@,
                old(directory)@,
            ),
    {
        match msg {
            VirtualUserThreadMsg::Join(chan) => {
                self.join(chan, directory);
                false
            },
            VirtualUserThreadMsg::Part(chan) => {
                self.part(chan, directory);
                false
            },
            VirtualUserThreadMsg::PrivmsgChan(chan, text) => {
                self.privmsg_chan(chan, text, directory);
                false
            },
            VirtualUserThreadMsg::Exit => true,
        }
    }

    /// Leaves the channel called `chan`.
    pub fn part(&mut self, chan: String, directory: &mut Directory)
        requires
            old(directory)@.wf(),
        ensures
            final(directory)@.wf(),
            proxy_turn(final(self)@, final(directory)@, false) == old(self)@.on_part(
                chan@,
                old(directory)@,
            ),
    {
        let at = find_channel(&self.channels, &chan);
        if at < self.channels.len() {
            leave_channel(&mut self.channels, at, None, directory);
        }
    }

    /// Joins the channel called `chan`.
    pub fn join(&mut self, chan: String, directory: &mut Directory)
        requires
            old(directory)@.wf(),
        ensures
            final(directory)@.wf(),
            proxy_turn(final(self)@, final(directory)@, false) == old(self)@.on_join(
                chan@,
                old(directory)@,
            ),
    {
        join_channel(
            &mut self.channels,
            directory,
            chan,
            self.mask.nick.clone(),
            self.mask.clone(),
        );
    }

    /// Sends `text` to the channel called `chan`.
    pub fn privmsg_chan(&mut self, chan: String, text: String, directory: &mut Directory)
        requires
            old(directory)@.wf(),
        ensures
            final(directory)@.wf(),
            proxy_turn(final(self)@, final(directory)@, false) == old(self)@.on_privmsg_chan(
                chan@,
                text@,
                old(directory)@,
            ),
    {
        let at = find_channel(&self.channels, &chan);
        if at < self.channels.len() {
            assert(self@.channels[at as int] == self.channels@[at as int]@);
            let _ = self.channels[at].thread.privmsg(directory, self.mask.for_privmsg(), text);
        }
    }

    /// Ends the proxy: it gives up its id and the slots of its channels.
    pub fn release(self, directory: &mut Directory)
        requires
            old(directory)@.wf(),
        ensures
            final(directory)@.wf(),
            final(directory)@ == self@.torn_down(old(directory)@),
    {
        let VirtualUserWorker { user, directory_entry, config, channels, mask } = self;
        directory_entry.release(directory);
        leave_all(channels, directory);
    }
}

/// A link's handle to one of its proxies.
#[derive(Debug)]
pub struct VirtualUser {
    thread: VirtualUserWorker,
}

impl View for VirtualUser {
    type V = VirtualUserWorkerView;

    closed spec fn view(&self) -> VirtualUserWorkerView {
        self.thread@
    }
}

impl VirtualUser {
    pub fn new(t: VirtualUserWorker) -> (handle: Self)
        ensures
            handle@ == t@,
    {
        VirtualUser { thread: t }
    }

    /// The mask of the remote user.
    pub fn get_mask(&self) -> (mask: &Mask)
        ensures
            mask@ == self@.mask,
    {
        self.thread.get_mask()
    }

    /// The proxy's own mailbox.
    pub fn user(&self) -> (user: User)
        ensures
            user == self@.user,
    {
        self.thread.user()
    }

    /// Orders the proxy to join the channel called `chan`.
    pub fn join(&mut self, chan: String, directory: &mut Directory)
        requires
            old(directory)@.wf(),
        ensures
            final(directory)@.wf(),
            proxy_turn(final(self)@, final(directory)@, false) == old(self)@.on_join(
                chan@,
                old(directory)@,
            ),
    {
        self.thread.join(chan, directory)
    }

    /// Orders the proxy to leave the channel called `chan`.
    pub fn part(&mut self, chan: String, directory: &mut Directory)
        requires
            old(directory)@.wf(),
        ensures
            final(directory)@.wf(),
            proxy_turn(final(self)@, final(directory)@, false) == old(self)@.on_part(
                chan@,
                old(directory)@,
            ),
    {
        self.thread.part(chan, directory)
    }

    /// Orders the proxy to send `msg` to the channel called `chan`.
    pub fn privmsg_chan(&mut self, chan: String, msg: String, directory: &mut Directory)
        requires
            old(directory)@.wf(),
        ensures
            final(directory)@.wf(),
            proxy_turn(final(self)@, final(directory)@, false) == old(self)@.on_privmsg_chan(
                chan@,
                msg@,
                old(directory)@,
            ),
    {
        self.thread.privmsg_chan(chan, msg, directory)
    }

    /// Hands a notification to the proxy.
    pub fn notify(&mut self, msg: UserThreadMsg) -> (out: (bool, Option<Result<Mask, UserError>>))
        ensures
            final(self)@ == old(self)@,
            out.0 == (msg is Exit),
            match out.1 {
                Some(Ok(mask)) => msg is GetMask && mask@ == old(self)@.mask,
                Some(Err(_)) => false,
                None => !(msg is GetMask),
            },
    {
        self.thread.handle_user_msg(msg)
    }

    /// Ends the proxy.
    pub fn release(self, directory: &mut Directory)
        requires
            old(directory)@.wf(),
        ensures
            final(directory)@.wf(),
            final(directory)@ == self@.torn_down(old(directory)@),
    {
        self.thread.release(directory)
    }
}

/// The ways to a proxy: the link's handle for orders, and through it the
/// proxy's mailbox for notifications.
#[derive(Debug)]
pub struct VirtualUserChannels {
    pub vuser_thread: VirtualUser,
}

impl DeepView for VirtualUserChannels {
    type V = VirtualUserWorkerView;

    open spec fn deep_view(&self) -> VirtualUserWorkerView {
        self.vuser_thread@
    }
}

impl VirtualUserChannels {
    /// The proxy's mailbox, where its notifications go.
    pub fn user_thread(&self) -> (user: User)
        ensures
            user == self.deep_view().user,
    {
        self.vuser_thread.user()
    }

    /// Registers a proxy for the remote user `mask` under a new mailbox.
    /// Where another user holds the nick of the mask nothing is left of the
    /// attempt but the mailbox address that it used up.
    pub fn new(directory: &mut Directory, config: Config, mask: Mask) -> (r: Result<Self, Error>)
        requires
            old(directory)@.wf(),
        ensures
            final(directory)@.wf(),
            match r {
                Ok(made) => introduced(old(directory)@, config@, mask@) == Some(
                    (final(directory)@, made.deep_view()),
                ),
                Err(e) => introduced(old(directory)@, config@, mask@) is None && e
                    == Error::NickCollision && final(directory)@ == turned_away(
                    old(directory)@,
                    mask@,
                ),
            },
    {
        let user = directory.new_mailbox();
        let entry = directory.new_user(user);
        match VirtualUserWorker::new(user, entry, directory, config, mask) {
            Ok(worker) => Ok(
                VirtualUserChannels { vuser_thread: VirtualUser::new(worker) },
            ),
            Err(e) => Err(e),
        }
    }
}

/// The directory after a mailbox address has been used up.
pub open spec fn next_address(directory: DirectoryView) -> DirectoryView {
    DirectoryView {
        next_mailbox: if directory.next_mailbox == u64::MAX {
            0
        } else {
            (directory.next_mailbox + 1) as u64
        },
        ..directory
    }
}

/// The directory and the proxy after the remote user `mask` has been
/// introduced: a new mailbox, a new session in the registry, and the nick
/// claimed for it. `None` where another user holds the nick.
pub open spec fn introduced(
    directory: DirectoryView,
    config: ConfigDataView,
    mask: MaskView,
) -> Option<
    (DirectoryView, VirtualUserWorkerView),
> {
    let user = User { thread: directory.next_mailbox };
    let id = crate::slots::first_free(directory.registry.users);
    let entered = next_address(directory).ask_registry(DirectoryThreadMsgView::NewUser(user));
    let claim = DirectoryThreadMsgView::UpdateNick(id, mask.nick);
    if entered.registry.step(claim).1 == DirectoryReplyView::Nick(Ok(())) {
        Some(
            (
                entered.ask_registry(claim),
                VirtualUserWorkerView { user, entry: id, config, channels: Seq::empty(), mask },
            ),
        )
    } else {
        None
    }
}

/// The directory after the introduction of a remote user has failed
/// because its nick is taken: the mailbox address is used up, and the
/// session that was registered for it is forgotten again.
pub open spec fn turned_away(directory: DirectoryView, mask: MaskView) -> DirectoryView {
    let user = User { thread: directory.next_mailbox };
    let id = crate::slots::first_free(directory.registry.users);
    next_address(directory).ask_registry(DirectoryThreadMsgView::NewUser(user)).ask_registry(
        DirectoryThreadMsgView::UpdateNick(id, mask.nick),
    ).ask_registry(DirectoryThreadMsgView::DestroyUser(id))
}

} // verus!
