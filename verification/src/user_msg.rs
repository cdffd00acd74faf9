//! The mailbox of a user: its address, the notifications it accepts, and
//! notifications on their way to it.

use vstd::prelude::*;

verus! {

/// The address of a user's mailbox.
pub type UserThread = u64;

/// A notification for a session or for the proxy of a remote user.
#[derive(Debug, PartialEq, Eq)]
pub enum UserThreadMsg {
    /// Sender's mask, message.
    Privmsg(String, String),
    /// Sender's mask, channel, message.
    PrivmsgChan(String, String, String),
    /// The channel that the user itself has joined.
    JoinSelf(String),
    /// Channel, reason: the user itself has left.
    PartSelf(String, String),
    /// Mask, channel: another user has joined.
    JoinOther(String, String),
    /// Mask, channel, reason: another user has left.
    PartOther(String, String, String),
    /// A request for the user's mask.
    GetMask,
    /// Channel, the nicks of its members.
    TransmitNames(String, Vec<String>),
    Exit,
}

/// A `UserThreadMsg` as plain values.
pub enum UserThreadMsgView {
    Privmsg(Seq<char>, Seq<char>),
    PrivmsgChan(Seq<char>, Seq<char>, Seq<char>),
    JoinSelf(Seq<char>),
    PartSelf(Seq<char>, Seq<char>),
    JoinOther(Seq<char>, Seq<char>),
    PartOther(Seq<char>, Seq<char>, Seq<char>),
    GetMask,
    TransmitNames(Seq<char>, Seq<Seq<char>>),
    Exit,
}

impl View for UserThreadMsg {
    type V = UserThreadMsgView;

    open spec fn view(&self) -> UserThreadMsgView {
        match self {
            UserThreadMsg::Privmsg(src, msg) => UserThreadMsgView::Privmsg(src@, msg@),
            UserThreadMsg::PrivmsgChan(src, chan, msg) => UserThreadMsgView::PrivmsgChan(
                src@,
                chan@,
                msg@,
            ),
            UserThreadMsg::JoinSelf(chan) => UserThreadMsgView::JoinSelf(chan@),
            UserThreadMsg::PartSelf(chan, reason) => UserThreadMsgView::PartSelf(chan@, reason@),
            UserThreadMsg::JoinOther(mask, chan) => UserThreadMsgView::JoinOther(mask@, chan@),
            UserThreadMsg::PartOther(mask, chan, reason) => UserThreadMsgView::PartOther(
                mask@,
                chan@,
                reason@,
            ),
            UserThreadMsg::GetMask => UserThreadMsgView::GetMask,
            UserThreadMsg::TransmitNames(chan, names) => UserThreadMsgView::TransmitNames(
                chan@,
                names.deep_view(),
            ),
            UserThreadMsg::Exit => UserThreadMsgView::Exit,
        }
    }
}

impl Clone for UserThreadMsg {
    fn clone(&self) -> (ret: UserThreadMsg)
        ensures
            ret@ == self@,
    {
        match self {
            UserThreadMsg::Privmsg(src, msg) => UserThreadMsg::Privmsg(src.clone(), msg.clone()),
            UserThreadMsg::PrivmsgChan(src, chan, msg) => UserThreadMsg::PrivmsgChan(
                src.clone(),
                chan.clone(),
                msg.clone(),
            ),
            UserThreadMsg::JoinSelf(chan) => UserThreadMsg::JoinSelf(chan.clone()),
            UserThreadMsg::PartSelf(chan, reason) => UserThreadMsg::PartSelf(
                chan.clone(),
                reason.clone(),
            ),
            UserThreadMsg::JoinOther(mask, chan) => UserThreadMsg::JoinOther(
                mask.clone(),
                chan.clone(),
            ),
            UserThreadMsg::PartOther(mask, chan, reason) => UserThreadMsg::PartOther(
                mask.clone(),
                chan.clone(),
                reason.clone(),
            ),
            UserThreadMsg::GetMask => UserThreadMsg::GetMask,
            UserThreadMsg::TransmitNames(chan, names) => UserThreadMsg::TransmitNames(
                chan.clone(),
                names.clone(),
            ),
            UserThreadMsg::Exit => UserThreadMsg::Exit,
        }
    }
}

/// A handle to a user: the right to put notifications into its mailbox.
#[derive(Debug, Clone, Copy, PartialEq, Eq, Structural)]
pub struct User {
    pub thread: UserThread,
}

impl DeepView for User {
    type V = User;

    open spec fn deep_view(&self) -> User {
        *self
    }
}

/// A notification together with the user it is for.
#[derive(Debug, PartialEq, Eq)]
pub struct Delivery {
    pub to: User,
    pub msg: UserThreadMsg,
}

/// A `Delivery` as plain values.
pub struct DeliveryView {
    pub to: User,
    pub msg: UserThreadMsgView,
}

impl View for Delivery {
    type V = DeliveryView;

    open spec fn view(&self) -> DeliveryView {
        DeliveryView { to: self.to, msg: self.msg@ }
    }
}

impl DeepView for Delivery {
    type V = DeliveryView;

    open spec fn deep_view(&self) -> DeliveryView {
        self@
    }
}

/// Why a user could not answer.
#[derive(Debug, PartialEq, Eq)]
pub enum Error {
    /// The user has not completed its registration.
    InvalidState,
    SendError(&'static str),
    RecvError(&'static str),
}

impl User {
    pub fn new(thread: UserThread) -> (user: Self)
        ensures
            user.thread == thread,
    {
        User { thread }
    }

    /// A message from `src` for this user alone.
    pub fn privmsg(&self, src: String, msg: String) -> (out: Delivery)
        ensures
            out@ == (DeliveryView { to: *self, msg: UserThreadMsgView::Privmsg(src@, msg@) }),
    {
        Delivery { to: *self, msg: UserThreadMsg::Privmsg(src, msg) }
    }

    /// A message from `src` to the channel `chan`, of which this user is a
    /// member.
    pub fn privmsg_chan(&self, src: String, chan: String, msg: String) -> (out: Delivery)
        ensures
            out@ == (DeliveryView {
                to: *self,
                msg: UserThreadMsgView::PrivmsgChan(src@, chan@, msg@),
            }),
    {
        Delivery { to: *self, msg: UserThreadMsg::PrivmsgChan(src, chan, msg) }
    }

    /// Tells this user that it has joined `channel`.
    pub fn inform_self_join(&self, channel: String) -> (out: Delivery)
        ensures
            out@ == (DeliveryView { to: *self, msg: UserThreadMsgView::JoinSelf(channel@) }),
    {
        Delivery { to: *self, msg: UserThreadMsg::JoinSelf(channel) }
    }

    /// Tells this user that it has left `channel`.
    pub fn inform_self_part(&self, channel: String, reason: String) -> (out: Delivery)
        ensures
            out@ == (DeliveryView {
                to: *self,
                msg: UserThreadMsgView::PartSelf(channel@, reason@),
            }),
    {
        Delivery { to: *self, msg: UserThreadMsg::PartSelf(channel, reason) }
    }

    /// Tells this user that `mask` has joined `channel`.
    pub fn inform_other_join(&self, mask: String, channel: String) -> (out: Delivery)
        ensures
            out@ == (DeliveryView {
                to: *self,
                msg: UserThreadMsgView::JoinOther(mask@, channel@),
            }),
    {
        Delivery { to: *self, msg: UserThreadMsg::JoinOther(mask, channel) }
    }

    /// Tells this user that `mask` has left `channel`.
    pub fn inform_other_part(&self, mask: String, channel: String, reason: String) -> (out:
        Delivery)
        ensures
            out@ == (DeliveryView {
                to: *self,
                msg: UserThreadMsgView::PartOther(mask@, channel@, reason@),
            }),
    {
        Delivery { to: *self, msg: UserThreadMsg::PartOther(mask, channel, reason) }
    }

    /// Asks this user for its mask.
    pub fn get_mask(&self) -> (out: Delivery)
        ensures
            out@ == (DeliveryView { to: *self, msg: UserThreadMsgView::GetMask }),
    {
        Delivery { to: *self, msg: UserThreadMsg::GetMask }
    }

    /// Hands this user the nicks of the members of `channel`.
    pub fn transmit_names(&self, channel: String, names: Vec<String>) -> (out: Delivery)
        ensures
            out@ == (DeliveryView {
                to: *self,
                msg: UserThreadMsgView::TransmitNames(channel@, names.deep_view()),
            }),
    {
        Delivery { to: *self, msg: UserThreadMsg::TransmitNames(channel, names) }
    }
}

} // verus!
