//! A channel: the slot table of its members, and the notifications that a
//! request to it sets off.
//!
//! `ChannelWorker` handles one request at a time. What it hands back names
//! the answer for the requester and, in the order in which they are to be
//! sent, the notifications for the members. The answer goes out first: the
//! requester of a join waits for its slot before it reads any notification.

use crate::mask::{Mask, MaskView};
use crate::slots::{first_free, is_first_free, lemma_first_free, occupied, placed, vacated};
use crate::user_msg::{Delivery, DeliveryView, User, UserThreadMsg, UserThreadMsgView};
use vstd::prelude::*;

verus! {

/// The slot of a member in its channel.
pub type ChannelId = usize;

/// A member of a channel: where its notifications go, and the mask under
/// which the channel shows it.
#[derive(Debug, PartialEq, Eq)]
pub struct ChannelMember {
    pub user: User,
    pub mask: Mask,
}

/// A `ChannelMember` as plain values.
pub struct ChannelMemberView {
    pub user: User,
    pub mask: MaskView,
}

impl View for ChannelMember {
    type V = ChannelMemberView;

    open spec fn view(&self) -> ChannelMemberView {
        ChannelMemberView { user: self.user, mask: self.mask@ }
    }
}

impl DeepView for ChannelMember {
    type V = ChannelMemberView;

    open spec fn deep_view(&self) -> ChannelMemberView {
        self@
    }
}

/// A request to a channel.
#[derive(Debug, PartialEq, Eq)]
pub enum ChannelThreadMsg {
    /// The joining user and its mask. Whoever gets the slot back must put
    /// it into a `ChannelEntry` before anything else, so that the slot is
    /// released exactly once.
    Join(User, Mask),
    /// Slot, the leaver's mask as the others shall see it, the reason.
    Part(ChannelId, String, Option<String>),
    /// The sender's slot, its mask, the message.
    Privmsg(ChannelId, String, String),
    /// The asking member's slot.
    Who(ChannelId),
    GetUsers,
    GetName,
    Exit,
}

/// A `ChannelThreadMsg` as plain values.
pub enum ChannelThreadMsgView {
    Join(User, MaskView),
    Part(int, Seq<char>, Option<Seq<char>>),
    Privmsg(int, Seq<char>, Seq<char>),
    Who(int),
    GetUsers,
    GetName,
    Exit,
}

impl View for ChannelThreadMsg {
    type V = ChannelThreadMsgView;

    open spec fn view(&self) -> ChannelThreadMsgView {
        match self {
            ChannelThreadMsg::Join(user, mask) => ChannelThreadMsgView::Join(*user, mask@),
            ChannelThreadMsg::Part(id, mask, reason) => ChannelThreadMsgView::Part(
                *id as int,
                mask@,
                reason.deep_view(),
            ),
            ChannelThreadMsg::Privmsg(id, mask, msg) => ChannelThreadMsgView::Privmsg(
                *id as int,
                mask@,
                msg@,
            ),
            ChannelThreadMsg::Who(id) => ChannelThreadMsgView::Who(*id as int),
            ChannelThreadMsg::GetUsers => ChannelThreadMsgView::GetUsers,
            ChannelThreadMsg::GetName => ChannelThreadMsgView::GetName,
            ChannelThreadMsg::Exit => ChannelThreadMsgView::Exit,
        }
    }
}

/// The answer of a channel to the requester.
#[derive(Debug, PartialEq, Eq)]
pub enum ChannelReply {
    /// The request asks for no answer.
    Nothing,
    /// The slot that the joining user got.
    Joined(ChannelId),
    /// The members, in slot order.
    Users(Vec<User>),
    /// The channel's name.
    Name(String),
}

/// A `ChannelReply` as plain values.
pub enum ChannelReplyView {
    Nothing,
    Joined(int),
    Users(Seq<User>),
    Name(Seq<char>),
}

impl View for ChannelReply {
    type V = ChannelReplyView;

    open spec fn view(&self) -> ChannelReplyView {
        match self {
            ChannelReply::Nothing => ChannelReplyView::Nothing,
            ChannelReply::Joined(id) => ChannelReplyView::Joined(*id as int),
            ChannelReply::Users(users) => ChannelReplyView::Users(users@),
            ChannelReply::Name(name) => ChannelReplyView::Name(name@),
        }
    }
}

/// What handling one request comes to.
#[derive(Debug, PartialEq, Eq)]
pub struct ChannelOutcome {
    /// Whether the channel shall stop.
    pub exit: bool,
    /// The answer, to be sent before any of the notifications.
    pub reply: ChannelReply,
    /// The notifications, in the order in which they are to be sent.
    pub deliveries: Vec<Delivery>,
}

/// A `ChannelOutcome` as plain values.
pub struct ChannelOutcomeView {
    pub exit: bool,
    pub reply: ChannelReplyView,
    pub deliveries: Seq<DeliveryView>,
}

impl View for ChannelOutcome {
    type V = ChannelOutcomeView;

    open spec fn view(&self) -> ChannelOutcomeView {
        ChannelOutcomeView {
            exit: self.exit,
            reply: self.reply@,
            deliveries: self.deliveries.deep_view(),
        }
    }
}

/// The reason that a part carries where the leaver gave none.
pub open spec fn default_part_reason() -> Seq<char> {
    "No reason provided"@
}

/// One copy of `msg` for every member in slot order, but for the member in
/// slot `skip`.
pub open spec fn fan_out(
    users: Seq<Option<ChannelMemberView>>,
    skip: Option<int>,
    msg: UserThreadMsgView,
) -> Seq<DeliveryView>
    decreases users.len(),
{
    if users.len() == 0 {
        Seq::empty()
    } else {
        let before = fan_out(users.drop_last(), skip, msg);
        match users.last() {
            Some(member) => if skip != Some(users.len() - 1) {
                before.push(DeliveryView { to: member.user, msg })
            } else {
                before
            },
            None => before,
        }
    }
}

/// The nicks of the members, in slot order.
pub open spec fn member_nicks(users: Seq<Option<ChannelMemberView>>) -> Seq<Seq<char>>
    decreases users.len(),
{
    if users.len() == 0 {
        Seq::empty()
    } else {
        let before = member_nicks(users.drop_last());
        match users.last() {
            Some(member) => before.push(member.mask.nick),
            None => before,
        }
    }
}

/// The handles of the members, in slot order.
pub open spec fn member_handles(users: Seq<Option<ChannelMemberView>>) -> Seq<User>
    decreases users.len(),
{
    if users.len() == 0 {
        Seq::empty()
    } else {
        let before = member_handles(users.drop_last());
        match users.last() {
            Some(member) => before.push(member.user),
            None => before,
        }
    }
}

/// The state of a channel as plain values.
pub struct ChannelWorkerView {
    pub name: Seq<char>,
    /// The nick of the user for whom the channel was created.
    pub nick: Seq<char>,
    pub users: Seq<Option<ChannelMemberView>>,
}

impl ChannelOutcomeView {
    /// No answer and nothing to send.
    pub open spec fn quiet() -> ChannelOutcomeView {
        ChannelOutcomeView {
            exit: false,
            reply: ChannelReplyView::Nothing,
            deliveries: Seq::empty(),
        }
    }
}

impl ChannelWorkerView {
    /// The channel after `msg`, and what handling `msg` comes to.
    ///
    /// A join takes the free slot with the lowest index, tells every member
    /// that was there before, then the new member itself. A part of a taken
    /// slot tells the leaver, then every other member, and frees the slot; a
    /// part of a free slot does nothing. A message goes to every member but
    /// the sender. A `Who` hands the asking member the nicks of all members.
    pub open spec fn step(self, msg: ChannelThreadMsgView) -> (
        ChannelWorkerView,
        ChannelOutcomeView,
    ) {
        match msg {
            ChannelThreadMsgView::Join(user, mask) => {
                let id = first_free(self.users);
                let member = ChannelMemberView { user, mask };
                (
                    ChannelWorkerView { users: placed(self.users, id, member), ..self },
                    ChannelOutcomeView {
                        exit: false,
                        reply: ChannelReplyView::Joined(id),
                        deliveries: fan_out(
                            self.users,
                            None,
                            UserThreadMsgView::JoinOther(mask.for_privmsg(), self.name),
                        ).push(
                            DeliveryView { to: user, msg: UserThreadMsgView::JoinSelf(self.name) },
                        ),
                    },
                )
            },
            ChannelThreadMsgView::Part(id, mask, reason) => {
                let why = match reason {
                    Some(r) => r,
                    None => default_part_reason(),
                };
                if occupied(self.users, id) {
                    (
                        ChannelWorkerView { users: vacated(self.users, id), ..self },
                        ChannelOutcomeView {
                            exit: false,
                            reply: ChannelReplyView::Nothing,
                            deliveries: seq![
                                DeliveryView {
                                    to: self.users[id]->0.user,
                                    msg: UserThreadMsgView::PartSelf(self.name, why),
                                },
                            ] + fan_out(
                                self.users,
                                Some(id),
                                UserThreadMsgView::PartOther(mask, self.name, why),
                            ),
                        },
                    )
                } else {
                    (self, ChannelOutcomeView::quiet())
                }
            },
            ChannelThreadMsgView::Privmsg(id, mask, text) => (
                self,
                ChannelOutcomeView {
                    deliveries: fan_out(
                        self.users,
                        Some(id),
                        UserThreadMsgView::PrivmsgChan(mask, self.name, text),
                    ),
                    ..ChannelOutcomeView::quiet()
                },
            ),
            ChannelThreadMsgView::Who(id) => if occupied(self.users, id) {
                (
                    self,
                    ChannelOutcomeView {
                        deliveries: seq![
                            DeliveryView {
                                to: self.users[id]->0.user,
                                msg: UserThreadMsgView::TransmitNames(
                                    self.name,
                                    member_nicks(self.users),
                                ),
                            },
                        ],
                        ..ChannelOutcomeView::quiet()
                    },
                )
            } else {
                (self, ChannelOutcomeView::quiet())
            },
            ChannelThreadMsgView::GetUsers => (
                self,
                ChannelOutcomeView {
                    reply: ChannelReplyView::Users(member_handles(self.users)),
                    ..ChannelOutcomeView::quiet()
                },
            ),
            ChannelThreadMsgView::GetName => (
                self,
                ChannelOutcomeView {
                    reply: ChannelReplyView::Name(self.name),
                    ..ChannelOutcomeView::quiet()
                },
            ),
            ChannelThreadMsgView::Exit => (
                self,
                ChannelOutcomeView { exit: true, ..ChannelOutcomeView::quiet() },
            ),
        }
    }
}

/// A channel: its name and the slot table of its members.
#[derive(Debug)]
pub struct ChannelWorker {
    name: String,
    nick: String,
    users: Vec<Option<ChannelMember>>,
}

impl View for ChannelWorker {
    type V = ChannelWorkerView;

    closed spec fn view(&self) -> ChannelWorkerView {
        ChannelWorkerView { name: self.name@, nick: self.nick@, users: self.users.deep_view() }
    }
}

impl ChannelOutcome {
    /// No answer and nothing to send.
    pub fn quiet() -> (out: ChannelOutcome)
        ensures
            out@ == ChannelOutcomeView::quiet(),
    {
        let out = ChannelOutcome {
            exit: false,
            reply: ChannelReply::Nothing,
            deliveries: Vec::new(),
        };
        assert(out.deliveries.deep_view() =~= Seq::empty());
        out
    }
}

impl ChannelWorker {
    /// An empty channel called `name`, created for the user `nick`.
    pub fn new(name: String, nick: String) -> (worker: Self)
        ensures
            worker@ == (ChannelWorkerView { name: name@, nick: nick@, users: Seq::empty() }),
    {
        let worker = ChannelWorker { name, nick, users: Vec::new() };
        assert(worker.users.deep_view() =~= Seq::empty());
        worker
    }

    /// Handles one request.
    pub fn handle_msg(&mut self, msg: ChannelThreadMsg) -> (out: ChannelOutcome)
        ensures
            (final(self)@, out@) == old(self)@.step(msg@),
    {
        match msg {
            ChannelThreadMsg::Join(user, mask) => {
                let id = self.free_slot();
                let mut deliveries = self.introduce(&mask);
                let ghost before = deliveries.deep_view();
                let note = self.welcome(&user);
                deliveries.push(note);
                assert(deliveries.deep_view() =~= before.push(note@));
                let ghost slots = self.users.deep_view();
                let member = ChannelMember { user, mask };
                if id < self.users.len() {
                    self.users[id] = Some(member);
                } else {
                    self.users.push(Some(member));
                }
                assert(self.users.deep_view() =~= placed(slots, id as int, member@));
                ChannelOutcome { exit: false, reply: ChannelReply::Joined(id), deliveries }
            },
            ChannelThreadMsg::Part(id, mask, reason) => {
                let reason = match reason {
                    Some(r) => r,
                    None => String::from_str("No reason provided"),
                };
                let leaver = match self.member(id) {
                    Some(user) => user,
                    None => {
                        return ChannelOutcome::quiet();
                    },
                };
                let mut deliveries: Vec<Delivery> = Vec::new();
                let note = leaver.inform_self_part(self.name.clone(), reason.clone());
                deliveries.push(note);
                let mut others = self.adios(id, mask, reason);
                let ghost tail = others.deep_view();
                deliveries.append(&mut others);
                assert(deliveries.deep_view() =~= seq![note@] + tail);
                let ghost slots = self.users.deep_view();
                self.users[id] = None;
                assert(self.users.deep_view() =~= vacated(slots, id as int));
                ChannelOutcome { exit: false, reply: ChannelReply::Nothing, deliveries }
            },
            ChannelThreadMsg::Who(id) => {
                let mut out = ChannelOutcome::quiet();
                match self.member(id) {
                    Some(user) => {
                        let names = self.nicks();
                        let note = user.transmit_names(self.name.clone(), names);
                        out.deliveries.push(note);
                        assert(out.deliveries.deep_view() =~= seq![note@]);
                    },
                    None => {},
                }
                out
            },
            ChannelThreadMsg::Privmsg(id, mask, msg) => {
                let note = UserThreadMsg::PrivmsgChan(mask, self.name.clone(), msg);
                let deliveries = self.fan_out(Some(id), &note);
                ChannelOutcome { exit: false, reply: ChannelReply::Nothing, deliveries }
            },
            ChannelThreadMsg::GetUsers => {
                let mut out = ChannelOutcome::quiet();
                out.reply = ChannelReply::Users(self.handles());
                out
            },
            ChannelThreadMsg::GetName => {
                let mut out = ChannelOutcome::quiet();
                out.reply = ChannelReply::Name(self.name.clone());
                out
            },
            ChannelThreadMsg::Exit => {
                let mut out = ChannelOutcome::quiet();
                out.exit = true;
                out
            },
        }
    }

    /// The channel's name.
    pub fn name(&self) -> (name: &String)
        ensures
            name@ == self@.name,
    {
        &self.name
    }

    fn free_slot(&self) -> (id: usize)
        ensures
            id == first_free(self@.users),
            id <= self.users.len(),
    {
        let mut i: usize = 0;
        while i < self.users.len() && self.users[i].is_some()
            invariant
                i <= self.users.len(),
                forall|j: int| 0 <= j < i ==> (#[trigger] self.users.deep_view()[j]) is Some,
            decreases self.users.len() - i,
        {
            i += 1;
        }
        proof {
            let slots = self.users.deep_view();
            if i < self.users.len() {
                assert(slots[i as int] == self.users@[i as int].deep_view());
            }
            assert(is_first_free(slots, i as int));
            lemma_first_free(slots);
        }
        i
    }

    fn member(&self, id: usize) -> (user: Option<User>)
        ensures
            match user {
                Some(u) => occupied(self@.users, id as int) && u == self@.users[id as int]->0.user,
                None => !occupied(self@.users, id as int),
            },
    {
        if id < self.users.len() {
            match &self.users[id] {
                Some(member) => Some(member.user),
                None => None,
            }
        } else {
            None
        }
    }

    fn fan_out(&self, skip: Option<usize>, msg: &UserThreadMsg) -> (out: Vec<Delivery>)
        ensures
            out.deep_view() == fan_out(
                self@.users,
                match skip {
                    Some(id) => Some(id as int),
                    None => None,
                },
                msg@,
            ),
    {
        let ghost users = self.users.deep_view();
        let ghost skipped: Option<int> = match skip {
            Some(id) => Some(id as int),
            None => None,
        };
        let mut out: Vec<Delivery> = Vec::new();
        let mut i: usize = 0;
        assert(users.take(0) =~= Seq::empty());
        assert(out.deep_view() =~= Seq::empty());
        while i < self.users.len()
            invariant
                i <= self.users.len(),
                users == self.users.deep_view(),
                skipped == match skip {
                    Some(id) => Some(id as int),
                    None => None,
                },
                out.deep_view() == fan_out(users.take(i as int), skipped, msg@),
            decreases self.users.len() - i,
        {
            let ghost before = out.deep_view();
            assert(users.take(i + 1).drop_last() =~= users.take(i as int));
            assert(users.take(i + 1).last() == self.users@[i as int].deep_view());
            let skip_this = match skip {
                Some(id) => id == i,
                None => false,
            };
            match &self.users[i] {
                Some(member) => {
                    if !skip_this {
                        let note = Delivery { to: member.user, msg: msg.clone() };
                        out.push(note);
                        assert(out.deep_view() =~= before.push(note@));
                    }
                },
                None => {},
            }
            i += 1;
        }
        assert(users.take(self.users.len() as int) =~= users);
        out
    }

    /// Tells the members that `mask` is joining.
    fn introduce(&self, mask: &Mask) -> (out: Vec<Delivery>)
        ensures
            out.deep_view() == fan_out(
                self@.users,
                None,
                UserThreadMsgView::JoinOther(mask@.for_privmsg(), self@.name),
            ),
    {
        let note = UserThreadMsg::JoinOther(mask.for_privmsg(), self.name.clone());
        self.fan_out(None, &note)
    }

    /// Tells the members other than the one in slot `id` that `mask` has
    /// left.
    fn adios(&self, id: usize, mask: String, reason: String) -> (out: Vec<Delivery>)
        ensures
            out.deep_view() == fan_out(
                self@.users,
                Some(id as int),
                UserThreadMsgView::PartOther(mask@, self@.name, reason@),
            ),
    {
        let note = UserThreadMsg::PartOther(mask, self.name.clone(), reason);
        self.fan_out(Some(id), &note)
    }

    /// Tells `user` that it has joined.
    fn welcome(&self, user: &User) -> (out: Delivery)
        ensures
            out@ == (DeliveryView { to: *user, msg: UserThreadMsgView::JoinSelf(self@.name) }),
    {
        user.inform_self_join(self.name.clone())
    }

    /// The nicks of the members, in slot order.
    pub fn nicks(&self) -> (out: Vec<String>)
        ensures
            out.deep_view() == member_nicks(self@.users),
    {
        let ghost users = self.users.deep_view();
        let mut out: Vec<String> = Vec::new();
        let mut i: usize = 0;
        assert(users.take(0) =~= Seq::empty());
        assert(out.deep_view() =~= Seq::empty());
        while i < self.users.len()
            invariant
                i <= self.users.len(),
                users == self.users.deep_view(),
                out.deep_view() == member_nicks(users.take(i as int)),
            decreases self.users.len() - i,
        {
            let ghost before = out.deep_view();
            assert(users.take(i + 1).drop_last() =~= users.take(i as int));
            assert(users.take(i + 1).last() == self.users@[i as int].deep_view());
            match &self.users[i] {
                Some(member) => {
                    let nick = member.mask.nick.clone();
                    out.push(nick);
                    assert(out.deep_view() =~= before.push(nick@));
                },
                None => {},
            }
            i += 1;
        }
        assert(users.take(self.users.len() as int) =~= users);
        out
    }

    fn handles(&self) -> (out: Vec<User>)
        ensures
            out@ == member_handles(self@.users),
    {
        let ghost users = self.users.deep_view();
        let mut out: Vec<User> = Vec::new();
        let mut i: usize = 0;
        assert(users.take(0) =~= Seq::empty());
        while i < self.users.len()
            invariant
                i <= self.users.len(),
                users == self.users.deep_view(),
                out@ == member_handles(users.take(i as int)),
            decreases self.users.len() - i,
        {
            assert(users.take(i + 1).drop_last() =~= users.take(i as int));
            assert(users.take(i + 1).last() == self.users@[i as int].deep_view());
            match &self.users[i] {
                Some(member) => {
                    out.push(member.user);
                },
                None => {},
            }
            i += 1;
        }
        assert(users.take(self.users.len() as int) =~= users);
        out
    }
}

} // verus!
