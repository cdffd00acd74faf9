//! A server link: the state machine behind a connection to another daemon.
//!
//! A link opens with a burst that tells the peer who we are and what we
//! know: the link secret, our capabilities and our name, one `NICK` line
//! for every user, one `SJOIN` line for every channel, and `EOS`. A link
//! comes into being with its burst written; whatever the peer sends is
//! handled after that. For every user that the peer announces the link
//! keeps a proxy, which it finds again by nick.

use crate::channel::{member_nicks, ChannelWorkerView};
use crate::command::{ParsedCommand, ParsedCommandView, Verb};
use crate::config::{Config, ConfigDataView};
use crate::directory::{Directory, DirectoryView};
use crate::find::found_from;
use crate::mask::{Mask, MaskView};
use crate::proxy::{
    introduced, turned_away, VirtualUserChannels, VirtualUserWorkerView,
};
use crate::registry::session_handles;
use crate::reply::{ProtoOption, ProtoOptionView, SRPLView, SRPL};
use crate::text::{chars_of, join, joined, parse_u32, string_of, u32_value};
use crate::user_msg::{User, UserThreadMsg, UserThreadMsgView};
use crate::writer::{ReaderThreadMsg, Writer, WriterThreadMsg, WriterThreadMsgView};
use vstd::prelude::*;

verus! {

/// Where a link stands.
#[derive(Debug, Clone, Copy, PartialEq, Eq, Structural)]
pub enum LinkState {
    /// The peer's burst is still coming in.
    Sync,
    /// Both bursts are through.
    Connected,
}

/// How many operator marks (`@`) stand at position `i` of `s` and right
/// after it.
pub open spec fn marks(s: Seq<char>, i: int) -> nat
    decreases s.len() - i,
{
    if 0 <= i < s.len() && s[i] == '@' {
        1 + marks(s, i + 1)
    } else {
        0
    }
}

/// The nick in an entry of an `SJOIN` list: the entry without the operator
/// marks in front of it.
pub open spec fn nick_part(s: Seq<char>) -> Seq<char> {
    s.skip(marks(s, 0) as int)
}

/// The modes in an entry of an `SJOIN` list: an `o` for each operator
/// mark in front of the nick.
pub open spec fn mode_part(s: Seq<char>) -> Seq<char> {
    Seq::new(marks(s, 0), |i: int| 'o')
}

/// Takes an entry of an `SJOIN` list apart into the nick and the modes
/// that its operator marks stand for.
pub fn parse_nick(nick: String) -> (out: (String, Vec<char>))
    ensures
        out.0@ == nick_part(nick@),
        out.1@ == mode_part(nick@),
{
    let chars = chars_of(nick.as_str());
    let mut modes: Vec<char> = Vec::new();
    let mut i: usize = 0;
    while i < chars.len() && chars[i] == '@'
        invariant
            i <= chars.len(),
            chars@ == nick@,
            marks(chars@, 0) == i + marks(chars@, i as int),
            modes@ == Seq::new(i as nat, |k: int| 'o'),
        decreases chars.len() - i,
    {
        modes.push('o');
        i += 1;
        assert(modes@ =~= Seq::new(i as nat, |k: int| 'o'));
    }
    let outnick = string_of(&chars, i, chars.len());
    assert(chars@.subrange(i as int, chars.len() as int) =~= chars@.skip(i as int));
    (outnick, modes)
}

/// The capabilities that a link announces.
pub open spec fn capabilities(config: ConfigDataView) -> Seq<ProtoOptionView> {
    seq![
        ProtoOptionView::EAUTH(config.server_name),
        ProtoOptionView::NOQUIT,
        ProtoOptionView::NICKv2,
        ProtoOptionView::SJOIN,
        ProtoOptionView::SJ3,
        ProtoOptionView::CLK,
        ProtoOptionView::NICKIP,
        ProtoOptionView::TKLEXT,
        ProtoOptionView::ESVID,
        ProtoOptionView::MLOCK,
        ProtoOptionView::EXTSWHOIS,
    ]
}

/// How a link introduces itself: the secret, the capabilities, and the
/// server's name with one hop and its description.
pub open spec fn introduction(config: ConfigDataView) -> Seq<WriterThreadMsgView> {
    seq![
        WriterThreadMsgView::SSend(SRPLView::Pass(config.server_pass)),
        WriterThreadMsgView::SSend(SRPLView::ProtoCtl(capabilities(config))),
        WriterThreadMsgView::SSend(SRPLView::Server(config.server_name, 1, config.server_desc)),
    ]
}

/// The line that announces the user `mask` to a peer.
pub open spec fn nick_line(mask: MaskView) -> SRPLView {
    SRPLView::Nick(
        mask.nick,
        mask.hops,
        mask.timestamp,
        mask.user,
        mask.host,
        mask.servername,
        "0"@,
        ""@,
        "*"@,
        mask.real,
    )
}

/// One `NICK` line for each of `masks`, in order.
pub open spec fn nick_lines(masks: Seq<MaskView>) -> Seq<WriterThreadMsgView> {
    Seq::new(masks.len(), |i: int| WriterThreadMsgView::SSend(nick_line(masks[i])))
}

/// The line that announces the channel `channel` and its members.
pub open spec fn sjoin_line(channel: ChannelWorkerView) -> SRPLView {
    SRPLView::Sjoin("0"@, channel.name, member_nicks(channel.users))
}

/// One `SJOIN` line for each of `channels`, in order.
pub open spec fn sjoin_lines(channels: Seq<ChannelWorkerView>) -> Seq<WriterThreadMsgView> {
    Seq::new(channels.len(), |i: int| WriterThreadMsgView::SSend(sjoin_line(channels[i])))
}

/// The users that have answered, in the order of `answers`.
pub open spec fn answerers(answers: Seq<(User, MaskView)>) -> Seq<User> {
    Seq::new(answers.len(), |i: int| answers[i].0)
}

/// The mask that `user` has answered with: that of its first answer, if it
/// has answered at all.
pub open spec fn answer_of(answers: Seq<(User, MaskView)>, user: User) -> Option<MaskView> {
    let at = found_from(answerers(answers), user, 0);
    if at < answers.len() {
        Some(answers[at].1)
    } else {
        None
    }
}

/// The masks of those of `users` that have answered, in the order of
/// `users`.
pub open spec fn answered(users: Seq<User>, answers: Seq<(User, MaskView)>) -> Seq<MaskView>
    decreases users.len(),
{
    if users.len() == 0 {
        Seq::empty()
    } else {
        let before = answered(users.drop_last(), answers);
        match answer_of(answers, users.last()) {
            Some(mask) => before.push(mask),
            None => before,
        }
    }
}

/// The burst: every user, every channel, and the end mark.
pub open spec fn burst(masks: Seq<MaskView>, directory: DirectoryView) -> Seq<WriterThreadMsgView> {
    (nick_lines(masks) + sjoin_lines(directory.channels)).push(
        WriterThreadMsgView::SSend(SRPLView::EOS),
    )
}

/// The nicks of `users`, in order.
pub open spec fn proxy_nicks(users: Seq<VirtualUserWorkerView>) -> Seq<Seq<char>> {
    Seq::new(users.len(), |i: int| users[i].mask.nick)
}

/// The position of the first of `users` whose nick is `nick`, or their
/// number where there is none.
pub open spec fn proxy_at(users: Seq<VirtualUserWorkerView>, nick: Seq<char>) -> int {
    found_from(proxy_nicks(users), nick, 0)
}

/// The mailboxes of `users`, in order.
pub open spec fn proxy_addresses(users: Seq<VirtualUserWorkerView>) -> Seq<User> {
    Seq::new(users.len(), |i: int| users[i].user)
}

/// The proxies and the directory after each of `entries`, in order, has
/// been read as a nick with its marks, and the proxy of that nick, where
/// the link has one, has joined the channel called `channel`.
pub open spec fn sjoined(
    users: Seq<VirtualUserWorkerView>,
    directory: DirectoryView,
    channel: Seq<char>,
    entries: Seq<Seq<char>>,
) -> (Seq<VirtualUserWorkerView>, DirectoryView)
    decreases entries.len(),
{
    if entries.len() == 0 {
        (users, directory)
    } else {
        let before = sjoined(users, directory, channel, entries.drop_last());
        let at = proxy_at(before.0, nick_part(entries.last()));
        if at < before.0.len() {
            let turn = before.0[at].on_join(channel, before.1);
            (before.0.update(at, turn.worker), turn.directory)
        } else {
            before
        }
    }
}

/// The directory after the proxies `users` have given up everything they
/// hold, first to last.
pub open spec fn all_torn_down(
    directory: DirectoryView,
    users: Seq<VirtualUserWorkerView>,
) -> DirectoryView
    decreases users.len(),
{
    if users.len() == 0 {
        directory
    } else {
        users.last().torn_down(all_torn_down(directory, users.drop_last()))
    }
}

/// A link as plain values.
pub struct ServerWorkerView {
    /// The requests to the writer that have not been taken out.
    pub writer: Seq<WriterThreadMsgView>,
    pub config: ConfigDataView,
    pub state: LinkState,
    /// The proxies of the users that the peer has announced, in the order
    /// of their announcement.
    pub users: Seq<VirtualUserWorkerView>,
}

/// A link and the directory after one step.
pub struct LinkTurn {
    pub worker: ServerWorkerView,
    pub directory: DirectoryView,
}

/// The turn that leaves `worker` and `directory`.
pub open spec fn link_turn(worker: ServerWorkerView, directory: DirectoryView) -> LinkTurn {
    LinkTurn { worker, directory }
}

impl ServerWorkerView {
    /// Whether the link can handle the command: a `NICK` has its six
    /// fields and a hop count that is a number, an `SJOIN` its time stamp
    /// and its channel, a `PART` or a `PRIVMSG` its channel.
    pub open spec fn accepts(self, verb: Verb, cmd: ParsedCommandView) -> bool {
        match verb {
            Verb::Nick => cmd.params.len() >= 6 && u32_value(cmd.params[1]) is Some,
            Verb::Sjoin => cmd.params.len() >= 2,
            Verb::Part | Verb::Privmsg => cmd.params.len() >= 1,
            _ => true,
        }
    }

    /// The mask that a `NICK` line of the peer describes: nick, hops, time
    /// stamp, user, host and server as its parameters, the real name as
    /// its trailing words.
    pub open spec fn announced(cmd: ParsedCommandView) -> MaskView
        recommends
            cmd.params.len() >= 6,
            u32_value(cmd.params[1]) is Some,
    {
        MaskView {
            nick: cmd.params[0],
            user: cmd.params[3],
            host: cmd.params[4],
            real: joined(cmd.trailing, " "@),
            hops: u32_value(cmd.params[1])->0,
            timestamp: cmd.params[2],
            servername: cmd.params[5],
        }
    }

    /// `NICK`: the user is introduced and its proxy remembered. A user
    /// whose nick is taken gets no proxy.
    pub open spec fn on_nick(self, cmd: ParsedCommandView, directory: DirectoryView) -> LinkTurn {
        let mask = Self::announced(cmd);
        match introduced(directory, self.config, mask) {
            Some((next, proxy)) => LinkTurn {
                worker: ServerWorkerView { users: self.users.push(proxy), ..self },
                directory: next,
            },
            None => LinkTurn { worker: self, directory: turned_away(directory, mask) },
        }
    }

    /// `SJOIN`: the proxies of the users that the trailing words list join
    /// the channel that the second parameter names.
    pub open spec fn on_sjoin(self, cmd: ParsedCommandView, directory: DirectoryView) -> LinkTurn {
        let after = sjoined(self.users, directory, cmd.params[1], cmd.trailing);
        LinkTurn { worker: ServerWorkerView { users: after.0, ..self }, directory: after.1 }
    }

    /// `PART`: the proxy of the user that the prefix names leaves the
    /// channel that the first parameter names.
    pub open spec fn on_part(self, cmd: ParsedCommandView, directory: DirectoryView) -> LinkTurn {
        match cmd.prefix {
            Some(nick) => {
                let at = proxy_at(self.users, nick);
                if at < self.users.len() {
                    let turn = self.users[at].on_part(cmd.params[0], directory);
                    LinkTurn {
                        worker: ServerWorkerView {
                            users: self.users.update(at, turn.worker),
                            ..self
                        },
                        directory: turn.directory,
                    }
                } else {
                    link_turn(self, directory)
                }
            },
            None => link_turn(self, directory),
        }
    }

    /// `PRIVMSG`: the proxy of the user that the prefix names sends the
    /// trailing words to the channel that the first parameter names.
    pub open spec fn on_privmsg(
        self,
        cmd: ParsedCommandView,
        directory: DirectoryView,
    ) -> LinkTurn {
        match cmd.prefix {
            Some(nick) => {
                let at = proxy_at(self.users, nick);
                if at < self.users.len() {
                    let turn = self.users[at].on_privmsg_chan(
                        cmd.params[0],
                        joined(cmd.trailing, " "@),
                        directory,
                    );
                    LinkTurn {
                        worker: ServerWorkerView {
                            users: self.users.update(at, turn.worker),
                            ..self
                        },
                        directory: turn.directory,
                    }
                } else {
                    link_turn(self, directory)
                }
            },
            None => link_turn(self, directory),
        }
    }

    /// What a command of the peer does to the link and the directory.
    /// `PING` is answered, `EOS` ends the peer's burst, `SMO` and every
    /// unknown command are ignored.
    pub open spec fn command(
        self,
        verb: Verb,
        cmd: ParsedCommandView,
        directory: DirectoryView,
    ) -> LinkTurn
        recommends
            self.accepts(verb, cmd),
    {
        match verb {
            Verb::Ping => link_turn(
                ServerWorkerView {
                    writer: self.writer.push(
                        WriterThreadMsgView::SSend(
                            SRPLView::Pong(joined(cmd.params, " "@) + joined(cmd.trailing, " "@)),
                        ),
                    ),
                    ..self
                },
                directory,
            ),
            Verb::Eos => link_turn(
                ServerWorkerView { state: LinkState::Connected, ..self },
                directory,
            ),
            Verb::Nick => self.on_nick(cmd, directory),
            Verb::Sjoin => self.on_sjoin(cmd, directory),
            Verb::Part => self.on_part(cmd, directory),
            Verb::Privmsg => self.on_privmsg(cmd, directory),
            _ => link_turn(self, directory),
        }
    }
}

impl ServerWorkerView {
    /// The position of the proxy whose mailbox is `to`, or the number of
    /// proxies where none has it.
    pub open spec fn addressed(self, to: User) -> int {
        found_from(proxy_addresses(self.users), to, 0)
    }

    /// What a notification for the mailbox `to` does to the link and the
    /// directory: nothing, unless it tells a proxy of the link to end. That
    /// proxy gives up everything it holds, and the link forgets it.
    pub open spec fn notified(
        self,
        to: User,
        msg: UserThreadMsgView,
        directory: DirectoryView,
    ) -> LinkTurn {
        let at = self.addressed(to);
        if at < self.users.len() && msg is Exit {
            LinkTurn {
                worker: ServerWorkerView { users: self.users.remove(at), ..self },
                directory: self.users[at].torn_down(directory),
            }
        } else {
            link_turn(self, directory)
        }
    }

    /// The answer to a notification for the mailbox `to`: the mask of the
    /// proxy that has the mailbox, where the notification asks for it.
    pub open spec fn mask_reply(self, to: User, msg: UserThreadMsgView) -> Option<MaskView> {
        let at = self.addressed(to);
        if at < self.users.len() && msg is GetMask {
            Some(self.users[at].mask)
        } else {
            None
        }
    }

    /// Whether the event is a command that the link cannot handle.
    pub open spec fn refuses(self, event: LinkEvent) -> bool {
        event matches LinkEvent::Line(ReaderThreadMsg::Command(cmd)) && !self.accepts(
            cmd@.verb(),
            cmd@,
        )
    }

    /// What an event does to the link and the directory. A command that
    /// cannot be handled changes nothing.
    pub open spec fn woken(self, event: LinkEvent, directory: DirectoryView) -> LinkTurn {
        match event {
            LinkEvent::Closed => link_turn(self, directory),
            LinkEvent::Notification(to, msg) => self.notified(to, msg@, directory),
            LinkEvent::Line(ReaderThreadMsg::Command(cmd)) => if self.accepts(cmd@.verb(), cmd@) {
                self.command(cmd@.verb(), cmd@, directory)
            } else {
                link_turn(self, directory)
            },
        }
    }
}

/// What can wake a link.
#[derive(Debug)]
pub enum LinkEvent {
    /// Something from the connection's reader.
    Line(ReaderThreadMsg),
    /// A notification for the mailbox of one of the link's proxies.
    Notification(User, UserThreadMsg),
    /// The reader is gone.
    Closed,
}

/// What one event comes to.
#[derive(Debug)]
pub struct LinkStep {
    /// Whether the link ends.
    pub exit: bool,
    /// Whether the event was a command that the link cannot handle.
    pub rejected: bool,
    /// The answer to a request for a proxy's mask.
    pub mask: Option<Mask>,
}

fn find_answer(answers: &Vec<(User, Mask)>, user: User) -> (r: Option<Mask>)
    ensures
        r.deep_view() == answer_of(answers.deep_view(), user),
{
    let ghost all = answers.deep_view();
    let mut i: usize = 0;
    while i < answers.len() && answers[i].0 != user
        invariant
            i <= answers.len(),
            all == answers.deep_view(),
            found_from(answerers(all), user, 0) == found_from(answerers(all), user, i as int),
        decreases answers.len() - i,
    {
        assert(all[i as int] == answers@[i as int].deep_view());
        i += 1;
    }
    if i < answers.len() {
        assert(all[i as int] == answers@[i as int].deep_view());
        Some(answers[i].1.clone())
    } else {
        None
    }
}

/// The masks that a burst names: for each of `users`, in order, the mask
/// that it has answered with; a user without an answer is left out.
pub fn burst_masks(users: &Vec<User>, answers: &Vec<(User, Mask)>) -> (masks: Vec<Mask>)
    ensures
        masks.deep_view() == answered(users@, answers.deep_view()),
{
    let mut masks: Vec<Mask> = Vec::new();
    let mut i: usize = 0;
    assert(users@.take(0) =~= Seq::empty());
    assert(masks.deep_view() =~= Seq::empty());
    while i < users.len()
        invariant
            i <= users.len(),
            masks.deep_view() == answered(users@.take(i as int), answers.deep_view()),
        decreases users.len() - i,
    {
        let ghost before = masks.deep_view();
        assert(users@.take(i + 1).drop_last() =~= users@.take(i as int));
        assert(users@.take(i + 1).last() == users@[i as int]);
        match find_answer(answers, users[i]) {
            Some(mask) => {
                masks.push(mask);
                assert(masks.deep_view() =~= before.push(mask@));
            },
            None => {},
        }
        i += 1;
    }
    assert(users@.take(users.len() as int) =~= users@);
    masks
}

/// The position of the first of `users` whose nick is `nick`, or their
/// number.
pub fn find_proxy(users: &Vec<VirtualUserChannels>, nick: &String) -> (at: usize)
    ensures
        at == proxy_at(users.deep_view(), nick@),
        at <= users.len(),
{
    let ghost nicks = proxy_nicks(users.deep_view());
    let mut i: usize = 0;
    while i < users.len() && users[i].vuser_thread.get_mask().nick != *nick
        invariant
            i <= users.len(),
            nicks == proxy_nicks(users.deep_view()),
            found_from(nicks, nick@, 0) == found_from(nicks, nick@, i as int),
        decreases users.len() - i,
    {
        assert(nicks[i as int] == users@[i as int].deep_view().mask.nick);
        i += 1;
    }
    proof {
        if i < users.len() {
            assert(nicks[i as int] == users@[i as int].deep_view().mask.nick);
        }
    }
    i
}

fn sjoin_all(
    users: &mut Vec<VirtualUserChannels>,
    directory: &mut Directory,
    channel: &String,
    entries: &Vec<String>,
)
    requires
        old(directory)@.wf(),
    ensures
        final(directory)@.wf(),
        (final(users).deep_view(), final(directory)@) == sjoined(
            old(users).deep_view(),
            old(directory)@,
            channel@,
            entries.deep_view(),
        ),
{
    let ghost all = entries.deep_view();
    let ghost users0 = users.deep_view();
    let ghost dir0 = directory@;
    let mut i: usize = 0;
    assert(all.take(0) =~= Seq::empty());
    while i < entries.len()
        invariant
            i <= entries.len(),
            all == entries.deep_view(),
            directory@.wf(),
            (users.deep_view(), directory@) == sjoined(users0, dir0, channel@, all.take(i as int)),
        decreases entries.len() - i,
    {
        assert(all.take(i + 1).drop_last() =~= all.take(i as int));
        assert(all.take(i + 1).last() == entries@[i as int]@);
        let (nick, _modes) = parse_nick(entries[i].clone());
        let at = find_proxy(users, &nick);
        if at < users.len() {
            let ghost before = users.deep_view();
            assert(before[at as int] == users@[at as int].deep_view());
            users[at].vuser_thread.join(channel.clone(), directory);
            assert(users.deep_view() =~= before.update(at as int, users@[at as int].deep_view()));
        }
        i += 1;
    }
    assert(all.take(entries.len() as int) =~= all);
}

/// The link to one peer.
#[derive(Debug)]
pub struct ServerWorker {
    writer: Writer,
    config: Config,
    state: LinkState,
    users: Vec<VirtualUserChannels>,
}

impl View for ServerWorker {
    type V = ServerWorkerView;

    closed spec fn view(&self) -> ServerWorkerView {
        ServerWorkerView {
            writer: self.writer@,
            config: self.config@,
            state: self.state,
            users: self.users.deep_view(),
        }
    }
}

impl ServerWorker {
    /// A link whose introduction and burst are written. The burst names
    /// the sessions of the directory, in slot order, that are among
    /// `answers` with the mask that they have answered with.
    pub fn new(
        writer: Writer,
        directory: &Directory,
        config: Config,
        answers: &Vec<(User, Mask)>,
    ) -> (worker: Self)
        requires
            directory@.wf(),
        ensures
            worker@ == (ServerWorkerView {
                writer: writer@ + introduction(config@) + burst(
                    answered(session_handles(directory@.registry.users), answers.deep_view()),
                    directory@,
                ),
                config: config@,
                state: LinkState::Sync,
                users: Seq::empty(),
            }),
    {
        let mut worker = ServerWorker {
            writer,
            config,
            state: LinkState::Sync,
            users: Vec::new(),
        };
        assert(worker@.users =~= Seq::empty());
        worker.introduce();
        let masks = burst_masks(&directory.get_users(), answers);
        worker.sync(directory, &masks);
        worker
    }

    /// Whether the peer's burst is through.
    pub fn state(&self) -> (state: LinkState)
        ensures
            state == self@.state,
    {
        self.state
    }

    /// Takes the waiting requests to the writer out, oldest first.
    pub fn take_output(&mut self) -> (msgs: Vec<WriterThreadMsg>)
        ensures
            msgs.deep_view() == old(self)@.writer,
            final(self)@ == (ServerWorkerView { writer: Seq::empty(), ..old(self)@ }),
    {
        self.writer.take()
    }

    /// Writes the introduction: the link secret, the capabilities, and
    /// the server's name with one hop and its description.
    pub fn introduce(&mut self)
        ensures
            final(self)@ == (ServerWorkerView {
                writer: old(self)@.writer + introduction(old(self)@.config),
                ..old(self)@
            }),
    {
        self.writer.swrite(SRPL::Pass(self.config.get_server_pass()));
        let mut options: Vec<ProtoOption> = Vec::new();
        options.push(ProtoOption::EAUTH(self.config.get_server_name()));
        options.push(ProtoOption::NOQUIT);
        options.push(ProtoOption::NICKv2);
        options.push(ProtoOption::SJOIN);
        options.push(ProtoOption::SJ3);
        options.push(ProtoOption::CLK);
        options.push(ProtoOption::NICKIP);
        options.push(ProtoOption::TKLEXT);
        options.push(ProtoOption::ESVID);
        options.push(ProtoOption::MLOCK);
        options.push(ProtoOption::EXTSWHOIS);
        assert(options.deep_view() =~= capabilities(self.config@));
        self.writer.swrite(SRPL::ProtoCtl(options));
        self.writer.swrite(
            SRPL::Server(self.config.get_server_name(), 1, self.config.get_server_desc()),
        );
        assert(self@.writer =~= old(self)@.writer + introduction(old(self)@.config));
    }

    /// Writes the burst: one `NICK` line for each of `masks`, one `SJOIN`
    /// line for each channel of the directory, and the end mark.
    pub fn sync(&mut self, directory: &Directory, masks: &Vec<Mask>)
        requires
            directory@.wf(),
        ensures
            final(self)@ == (ServerWorkerView {
                writer: old(self)@.writer + burst(masks.deep_view(), directory@),
                ..old(self)@
            }),
    {
        let ghost start = self@;
        let ghost all = masks.deep_view();
        let mut i: usize = 0;
        assert(self@.writer =~= start.writer + nick_lines(all).take(0));
        while i < masks.len()
            invariant
                i <= masks.len(),
                all == masks.deep_view(),
                self@ == (ServerWorkerView {
                    writer: start.writer + nick_lines(all).take(i as int),
                    ..start
                }),
            decreases masks.len() - i,
        {
            let mask = &masks[i];
            assert(all[i as int] == mask@);
            self.writer.swrite(
                SRPL::Nick(
                    mask.nick.clone(),
                    mask.hops,
                    mask.timestamp.clone(),
                    mask.user.clone(),
                    mask.host.clone(),
                    mask.servername.clone(),
                    String::from_str("0"),
                    String::from_str(""),
                    String::from_str("*"),
                    mask.real.clone(),
                ),
            );
            i += 1;
            assert(self@.writer =~= start.writer + nick_lines(all).take(i as int));
        }
        assert(nick_lines(all).take(masks.len() as int) =~= nick_lines(all));
        let ghost mid = self@.writer;
        let chans = directory.get_channels();
        let ghost lines = sjoin_lines(directory@.channels);
        let mut j: usize = 0;
        assert(self@.writer =~= mid + lines.take(0));
        while j < chans.len()
            invariant
                j <= chans.len(),
                directory@.wf(),
                chans@ == crate::registry::channel_handles(directory@.registry.channels.len()),
                lines == sjoin_lines(directory@.channels),
                self@ == (ServerWorkerView { writer: mid + lines.take(j as int), ..start }),
            decreases chans.len() - j,
        {
            let chan = chans[j];
            assert(chan.thread == j);
            match (directory.channel_name(chan), directory.channel_nicks(chan)) {
                (Ok(name), Ok(nicks)) => {
                    self.writer.swrite(SRPL::Sjoin(String::from_str("0"), name, nicks));
                },
                _ => {},
            }
            j += 1;
            assert(self@.writer =~= mid + lines.take(j as int));
        }
        assert(lines.take(chans.len() as int) =~= lines);
        self.writer.swrite(SRPL::EOS);
        assert(self@.writer =~= start.writer + burst(all, directory@));
    }

    /// Whether the link can handle the command.
    pub fn accepts(&self, verb: Verb, cmd: &ParsedCommand) -> (b: bool)
        ensures
            b == self@.accepts(verb, cmd@),
    {
        match verb {
            Verb::Nick => {
                if cmd.params.len() >= 6 {
                    assert(cmd@.params[1] == cmd.params@[1]@);
                    parse_u32(cmd.params[1].as_str()).is_some()
                } else {
                    false
                }
            },
            Verb::Sjoin => cmd.params.len() >= 2,
            Verb::Part | Verb::Privmsg => cmd.params.len() >= 1,
            _ => true,
        }
    }

    fn nick(&mut self, cmd: &ParsedCommand, directory: &mut Directory)
        requires
            old(self)@.accepts(Verb::Nick, cmd@),
            old(directory)@.wf(),
        ensures
            final(directory)@.wf(),
            link_turn(final(self)@, final(directory)@) == old(self)@.on_nick(cmd@, old(directory)@),
    {
        proof {
            assert(cmd@.params[0] == cmd.params@[0]@);
            assert(cmd@.params[1] == cmd.params@[1]@);
            assert(cmd@.params[2] == cmd.params@[2]@);
            assert(cmd@.params[3] == cmd.params@[3]@);
            assert(cmd@.params[4] == cmd.params@[4]@);
            assert(cmd@.params[5] == cmd.params@[5]@);
        }
        let hops = match parse_u32(cmd.params[1].as_str()) {
            Some(hops) => hops,
            None => 0,
        };
        let mask = Mask::new(
            cmd.params[0].clone(),
            cmd.params[3].clone(),
            cmd.params[4].clone(),
            join(&cmd.trailing, " "),
            hops,
            cmd.params[2].clone(),
            cmd.params[5].clone(),
        );
        match VirtualUserChannels::new(directory, self.config.clone(), mask) {
            Ok(made) => {
                let ghost before = self.users.deep_view();
                self.users.push(made);
                assert(self.users.deep_view() =~= before.push(made.deep_view()));
            },
            Err(_) => {},
        }
    }

    fn to_proxy(&mut self, part: bool, cmd: &ParsedCommand, directory: &mut Directory)
        requires
            cmd@.params.len() >= 1,
            old(directory)@.wf(),
        ensures
            final(directory)@.wf(),
            link_turn(final(self)@, final(directory)@) == if part {
                old(self)@.on_part(cmd@, old(directory)@)
            } else {
                old(self)@.on_privmsg(cmd@, old(directory)@)
            },
    {
        assert(cmd@.params[0] == cmd.params@[0]@);
        match &cmd.prefix {
            Some(nick) => {
                let at = find_proxy(&self.users, nick);
                if at < self.users.len() {
                    let ghost before = self.users.deep_view();
                    assert(before[at as int] == self.users@[at as int].deep_view());
                    let chan = cmd.params[0].clone();
                    if part {
                        self.users[at].vuser_thread.part(chan, directory);
                    } else {
                        let text = join(&cmd.trailing, " ");
                        self.users[at].vuser_thread.privmsg_chan(chan, text, directory);
                    }
                    assert(self.users.deep_view() =~= before.update(
                        at as int,
                        self.users@[at as int].deep_view(),
                    ));
                }
            },
            None => {},
        }
    }

    /// Handles a command whose verb is `verb`. No command ends the link.
    pub fn dispatch(&mut self, verb: Verb, cmd: ParsedCommand, directory: &mut Directory) -> (exit:
        bool)
        requires
            old(self)@.accepts(verb, cmd@),
            old(directory)@.wf(),
        ensures
            final(directory)@.wf(),
            !exit,
            link_turn(final(self)@, final(directory)@) == old(self)@.command(
                verb,
                cmd@,
                old(directory)@,
            ),
    {
        match verb {
            Verb::Ping => {
                let mut msg = join(&cmd.params, " ");
                msg.append(join(&cmd.trailing, " ").as_str());
                self.writer.swrite(SRPL::Pong(msg));
            },
            Verb::Eos => {
                self.state = LinkState::Connected;
            },
            Verb::Nick => {
                self.nick(&cmd, directory);
            },
            Verb::Sjoin => {
                assert(cmd@.params[1] == cmd.params@[1]@);
                sjoin_all(&mut self.users, directory, &cmd.params[1], &cmd.trailing);
            },
            Verb::Part => {
                self.to_proxy(true, &cmd, directory);
            },
            Verb::Privmsg => {
                self.to_proxy(false, &cmd, directory);
            },
            _ => {},
        }
        false
    }

    /// Handles one command of the peer.
    pub fn handle_command(&mut self, cmd: ParsedCommand, directory: &mut Directory) -> (exit: bool)
        requires
            old(self)@.accepts(cmd@.verb(), cmd@),
            old(directory)@.wf(),
        ensures
            final(directory)@.wf(),
            !exit,
            link_turn(final(self)@, final(directory)@) == old(self)@.command(
                cmd@.verb(),
                cmd@,
                old(directory)@,
            ),
    {
        let verb = cmd.verb();
        self.dispatch(verb, cmd, directory)
    }

    /// Handles what the connection's reader brings.
    pub fn handle_msg(&mut self, msg: ReaderThreadMsg, directory: &mut Directory) -> (exit: bool)
        requires
            msg matches ReaderThreadMsg::Command(cmd) && old(self)@.accepts(cmd@.verb(), cmd@),
            old(directory)@.wf(),
        ensures
            final(directory)@.wf(),
            !exit,
            msg matches ReaderThreadMsg::Command(cmd) && link_turn(
                final(self)@,
                final(directory)@,
            ) == old(self)@.command(cmd@.verb(), cmd@, old(directory)@),
    {
        match msg {
            ReaderThreadMsg::Command(cmd) => self.handle_command(cmd, directory),
        }
    }

    /// Hands a notification to the proxy whose mailbox is `to`. A request
    /// for the mask is answered by the result.
    pub fn notify(&mut self, to: User, msg: UserThreadMsg, directory: &mut Directory) -> (mask:
        Option<Mask>)
        requires
            old(directory)@.wf(),
        ensures
            final(directory)@.wf(),
            link_turn(final(self)@, final(directory)@) == old(self)@.notified(
                to,
                msg@,
                old(directory)@,
            ),
            mask.deep_view() == old(self)@.mask_reply(to, msg@),
    {
        let ghost addresses = proxy_addresses(self@.users);
        let mut at: usize = 0;
        while at < self.users.len() && self.users[at].vuser_thread.user() != to
            invariant
                at <= self.users.len(),
                *self == *old(self),
                addresses == proxy_addresses(self@.users),
                found_from(addresses, to, 0) == found_from(addresses, to, at as int),
            decreases self.users.len() - at,
        {
            assert(addresses[at as int] == self.users@[at as int].deep_view().user);
            at += 1;
        }
        if at == self.users.len() {
            return None;
        }
        let ghost before = self.users.deep_view();
        assert(before[at as int] == self.users@[at as int].deep_view());
        assert(addresses[at as int] == before[at as int].user);
        let (exit, reply) = self.users[at].vuser_thread.notify(msg);
        assert(self.users.deep_view() =~= before);
        if exit {
            let proxy = self.users.remove(at);
            assert(self.users.deep_view() =~= before.remove(at as int));
            proxy.vuser_thread.release(directory);
        }
        match reply {
            Some(Ok(mask)) => Some(mask),
            _ => None,
        }
    }

    /// Handles one event. A link ends when its reader is gone.
    pub fn step(&mut self, event: LinkEvent, directory: &mut Directory) -> (out: LinkStep)
        requires
            old(directory)@.wf(),
        ensures
            final(directory)@.wf(),
            link_turn(final(self)@, final(directory)@) == old(self)@.woken(event, old(directory)@),
            out.exit == (event is Closed),
            out.rejected == old(self)@.refuses(event),
            out.mask.deep_view() == match event {
                LinkEvent::Notification(to, msg) => old(self)@.mask_reply(to, msg@),
                _ => None,
            },
    {
        match event {
            LinkEvent::Closed => LinkStep { exit: true, rejected: false, mask: None },
            LinkEvent::Notification(to, msg) => {
                let mask = self.notify(to, msg, directory);
                LinkStep { exit: false, rejected: false, mask }
            },
            LinkEvent::Line(msg) => {
                let ok = match &msg {
                    ReaderThreadMsg::Command(cmd) => {
                        let verb = cmd.verb();
                        self.accepts(verb, cmd)
                    },
                };
                if ok {
                    let exit = self.handle_msg(msg, directory);
                    LinkStep { exit, rejected: false, mask: None }
                } else {
                    LinkStep { exit: false, rejected: true, mask: None }
                }
            },
        }
    }

    /// The mailboxes of the link's proxies, in the order of their
    /// announcement.
    pub fn proxies(&self) -> (users: Vec<User>)
        ensures
            users@ == proxy_addresses(self@.users),
    {
        let mut out: Vec<User> = Vec::new();
        let mut i: usize = 0;
        while i < self.users.len()
            invariant
                i <= self.users.len(),
                out@ == proxy_addresses(self@.users).take(i as int),
            decreases self.users.len() - i,
        {
            assert(self@.users[i as int] == self.users@[i as int].deep_view());
            out.push(self.users[i].vuser_thread.user());
            i += 1;
            assert(out@ =~= proxy_addresses(self@.users).take(i as int));
        }
        assert(proxy_addresses(self@.users).take(self.users.len() as int) =~= proxy_addresses(
            self@.users,
        ));
        out
    }

    /// Ends the link: its proxies give up everything they hold, first to
    /// last. The requests to the writer that were not taken out come back.
    pub fn release(self, directory: &mut Directory) -> (writer: Writer)
        requires
            old(directory)@.wf(),
        ensures
            final(directory)@.wf(),
            final(directory)@ == all_torn_down(old(directory)@, self@.users),
            writer@ == self@.writer,
    {
        let ServerWorker { writer, config, state, users } = self;
        let ghost all = users.deep_view();
        let ghost start = directory@;
        let mut rest = users;
        let mut done: Ghost<int> = Ghost(0);
        assert(all.take(0) =~= Seq::empty());
        assert(all.skip(0) =~= all);
        while rest.len() > 0
            invariant
                directory@.wf(),
                0 <= done@ <= all.len(),
                rest.deep_view() == all.skip(done@),
                directory@ == all_torn_down(start, all.take(done@)),
            decreases rest.len(),
        {
            let ghost left = rest.deep_view();
            assert(left[0] == rest@[0].deep_view());
            let proxy = rest.remove(0);
            assert(rest.deep_view() =~= left.remove(0));
            proxy.vuser_thread.release(directory);
            proof {
                let k = done@;
                assert(all.take(k + 1).drop_last() =~= all.take(k));
                assert(all.take(k + 1).last() == all[k]);
                assert(left[0] == all[k]);
                assert(left.remove(0) =~= all.skip(k + 1));
                done@ = k + 1;
            }
        }
        assert(all.take(all.len() as int) =~= all);
        writer
    }
}

/// What a run of a link over a list of events comes to.
#[derive(Debug, PartialEq, Eq)]
pub struct LinkRun {
    /// Whether the link has ended.
    pub exit: bool,
    /// Whether the run stopped at a command that the link cannot handle.
    pub rejected: bool,
    /// How many of the events were handled.
    pub handled: usize,
    /// The masks that proxies have answered with, in the order of the
    /// requests.
    pub replies: Vec<Mask>,
}

/// A `LinkRun` as plain values, with the link and the directory that it
/// leaves.
pub struct LinkRunView {
    pub turn: LinkTurn,
    pub exit: bool,
    pub rejected: bool,
    pub handled: nat,
    pub replies: Seq<MaskView>,
}

impl ServerWorkerView {
    /// The answer that handling `event` gives to a request for a mask: the
    /// mask of the proxy that was asked, if the event asks one.
    pub open spec fn answers(self, event: LinkEvent) -> Seq<MaskView> {
        match event {
            LinkEvent::Notification(to, msg) => match self.mask_reply(to, msg@) {
                Some(mask) => seq![mask],
                None => Seq::empty(),
            },
            _ => Seq::empty(),
        }
    }

    /// What a run over `events` comes to. The events are handled first to
    /// last. The run ends when the reader is gone; it stops in front of a
    /// command that the link cannot handle; what follows is not looked at.
    pub open spec fn ran(self, events: Seq<LinkEvent>, directory: DirectoryView) -> LinkRunView
        decreases events.len(),
    {
        if events.len() == 0 {
            LinkRunView {
                turn: link_turn(self, directory),
                exit: false,
                rejected: false,
                handled: 0,
                replies: Seq::empty(),
            }
        } else if self.refuses(events[0]) {
            LinkRunView {
                turn: link_turn(self, directory),
                exit: false,
                rejected: true,
                handled: 0,
                replies: Seq::empty(),
            }
        } else {
            let first = self.woken(events[0], directory);
            if events[0] is Closed {
                LinkRunView {
                    turn: first,
                    exit: true,
                    rejected: false,
                    handled: 1,
                    replies: self.answers(events[0]),
                }
            } else {
                let rest = first.worker.ran(events.drop_first(), first.directory);
                LinkRunView {
                    turn: rest.turn,
                    exit: rest.exit,
                    rejected: rest.rejected,
                    handled: rest.handled + 1,
                    replies: self.answers(events[0]) + rest.replies,
                }
            }
        }
    }
}

impl ServerWorker {
    /// Runs the link over `events`, first to last, until its reader is
    /// gone or one of them cannot be handled. The burst is written before
    /// the link exists, so that every event is handled after it.
    pub fn run(&mut self, events: Vec<LinkEvent>, directory: &mut Directory) -> (out: LinkRun)
        requires
            old(directory)@.wf(),
        ensures
            final(directory)@.wf(),
            link_turn(final(self)@, final(directory)@)
                == old(self)@.ran(events@, old(directory)@).turn,
            out.exit == old(self)@.ran(events@, old(directory)@).exit,
            out.rejected == old(self)@.ran(events@, old(directory)@).rejected,
            out.handled == old(self)@.ran(events@, old(directory)@).handled,
            out.replies.deep_view() == old(self)@.ran(events@, old(directory)@).replies,
    {
        let ghost all = events@;
        let ghost whole = self@.ran(all, directory@);
        let total = events.len();
        let mut rest = events;
        let mut replies: Vec<Mask> = Vec::new();
        let mut handled: usize = 0;
        let mut exit = false;
        let mut rejected = false;
        assert(replies.deep_view() =~= Seq::empty());
        assert(replies.deep_view() + whole.replies =~= whole.replies);
        while rest.len() > 0 && !exit && !rejected
            invariant
                directory@.wf(),
                handled + rest.len() == all.len(),
                all.len() == total,
                !(exit && rejected),
                ({
                    let ahead = if exit || rejected {
                        LinkRunView {
                            turn: link_turn(self@, directory@),
                            exit,
                            rejected,
                            handled: 0,
                            replies: Seq::empty(),
                        }
                    } else {
                        self@.ran(rest@, directory@)
                    };
                    &&& whole.turn == ahead.turn
                    &&& whole.exit == ahead.exit
                    &&& whole.rejected == ahead.rejected
                    &&& whole.handled == handled as nat + ahead.handled
                    &&& whole.replies == replies.deep_view() + ahead.replies
                }),
            decreases
                    rest.len() + if exit || rejected {
                        0int
                    } else {
                        1int
                    },
        {
            let ghost here = self@;
            let ghost before = rest@;
            let ghost answered = replies.deep_view();
            let refused = match &rest[0] {
                LinkEvent::Line(ReaderThreadMsg::Command(cmd)) => {
                    let verb = cmd.verb();
                    !self.accepts(verb, cmd)
                },
                _ => false,
            };
            assert(refused == here.refuses(before[0]));
            if refused {
                rejected = true;
                assert(answered + Seq::<MaskView>::empty() =~= answered);
            } else {
                assert(handled < all.len());
                let event = rest.remove(0);
                assert(event == before[0]);
                assert(rest@ =~= before.drop_first());
                let ghost due = here.answers(event);
                let step = self.step(event, directory);
                match step.mask {
                    Some(mask) => {
                        replies.push(mask);
                    },
                    None => {},
                }
                assert(replies.deep_view() =~= answered + due);
                handled += 1;
                exit = step.exit;
                proof {
                    if exit {
                        assert((answered + due) + Seq::<MaskView>::empty() =~= answered + due);
                    } else {
                        let rest_replies = self@.ran(rest@, directory@).replies;
                        assert((answered + due) + rest_replies =~= answered + (due + rest_replies));
                    }
                }
            }
        }
        proof {
            if !exit && !rejected {
                assert(rest@.len() == 0);
            }
        }
        LinkRun { exit, rejected, handled, replies }
    }
}

} // verus!
