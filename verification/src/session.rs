//! A session: the state machine behind one client connection.
//!
//! A session starts as a new connection and collects a nick, a user name
//! and a real name. Once it has all three it claims the nick; if nobody
//! else holds it the session is connected and may join channels and send
//! messages. The link secret, sent before anything else, turns the
//! connection into a server link instead.
//!
//! Each handler takes what arrived and the directory, and returns whether
//! the session ends. Replies to the client collect in the session's
//! writer, notifications for others in the directory's mail.

use crate::channel::ChannelThreadMsgView;
use crate::command::{ParsedCommand, ParsedCommandView, Verb};
use crate::config::{Config, ConfigDataView};
use crate::directory::{ChannelEntryView, Directory, DirectoryEntry, DirectoryView};
use crate::mask::{Mask, MaskView};
use crate::membership::{
    entered, find_channel, join_channel, leave_all, leave_channel, released, released_all,
    stored_at, StoredChannel, StoredChannelView,
};
use crate::registry::{DirectoryReplyView, DirectoryThreadMsgView};
use crate::reply::{RPLView, RPL};
use crate::text::{begins_with, is_empty, join, join_from, joined, starts_with};
use crate::user_msg::{DeliveryView, Error as UserError, UserThreadMsg, UserThreadMsgView};
use crate::writer::{ReaderThreadMsg, Writer, WriterThreadMsgView};
use vstd::prelude::*;

verus! {

/// How long a session may stay silent before it is closed, in
/// milliseconds: six minutes.
pub const PING_TIMEOUT_MS: u64 = 360000;

/// What a connection has told about its user so far.
#[derive(Debug)]
pub struct UserData {
    pub nick: String,
    pub timestamp: String,
    pub user_name: String,
    pub real_name: String,
}

/// A `UserData` as plain values.
pub struct UserDataView {
    pub nick: Seq<char>,
    pub timestamp: Seq<char>,
    pub user_name: Seq<char>,
    pub real_name: Seq<char>,
}

impl View for UserData {
    type V = UserDataView;

    open spec fn view(&self) -> UserDataView {
        UserDataView {
            nick: self.nick@,
            timestamp: self.timestamp@,
            user_name: self.user_name@,
            real_name: self.real_name@,
        }
    }
}

impl DeepView for UserData {
    type V = UserDataView;

    open spec fn deep_view(&self) -> UserDataView {
        self@
    }
}

impl Default for UserData {
    fn default() -> (data: Self)
        ensures
            data@ == UserDataView::empty(),
    {
        UserData {
            nick: String::new(),
            timestamp: String::new(),
            user_name: String::new(),
            real_name: String::new(),
        }
    }
}

impl Clone for UserData {
    fn clone(&self) -> (ret: UserData)
        ensures
            ret@ == self@,
    {
        UserData {
            nick: self.nick.clone(),
            timestamp: self.timestamp.clone(),
            user_name: self.user_name.clone(),
            real_name: self.real_name.clone(),
        }
    }
}

/// The host under which every local user is shown: the daemon does not
/// look hosts up, and this word stands where the host would.
pub open spec fn local_host() -> Seq<char> {
    "TODO"@
}

/// The time stamp that every registration gets: the daemon keeps no clock.
pub open spec fn registration_stamp() -> Seq<char> {
    "123456"@
}

impl UserDataView {
    /// Nothing is known.
    pub open spec fn empty() -> UserDataView {
        UserDataView {
            nick: Seq::empty(),
            timestamp: Seq::empty(),
            user_name: Seq::empty(),
            real_name: Seq::empty(),
        }
    }

    /// Nick, user name and real name are all there.
    pub open spec fn is_ready(self) -> bool {
        self.nick.len() > 0 && self.user_name.len() > 0 && self.real_name.len() > 0
    }

    /// The data after a command: `NICK` brings the nick as its first
    /// parameter, `USER` the user name as its first parameter and the real
    /// name as its trailing words; any other command brings nothing.
    /// Complete data get their time stamp.
    pub open spec fn apply(self, verb: Verb, cmd: ParsedCommandView) -> UserDataView {
        let filled = match verb {
            Verb::Nick => UserDataView { nick: cmd.params[0], ..self },
            Verb::User => UserDataView {
                user_name: cmd.params[0],
                real_name: joined(cmd.trailing, " "@),
                ..self
            },
            _ => self,
        };
        if filled.is_ready() {
            UserDataView { timestamp: registration_stamp(), ..filled }
        } else {
            filled
        }
    }

    /// The mask of the user on the server that `config` describes.
    pub open spec fn gen_mask(self, config: ConfigDataView) -> MaskView {
        MaskView {
            nick: self.nick,
            user: self.user_name,
            host: local_host(),
            real: self.real_name,
            hops: 0,
            timestamp: self.timestamp,
            servername: config.server_name,
        }
    }
}

impl UserData {
    /// Takes in a command. A `NICK` or a `USER` has a parameter.
    pub fn apply(&mut self, verb: Verb, cmd: &ParsedCommand)
        requires
            (verb == Verb::Nick || verb == Verb::User) ==> cmd@.params.len() > 0,
        ensures
            final(self)@ == old(self)@.apply(verb, cmd@),
    {
        proof {
            if cmd.params.len() > 0 {
                assert(cmd@.params[0] == cmd.params@[0]@);
            }
        }
        match verb {
            Verb::Nick => {
                self.nick = cmd.params[0].clone();
            },
            Verb::User => {
                self.user_name = cmd.params[0].clone();
                self.real_name = join(&cmd.trailing, " ");
            },
            _ => {},
        }
        if self.is_ready() {
            self.timestamp = String::from_str("123456");
        }
    }

    /// Whether nick, user name and real name are all there.
    pub fn is_ready(&self) -> (b: bool)
        ensures
            b == self@.is_ready(),
    {
        !is_empty(self.nick.as_str()) && !is_empty(self.user_name.as_str()) && !is_empty(
            self.real_name.as_str(),
        )
    }

    /// The mask of the user on the server that `config` describes.
    pub fn gen_mask(&self, config: &Config) -> (mask: Mask)
        ensures
            mask@ == self@.gen_mask(config@),
    {
        Mask::new(
            self.nick.clone(),
            self.user_name.clone(),
            String::from_str("TODO"),
            self.real_name.clone(),
            0,
            self.timestamp.clone(),
            config.get_server_name(),
        )
    }
}

/// Where a session stands.
#[derive(Debug)]
pub enum State {
    /// Not registered yet; what the connection has told so far, if
    /// anything.
    NewConnection(Option<UserData>),
    Connected { data: UserData },
}

/// A `State` as plain values.
pub enum StateView {
    NewConnection(Option<UserDataView>),
    Connected { data: UserDataView },
}

impl View for State {
    type V = StateView;

    open spec fn view(&self) -> StateView {
        match self {
            State::NewConnection(data) => StateView::NewConnection(data.deep_view()),
            State::Connected { data } => StateView::Connected { data: data@ },
        }
    }
}

/// `modes` with `mode` among them.
pub open spec fn with_mode(modes: Seq<char>, mode: char) -> Seq<char> {
    if modes.contains(mode) {
        modes
    } else {
        modes.push(mode)
    }
}

/// What a session writes when its registration has succeeded.
pub open spec fn welcome_lines() -> Seq<WriterThreadMsgView> {
    seq![
        WriterThreadMsgView::Send(RPLView::Welcome { msg: "Hello, World!"@ }),
        WriterThreadMsgView::Send(RPLView::YourHost),
        WriterThreadMsgView::Send(RPLView::MotdStart),
        WriterThreadMsgView::Send(RPLView::Motd("Hello MOTD"@)),
        WriterThreadMsgView::Send(RPLView::MotdEnd),
        WriterThreadMsgView::Send(RPLView::ModeSelf { mode: 'i', enabled: true }),
    ]
}

/// A session as plain values.
pub struct UserWorkerView {
    /// The session's id in the registry.
    pub entry: int,
    pub config: ConfigDataView,
    /// The channels that the session is in, in the order of joining.
    pub channels: Seq<StoredChannelView>,
    /// The requests to the writer that have not been taken out.
    pub writer: Seq<WriterThreadMsgView>,
    pub state: StateView,
    pub modes: Seq<char>,
    /// Whether the connection shall go on as a server link when the
    /// session has ended.
    pub do_upgrade: bool,
}

/// A session and the directory after one step, and whether the session
/// ends with it.
pub struct Turn {
    pub worker: UserWorkerView,
    pub directory: DirectoryView,
    pub exit: bool,
}

/// The turn that leaves `worker` and `directory`.
pub open spec fn turn(worker: UserWorkerView, directory: DirectoryView, exit: bool) -> Turn {
    Turn { worker, directory, exit }
}

impl UserWorkerView {
    /// The session with `msg` added to the requests to its writer.
    pub open spec fn wrote(self, msg: RPLView) -> UserWorkerView {
        UserWorkerView { writer: self.writer.push(WriterThreadMsgView::Send(msg)), ..self }
    }

    /// The mask of a connected session in its short rendering.
    pub open spec fn own_mask(self) -> Seq<char>
        recommends
            self.state is Connected,
    {
        self.state->data.gen_mask(self.config).for_privmsg()
    }

    /// The turn that changes nothing.
    pub open spec fn idle(self, directory: DirectoryView) -> Turn {
        Turn { worker: self, directory, exit: false }
    }

    /// Whether the session can handle the command: a command that needs a
    /// target has one, and a message to a channel comes from a member.
    pub open spec fn accepts(self, verb: Verb, cmd: ParsedCommandView) -> bool {
        match self.state {
            StateView::NewConnection(_) => (verb == Verb::Nick || verb == Verb::User)
                ==> cmd.params.len() > 0,
            StateView::Connected { data } => match verb {
                Verb::Who | Verb::Join => cmd.params.len() > 0,
                Verb::Privmsg => cmd.params.len() > 0 && (starts_with(cmd.params[0], '#')
                    ==> stored_at(self.channels, cmd.params[0]) < self.channels.len()),
                Verb::Part => cmd.params.len() > 0 || cmd.trailing.len() > 0,
                _ => true,
            },
        }
    }

    /// The session after a `PASS`: the connection goes on as a server link
    /// if the words of the command spell the link secret.
    pub open spec fn passed(self, cmd: ParsedCommandView) -> UserWorkerView {
        let guess = joined(cmd.params, " "@) + joined(cmd.trailing, " "@);
        UserWorkerView {
            do_upgrade: self.do_upgrade || guess == self.config.server_pass,
            ..self
        }
    }

    /// `PASS` as the first command: the session ends.
    pub open spec fn on_pass(self, cmd: ParsedCommandView, directory: DirectoryView) -> Turn {
        Turn { worker: self.passed(cmd), directory, exit: true }
    }

    /// `NICK` or `USER` before registration: the data grow; once they are
    /// complete the nick is claimed. Success connects the session and
    /// greets the client, a collision is told to the client and leaves the
    /// session unregistered.
    pub open spec fn on_register(
        self,
        verb: Verb,
        cmd: ParsedCommandView,
        directory: DirectoryView,
    ) -> Turn
        recommends
            self.state is NewConnection,
            cmd.params.len() > 0,
    {
        let known = match self.state {
            StateView::NewConnection(Some(data)) => data,
            _ => UserDataView::empty(),
        };
        let data = known.apply(verb, cmd);
        if !data.is_ready() {
            Turn {
                worker: UserWorkerView { state: StateView::NewConnection(Some(data)), ..self },
                directory,
                exit: false,
            }
        } else {
            let claim = DirectoryThreadMsgView::UpdateNick(self.entry, data.nick);
            let told = self.writer.push(WriterThreadMsgView::UpdateNick(data.nick));
            if directory.registry.step(claim).1 == DirectoryReplyView::Nick(Ok(())) {
                Turn {
                    worker: UserWorkerView {
                        state: StateView::Connected { data },
                        writer: told + welcome_lines(),
                        modes: with_mode(self.modes, 'i'),
                        ..self
                    },
                    directory: directory.ask_registry(claim),
                    exit: false,
                }
            } else {
                Turn {
                    worker: UserWorkerView {
                        state: StateView::NewConnection(Some(data)),
                        writer: told.push(WriterThreadMsgView::Send(RPLView::NickInUse)),
                        ..self
                    },
                    directory: directory.ask_registry(claim),
                    exit: false,
                }
            }
        }
    }

    /// `PING`: the parameters come back in a `PONG`.
    pub open spec fn on_ping(self, cmd: ParsedCommandView, directory: DirectoryView) -> Turn {
        self.wrote(RPLView::Pong(joined(cmd.params, " "@))).idle(directory)
    }

    /// `WHO` for a channel that the session is in: the channel is asked
    /// for its members. Any other target is ignored.
    pub open spec fn on_who(self, cmd: ParsedCommandView, directory: DirectoryView) -> Turn
        recommends
            cmd.params.len() > 0,
    {
        let target = cmd.params[0];
        let at = stored_at(self.channels, target);
        if starts_with(target, '#') && at < self.channels.len() && directory.reaches(
            self.channels[at].thread.channel,
        ) {
            let entry = self.channels[at].thread;
            self.idle(directory.ask_channel(entry.channel, ChannelThreadMsgView::Who(entry.id)))
        } else {
            self.idle(directory)
        }
    }

    /// `PRIVMSG`: the text goes to the channel or to the user that the
    /// first parameter names; a nick that nobody holds is told to the
    /// client.
    pub open spec fn on_privmsg(self, cmd: ParsedCommandView, directory: DirectoryView) -> Turn
        recommends
            self.state is Connected,
            cmd.params.len() > 0,
    {
        let target = cmd.params[0];
        let text = joined(cmd.params.skip(1), " "@) + joined(cmd.trailing, " "@);
        let at = stored_at(self.channels, target);
        if starts_with(target, '#') {
            if at < self.channels.len() && directory.reaches(self.channels[at].thread.channel) {
                let entry = self.channels[at].thread;
                self.idle(
                    directory.ask_channel(
                        entry.channel,
                        ChannelThreadMsgView::Privmsg(entry.id, self.own_mask(), text),
                    ),
                )
            } else {
                self.idle(directory)
            }
        } else {
            match directory.registry.step(DirectoryThreadMsgView::GetUserByNick(target)).1 {
                DirectoryReplyView::User(Ok(user)) => self.idle(
                    DirectoryView {
                        mail: directory.mail.push(
                            DeliveryView {
                                to: user,
                                msg: UserThreadMsgView::Privmsg(self.own_mask(), text),
                            },
                        ),
                        ..directory
                    },
                ),
                _ => self.wrote(RPLView::NickNotFound(target)).idle(directory),
            }
        }
    }

    /// `JOIN` of a channel that the session is not in: the session enters
    /// it under its nick and mask.
    pub open spec fn on_join(self, cmd: ParsedCommandView, directory: DirectoryView) -> Turn
        recommends
            self.state is Connected,
            cmd.params.len() > 0,
    {
        let name = cmd.params[0];
        let data = self.state->data;
        if stored_at(self.channels, name) < self.channels.len() {
            self.idle(directory)
        } else {
            let after = entered(
                self.channels,
                directory,
                name,
                data.nick,
                data.gen_mask(self.config),
            );
            Turn {
                worker: UserWorkerView { channels: after.0, ..self },
                directory: after.1,
                exit: false,
            }
        }
    }

    /// The channel that a `PART` names: its first parameter, or the first
    /// trailing word where it has no parameter.
    pub open spec fn part_target(cmd: ParsedCommandView) -> Seq<char> {
        if cmd.params.len() > 0 {
            cmd.params[0]
        } else {
            cmd.trailing[0]
        }
    }

    /// The reason that a `PART` gives: its trailing words, where it has a
    /// parameter and trailing words.
    pub open spec fn part_reason(cmd: ParsedCommandView) -> Option<Seq<char>> {
        if cmd.params.len() > 0 && cmd.trailing.len() > 0 {
            Some(joined(cmd.trailing, " "@))
        } else {
            None
        }
    }

    /// The session without the channel at position `at`, and the directory
    /// after the release of the entry, which carries `reason` where one is
    /// given.
    pub open spec fn leave(
        self,
        at: int,
        reason: Option<Option<Seq<char>>>,
        directory: DirectoryView,
    ) -> Turn
        recommends
            0 <= at < self.channels.len(),
    {
        let kept = self.channels[at].thread;
        let entry = match reason {
            Some(r) => ChannelEntryView { part_reason: r, ..kept },
            None => kept,
        };
        Turn {
            worker: UserWorkerView { channels: self.channels.remove(at), ..self },
            directory: released(directory, entry),
            exit: false,
        }
    }

    /// `PART` of a channel that the session is in: the right to the slot
    /// is given up, with the reason of the command.
    pub open spec fn on_part(self, cmd: ParsedCommandView, directory: DirectoryView) -> Turn
        recommends
            cmd.params.len() > 0 || cmd.trailing.len() > 0,
    {
        let at = stored_at(self.channels, Self::part_target(cmd));
        if at < self.channels.len() {
            self.leave(at, Some(Self::part_reason(cmd)), directory)
        } else {
            self.idle(directory)
        }
    }

    /// What a command does to the session and the directory.
    ///
    /// Before registration only `PASS` (as the very first command), `NICK`,
    /// `USER`, `PING` and `QUIT` do anything; a connected session also
    /// knows `MODE` (which does nothing yet), `WHO`, `PRIVMSG`, `JOIN` and
    /// `PART`. Everything else is ignored.
    pub open spec fn command(
        self,
        verb: Verb,
        cmd: ParsedCommandView,
        directory: DirectoryView,
    ) -> Turn
        recommends
            self.accepts(verb, cmd),
    {
        match (self.state, verb) {
            (StateView::NewConnection(None), Verb::Pass) => self.on_pass(cmd, directory),
            (StateView::NewConnection(_), Verb::Nick) => self.on_register(verb, cmd, directory),
            (StateView::NewConnection(_), Verb::User) => self.on_register(verb, cmd, directory),
            (_, Verb::Ping) => self.on_ping(cmd, directory),
            (StateView::Connected { .. }, Verb::Mode) => self.idle(directory),
            (StateView::Connected { .. }, Verb::Who) => self.on_who(cmd, directory),
            (StateView::Connected { .. }, Verb::Privmsg) => self.on_privmsg(cmd, directory),
            (StateView::Connected { .. }, Verb::Join) => self.on_join(cmd, directory),
            (StateView::Connected { .. }, Verb::Part) => self.on_part(cmd, directory),
            (_, Verb::Quit) => Turn { exit: true, ..self.idle(directory) },
            _ => self.idle(directory),
        }
    }

    /// The answer to a request for the session's mask: a session that is
    /// not connected has none.
    pub open spec fn mask_reply(self) -> Result<MaskView, UserError> {
        match self.state {
            StateView::Connected { data } => Ok(data.gen_mask(self.config)),
            _ => Err(UserError::InvalidState),
        }
    }

    /// What a notification does to the session and the directory: it is
    /// put into words for the client. News of the session's own join or
    /// part is told to a connected session only; with its own part the
    /// session lets go of the channel, should it still hold it.
    pub open spec fn notified(self, msg: UserThreadMsgView, directory: DirectoryView) -> Turn {
        match msg {
            UserThreadMsgView::JoinOther(mask, chan) => self.wrote(RPLView::Join(mask, chan)).idle(
                directory,
            ),
            UserThreadMsgView::JoinSelf(chan) => if self.state is Connected {
                self.wrote(RPLView::Join(self.own_mask(), chan)).idle(directory)
            } else {
                self.idle(directory)
            },
            UserThreadMsgView::PartOther(mask, chan, reason) => self.wrote(
                RPLView::Part(mask, chan, reason),
            ).idle(directory),
            UserThreadMsgView::PartSelf(chan, reason) => if self.state is Connected {
                let told = self.wrote(RPLView::Part(self.own_mask(), chan, reason));
                let at = stored_at(self.channels, chan);
                if at < self.channels.len() {
                    told.leave(at, None, directory)
                } else {
                    told.idle(directory)
                }
            } else {
                self.idle(directory)
            },
            UserThreadMsgView::TransmitNames(chan, names) => self.wrote(
                RPLView::NameReply(chan, names),
            ).wrote(RPLView::EndOfNames(chan)).idle(directory),
            UserThreadMsgView::GetMask => self.idle(directory),
            UserThreadMsgView::Privmsg(src, msg) => self.wrote(RPLView::Privmsg(src, msg)).idle(
                directory,
            ),
            UserThreadMsgView::PrivmsgChan(src, chan, msg) => self.wrote(
                RPLView::PrivmsgChan(src, chan, msg),
            ).idle(directory),
            UserThreadMsgView::Exit => Turn { exit: true, ..self.idle(directory) },
        }
    }

    /// The directory after the session has given up everything it holds:
    /// its id first, then its channels in the order of joining.
    pub open spec fn torn_down(self, directory: DirectoryView) -> DirectoryView {
        released_all(
            directory.ask_registry(DirectoryThreadMsgView::DestroyUser(self.entry)),
            self.channels,
        )
    }
}

/// The session behind one client connection.
#[derive(Debug)]
pub struct UserWorker {
    directory_entry: DirectoryEntry,
    config: Config,
    channels: Vec<StoredChannel>,
    writer: Writer,
    state: State,
    modes: Vec<char>,
    do_upgrade: bool,
}

impl View for UserWorker {
    type V = UserWorkerView;

    closed spec fn view(&self) -> UserWorkerView {
        UserWorkerView {
            entry: self.directory_entry@,
            config: self.config@,
            channels: self.channels.deep_view(),
            writer: self.writer@,
            state: self.state@,
            modes: self.modes@,
            do_upgrade: self.do_upgrade,
        }
    }
}

impl UserWorker {
    /// A session that has heard nothing yet. It owns `directory_entry`
    /// from now on.
    pub fn new(writer: Writer, directory_entry: DirectoryEntry, config: Config) -> (worker: Self)
        ensures
            worker@ == (UserWorkerView {
                entry: directory_entry@,
                config: config@,
                channels: Seq::empty(),
                writer: writer@,
                state: StateView::NewConnection(None),
                modes: Seq::empty(),
                do_upgrade: false,
            }),
    {
        let worker = UserWorker {
            directory_entry,
            config,
            channels: Vec::new(),
            writer,
            state: State::NewConnection(None),
            modes: Vec::new(),
            do_upgrade: false,
        };
        assert(worker@.channels =~= Seq::empty());
        assert(worker@.modes =~= Seq::empty());
        worker
    }

    /// Whether the connection shall go on as a server link.
    pub fn do_upgrade(&self) -> (b: bool)
        ensures
            b == self@.do_upgrade,
    {
        self.do_upgrade
    }

    /// Takes the waiting requests to the writer out, oldest first.
    pub fn take_output(&mut self) -> (msgs: Vec<crate::writer::WriterThreadMsg>)
        ensures
            msgs.deep_view() == old(self)@.writer,
            final(self)@ == (UserWorkerView { writer: Seq::empty(), ..old(self)@ }),
    {
        self.writer.take()
    }

    /// Whether the session is connected.
    pub fn is_connected(&self) -> (b: bool)
        ensures
            b == (self@.state is Connected),
    {
        match &self.state {
            State::Connected { .. } => true,
            State::NewConnection(_) => false,
        }
    }

    /// Whether the session holds the channel called `name`.
    pub fn is_in_channel(&self, name: &String) -> (b: bool)
        ensures
            b == (stored_at(self@.channels, name@) < self@.channels.len()),
    {
        find_channel(&self.channels, name) < self.channels.len()
    }

    /// Whether the session can handle the command.
    pub fn accepts(&self, verb: Verb, cmd: &ParsedCommand) -> (b: bool)
        ensures
            b == self@.accepts(verb, cmd@),
    {
        proof {
            if cmd.params.len() > 0 {
                assert(cmd@.params[0] == cmd.params@[0]@);
            }
        }
        match &self.state {
            State::NewConnection(_) => match verb {
                Verb::Nick | Verb::User => cmd.params.len() > 0,
                _ => true,
            },
            State::Connected { .. } => match verb {
                Verb::Who | Verb::Join => cmd.params.len() > 0,
                Verb::Privmsg => cmd.params.len() > 0 && (!begins_with(
                    cmd.params[0].as_str(),
                    '#',
                ) || self.is_in_channel(&cmd.params[0])),
                Verb::Part => cmd.params.len() > 0 || cmd.trailing.len() > 0,
                _ => true,
            },
        }
    }

    fn own_mask(&self) -> (mask: String)
        requires
            self@.state is Connected,
        ensures
            mask@ == self@.own_mask(),
    {
        match &self.state {
            State::Connected { data } => data.gen_mask(&self.config).for_privmsg(),
            State::NewConnection(_) => String::new(),
        }
    }

    fn pass(&mut self, cmd: &ParsedCommand) -> (exit: bool)
        ensures
            final(self)@ == old(self)@.passed(cmd@),
            exit,
    {
        let mut guess = join(&cmd.params, " ");
        guess.append(join(&cmd.trailing, " ").as_str());
        if self.config.get_server_pass() == guess {
            self.do_upgrade = true;
        }
        true
    }

    /// Switches the mode `mode` on and tells the client.
    pub fn set_mode(&mut self, mode: char)
        ensures
            final(self)@ == (UserWorkerView {
                modes: with_mode(old(self)@.modes, mode),
                ..old(self)@.wrote(RPLView::ModeSelf { mode, enabled: true })
            }),
    {
        let mut i: usize = 0;
        while i < self.modes.len() && self.modes[i] != mode
            invariant
                i <= self.modes.len(),
                *self == *old(self),
                forall|j: int| 0 <= j < i ==> self.modes@[j] != mode,
            decreases self.modes.len() - i,
        {
            i += 1;
        }
        if i == self.modes.len() {
            self.modes.push(mode);
        }
        self.writer.write(RPL::ModeSelf { mode, enabled: true });
    }

    fn motd(&mut self)
        ensures
            final(self)@ == old(self)@.wrote(RPLView::MotdStart).wrote(
                RPLView::Motd("Hello MOTD"@),
            ).wrote(RPLView::MotdEnd),
    {
        self.writer.write(RPL::MotdStart);
        self.writer.write(RPL::Motd(String::from_str("Hello MOTD")));
        self.writer.write(RPL::MotdEnd);
    }

    /// Greets the client after its registration.
    fn welcome(&mut self)
        ensures
            final(self)@ == (UserWorkerView {
                writer: old(self)@.writer + welcome_lines(),
                modes: with_mode(old(self)@.modes, 'i'),
                ..old(self)@
            }),
    {
        self.writer.write(RPL::Welcome { msg: String::from_str("Hello, World!") });
        self.writer.write(RPL::YourHost);
        self.motd();
        self.set_mode('i');
        assert(self@.writer =~= old(self)@.writer + welcome_lines());
    }

    fn register(&mut self, verb: Verb, cmd: &ParsedCommand, directory: &mut Directory) -> (exit:
        bool)
        requires
            old(self)@.state is NewConnection,
            cmd@.params.len() > 0,
            old(directory)@.wf(),
        ensures
            final(directory)@.wf(),
            turn(final(self)@, final(directory)@, exit)
                == old(self)@.on_register(verb, cmd@, old(directory)@),
    {
        let mut data = match &self.state {
            State::NewConnection(Some(known)) => known.clone(),
            _ => UserData::default(),
        };
        data.apply(verb, cmd);
        if data.is_ready() {
            self.writer.update_nick(data.nick.clone());
            match self.directory_entry.update_nick(directory, data.nick.clone()) {
                Ok(()) => {
                    self.welcome();
                    self.state = State::Connected { data };
                },
                Err(_) => {
                    self.writer.write(RPL::NickInUse);
                    self.state = State::NewConnection(Some(data));
                },
            }
        } else {
            self.state = State::NewConnection(Some(data));
        }
        false
    }

    fn ping(&mut self, cmd: &ParsedCommand)
        ensures
            final(self)@ == old(self)@.wrote(RPLView::Pong(joined(cmd@.params, " "@))),
    {
        self.writer.write(RPL::Pong(join(&cmd.params, " ")));
    }

    fn who(&mut self, cmd: &ParsedCommand, directory: &mut Directory)
        requires
            cmd@.params.len() > 0,
            old(directory)@.wf(),
        ensures
            final(directory)@.wf(),
            turn(final(self)@, final(directory)@, false)
                == old(self)@.on_who(cmd@, old(directory)@),
    {
        assert(cmd@.params[0] == cmd.params@[0]@);
        let target = &cmd.params[0];
        if begins_with(target.as_str(), '#') {
            let at = find_channel(&self.channels, target);
            if at < self.channels.len() {
                assert(self@.channels[at as int] == self.channels@[at as int]@);
                let _ = self.channels[at].thread.who(directory);
            }
        }
    }

    fn privmsg(&mut self, cmd: &ParsedCommand, directory: &mut Directory)
        requires
            old(self)@.state is Connected,
            old(self)@.accepts(Verb::Privmsg, cmd@),
            old(directory)@.wf(),
        ensures
            final(directory)@.wf(),
            turn(final(self)@, final(directory)@, false)
                == old(self)@.on_privmsg(cmd@, old(directory)@),
    {
        assert(cmd@.params[0] == cmd.params@[0]@);
        let target = cmd.params[0].clone();
        let mut text = join_from(&cmd.params, 1, " ");
        text.append(join(&cmd.trailing, " ").as_str());
        let mask = self.own_mask();
        if begins_with(target.as_str(), '#') {
            let at = find_channel(&self.channels, &target);
            assert(self@.channels[at as int] == self.channels@[at as int]@);
            let _ = self.channels[at].thread.privmsg(directory, mask, text);
        } else {
            match directory.get_user_by_nick(target.clone()) {
                Ok(user) => {
                    directory.post(user.privmsg(mask, text));
                },
                Err(_) => {
                    self.writer.write(RPL::NickNotFound(target));
                },
            }
        }
    }

    fn join(&mut self, cmd: &ParsedCommand, directory: &mut Directory)
        requires
            old(self)@.state is Connected,
            cmd@.params.len() > 0,
            old(directory)@.wf(),
        ensures
            final(directory)@.wf(),
            turn(final(self)@, final(directory)@, false)
                == old(self)@.on_join(cmd@, old(directory)@),
    {
        assert(cmd@.params[0] == cmd.params@[0]@);
        let name = cmd.params[0].clone();
        if self.is_in_channel(&name) {
            return ;
        }
        let (nick, mask) = match &self.state {
            State::Connected { data } => (data.nick.clone(), data.gen_mask(&self.config)),
            State::NewConnection(_) => (String::new(), UserData::default().gen_mask(&self.config)),
        };
        join_channel(&mut self.channels, directory, name, nick, mask);
    }

    fn part(&mut self, cmd: &ParsedCommand, directory: &mut Directory)
        requires
            cmd@.params.len() > 0 || cmd@.trailing.len() > 0,
            old(directory)@.wf(),
        ensures
            final(directory)@.wf(),
            turn(final(self)@, final(directory)@, false)
                == old(self)@.on_part(cmd@, old(directory)@),
    {
        let (name, reason) = if cmd.params.len() > 0 {
            assert(cmd@.params[0] == cmd.params@[0]@);
            let reason = if cmd.trailing.len() > 0 {
                Some(join(&cmd.trailing, " "))
            } else {
                None
            };
            (cmd.params[0].clone(), reason)
        } else {
            assert(cmd@.trailing[0] == cmd.trailing@[0]@);
            (cmd.trailing[0].clone(), None)
        };
        let at = find_channel(&self.channels, &name);
        if at < self.channels.len() {
            leave_channel(&mut self.channels, at, Some(reason), directory);
        }
    }

    /// Handles a command whose verb is `verb`.
    pub fn dispatch(&mut self, verb: Verb, cmd: ParsedCommand, directory: &mut Directory) -> (exit:
        bool)
        requires
            old(self)@.accepts(verb, cmd@),
            old(directory)@.wf(),
        ensures
            final(directory)@.wf(),
            turn(final(self)@, final(directory)@, exit)
                == old(self)@.command(verb, cmd@, old(directory)@),
    {
        let connected = self.is_connected();
        let fresh = match &self.state {
            State::NewConnection(None) => true,
            _ => false,
        };
        match verb {
            Verb::Pass => {
                if fresh {
                    return self.pass(&cmd);
                }
            },
            Verb::Nick | Verb::User => {
                if !connected {
                    return self.register(verb, &cmd, directory);
                }
            },
            Verb::Ping => {
                self.ping(&cmd);
            },
            Verb::Mode => {},
            Verb::Who => {
                if connected {
                    self.who(&cmd, directory);
                }
            },
            Verb::Privmsg => {
                if connected {
                    self.privmsg(&cmd, directory);
                }
            },
            Verb::Join => {
                if connected {
                    self.join(&cmd, directory);
                }
            },
            Verb::Part => {
                if connected {
                    self.part(&cmd, directory);
                }
            },
            Verb::Quit => {
                return true;
            },
            _ => {},
        }
        false
    }

    /// Handles one command from the connection.
    pub fn handle_command(&mut self, cmd: ParsedCommand, directory: &mut Directory) -> (exit: bool)
        requires
            old(self)@.accepts(cmd@.verb(), cmd@),
            old(directory)@.wf(),
        ensures
            final(directory)@.wf(),
            turn(final(self)@, final(directory)@, exit)
                == old(self)@.command(cmd@.verb(), cmd@, old(directory)@),
    {
        let verb = cmd.verb();
        self.dispatch(verb, cmd, directory)
    }

    /// Handles what the connection's reader brings.
    pub fn handle_reader_msg(&mut self, msg: ReaderThreadMsg, directory: &mut Directory) -> (exit:
        bool)
        requires
            msg matches ReaderThreadMsg::Command(cmd) && old(self)@.accepts(cmd@.verb(), cmd@),
            old(directory)@.wf(),
        ensures
            final(directory)@.wf(),
            msg matches ReaderThreadMsg::Command(cmd) && turn(final(self)@, final(directory)@, exit)
                == old(self)@.command(cmd@.verb(), cmd@, old(directory)@),
    {
        match msg {
            ReaderThreadMsg::Command(cmd) => self.handle_command(cmd, directory),
        }
    }

    /// The session's mask, which only a connected session has.
    pub fn mask(&self) -> (r: Result<Mask, UserError>)
        ensures
            match r {
                Ok(mask) => self@.mask_reply() == Ok::<MaskView, UserError>(mask@),
                Err(e) => self@.mask_reply() == Err::<MaskView, UserError>(e),
            },
    {
        match &self.state {
            State::Connected { data } => Ok(data.gen_mask(&self.config)),
            State::NewConnection(_) => Err(UserError::InvalidState),
        }
    }

    /// Handles one notification. A request for the mask is answered by the
    /// second part of the result.
    pub fn handle_user_msg(&mut self, msg: UserThreadMsg, directory: &mut Directory) -> (out: (
        bool,
        Option<Result<Mask, UserError>>,
    ))
        requires
            old(directory)@.wf(),
        ensures
            final(directory)@.wf(),
            turn(final(self)@, final(directory)@, out.0)
                == old(self)@.notified(msg@, old(directory)@),
            match out.1 {
                Some(Ok(mask)) => msg is GetMask && old(self)@.mask_reply() == Ok::<
                    MaskView,
                    UserError,
                >(mask@),
                Some(Err(e)) => msg is GetMask && old(self)@.mask_reply() == Err::<
                    MaskView,
                    UserError,
                >(e),
                None => !(msg is GetMask),
            },
    {
        let connected = self.is_connected();
        match msg {
            UserThreadMsg::JoinOther(mask, chan_name) => {
                self.writer.write(RPL::Join(mask, chan_name));
            },
            UserThreadMsg::JoinSelf(chan_name) => {
                if connected {
                    let mask = self.own_mask();
                    self.writer.write(RPL::Join(mask, chan_name));
                }
            },
            UserThreadMsg::PartOther(mask, chan_name, reason) => {
                self.writer.write(RPL::Part(mask, chan_name, reason));
            },
            UserThreadMsg::PartSelf(chan_name, reason) => {
                if connected {
                    let mask = self.own_mask();
                    self.writer.write(RPL::Part(mask, chan_name.clone(), reason));
                    let at = find_channel(&self.channels, &chan_name);
                    if at < self.channels.len() {
                        leave_channel(&mut self.channels, at, None, directory);
                    }
                }
            },
            UserThreadMsg::TransmitNames(chan, names) => {
                self.writer.write(RPL::NameReply(chan.clone(), names));
                self.writer.write(RPL::EndOfNames(chan));
            },
            UserThreadMsg::GetMask => {
                return (false, Some(self.mask()));
            },
            UserThreadMsg::Privmsg(src, msg) => {
                self.writer.write(RPL::Privmsg(src, msg));
            },
            UserThreadMsg::PrivmsgChan(src, chan, msg) => {
                self.writer.write(RPL::PrivmsgChan(src, chan, msg));
            },
            UserThreadMsg::Exit => {
                return (true, None);
            },
        }
        (false, None)
    }

    /// Ends the session: it gives up its id and the slots of its
    /// channels. The requests to the writer that were not taken out come
    /// back, and whether the connection goes on as a server link.
    pub fn release(self, directory: &mut Directory) -> (out: (Writer, bool))
        requires
            old(directory)@.wf(),
        ensures
            final(directory)@.wf(),
            final(directory)@ == self@.torn_down(old(directory)@),
            out.0@ == self@.writer,
            out.1 == self@.do_upgrade,
    {
        let UserWorker { directory_entry, config, channels, writer, state, modes, do_upgrade } =
            self;
        directory_entry.release(directory);
        leave_all(channels, directory);
        (writer, do_upgrade)
    }
}

/// What can wake a session.
#[derive(Debug)]
pub enum SessionEvent {
    /// Nothing has arrived for `PING_TIMEOUT_MS`.
    Timeout,
    /// A notification from the session's mailbox.
    Notification(UserThreadMsg),
    /// Something from the connection's reader.
    Line(ReaderThreadMsg),
    /// The mailbox or the reader is gone.
    Closed,
}

/// What one event comes to.
#[derive(Debug)]
pub struct Step {
    /// Whether the session ends.
    pub exit: bool,
    /// Whether the event was a command that the session cannot handle.
    pub rejected: bool,
    /// The answer to a request for the session's mask.
    pub mask: Option<Result<Mask, UserError>>,
}

impl UserWorkerView {
    /// Whether the event is a command that the session cannot handle.
    pub open spec fn refuses(self, event: SessionEvent) -> bool {
        event matches SessionEvent::Line(ReaderThreadMsg::Command(cmd)) && !self.accepts(
            cmd@.verb(),
            cmd@,
        )
    }

    /// What an event does to the session and the directory. A session
    /// that has heard nothing for the time allowed ends, as does one whose
    /// mailbox or reader is gone. A command that cannot be handled changes
    /// nothing.
    pub open spec fn woken(self, event: SessionEvent, directory: DirectoryView) -> Turn {
        match event {
            SessionEvent::Timeout => turn(self, directory, true),
            SessionEvent::Closed => turn(self, directory, true),
            SessionEvent::Notification(msg) => self.notified(msg@, directory),
            SessionEvent::Line(ReaderThreadMsg::Command(cmd)) => if self.accepts(
                cmd@.verb(),
                cmd@,
            ) {
                self.command(cmd@.verb(), cmd@, directory)
            } else {
                self.idle(directory)
            },
        }
    }
}

impl UserWorker {
    /// Handles one event.
    pub fn step(&mut self, event: SessionEvent, directory: &mut Directory) -> (out: Step)
        requires
            old(directory)@.wf(),
        ensures
            final(directory)@.wf(),
            turn(final(self)@, final(directory)@, out.exit) == old(self)@.woken(
                event,
                old(directory)@,
            ),
            out.rejected == old(self)@.refuses(event),
            match out.mask {
                Some(Ok(mask)) => event matches SessionEvent::Notification(UserThreadMsg::GetMask)
                    && old(self)@.mask_reply() == Ok::<MaskView, UserError>(mask@),
                Some(Err(e)) => event matches SessionEvent::Notification(UserThreadMsg::GetMask)
                    && old(self)@.mask_reply() == Err::<MaskView, UserError>(e),
                None => !(event matches SessionEvent::Notification(UserThreadMsg::GetMask)),
            },
    {
        match event {
            SessionEvent::Timeout => Step { exit: true, rejected: false, mask: None },
            SessionEvent::Closed => Step { exit: true, rejected: false, mask: None },
            SessionEvent::Notification(msg) => {
                let (exit, mask) = self.handle_user_msg(msg, directory);
                Step { exit, rejected: false, mask }
            },
            SessionEvent::Line(msg) => {
                let ok = match &msg {
                    ReaderThreadMsg::Command(cmd) => {
                        let verb = cmd.verb();
                        self.accepts(verb, cmd)
                    },
                };
                if ok {
                    let exit = self.handle_reader_msg(msg, directory);
                    Step { exit, rejected: false, mask: None }
                } else {
                    Step { exit: false, rejected: true, mask: None }
                }
            },
        }
    }
}

/// An answer to a request for a mask, as plain values.
pub open spec fn reply_view(reply: Result<Mask, UserError>) -> Result<MaskView, UserError> {
    match reply {
        Ok(mask) => Ok(mask@),
        Err(e) => Err(e),
    }
}

/// Answers to requests for a mask, as plain values.
pub open spec fn reply_views(replies: Seq<Result<Mask, UserError>>) -> Seq<
    Result<MaskView, UserError>,
> {
    Seq::new(replies.len(), |i: int| reply_view(replies[i]))
}

/// What a run of a session over a list of events comes to.
#[derive(Debug, PartialEq, Eq)]
pub struct Run {
    /// Whether the connection shall go on as a server link.
    pub upgrade: bool,
    /// Whether the session has ended.
    pub exit: bool,
    /// Whether the run stopped at a command that the session cannot
    /// handle.
    pub rejected: bool,
    /// How many of the events were handled.
    pub handled: usize,
    /// The answers to the requests for the session's mask, in the order
    /// of the requests.
    pub replies: Vec<Result<Mask, UserError>>,
}

/// A `Run` as plain values, with the session and the directory that it
/// leaves.
pub struct RunView {
    pub turn: Turn,
    pub rejected: bool,
    pub handled: nat,
    pub replies: Seq<Result<MaskView, UserError>>,
}

impl UserWorkerView {
    /// The answer that handling `event` gives to a request for the mask:
    /// one answer if the event is such a request, none otherwise.
    pub open spec fn answers(self, event: SessionEvent) -> Seq<Result<MaskView, UserError>> {
        if event matches SessionEvent::Notification(UserThreadMsg::GetMask) {
            seq![self.mask_reply()]
        } else {
            Seq::empty()
        }
    }

    /// What a run over `events` comes to. The events are handled first to
    /// last. The run ends with the event that ends the session, be it a
    /// `QUIT`, the link secret, the time that has run out or a mailbox that
    /// is gone; it stops in front of a command that the session cannot
    /// handle; what follows is not looked at.
    pub open spec fn ran(self, events: Seq<SessionEvent>, directory: DirectoryView) -> RunView
        decreases events.len(),
    {
        if events.len() == 0 {
            RunView {
                turn: turn(self, directory, false),
                rejected: false,
                handled: 0,
                replies: Seq::empty(),
            }
        } else if self.refuses(events[0]) {
            RunView {
                turn: turn(self, directory, false),
                rejected: true,
                handled: 0,
                replies: Seq::empty(),
            }
        } else {
            let first = self.woken(events[0], directory);
            if first.exit {
                RunView {
                    turn: first,
                    rejected: false,
                    handled: 1,
                    replies: self.answers(events[0]),
                }
            } else {
                let rest = first.worker.ran(events.drop_first(), first.directory);
                RunView {
                    turn: rest.turn,
                    rejected: rest.rejected,
                    handled: rest.handled + 1,
                    replies: self.answers(events[0]) + rest.replies,
                }
            }
        }
    }
}

impl UserWorker {
    /// Runs the session over `events`, first to last, until one of them
    /// ends it or cannot be handled.
    pub fn run(&mut self, events: Vec<SessionEvent>, directory: &mut Directory) -> (out: Run)
        requires
            old(directory)@.wf(),
        ensures
            final(directory)@.wf(),
            turn(final(self)@, final(directory)@, out.exit)
                == old(self)@.ran(events@, old(directory)@).turn,
            out.rejected == old(self)@.ran(events@, old(directory)@).rejected,
            out.handled == old(self)@.ran(events@, old(directory)@).handled,
            reply_views(out.replies@) == old(self)@.ran(events@, old(directory)@).replies,
            out.upgrade == final(self)@.do_upgrade,
    {
        let ghost all = events@;
        let ghost whole = self@.ran(all, directory@);
        let total = events.len();
        let mut rest = events;
        let mut replies: Vec<Result<Mask, UserError>> = Vec::new();
        let mut handled: usize = 0;
        let mut exit = false;
        let mut rejected = false;
        assert(all.skip(0) =~= all);
        assert(reply_views(replies@) =~= Seq::empty());
        assert(reply_views(replies@) + whole.replies =~= whole.replies);
        while rest.len() > 0 && !exit && !rejected
            invariant
                directory@.wf(),
                handled + rest.len() == all.len(),
                all.len() == total,
                !(exit && rejected),
                ({
                    let ahead = if exit || rejected {
                        RunView {
                            turn: turn(self@, directory@, exit),
                            rejected,
                            handled: 0,
                            replies: Seq::empty(),
                        }
                    } else {
                        self@.ran(rest@, directory@)
                    };
                    &&& whole.turn == ahead.turn
                    &&& whole.rejected == ahead.rejected
                    &&& whole.handled == handled as nat + ahead.handled
                    &&& whole.replies == reply_views(replies@) + ahead.replies
                }),
            decreases
                    rest.len() + if exit || rejected {
                        0int
                    } else {
                        1int
                    },
        {
            let ghost here = self@;
            let ghost there = directory@;
            let ghost before = rest@;
            let ghost answered = reply_views(replies@);
            let refused = match &rest[0] {
                SessionEvent::Line(ReaderThreadMsg::Command(cmd)) => {
                    let verb = cmd.verb();
                    !self.accepts(verb, cmd)
                },
                _ => false,
            };
            assert(refused == here.refuses(before[0]));
            if refused {
                rejected = true;
                assert(answered + Seq::<Result<MaskView, UserError>>::empty() =~= answered);
            } else {
                assert(handled < all.len());
                let event = rest.remove(0);
                assert(event == before[0]);
                assert(rest@ =~= before.drop_first());
                let ghost due = here.answers(event);
                let step = self.step(event, directory);
                match step.mask {
                    Some(reply) => {
                        replies.push(reply);
                    },
                    None => {},
                }
                assert(reply_views(replies@) =~= answered + due);
                handled += 1;
                exit = step.exit;
                proof {
                    if exit {
                        assert((answered + due) + Seq::<Result<MaskView, UserError>>::empty()
                            =~= answered + due);
                    } else {
                        let rest_replies = self@.ran(rest@, directory@).replies;
                        assert((answered + due) + rest_replies =~= answered + (due + rest_replies));
                    }
                }
            }
        }
        proof {
            if !exit && !rejected {
                assert(rest@.len() == 0);
            }
        }
        Run { upgrade: self.do_upgrade, exit, rejected, handled, replies }
    }
}

} // verus!
