//! The replies a connection can be sent, and their wire text.
//!
//! `RPL` is the client-facing catalogue, `SRPL` the one spoken between
//! linked servers. Rendering is a function of the message and of the
//! writer's context (`WriterData`).

use crate::text::{decimal, decimal_string, join, joined, push_char};
use vstd::prelude::*;

verus! {

/// What the writer of a connection knows when it renders a reply.
#[derive(Debug, PartialEq, Eq)]
pub struct WriterData {
    pub nick: String,
    pub cur_chan: String,
    pub server_name: String,
}

/// A `WriterData` as plain values.
pub struct WriterDataView {
    pub nick: Seq<char>,
    pub cur_chan: Seq<char>,
    pub server_name: Seq<char>,
}

impl View for WriterData {
    type V = WriterDataView;

    open spec fn view(&self) -> WriterDataView {
        WriterDataView {
            nick: self.nick@,
            cur_chan: self.cur_chan@,
            server_name: self.server_name@,
        }
    }
}

impl Default for WriterData {
    fn default() -> (data: Self)
        ensures
            data@ == (WriterDataView {
                nick: Seq::empty(),
                cur_chan: Seq::empty(),
                server_name: Seq::empty(),
            }),
    {
        WriterData { nick: String::new(), cur_chan: String::new(), server_name: String::new() }
    }
}

/// A capability that a server announces in its `PROTOCTL` line.
#[allow(non_camel_case_types)]
#[derive(Debug, PartialEq, Eq)]
pub enum ProtoOption {
    /// The announcing server's name.
    EAUTH(String),
    /// The announcing server's id.
    SID(String),
    NOQUIT,
    NICKv2,
    SJOIN,
    SJ3,
    CLK,
    NICKIP,
    TKLEXT,
    TKLEXT2,
    ESVID,
    MLOCK,
    EXTSWHOIS,
}

/// A `ProtoOption` as plain values.
#[allow(non_camel_case_types)]
pub enum ProtoOptionView {
    EAUTH(Seq<char>),
    SID(Seq<char>),
    NOQUIT,
    NICKv2,
    SJOIN,
    SJ3,
    CLK,
    NICKIP,
    TKLEXT,
    TKLEXT2,
    ESVID,
    MLOCK,
    EXTSWHOIS,
}

impl View for ProtoOption {
    type V = ProtoOptionView;

    open spec fn view(&self) -> ProtoOptionView {
        match self {
            ProtoOption::EAUTH(name) => ProtoOptionView::EAUTH(name@),
            ProtoOption::SID(id) => ProtoOptionView::SID(id@),
            ProtoOption::NOQUIT => ProtoOptionView::NOQUIT,
            ProtoOption::NICKv2 => ProtoOptionView::NICKv2,
            ProtoOption::SJOIN => ProtoOptionView::SJOIN,
            ProtoOption::SJ3 => ProtoOptionView::SJ3,
            ProtoOption::CLK => ProtoOptionView::CLK,
            ProtoOption::NICKIP => ProtoOptionView::NICKIP,
            ProtoOption::TKLEXT => ProtoOptionView::TKLEXT,
            ProtoOption::TKLEXT2 => ProtoOptionView::TKLEXT2,
            ProtoOption::ESVID => ProtoOptionView::ESVID,
            ProtoOption::MLOCK => ProtoOptionView::MLOCK,
            ProtoOption::EXTSWHOIS => ProtoOptionView::EXTSWHOIS,
        }
    }
}

impl DeepView for ProtoOption {
    type V = ProtoOptionView;

    open spec fn deep_view(&self) -> ProtoOptionView {
        self@
    }
}

impl ProtoOptionView {
    /// The token that stands for this option in a `PROTOCTL` line.
    pub open spec fn raw(self) -> Seq<char> {
        match self {
            ProtoOptionView::EAUTH(name) => "EAUTH="@ + name,
            ProtoOptionView::SID(id) => "SID="@ + id,
            ProtoOptionView::NOQUIT => "NOQUIT"@,
            ProtoOptionView::NICKv2 => "NICKv2"@,
            ProtoOptionView::SJOIN => "SJOIN"@,
            ProtoOptionView::SJ3 => "SJ3"@,
            ProtoOptionView::CLK => "CLK"@,
            ProtoOptionView::NICKIP => "NICKIP"@,
            ProtoOptionView::TKLEXT => "TKLEXT"@,
            ProtoOptionView::TKLEXT2 => "TKLEXT2"@,
            ProtoOptionView::ESVID => "ESVID"@,
            ProtoOptionView::MLOCK => "MLOCK"@,
            ProtoOptionView::EXTSWHOIS => "EXTSWHOIS"@,
        }
    }
}

impl ProtoOption {
    /// The token that stands for this option in a `PROTOCTL` line.
    pub fn raw(&self) -> (token: String)
        ensures
            token@ == self@.raw(),
    {
        match self {
            ProtoOption::EAUTH(server_name) => {
                let mut token = String::from_str("EAUTH=");
                token.append(server_name.as_str());
                token
            },
            ProtoOption::SID(server_id) => {
                let mut token = String::from_str("SID=");
                token.append(server_id.as_str());
                token
            },
            ProtoOption::NOQUIT => String::from_str("NOQUIT"),
            ProtoOption::NICKv2 => String::from_str("NICKv2"),
            ProtoOption::SJOIN => String::from_str("SJOIN"),
            ProtoOption::SJ3 => String::from_str("SJ3"),
            ProtoOption::CLK => String::from_str("CLK"),
            ProtoOption::NICKIP => String::from_str("NICKIP"),
            ProtoOption::TKLEXT => String::from_str("TKLEXT"),
            ProtoOption::TKLEXT2 => String::from_str("TKLEXT2"),
            ProtoOption::ESVID => String::from_str("ESVID"),
            ProtoOption::MLOCK => String::from_str("MLOCK"),
            ProtoOption::EXTSWHOIS => String::from_str("EXTSWHOIS"),
        }
    }
}

/// The tokens of `opts`, in order.
pub open spec fn option_tokens(opts: Seq<ProtoOptionView>) -> Seq<Seq<char>> {
    Seq::new(opts.len(), |i: int| opts[i].raw())
}

/// A line of the server-to-server protocol.
#[derive(Debug, PartialEq, Eq)]
pub enum SRPL {
    /// The message to echo.
    Pong(String),
    /// The link secret.
    Pass(String),
    /// Name, hop count, description.
    Server(String, u32, String),
    ProtoCtl(Vec<ProtoOption>),
    /// Nick, hops, timestamp, user name, host name, server name, services
    /// stamp, modes, cloaked host, real name.
    Nick(String, u32, String, String, String, String, String, String, String, String),
    /// Timestamp, channel, the nicks of its members.
    Sjoin(String, String, Vec<String>),
    EOS,
}

/// An `SRPL` as plain values.
pub enum SRPLView {
    Pong(Seq<char>),
    Pass(Seq<char>),
    Server(Seq<char>, u32, Seq<char>),
    ProtoCtl(Seq<ProtoOptionView>),
    Nick(
        Seq<char>,
        u32,
        Seq<char>,
        Seq<char>,
        Seq<char>,
        Seq<char>,
        Seq<char>,
        Seq<char>,
        Seq<char>,
        Seq<char>,
    ),
    Sjoin(Seq<char>, Seq<char>, Seq<Seq<char>>),
    EOS,
}

impl View for SRPL {
    type V = SRPLView;

    open spec fn view(&self) -> SRPLView {
        match self {
            SRPL::Pong(msg) => SRPLView::Pong(msg@),
            SRPL::Pass(pass) => SRPLView::Pass(pass@),
            SRPL::Server(name, hops, desc) => SRPLView::Server(name@, *hops, desc@),
            SRPL::ProtoCtl(opts) => SRPLView::ProtoCtl(opts.deep_view()),
            SRPL::Nick(nick, hops, ts, user, host, server, stamp, modes, cloak, realname) =>
                SRPLView::Nick(
                nick@,
                *hops,
                ts@,
                user@,
                host@,
                server@,
                stamp@,
                modes@,
                cloak@,
                realname@,
            ),
            SRPL::Sjoin(ts, channel, users) => SRPLView::Sjoin(ts@, channel@, users.deep_view()),
            SRPL::EOS => SRPLView::EOS,
        }
    }
}

impl SRPLView {
    /// The wire text of this line, without the line ending. A `Nick` line
    /// carries the hop count as the peer sees it, one more than ours.
    pub open spec fn raw(self, data: WriterDataView) -> Seq<char> {
        match self {
            SRPLView::Pass(pass) => "PASS :"@ + pass,
            SRPLView::Server(name, hops, desc) => "SERVER "@ + name + " "@ + decimal(hops as nat)
                + " :"@ + desc,
            SRPLView::Pong(msg) => "PONG :"@ + msg,
            SRPLView::ProtoCtl(opts) => "PROTOCTL "@ + joined(option_tokens(opts), " "@),
            SRPLView::EOS => "EOS"@,
            SRPLView::Nick(nick, hops, ts, user, host, server, stamp, modes, cloak, realname) =>
                "NICK "@ + nick + " "@ + decimal((hops + 1) as nat) + " "@ + ts + " "@ + user + " "@
                + host + " "@ + server + " "@ + stamp + " "@ + modes + " "@ + cloak + " :"@
                + realname,
            SRPLView::Sjoin(ts, channel, users) => ":"@ + data.server_name + " SJOIN "@ + ts + " "@
                + channel + " :"@ + joined(users, " "@),
        }
    }
}

impl SRPL {
    /// The wire text of this line, without the line ending.
    pub fn raw(&self, data: &mut WriterData) -> (line: String)
        ensures
            line@ == self@.raw(old(data)@),
            final(data)@ == old(data)@,
    {
        match self {
            SRPL::Pass(pass) => {
                let mut line = String::from_str("PASS :");
                line.append(pass.as_str());
                line
            },
            SRPL::Server(name, hops, desc) => {
                let mut line = String::from_str("SERVER ");
                line.append(name.as_str());
                line.append(" ");
                line.append(decimal_string(*hops as u64).as_str());
                line.append(" :");
                line.append(desc.as_str());
                line
            },
            SRPL::Pong(msg) => {
                let mut line = String::from_str("PONG :");
                line.append(msg.as_str());
                line
            },
            SRPL::ProtoCtl(opts) => {
                let mut tokens: Vec<String> = Vec::new();
                let mut i: usize = 0;
                while i < opts.len()
                    invariant
                        i <= opts.len(),
                        tokens.deep_view() == option_tokens(opts.deep_view()).take(i as int),
                    decreases opts.len() - i,
                {
                    let ghost before = tokens.deep_view();
                    let token = opts[i].raw();
                    tokens.push(token);
                    i += 1;
                    proof {
                        assert(tokens.deep_view() =~= before.push(token@));
                        assert(opts.deep_view()[i - 1] == opts[i - 1]@);
                        assert(before.push(token@) =~= option_tokens(opts.deep_view()).take(
                            i as int,
                        ));
                    }
                }
                assert(option_tokens(opts.deep_view()).take(opts.len() as int) == option_tokens(
                    opts.deep_view(),
                ));
                let mut line = String::from_str("PROTOCTL ");
                line.append(join(&tokens, " ").as_str());
                line
            },
            SRPL::EOS => String::from_str("EOS"),
            SRPL::Nick(nick, hops, ts, user, host, server, stamp, modes, cloak, realname) => {
                let mut line = String::from_str("NICK ");
                line.append(nick.as_str());
                line.append(" ");
                line.append(decimal_string(*hops as u64 + 1).as_str());
                line.append(" ");
                line.append(ts.as_str());
                line.append(" ");
                line.append(user.as_str());
                line.append(" ");
                line.append(host.as_str());
                line.append(" ");
                line.append(server.as_str());
                line.append(" ");
                line.append(stamp.as_str());
                line.append(" ");
                line.append(modes.as_str());
                line.append(" ");
                line.append(cloak.as_str());
                line.append(" :");
                line.append(realname.as_str());
                line
            },
            SRPL::Sjoin(ts, channel, users) => {
                let mut line = String::from_str(":");
                line.append(data.server_name.as_str());
                line.append(" SJOIN ");
                line.append(ts.as_str());
                line.append(" ");
                line.append(channel.as_str());
                line.append(" :");
                line.append(join(users, " ").as_str());
                line
            },
        }
    }
}

/// A reply to a client.
#[derive(Debug, PartialEq, Eq)]
pub enum RPL {
    Welcome { msg: String },
    YourHost,
    ModeSelf { mode: char, enabled: bool },
    Mode { target: String, mode: char, enabled: bool },
    MotdStart,
    Motd(String),
    MotdEnd,
    NickInUse,
    /// The target that was not found.
    NickNotFound(String),
    /// The message to echo.
    Pong(String),
    /// Sender's mask, message.
    Privmsg(String, String),
    /// Sender's mask, channel, message.
    PrivmsgChan(String, String, String),
    /// Mask, channel.
    Join(String, String),
    /// Mask, channel, reason.
    Part(String, String, String),
    /// The channel that the following `WhoSpcRpl` lines are about.
    WhoReply(String),
    /// Mask, modes.
    WhoSpcRpl(String, String),
    EndOfWho,
    /// Channel, the nicks of its members.
    NameReply(String, Vec<String>),
    /// Channel.
    EndOfNames(String),
}

/// An `RPL` as plain values.
pub enum RPLView {
    Welcome { msg: Seq<char> },
    YourHost,
    ModeSelf { mode: char, enabled: bool },
    Mode { target: Seq<char>, mode: char, enabled: bool },
    MotdStart,
    Motd(Seq<char>),
    MotdEnd,
    NickInUse,
    NickNotFound(Seq<char>),
    Pong(Seq<char>),
    Privmsg(Seq<char>, Seq<char>),
    PrivmsgChan(Seq<char>, Seq<char>, Seq<char>),
    Join(Seq<char>, Seq<char>),
    Part(Seq<char>, Seq<char>, Seq<char>),
    WhoReply(Seq<char>),
    WhoSpcRpl(Seq<char>, Seq<char>),
    EndOfWho,
    NameReply(Seq<char>, Seq<Seq<char>>),
    EndOfNames(Seq<char>),
}

impl View for RPL {
    type V = RPLView;

    open spec fn view(&self) -> RPLView {
        match self {
            RPL::Welcome { msg } => RPLView::Welcome { msg: msg@ },
            RPL::YourHost => RPLView::YourHost,
            RPL::ModeSelf { mode, enabled } => RPLView::ModeSelf { mode: *mode, enabled: *enabled },
            RPL::Mode { target, mode, enabled } => RPLView::Mode {
                target: target@,
                mode: *mode,
                enabled: *enabled,
            },
            RPL::MotdStart => RPLView::MotdStart,
            RPL::Motd(line) => RPLView::Motd(line@),
            RPL::MotdEnd => RPLView::MotdEnd,
            RPL::NickInUse => RPLView::NickInUse,
            RPL::NickNotFound(target) => RPLView::NickNotFound(target@),
            RPL::Pong(msg) => RPLView::Pong(msg@),
            RPL::Privmsg(mask, msg) => RPLView::Privmsg(mask@, msg@),
            RPL::PrivmsgChan(mask, chan, msg) => RPLView::PrivmsgChan(mask@, chan@, msg@),
            RPL::Join(mask, chan) => RPLView::Join(mask@, chan@),
            RPL::Part(mask, chan, reason) => RPLView::Part(mask@, chan@, reason@),
            RPL::WhoReply(chan) => RPLView::WhoReply(chan@),
            RPL::WhoSpcRpl(mask, modes) => RPLView::WhoSpcRpl(mask@, modes@),
            RPL::EndOfWho => RPLView::EndOfWho,
            RPL::NameReply(chan, names) => RPLView::NameReply(chan@, names.deep_view()),
            RPL::EndOfNames(chan) => RPLView::EndOfNames(chan@),
        }
    }
}

/// `+` for a mode that is switched on, `-` for one that is switched off.
pub open spec fn mode_sign(enabled: bool) -> Seq<char> {
    if enabled {
        "+"@
    } else {
        "-"@
    }
}

impl RPLView {
    /// The wire text of this reply, without the line ending.
    pub open spec fn raw(self, data: WriterDataView) -> Seq<char> {
        let sname = data.server_name;
        let nick = data.nick;
        match self {
            RPLView::Welcome { msg } => ":"@ + sname + " 001 "@ + nick + " :"@ + msg,
            RPLView::YourHost => ":"@ + sname + " 002 "@ + nick + " :Your host is "@ + sname,
            RPLView::ModeSelf { mode, enabled } => (":"@ + nick + " MODE "@ + nick + " :"@
                + mode_sign(enabled)).push(mode),
            RPLView::Mode { target, mode, enabled } => (":"@ + sname + " MODE "@ + target + " "@
                + mode_sign(enabled)).push(mode),
            RPLView::MotdStart => ":"@ + sname + " 375 :- "@ + sname + " Message of the Day -"@,
            RPLView::Motd(line) => ":"@ + sname + " 372 :- "@ + line,
            RPLView::MotdEnd => ":"@ + sname + " 376 :End of /MOTD command."@,
            RPLView::NickInUse => ":"@ + sname + " 433 * "@ + nick
                + " :Nickname is already in use."@,
            RPLView::NickNotFound(target) => ":"@ + sname + " 401 "@ + nick + " "@ + target
                + " :No such nick/channel"@,
            RPLView::Privmsg(mask, msg) => ":"@ + mask + " PRIVMSG "@ + nick + " :"@ + msg,
            RPLView::PrivmsgChan(mask, chan, msg) => ":"@ + mask + " PRIVMSG "@ + chan + " :"@
                + msg,
            RPLView::Pong(msg) => ":"@ + sname + " PONG "@ + sname + " :"@ + msg,
            RPLView::Join(mask, chan) => ":"@ + mask + " JOIN "@ + chan,
            RPLView::Part(mask, chan, reason) => ":"@ + mask + " PART "@ + chan + " :\""@ + reason
                + "\""@,
            RPLView::WhoReply(chan) => ":"@ + sname + " 352 "@ + chan + " %ctnf,152"@,
            RPLView::WhoSpcRpl(mask, modes) => ":"@ + sname + " 354 "@ + mask + " 152 "@
                + data.cur_chan + " "@ + mask + " "@ + modes,
            RPLView::EndOfWho => ":"@ + sname + " 315 "@ + nick + " "@ + data.cur_chan
                + " :End of /WHO list."@,
            RPLView::NameReply(chan, names) => ":"@ + sname + " 353 "@ + nick + " @ "@ + chan
                + " :"@ + joined(names, " "@),
            RPLView::EndOfNames(chan) => ":"@ + sname + " 366 "@ + nick + " "@ + chan
                + " :End of /NAMES list"@,
        }
    }

    /// The writer's context after it has rendered this reply: a `WhoReply`
    /// makes its channel the current one.
    pub open spec fn context_after(self, data: WriterDataView) -> WriterDataView {
        match self {
            RPLView::WhoReply(chan) => WriterDataView { cur_chan: chan, ..data },
            _ => data,
        }
    }
}

fn sign(enabled: bool) -> (s: &'static str)
    ensures
        s@ == mode_sign(enabled),
{
    if enabled {
        "+"
    } else {
        "-"
    }
}

impl RPL {
    /// The wire text of this reply, without the line ending.
    pub fn raw(&self, data: &mut WriterData) -> (line: String)
        ensures
            line@ == self@.raw(old(data)@),
            final(data)@ == self@.context_after(old(data)@),
    {
        let mut line = String::from_str(":");
        match self {
            RPL::Welcome { msg } => {
                line.append(data.server_name.as_str());
                line.append(" 001 ");
                line.append(data.nick.as_str());
                line.append(" :");
                line.append(msg.as_str());
            },
            RPL::YourHost => {
                line.append(data.server_name.as_str());
                line.append(" 002 ");
                line.append(data.nick.as_str());
                line.append(" :Your host is ");
                line.append(data.server_name.as_str());
            },
            RPL::ModeSelf { mode, enabled } => {
                line.append(data.nick.as_str());
                line.append(" MODE ");
                line.append(data.nick.as_str());
                line.append(" :");
                line.append(sign(*enabled));
                push_char(&mut line, *mode);
            },
            RPL::Mode { target, mode, enabled } => {
                line.append(data.server_name.as_str());
                line.append(" MODE ");
                line.append(target.as_str());
                line.append(" ");
                line.append(sign(*enabled));
                push_char(&mut line, *mode);
            },
            RPL::MotdStart => {
                line.append(data.server_name.as_str());
                line.append(" 375 :- ");
                line.append(data.server_name.as_str());
                line.append(" Message of the Day -");
            },
            RPL::Motd(msg) => {
                line.append(data.server_name.as_str());
                line.append(" 372 :- ");
                line.append(msg.as_str());
            },
            RPL::MotdEnd => {
                line.append(data.server_name.as_str());
                line.append(" 376 :End of /MOTD command.");
            },
            RPL::NickInUse => {
                line.append(data.server_name.as_str());
                line.append(" 433 * ");
                line.append(data.nick.as_str());
                line.append(" :Nickname is already in use.");
            },
            RPL::NickNotFound(target) => {
                line.append(data.server_name.as_str());
                line.append(" 401 ");
                line.append(data.nick.as_str());
                line.append(" ");
                line.append(target.as_str());
                line.append(" :No such nick/channel");
            },
            RPL::Privmsg(mask, msg) => {
                line.append(mask.as_str());
                line.append(" PRIVMSG ");
                line.append(data.nick.as_str());
                line.append(" :");
                line.append(msg.as_str());
            },
            RPL::PrivmsgChan(mask, chan, msg) => {
                line.append(mask.as_str());
                line.append(" PRIVMSG ");
                line.append(chan.as_str());
                line.append(" :");
                line.append(msg.as_str());
            },
            RPL::Pong(msg) => {
                line.append(data.server_name.as_str());
                line.append(" PONG ");
                line.append(data.server_name.as_str());
                line.append(" :");
                line.append(msg.as_str());
            },
            RPL::Join(mask, chan) => {
                line.append(mask.as_str());
                line.append(" JOIN ");
                line.append(chan.as_str());
            },
            RPL::Part(mask, chan, reason) => {
                line.append(mask.as_str());
                line.append(" PART ");
                line.append(chan.as_str());
                line.append(" :\"");
                line.append(reason.as_str());
                line.append("\"");
            },
            RPL::WhoReply(chan) => {
                line.append(data.server_name.as_str());
                line.append(" 352 ");
                line.append(chan.as_str());
                line.append(" %ctnf,152");
                data.cur_chan = chan.clone();
            },
            RPL::WhoSpcRpl(mask, modes) => {
                line.append(data.server_name.as_str());
                line.append(" 354 ");
                line.append(mask.as_str());
                line.append(" 152 ");
                line.append(data.cur_chan.as_str());
                line.append(" ");
                line.append(mask.as_str());
                line.append(" ");
                line.append(modes.as_str());
            },
            RPL::EndOfWho => {
                line.append(data.server_name.as_str());
                line.append(" 315 ");
                line.append(data.nick.as_str());
                line.append(" ");
                line.append(data.cur_chan.as_str());
                line.append(" :End of /WHO list.");
            },
            RPL::NameReply(channel, names) => {
                line.append(data.server_name.as_str());
                line.append(" 353 ");
                line.append(data.nick.as_str());
                line.append(" @ ");
                line.append(channel.as_str());
                line.append(" :");
                line.append(join(names, " ").as_str());
            },
            RPL::EndOfNames(channel) => {
                line.append(data.server_name.as_str());
                line.append(" 366 ");
                line.append(data.nick.as_str());
                line.append(" ");
                line.append(channel.as_str());
                line.append(" :End of /NAMES list");
            },
        }
        line
    }
}

} // verus!
