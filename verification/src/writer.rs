//! The way out of a connection: what a session asks its writer to do, and
//! what the writer makes of it.
//!
//! A `Writer` collects the requests of one session in order. A
//! `WriterWorker` takes them one by one and turns each into the text that
//! goes onto the stream.

use crate::command::ParsedCommand;
use crate::config::{Config, ConfigDataView};
use crate::reply::{RPLView, SRPLView, WriterData, WriterDataView, RPL, SRPL};
use vstd::prelude::*;

verus! {

/// What reaches a session from its connection.
#[derive(Debug, PartialEq, Eq)]
pub enum ReaderThreadMsg {
    Command(ParsedCommand),
}

/// A request to the writer of a connection.
#[derive(Debug, PartialEq, Eq)]
pub enum WriterThreadMsg {
    /// Text that goes out as it is.
    SendRaw(String),
    Send(RPL),
    SSend(SRPL),
    /// The nick that replies shall address from now on.
    UpdateNick(String),
}

/// A `WriterThreadMsg` as plain values.
pub enum WriterThreadMsgView {
    SendRaw(Seq<char>),
    Send(RPLView),
    SSend(SRPLView),
    UpdateNick(Seq<char>),
}

impl View for WriterThreadMsg {
    type V = WriterThreadMsgView;

    open spec fn view(&self) -> WriterThreadMsgView {
        match self {
            WriterThreadMsg::SendRaw(raw) => WriterThreadMsgView::SendRaw(raw@),
            WriterThreadMsg::Send(rpl) => WriterThreadMsgView::Send(rpl@),
            WriterThreadMsg::SSend(srpl) => WriterThreadMsgView::SSend(srpl@),
            WriterThreadMsg::UpdateNick(nick) => WriterThreadMsgView::UpdateNick(nick@),
        }
    }
}

impl DeepView for WriterThreadMsg {
    type V = WriterThreadMsgView;

    open spec fn deep_view(&self) -> WriterThreadMsgView {
        self@
    }
}

/// The requests of one session to its writer that wait to be carried out,
/// oldest first.
#[derive(Debug)]
pub struct Writer {
    thread: Vec<WriterThreadMsg>,
}

impl View for Writer {
    type V = Seq<WriterThreadMsgView>;

    closed spec fn view(&self) -> Seq<WriterThreadMsgView> {
        self.thread.deep_view()
    }
}

impl Writer {
    /// A writer with nothing to do.
    pub fn new() -> (writer: Self)
        ensures
            writer@ == Seq::<WriterThreadMsgView>::empty(),
    {
        let writer = Writer { thread: Vec::new() };
        assert(writer@ =~= Seq::empty());
        writer
    }

    fn send(&mut self, msg: WriterThreadMsg)
        ensures
            final(self)@ == old(self)@.push(msg@),
    {
        self.thread.push(msg);
        assert(self@ =~= old(self)@.push(msg@));
    }

    /// Asks for `msg` to go out as it is.
    pub fn write_raw(&mut self, msg: String)
        ensures
            final(self)@ == old(self)@.push(WriterThreadMsgView::SendRaw(msg@)),
    {
        self.send(WriterThreadMsg::SendRaw(msg))
    }

    /// Asks for a reply to the client.
    pub fn write(&mut self, msg: RPL)
        ensures
            final(self)@ == old(self)@.push(WriterThreadMsgView::Send(msg@)),
    {
        self.send(WriterThreadMsg::Send(msg))
    }

    /// Asks for a line to the linked server.
    pub fn swrite(&mut self, msg: SRPL)
        ensures
            final(self)@ == old(self)@.push(WriterThreadMsgView::SSend(msg@)),
    {
        self.send(WriterThreadMsg::SSend(msg))
    }

    /// Tells the writer the nick that replies shall address.
    pub fn update_nick(&mut self, nick: String)
        ensures
            final(self)@ == old(self)@.push(WriterThreadMsgView::UpdateNick(nick@)),
    {
        self.send(WriterThreadMsg::UpdateNick(nick))
    }

    /// Takes the waiting requests out, oldest first.
    pub fn take(&mut self) -> (msgs: Vec<WriterThreadMsg>)
        ensures
            msgs.deep_view() == old(self)@,
            final(self)@ == Seq::<WriterThreadMsgView>::empty(),
    {
        let mut msgs: Vec<WriterThreadMsg> = Vec::new();
        let ghost waiting = self.thread.deep_view();
        msgs.append(&mut self.thread);
        assert(msgs.deep_view() =~= waiting);
        assert(self@ =~= Seq::empty());
        msgs
    }
}

/// The end of every line that a writer renders.
pub open spec fn line_end() -> Seq<char> {
    "\r\n"@
}

impl WriterThreadMsgView {
    /// The writer's context after this request: a new nick is taken over,
    /// and a reply is rendered with the configured server name in place.
    pub open spec fn context_after(
        self,
        data: WriterDataView,
        config: ConfigDataView,
    ) -> WriterDataView {
        let named = WriterDataView { server_name: config.server_name, ..data };
        match self {
            WriterThreadMsgView::SendRaw(_) => data,
            WriterThreadMsgView::Send(rpl) => rpl.context_after(named),
            WriterThreadMsgView::SSend(_) => named,
            WriterThreadMsgView::UpdateNick(nick) => WriterDataView { nick, ..data },
        }
    }

    /// The text that this request puts onto the stream, if any: raw text as
    /// it is, a reply or a server line as its wire text and a line end.
    pub open spec fn output(
        self,
        data: WriterDataView,
        config: ConfigDataView,
    ) -> Option<Seq<char>> {
        let named = WriterDataView { server_name: config.server_name, ..data };
        match self {
            WriterThreadMsgView::SendRaw(raw) => Some(raw),
            WriterThreadMsgView::Send(rpl) => Some(rpl.raw(named) + line_end()),
            WriterThreadMsgView::SSend(srpl) => Some(srpl.raw(named) + line_end()),
            WriterThreadMsgView::UpdateNick(_) => None,
        }
    }
}

/// The writer of one connection: the context in which replies are
/// rendered.
#[derive(Debug)]
pub struct WriterWorker {
    data: WriterData,
    config: Config,
}

/// A `WriterWorker` as plain values.
pub struct WriterWorkerView {
    pub data: WriterDataView,
    pub config: ConfigDataView,
}

impl View for WriterWorker {
    type V = WriterWorkerView;

    closed spec fn view(&self) -> WriterWorkerView {
        WriterWorkerView { data: self.data@, config: self.config@ }
    }
}

impl WriterWorker {
    /// A writer that knows no nick and no channel yet.
    pub fn new(config: Config) -> (worker: Self)
        ensures
            worker@ == (WriterWorkerView {
                data: WriterDataView {
                    nick: Seq::empty(),
                    cur_chan: Seq::empty(),
                    server_name: Seq::empty(),
                },
                config: config@,
            }),
    {
        WriterWorker { data: WriterData::default(), config }
    }

    /// Carries out one request and returns the text for the stream, if the
    /// request has any.
    pub fn handle_msg(&mut self, msg: WriterThreadMsg) -> (out: Option<String>)
        ensures
            final(self)@.config == old(self)@.config,
            final(self)@.data == msg@.context_after(old(self)@.data, old(self)@.config),
            out.deep_view() == msg@.output(old(self)@.data, old(self)@.config),
    {
        match msg {
            WriterThreadMsg::SendRaw(raw) => Some(raw),
            WriterThreadMsg::Send(rpl) => {
                self.data.server_name = self.config.get_server_name();
                let mut line = rpl.raw(&mut self.data);
                line.append("\r\n");
                Some(line)
            },
            WriterThreadMsg::SSend(srpl) => {
                self.data.server_name = self.config.get_server_name();
                let mut line = srpl.raw(&mut self.data);
                line.append("\r\n");
                Some(line)
            },
            WriterThreadMsg::UpdateNick(nick) => {
                self.data.nick = nick;
                None
            },
        }
    }
}

} // verus!
