use ircd::{
    Config, ConfigData, ConfigWorker, ProtoOption, Writer, WriterData, WriterThreadMsg,
    WriterWorker, RPL, SRPL,
};

fn s(text: &str) -> String {
    text.to_string()
}

fn data() -> WriterData {
    WriterData { nick: s("bob"), cur_chan: s("#cur"), server_name: s("irc.example.org") }
}

fn rpl(msg: RPL) -> String {
    msg.raw(&mut data())
}

fn srpl(msg: SRPL) -> String {
    msg.raw(&mut data())
}

#[test]
fn welcome_and_host_lines() {
    assert_eq!(rpl(RPL::Welcome { msg: s("Hello, World!") }), ":irc.example.org 001 bob :Hello, World!");
    assert_eq!(rpl(RPL::YourHost), ":irc.example.org 002 bob :Your host is irc.example.org");
}

#[test]
fn mode_lines() {
    assert_eq!(rpl(RPL::ModeSelf { mode: 'i', enabled: true }), ":bob MODE bob :+i");
    assert_eq!(rpl(RPL::ModeSelf { mode: 'w', enabled: false }), ":bob MODE bob :-w");
    assert_eq!(
        rpl(RPL::Mode { target: s("#x"), mode: 'o', enabled: true }),
        ":irc.example.org MODE #x +o"
    );
    assert_eq!(
        rpl(RPL::Mode { target: s("#x"), mode: 'o', enabled: false }),
        ":irc.example.org MODE #x -o"
    );
}

#[test]
fn motd_lines() {
    assert_eq!(rpl(RPL::MotdStart), ":irc.example.org 375 :- irc.example.org Message of the Day -");
    assert_eq!(rpl(RPL::Motd(s("Hello MOTD"))), ":irc.example.org 372 :- Hello MOTD");
    assert_eq!(rpl(RPL::MotdEnd), ":irc.example.org 376 :End of /MOTD command.");
}

#[test]
fn nick_lines() {
    assert_eq!(rpl(RPL::NickInUse), ":irc.example.org 433 * bob :Nickname is already in use.");
    assert_eq!(
        rpl(RPL::NickNotFound(s("carol"))),
        ":irc.example.org 401 bob carol :No such nick/channel"
    );
}

#[test]
fn pong_line() {
    assert_eq!(rpl(RPL::Pong(s("12345"))), ":irc.example.org PONG irc.example.org :12345");
}

#[test]
fn message_lines() {
    assert_eq!(rpl(RPL::Privmsg(s("al!a@h"), s("hi there"))), ":al!a@h PRIVMSG bob :hi there");
    assert_eq!(
        rpl(RPL::PrivmsgChan(s("al!a@h"), s("#x"), s("hi all"))),
        ":al!a@h PRIVMSG #x :hi all"
    );
}

#[test]
fn join_and_part_lines() {
    assert_eq!(rpl(RPL::Join(s("al!a@h"), s("#x"))), ":al!a@h JOIN #x");
    assert_eq!(
        rpl(RPL::Part(s("al!a@h"), s("#x"), s("No reason provided"))),
        ":al!a@h PART #x :\"No reason provided\""
    );
}

#[test]
fn who_lines_use_the_current_channel() {
    let mut data = data();
    assert_eq!(RPL::WhoSpcRpl(s("al"), s("H")).raw(&mut data), ":irc.example.org 354 al 152 #cur al H");
    assert_eq!(RPL::EndOfWho.raw(&mut data), ":irc.example.org 315 bob #cur :End of /WHO list.");
    assert_eq!(RPL::WhoReply(s("#new")).raw(&mut data), ":irc.example.org 352 #new %ctnf,152");
    assert_eq!(data.cur_chan, "#new");
    assert_eq!(data.nick, "bob");
    assert_eq!(data.server_name, "irc.example.org");
    assert_eq!(RPL::WhoSpcRpl(s("al"), s("H")).raw(&mut data), ":irc.example.org 354 al 152 #new al H");
    assert_eq!(RPL::EndOfWho.raw(&mut data), ":irc.example.org 315 bob #new :End of /WHO list.");
}

#[test]
fn other_replies_leave_the_context_alone() {
    let mut data = data();
    let _ = RPL::Join(s("m"), s("#other")).raw(&mut data);
    let _ = SRPL::Sjoin(s("0"), s("#other"), vec![]).raw(&mut data);
    assert_eq!(data, super_data());
}

fn super_data() -> WriterData {
    data()
}

#[test]
fn names_lines() {
    assert_eq!(
        rpl(RPL::NameReply(s("#x"), vec![s("A"), s("B")])),
        ":irc.example.org 353 bob @ #x :A B"
    );
    assert_eq!(rpl(RPL::NameReply(s("#x"), vec![])), ":irc.example.org 353 bob @ #x :");
    assert_eq!(rpl(RPL::EndOfNames(s("#x"))), ":irc.example.org 366 bob #x :End of /NAMES list");
}

#[test]
fn proto_option_tokens() {
    assert_eq!(ProtoOption::EAUTH(s("irc.example.org")).raw(), "EAUTH=irc.example.org");
    assert_eq!(ProtoOption::SID(s("042")).raw(), "SID=042");
    assert_eq!(ProtoOption::NOQUIT.raw(), "NOQUIT");
    assert_eq!(ProtoOption::NICKv2.raw(), "NICKv2");
    assert_eq!(ProtoOption::SJOIN.raw(), "SJOIN");
    assert_eq!(ProtoOption::SJ3.raw(), "SJ3");
    assert_eq!(ProtoOption::CLK.raw(), "CLK");
    assert_eq!(ProtoOption::NICKIP.raw(), "NICKIP");
    assert_eq!(ProtoOption::TKLEXT.raw(), "TKLEXT");
    assert_eq!(ProtoOption::TKLEXT2.raw(), "TKLEXT2");
    assert_eq!(ProtoOption::ESVID.raw(), "ESVID");
    assert_eq!(ProtoOption::MLOCK.raw(), "MLOCK");
    assert_eq!(ProtoOption::EXTSWHOIS.raw(), "EXTSWHOIS");
}

#[test]
fn server_lines() {
    assert_eq!(srpl(SRPL::Pass(s("secret"))), "PASS :secret");
    assert_eq!(srpl(SRPL::Server(s("irc.example.org"), 1, s("A test server"))), "SERVER irc.example.org 1 :A test server");
    assert_eq!(srpl(SRPL::Pong(s("abc"))), "PONG :abc");
    assert_eq!(srpl(SRPL::EOS), "EOS");
    assert_eq!(
        srpl(SRPL::ProtoCtl(vec![ProtoOption::EAUTH(s("me")), ProtoOption::NOQUIT, ProtoOption::SJ3])),
        "PROTOCTL EAUTH=me NOQUIT SJ3"
    );
    assert_eq!(srpl(SRPL::ProtoCtl(vec![])), "PROTOCTL ");
}

#[test]
fn nick_line_counts_one_more_hop() {
    let line = SRPL::Nick(
        s("bob"),
        0,
        s("123456"),
        s("robert"),
        s("TODO"),
        s("irc.example.org"),
        s("0"),
        s(""),
        s("*"),
        s("Bob B."),
    );
    assert_eq!(srpl(line), "NICK bob 1 123456 robert TODO irc.example.org 0  * :Bob B.");
}

#[test]
fn nick_line_with_the_highest_hop_count() {
    let line = SRPL::Nick(s("n"), u32::MAX, s("t"), s("u"), s("h"), s("s"), s("0"), s("m"), s("c"), s("r"));
    assert_eq!(srpl(line), "NICK n 4294967296 t u h s 0 m c :r");
}

#[test]
fn sjoin_line_is_prefixed_with_the_server_name() {
    assert_eq!(
        srpl(SRPL::Sjoin(s("0"), s("#x"), vec![s("bob"), s("al")])),
        ":irc.example.org SJOIN 0 #x :bob al"
    );
}

fn config() -> Config {
    Config::new(ConfigWorker::new(ConfigData::new(
        s("irc.example.org"),
        s("0.0.0.0:6667"),
        s("0.0.0.0:6697"),
        s("secret"),
        s("A test server"),
    )))
}

#[test]
fn writer_collects_requests_in_order() {
    let mut writer = Writer::new();
    writer.update_nick(s("bob"));
    writer.write(RPL::YourHost);
    writer.swrite(SRPL::EOS);
    writer.write_raw(s("raw"));
    assert_eq!(
        writer.take(),
        vec![
            WriterThreadMsg::UpdateNick(s("bob")),
            WriterThreadMsg::Send(RPL::YourHost),
            WriterThreadMsg::SSend(SRPL::EOS),
            WriterThreadMsg::SendRaw(s("raw")),
        ]
    );
    assert!(writer.take().is_empty());
}

#[test]
fn writer_worker_renders_lines_with_line_ends() {
    let mut worker = WriterWorker::new(config());
    assert_eq!(worker.handle_msg(WriterThreadMsg::UpdateNick(s("bob"))), None);
    assert_eq!(
        worker.handle_msg(WriterThreadMsg::Send(RPL::YourHost)),
        Some(s(":irc.example.org 002 bob :Your host is irc.example.org\r\n"))
    );
    assert_eq!(
        worker.handle_msg(WriterThreadMsg::SSend(SRPL::Sjoin(s("0"), s("#x"), vec![s("bob")]))),
        Some(s(":irc.example.org SJOIN 0 #x :bob\r\n"))
    );
    assert_eq!(worker.handle_msg(WriterThreadMsg::SendRaw(s("as it is"))), Some(s("as it is")));
}

#[test]
fn writer_worker_remembers_the_channel_of_a_who_reply() {
    let mut worker = WriterWorker::new(config());
    let _ = worker.handle_msg(WriterThreadMsg::UpdateNick(s("bob")));
    let _ = worker.handle_msg(WriterThreadMsg::Send(RPL::WhoReply(s("#x"))));
    assert_eq!(
        worker.handle_msg(WriterThreadMsg::Send(RPL::EndOfWho)),
        Some(s(":irc.example.org 315 bob #x :End of /WHO list.\r\n"))
    );
}

#[test]
fn default_writer_data_is_empty() {
    assert_eq!(
        WriterData::default(),
        WriterData { nick: String::new(), cur_chan: String::new(), server_name: String::new() }
    );
}
