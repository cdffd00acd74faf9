use ircd::user_msg::Error as UserError;
use ircd::{
    Config, ConfigData, ConfigWorker, Delivery, Directory, LineFSM, Mask, ParsedCommand,
    ReaderThreadMsg, Run, SessionEvent, User, UserThreadMsg, UserWorker, Writer, WriterThreadMsg,
    PING_TIMEOUT_MS, RPL,
};

fn s(text: &str) -> String {
    text.to_string()
}

fn config() -> Config {
    Config::new(ConfigWorker::new(ConfigData::new(
        s("irc.example.org"),
        s("0.0.0.0:6667"),
        s("0.0.0.0:6697"),
        s("secret"),
        s("A test server"),
    )))
}

fn cmd(line: &str) -> ParsedCommand {
    LineFSM::new().handle_line(line.to_string()).unwrap()
}

fn to(address: u64, msg: UserThreadMsg) -> Delivery {
    Delivery { to: User::new(address), msg }
}

fn send(msg: RPL) -> WriterThreadMsg {
    WriterThreadMsg::Send(msg)
}

/// A session with the mailbox `address`, not yet registered.
fn session(directory: &mut Directory, address: u64) -> UserWorker {
    let entry = directory.new_user(User::new(address));
    UserWorker::new(Writer::new(), entry, config())
}

/// A session that has registered as `nick`, with its greeting taken out.
fn connected(directory: &mut Directory, address: u64, nick: &str) -> UserWorker {
    let mut worker = session(directory, address);
    assert!(!worker.handle_command(cmd(&format!("NICK {}", nick)), directory));
    assert!(!worker.handle_command(cmd(&format!("USER {} 0 * :{} Real", nick, nick)), directory));
    assert!(worker.is_connected());
    worker.take_output();
    worker
}

fn welcome(nick: &str) -> Vec<WriterThreadMsg> {
    vec![
        WriterThreadMsg::UpdateNick(s(nick)),
        send(RPL::Welcome { msg: s("Hello, World!") }),
        send(RPL::YourHost),
        send(RPL::MotdStart),
        send(RPL::Motd(s("Hello MOTD"))),
        send(RPL::MotdEnd),
        send(RPL::ModeSelf { mode: 'i', enabled: true }),
    ]
}

#[test]
fn timeout_is_six_minutes() {
    assert_eq!(PING_TIMEOUT_MS, 6 * 60 * 1000);
}

#[test]
fn nick_and_user_register_the_session() {
    let mut directory = Directory::new();
    let mut worker = session(&mut directory, 1);
    assert!(!worker.handle_command(cmd("NICK bob"), &mut directory));
    assert!(!worker.is_connected());
    assert!(worker.take_output().is_empty());
    assert!(!worker.handle_command(cmd("USER robert 0 * :Bob B."), &mut directory));
    assert!(worker.is_connected());
    assert_eq!(worker.take_output(), welcome("bob"));
    assert_eq!(directory.get_user_by_nick(s("bob")), Ok(User::new(1)));
    assert_eq!(
        worker.mask(),
        Ok(Mask::new(s("bob"), s("robert"), s("TODO"), s("Bob B."), 0, s("123456"), s("irc.example.org")))
    );
}

#[test]
fn user_before_nick_registers_as_well() {
    let mut directory = Directory::new();
    let mut worker = session(&mut directory, 1);
    assert!(!worker.handle_command(cmd("user robert 0 * :Bob"), &mut directory));
    assert!(!worker.is_connected());
    assert!(!worker.handle_command(cmd("nick bob"), &mut directory));
    assert!(worker.is_connected());
    assert_eq!(worker.take_output(), welcome("bob"));
}

#[test]
fn user_without_a_real_name_is_not_complete() {
    let mut directory = Directory::new();
    let mut worker = session(&mut directory, 1);
    worker.handle_command(cmd("NICK bob"), &mut directory);
    worker.handle_command(cmd("USER robert 0 *"), &mut directory);
    assert!(!worker.is_connected());
    assert_eq!(worker.mask(), Err(UserError::InvalidState));
}

#[test]
fn taken_nick_is_told_and_leaves_the_session_unregistered() {
    let mut directory = Directory::new();
    let _a = connected(&mut directory, 1, "bob");
    let mut b = session(&mut directory, 2);
    b.handle_command(cmd("USER other 0 * :Other Bob"), &mut directory);
    assert!(!b.handle_command(cmd("NICK bob"), &mut directory));
    assert!(!b.is_connected());
    assert_eq!(b.take_output(), vec![WriterThreadMsg::UpdateNick(s("bob")), send(RPL::NickInUse)]);
    assert_eq!(directory.get_user_by_nick(s("bob")), Ok(User::new(1)));
    assert!(!b.handle_command(cmd("NICK bobby"), &mut directory));
    assert!(b.is_connected());
    assert_eq!(b.take_output(), welcome("bobby"));
    assert_eq!(directory.get_user_by_nick(s("bobby")), Ok(User::new(2)));
}

#[test]
fn link_secret_as_first_command_upgrades_the_connection() {
    let mut directory = Directory::new();
    let mut worker = session(&mut directory, 1);
    assert!(worker.handle_command(cmd("PASS :secret"), &mut directory));
    assert!(worker.do_upgrade());
    let (writer, upgrade) = worker.release(&mut directory);
    assert!(upgrade);
    let mut writer = writer;
    assert!(writer.take().is_empty());
    assert!(directory.get_users().is_empty());
}

#[test]
fn wrong_secret_ends_the_session_without_upgrade() {
    let mut directory = Directory::new();
    let mut worker = session(&mut directory, 1);
    assert!(worker.handle_command(cmd("PASS guess"), &mut directory));
    assert!(!worker.do_upgrade());
}

#[test]
fn secret_is_the_words_of_the_command_put_together() {
    let mut directory = Directory::new();
    let mut worker = session(&mut directory, 1);
    assert!(worker.handle_command(cmd("PASS sec :ret"), &mut directory));
    assert!(worker.do_upgrade());
}

#[test]
fn pass_after_nick_is_ignored() {
    let mut directory = Directory::new();
    let mut worker = session(&mut directory, 1);
    worker.handle_command(cmd("NICK bob"), &mut directory);
    assert!(!worker.handle_command(cmd("PASS secret"), &mut directory));
    assert!(!worker.do_upgrade());
}

#[test]
fn ping_is_answered_in_every_state() {
    let mut directory = Directory::new();
    let mut worker = session(&mut directory, 1);
    assert!(!worker.handle_command(cmd("PING 123 456"), &mut directory));
    assert_eq!(worker.take_output(), vec![send(RPL::Pong(s("123 456")))]);
    let mut other = connected(&mut directory, 2, "al");
    assert!(!other.handle_command(cmd("ping x"), &mut directory));
    assert_eq!(other.take_output(), vec![send(RPL::Pong(s("x")))]);
}

#[test]
fn commands_before_registration_are_ignored() {
    let mut directory = Directory::new();
    let mut worker = session(&mut directory, 1);
    for line in ["JOIN #x", "PART #x", "PRIVMSG #x :hi", "WHO #x", "MODE bob +i", "FOO bar", "JOIN"] {
        assert!(!worker.handle_command(cmd(line), &mut directory), "{}", line);
    }
    assert!(worker.take_output().is_empty());
    assert!(directory.get_channels().is_empty());
    assert!(directory.take_mail().is_empty());
}

#[test]
fn quit_ends_the_session() {
    let mut directory = Directory::new();
    let mut fresh = session(&mut directory, 1);
    assert!(fresh.handle_command(cmd("QUIT"), &mut directory));
    let mut worker = connected(&mut directory, 2, "bob");
    assert!(worker.handle_command(cmd("quit :bye"), &mut directory));
}

#[test]
fn join_creates_the_channel_and_tells_the_joiner() {
    let mut directory = Directory::new();
    let mut a = connected(&mut directory, 1, "A");
    assert!(!a.handle_command(cmd("JOIN #x"), &mut directory));
    assert!(a.is_in_channel(&s("#x")));
    assert_eq!(directory.take_mail(), vec![to(1, UserThreadMsg::JoinSelf(s("#x")))]);
    let channels = directory.get_channels();
    assert_eq!(channels.len(), 1);
    assert_eq!(directory.channel_name(channels[0]), Ok(s("#x")));
    assert_eq!(directory.channel_nicks(channels[0]), Ok(vec![s("A")]));
}

#[test]
fn second_join_is_told_to_the_first_member() {
    let mut directory = Directory::new();
    let mut a = connected(&mut directory, 1, "A");
    let mut b = connected(&mut directory, 2, "B");
    a.handle_command(cmd("JOIN #x"), &mut directory);
    directory.take_mail();
    b.handle_command(cmd("JOIN #x"), &mut directory);
    assert_eq!(
        directory.take_mail(),
        vec![
            to(1, UserThreadMsg::JoinOther(s("B!B@TODO"), s("#x"))),
            to(2, UserThreadMsg::JoinSelf(s("#x"))),
        ]
    );
    a.handle_command(cmd("WHO #x"), &mut directory);
    assert_eq!(
        directory.take_mail(),
        vec![to(1, UserThreadMsg::TransmitNames(s("#x"), vec![s("A"), s("B")]))]
    );
    assert_eq!(directory.get_channels().len(), 1);
}

#[test]
fn join_of_a_channel_twice_does_nothing() {
    let mut directory = Directory::new();
    let mut a = connected(&mut directory, 1, "A");
    a.handle_command(cmd("JOIN #x"), &mut directory);
    directory.take_mail();
    assert!(!a.handle_command(cmd("JOIN #x"), &mut directory));
    assert!(directory.take_mail().is_empty());
    assert_eq!(directory.channel_nicks(directory.get_channels()[0]), Ok(vec![s("A")]));
}

#[test]
fn part_with_a_reason_tells_the_others_the_reason() {
    let mut directory = Directory::new();
    let mut a = connected(&mut directory, 1, "A");
    let mut b = connected(&mut directory, 2, "B");
    a.handle_command(cmd("JOIN #x"), &mut directory);
    b.handle_command(cmd("JOIN #x"), &mut directory);
    directory.take_mail();
    assert!(!a.handle_command(cmd("PART #x :see you later"), &mut directory));
    assert!(!a.is_in_channel(&s("#x")));
    assert_eq!(
        directory.take_mail(),
        vec![
            to(1, UserThreadMsg::PartSelf(s("#x"), s("see you later"))),
            to(2, UserThreadMsg::PartOther(s("A"), s("#x"), s("see you later"))),
        ]
    );
}

#[test]
fn part_without_a_reason_tells_the_default_reason() {
    let mut directory = Directory::new();
    let mut a = connected(&mut directory, 1, "A");
    let mut b = connected(&mut directory, 2, "B");
    a.handle_command(cmd("JOIN #x"), &mut directory);
    b.handle_command(cmd("JOIN #x"), &mut directory);
    directory.take_mail();
    a.handle_command(cmd("PART #x"), &mut directory);
    assert_eq!(
        directory.take_mail(),
        vec![
            to(1, UserThreadMsg::PartSelf(s("#x"), s("No reason provided"))),
            to(2, UserThreadMsg::PartOther(s("A"), s("#x"), s("No reason provided"))),
        ]
    );
    b.handle_command(cmd("PART :#x"), &mut directory);
    assert_eq!(
        directory.take_mail(),
        vec![to(2, UserThreadMsg::PartSelf(s("#x"), s("No reason provided")))]
    );
}

#[test]
fn part_of_a_channel_not_joined_does_nothing() {
    let mut directory = Directory::new();
    let mut a = connected(&mut directory, 1, "A");
    assert!(!a.handle_command(cmd("PART #nowhere :bye"), &mut directory));
    assert!(directory.take_mail().is_empty());
}

#[test]
fn message_to_a_channel_reaches_the_other_members() {
    let mut directory = Directory::new();
    let mut a = connected(&mut directory, 1, "A");
    let mut b = connected(&mut directory, 2, "B");
    a.handle_command(cmd("JOIN #x"), &mut directory);
    b.handle_command(cmd("JOIN #x"), &mut directory);
    directory.take_mail();
    assert!(!a.handle_command(cmd("PRIVMSG #x :hello there"), &mut directory));
    assert_eq!(
        directory.take_mail(),
        vec![to(2, UserThreadMsg::PrivmsgChan(s("A!A@TODO"), s("#x"), s("hello there")))]
    );
}

#[test]
fn message_to_a_user_goes_to_its_mailbox() {
    let mut directory = Directory::new();
    let mut a = connected(&mut directory, 1, "A");
    let _b = connected(&mut directory, 2, "B");
    assert!(!a.handle_command(cmd("PRIVMSG B :psst"), &mut directory));
    assert_eq!(directory.take_mail(), vec![to(2, UserThreadMsg::Privmsg(s("A!A@TODO"), s("psst")))]);
    assert!(a.take_output().is_empty());
}

#[test]
fn message_text_joins_later_parameters_and_trailing_words() {
    let mut directory = Directory::new();
    let mut a = connected(&mut directory, 1, "A");
    let _b = connected(&mut directory, 2, "B");
    a.handle_command(cmd("PRIVMSG B one two :three four"), &mut directory);
    assert_eq!(
        directory.take_mail(),
        vec![to(2, UserThreadMsg::Privmsg(s("A!A@TODO"), s("one twothree four")))]
    );
}

#[test]
fn message_to_an_unknown_nick_is_told_to_the_client() {
    let mut directory = Directory::new();
    let mut a = connected(&mut directory, 1, "A");
    assert!(!a.handle_command(cmd("PRIVMSG nobody :hi"), &mut directory));
    assert_eq!(a.take_output(), vec![send(RPL::NickNotFound(s("nobody")))]);
    assert!(directory.take_mail().is_empty());
}

#[test]
fn who_for_a_user_or_a_foreign_channel_does_nothing() {
    let mut directory = Directory::new();
    let mut a = connected(&mut directory, 1, "A");
    assert!(!a.handle_command(cmd("WHO B"), &mut directory));
    assert!(!a.handle_command(cmd("WHO #nowhere"), &mut directory));
    assert!(!a.handle_command(cmd("MODE A +i"), &mut directory));
    assert!(a.take_output().is_empty());
    assert!(directory.take_mail().is_empty());
}

#[test]
fn commands_without_their_target_are_not_accepted() {
    let mut directory = Directory::new();
    let fresh = session(&mut directory, 1);
    for line in ["NICK", "USER", "nick :only trailing"] {
        let c = cmd(line);
        assert!(!fresh.accepts(c.verb(), &c), "{}", line);
    }
    for line in ["NICK bob", "PASS", "PING", "JOIN", "PRIVMSG", "QUIT", "WHATEVER"] {
        let c = cmd(line);
        assert!(fresh.accepts(c.verb(), &c), "{}", line);
    }
    let mut a = connected(&mut directory, 2, "A");
    a.handle_command(cmd("JOIN #x"), &mut directory);
    for line in ["JOIN", "WHO", "PRIVMSG", "PRIVMSG :text only", "PART", "PRIVMSG #nowhere :hi"] {
        let c = cmd(line);
        assert!(!a.accepts(c.verb(), &c), "{}", line);
    }
    for line in ["JOIN #y", "WHO #y", "PRIVMSG #x :hi", "PRIVMSG bob :hi", "PART #y", "PART :#y", "NICK", "MODE"] {
        let c = cmd(line);
        assert!(a.accepts(c.verb(), &c), "{}", line);
    }
}

#[test]
fn step_rejects_what_is_not_accepted_and_changes_nothing() {
    let mut directory = Directory::new();
    let mut a = connected(&mut directory, 1, "A");
    let out = a.step(SessionEvent::Line(ReaderThreadMsg::Command(cmd("PRIVMSG #nowhere :hi"))), &mut directory);
    assert!(out.rejected);
    assert!(!out.exit);
    assert!(out.mask.is_none());
    assert!(a.take_output().is_empty());
    assert!(directory.take_mail().is_empty());
    let out = a.step(SessionEvent::Line(ReaderThreadMsg::Command(cmd("PING 1"))), &mut directory);
    assert!(!out.rejected);
    assert!(!out.exit);
    assert_eq!(a.take_output(), vec![send(RPL::Pong(s("1")))]);
}

#[test]
fn notifications_are_put_into_words_for_the_client() {
    let mut directory = Directory::new();
    let mut a = connected(&mut directory, 1, "A");
    let msgs = vec![
        UserThreadMsg::JoinOther(s("B!b@h"), s("#x")),
        UserThreadMsg::JoinSelf(s("#x")),
        UserThreadMsg::PartOther(s("B"), s("#x"), s("bye")),
        UserThreadMsg::PartSelf(s("#x"), s("gone")),
        UserThreadMsg::TransmitNames(s("#x"), vec![s("A"), s("B")]),
        UserThreadMsg::Privmsg(s("B!b@h"), s("psst")),
        UserThreadMsg::PrivmsgChan(s("B!b@h"), s("#x"), s("hi all")),
    ];
    for msg in msgs {
        let (exit, reply) = a.handle_user_msg(msg, &mut directory);
        assert!(!exit);
        assert!(reply.is_none());
    }
    assert_eq!(
        a.take_output(),
        vec![
            send(RPL::Join(s("B!b@h"), s("#x"))),
            send(RPL::Join(s("A!A@TODO"), s("#x"))),
            send(RPL::Part(s("B"), s("#x"), s("bye"))),
            send(RPL::Part(s("A!A@TODO"), s("#x"), s("gone"))),
            send(RPL::NameReply(s("#x"), vec![s("A"), s("B")])),
            send(RPL::EndOfNames(s("#x"))),
            send(RPL::Privmsg(s("B!b@h"), s("psst"))),
            send(RPL::PrivmsgChan(s("B!b@h"), s("#x"), s("hi all"))),
        ]
    );
}

#[test]
fn own_join_and_part_are_not_told_before_registration() {
    let mut directory = Directory::new();
    let mut fresh = session(&mut directory, 1);
    fresh.handle_user_msg(UserThreadMsg::JoinSelf(s("#x")), &mut directory);
    fresh.handle_user_msg(UserThreadMsg::PartSelf(s("#x"), s("r")), &mut directory);
    assert!(fresh.take_output().is_empty());
    fresh.handle_user_msg(UserThreadMsg::JoinOther(s("m"), s("#x")), &mut directory);
    assert_eq!(fresh.take_output(), vec![send(RPL::Join(s("m"), s("#x")))]);
}

#[test]
fn mask_query_is_answered_truthfully() {
    let mut directory = Directory::new();
    let mut fresh = session(&mut directory, 1);
    assert_eq!(
        fresh.handle_user_msg(UserThreadMsg::GetMask, &mut directory),
        (false, Some(Err(UserError::InvalidState)))
    );
    let mut a = connected(&mut directory, 2, "A");
    let (exit, reply) = a.handle_user_msg(UserThreadMsg::GetMask, &mut directory);
    assert!(!exit);
    assert_eq!(
        reply,
        Some(Ok(Mask::new(s("A"), s("A"), s("TODO"), s("A Real"), 0, s("123456"), s("irc.example.org"))))
    );
    let out = a.step(SessionEvent::Notification(UserThreadMsg::GetMask), &mut directory);
    assert_eq!(out.mask.map(|r| r.map(|m| m.nick)), Some(Ok(s("A"))));
}

#[test]
fn exit_notification_ends_the_session() {
    let mut directory = Directory::new();
    let mut a = connected(&mut directory, 1, "A");
    assert_eq!(a.handle_user_msg(UserThreadMsg::Exit, &mut directory), (true, None));
}

#[test]
fn own_part_lets_go_of_a_channel_still_held() {
    let mut directory = Directory::new();
    let mut a = connected(&mut directory, 1, "A");
    a.handle_command(cmd("JOIN #x"), &mut directory);
    directory.take_mail();
    a.handle_user_msg(UserThreadMsg::PartSelf(s("#x"), s("kicked")), &mut directory);
    assert!(!a.is_in_channel(&s("#x")));
    assert_eq!(a.take_output(), vec![send(RPL::Part(s("A!A@TODO"), s("#x"), s("kicked")))]);
    assert_eq!(
        directory.take_mail(),
        vec![to(1, UserThreadMsg::PartSelf(s("#x"), s("No reason provided")))]
    );
    assert_eq!(directory.channel_nicks(directory.get_channels()[0]), Ok(vec![]));
}

#[test]
fn silent_session_is_ended_and_gives_up_what_it_holds() {
    let mut directory = Directory::new();
    let mut a = connected(&mut directory, 1, "A");
    let mut b = connected(&mut directory, 2, "B");
    a.handle_command(cmd("JOIN #x"), &mut directory);
    a.handle_command(cmd("JOIN #y"), &mut directory);
    b.handle_command(cmd("JOIN #x"), &mut directory);
    directory.take_mail();
    let out = a.step(SessionEvent::Timeout, &mut directory);
    assert!(out.exit);
    assert!(!out.rejected);
    let (_writer, upgrade) = a.release(&mut directory);
    assert!(!upgrade);
    assert_eq!(
        directory.take_mail(),
        vec![
            to(1, UserThreadMsg::PartSelf(s("#x"), s("No reason provided"))),
            to(2, UserThreadMsg::PartOther(s("A"), s("#x"), s("No reason provided"))),
            to(1, UserThreadMsg::PartSelf(s("#y"), s("No reason provided"))),
        ]
    );
    assert_eq!(directory.get_users(), vec![User::new(2)]);
    assert_eq!(directory.get_user_by_nick(s("A")).is_err(), true);
    let channels = directory.get_channels();
    assert_eq!(directory.channel_nicks(channels[0]), Ok(vec![s("B")]));
    assert_eq!(directory.channel_nicks(channels[1]), Ok(vec![]));
}

#[test]
fn closed_mailbox_ends_the_session() {
    let mut directory = Directory::new();
    let mut a = connected(&mut directory, 1, "A");
    assert!(a.step(SessionEvent::Closed, &mut directory).exit);
}

#[test]
fn release_hands_back_what_was_not_written() {
    let mut directory = Directory::new();
    let mut a = connected(&mut directory, 1, "A");
    a.handle_command(cmd("PING x"), &mut directory);
    let (mut writer, _) = a.release(&mut directory);
    assert_eq!(writer.take(), vec![send(RPL::Pong(s("x")))]);
}

#[test]
fn set_mode_keeps_each_mode_once() {
    let mut directory = Directory::new();
    let mut a = connected(&mut directory, 1, "A");
    a.set_mode('i');
    a.set_mode('w');
    assert_eq!(
        a.take_output(),
        vec![
            send(RPL::ModeSelf { mode: 'i', enabled: true }),
            send(RPL::ModeSelf { mode: 'w', enabled: true }),
        ]
    );
}

fn line(text: &str) -> SessionEvent {
    SessionEvent::Line(ReaderThreadMsg::Command(cmd(text)))
}

#[test]
fn run_handles_events_in_order_until_the_session_ends() {
    let mut directory = Directory::new();
    let mut worker = session(&mut directory, 1);
    let events = vec![
        line("NICK bob"),
        SessionEvent::Notification(UserThreadMsg::GetMask),
        line("USER robert 0 * :Bob B."),
        SessionEvent::Notification(UserThreadMsg::GetMask),
        line("PING 1"),
        SessionEvent::Timeout,
        line("PING 2"),
    ];
    let out = worker.run(events, &mut directory);
    assert_eq!(
        out,
        Run {
            upgrade: false,
            exit: true,
            rejected: false,
            handled: 6,
            replies: vec![
                Err(UserError::InvalidState),
                Ok(Mask::new(s("bob"), s("robert"), s("TODO"), s("Bob B."), 0, s("123456"), s("irc.example.org"))),
            ],
        }
    );
    let mut expected = welcome("bob");
    expected.push(send(RPL::Pong(s("1"))));
    assert_eq!(worker.take_output(), expected);
}

#[test]
fn run_over_no_event_changes_nothing() {
    let mut directory = Directory::new();
    let mut worker = session(&mut directory, 1);
    let out = worker.run(vec![], &mut directory);
    assert_eq!(out, Run { upgrade: false, exit: false, rejected: false, handled: 0, replies: vec![] });
    assert!(worker.take_output().is_empty());
}

#[test]
fn run_stops_in_front_of_a_command_that_cannot_be_handled() {
    let mut directory = Directory::new();
    let mut worker = connected(&mut directory, 1, "A");
    let out = worker.run(vec![line("PING 1"), line("JOIN"), line("PING 2")], &mut directory);
    assert_eq!(out, Run { upgrade: false, exit: false, rejected: true, handled: 1, replies: vec![] });
    assert_eq!(worker.take_output(), vec![send(RPL::Pong(s("1")))]);
}

#[test]
fn run_tells_that_the_connection_shall_be_upgraded() {
    let mut directory = Directory::new();
    let mut worker = session(&mut directory, 1);
    let out = worker.run(vec![line("PASS secret"), line("NICK bob")], &mut directory);
    assert_eq!(out, Run { upgrade: true, exit: true, rejected: false, handled: 1, replies: vec![] });
}

#[test]
fn run_ends_when_the_time_is_out_and_release_frees_everything() {
    let mut directory = Directory::new();
    let mut a = connected(&mut directory, 1, "A");
    let mut b = connected(&mut directory, 2, "B");
    a.handle_command(cmd("JOIN #x"), &mut directory);
    b.handle_command(cmd("JOIN #x"), &mut directory);
    directory.take_mail();
    let out = a.run(vec![SessionEvent::Timeout], &mut directory);
    assert!(out.exit && !out.upgrade && !out.rejected);
    assert_eq!(out.handled, 1);
    assert!(directory.take_mail().is_empty());
    a.release(&mut directory);
    assert_eq!(
        directory.take_mail(),
        vec![
            to(1, UserThreadMsg::PartSelf(s("#x"), s("No reason provided"))),
            to(2, UserThreadMsg::PartOther(s("A"), s("#x"), s("No reason provided"))),
        ]
    );
    assert_eq!(directory.get_users(), vec![User::new(2)]);
}
