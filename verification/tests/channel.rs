use ircd::channel::{ChannelOutcome, ChannelReply};
use ircd::{ChannelThreadMsg, ChannelWorker, Delivery, Mask, User, UserThreadMsg};

fn s(text: &str) -> String {
    text.to_string()
}

fn mask(nick: &str) -> Mask {
    Mask::new(s(nick), s("u"), s("h"), s("r"), 0, s("t"), s("srv"))
}

fn to(address: u64, msg: UserThreadMsg) -> Delivery {
    Delivery { to: User::new(address), msg }
}

fn channel_with(nicks: &[&str]) -> ChannelWorker {
    let mut channel = ChannelWorker::new(s("#x"), s("creator"));
    for (n, nick) in nicks.iter().enumerate() {
        channel.handle_msg(ChannelThreadMsg::Join(User::new(n as u64), mask(nick)));
    }
    channel
}

#[test]
fn first_join_is_told_to_the_joiner_only() {
    let mut channel = ChannelWorker::new(s("#x"), s("A"));
    let out = channel.handle_msg(ChannelThreadMsg::Join(User::new(1), mask("A")));
    assert_eq!(
        out,
        ChannelOutcome {
            exit: false,
            reply: ChannelReply::Joined(0),
            deliveries: vec![to(1, UserThreadMsg::JoinSelf(s("#x")))],
        }
    );
}

#[test]
fn second_join_is_told_to_the_first_member_but_not_as_another_to_the_joiner() {
    let mut channel = ChannelWorker::new(s("#x"), s("A"));
    channel.handle_msg(ChannelThreadMsg::Join(User::new(1), mask("A")));
    let out = channel.handle_msg(ChannelThreadMsg::Join(User::new(2), mask("B")));
    assert_eq!(out.reply, ChannelReply::Joined(1));
    assert_eq!(
        out.deliveries,
        vec![
            to(1, UserThreadMsg::JoinOther(s("B!u@h"), s("#x"))),
            to(2, UserThreadMsg::JoinSelf(s("#x"))),
        ]
    );
    let who = channel.handle_msg(ChannelThreadMsg::Who(0));
    assert_eq!(
        who.deliveries,
        vec![to(1, UserThreadMsg::TransmitNames(s("#x"), vec![s("A"), s("B")]))]
    );
}

#[test]
fn join_takes_the_lowest_free_slot() {
    let mut channel = channel_with(&["a", "b", "c", "d"]);
    channel.handle_msg(ChannelThreadMsg::Part(2, s("c"), None));
    channel.handle_msg(ChannelThreadMsg::Part(1, s("b"), None));
    let out = channel.handle_msg(ChannelThreadMsg::Join(User::new(9), mask("e")));
    assert_eq!(out.reply, ChannelReply::Joined(1));
    assert_eq!(
        out.deliveries,
        vec![
            to(0, UserThreadMsg::JoinOther(s("e!u@h"), s("#x"))),
            to(3, UserThreadMsg::JoinOther(s("e!u@h"), s("#x"))),
            to(9, UserThreadMsg::JoinSelf(s("#x"))),
        ]
    );
    assert_eq!(channel.nicks(), vec![s("a"), s("e"), s("d")]);
    let next = channel.handle_msg(ChannelThreadMsg::Join(User::new(10), mask("f")));
    assert_eq!(next.reply, ChannelReply::Joined(2));
    let last = channel.handle_msg(ChannelThreadMsg::Join(User::new(11), mask("g")));
    assert_eq!(last.reply, ChannelReply::Joined(4));
}

#[test]
fn part_without_a_reason_carries_the_default_reason() {
    let mut channel = channel_with(&["A", "B", "C"]);
    let out = channel.handle_msg(ChannelThreadMsg::Part(0, s("A"), None));
    assert_eq!(
        out,
        ChannelOutcome {
            exit: false,
            reply: ChannelReply::Nothing,
            deliveries: vec![
                to(0, UserThreadMsg::PartSelf(s("#x"), s("No reason provided"))),
                to(1, UserThreadMsg::PartOther(s("A"), s("#x"), s("No reason provided"))),
                to(2, UserThreadMsg::PartOther(s("A"), s("#x"), s("No reason provided"))),
            ],
        }
    );
    assert_eq!(channel.nicks(), vec![s("B"), s("C")]);
}

#[test]
fn part_with_a_reason_carries_that_reason() {
    let mut channel = channel_with(&["A", "B"]);
    let out = channel.handle_msg(ChannelThreadMsg::Part(1, s("B"), Some(s("gone fishing"))));
    assert_eq!(
        out.deliveries,
        vec![
            to(1, UserThreadMsg::PartSelf(s("#x"), s("gone fishing"))),
            to(0, UserThreadMsg::PartOther(s("B"), s("#x"), s("gone fishing"))),
        ]
    );
}

#[test]
fn part_of_a_free_slot_does_nothing() {
    let mut channel = channel_with(&["A", "B"]);
    channel.handle_msg(ChannelThreadMsg::Part(0, s("A"), None));
    assert_eq!(channel.handle_msg(ChannelThreadMsg::Part(0, s("A"), None)), ChannelOutcome::quiet());
    assert_eq!(channel.handle_msg(ChannelThreadMsg::Part(7, s("Z"), None)), ChannelOutcome::quiet());
    assert_eq!(channel.nicks(), vec![s("B")]);
}

#[test]
fn message_goes_to_everyone_but_the_sender() {
    let mut channel = channel_with(&["A", "B", "C"]);
    let out = channel.handle_msg(ChannelThreadMsg::Privmsg(1, s("B!u@h"), s("hi all")));
    assert_eq!(out.reply, ChannelReply::Nothing);
    assert_eq!(
        out.deliveries,
        vec![
            to(0, UserThreadMsg::PrivmsgChan(s("B!u@h"), s("#x"), s("hi all"))),
            to(2, UserThreadMsg::PrivmsgChan(s("B!u@h"), s("#x"), s("hi all"))),
        ]
    );
}

#[test]
fn message_in_a_channel_of_one_goes_nowhere() {
    let mut channel = channel_with(&["A"]);
    let out = channel.handle_msg(ChannelThreadMsg::Privmsg(0, s("A!u@h"), s("echo?")));
    assert_eq!(out, ChannelOutcome::quiet());
}

#[test]
fn who_answers_the_asking_member_only() {
    let mut channel = channel_with(&["A", "B", "C"]);
    channel.handle_msg(ChannelThreadMsg::Part(1, s("B"), None));
    let out = channel.handle_msg(ChannelThreadMsg::Who(2));
    assert_eq!(
        out.deliveries,
        vec![to(2, UserThreadMsg::TransmitNames(s("#x"), vec![s("A"), s("C")]))]
    );
    assert_eq!(channel.handle_msg(ChannelThreadMsg::Who(1)), ChannelOutcome::quiet());
    assert_eq!(channel.handle_msg(ChannelThreadMsg::Who(5)), ChannelOutcome::quiet());
}

#[test]
fn members_and_name_can_be_asked_for() {
    let mut channel = channel_with(&["A", "B", "C"]);
    channel.handle_msg(ChannelThreadMsg::Part(0, s("A"), None));
    let users = channel.handle_msg(ChannelThreadMsg::GetUsers);
    assert_eq!(users.reply, ChannelReply::Users(vec![User::new(1), User::new(2)]));
    assert!(users.deliveries.is_empty());
    let name = channel.handle_msg(ChannelThreadMsg::GetName);
    assert_eq!(name.reply, ChannelReply::Name(s("#x")));
    assert_eq!(channel.name(), "#x");
}

#[test]
fn exit_stops_the_channel() {
    let mut channel = channel_with(&["A"]);
    let out = channel.handle_msg(ChannelThreadMsg::Exit);
    assert!(out.exit);
    assert_eq!(out.reply, ChannelReply::Nothing);
    assert!(out.deliveries.is_empty());
}

#[test]
fn user_handle_builds_each_notification() {
    let user = User::new(3);
    assert_eq!(user.privmsg(s("m"), s("t")), to(3, UserThreadMsg::Privmsg(s("m"), s("t"))));
    assert_eq!(
        user.privmsg_chan(s("m"), s("#c"), s("t")),
        to(3, UserThreadMsg::PrivmsgChan(s("m"), s("#c"), s("t")))
    );
    assert_eq!(user.inform_self_join(s("#c")), to(3, UserThreadMsg::JoinSelf(s("#c"))));
    assert_eq!(user.inform_self_part(s("#c"), s("r")), to(3, UserThreadMsg::PartSelf(s("#c"), s("r"))));
    assert_eq!(user.inform_other_join(s("m"), s("#c")), to(3, UserThreadMsg::JoinOther(s("m"), s("#c"))));
    assert_eq!(
        user.inform_other_part(s("m"), s("#c"), s("r")),
        to(3, UserThreadMsg::PartOther(s("m"), s("#c"), s("r")))
    );
    assert_eq!(user.get_mask(), to(3, UserThreadMsg::GetMask));
    assert_eq!(
        user.transmit_names(s("#c"), vec![s("a")]),
        to(3, UserThreadMsg::TransmitNames(s("#c"), vec![s("a")]))
    );
}
