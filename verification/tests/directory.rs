use ircd::channel::ChannelReply;
use ircd::registry::Error;
use ircd::{Channel, ChannelThreadMsg, Delivery, Directory, Mask, User, UserThreadMsg};

fn s(text: &str) -> String {
    text.to_string()
}

fn mask(nick: &str) -> Mask {
    Mask::new(s(nick), s("u"), s("h"), s("r"), 0, s("t"), s("srv"))
}

fn to(address: u64, msg: UserThreadMsg) -> Delivery {
    Delivery { to: User::new(address), msg }
}

#[test]
fn mailboxes_are_numbered_from_zero() {
    let mut directory = Directory::new();
    assert_eq!(directory.new_mailbox(), User::new(0));
    assert_eq!(directory.new_mailbox(), User::new(1));
    assert_eq!(directory.new_mailbox(), User::new(2));
}

#[test]
fn entries_own_their_ids() {
    let mut directory = Directory::new();
    let a = directory.new_user(User::new(1));
    let b = directory.new_user(User::new(2));
    assert_eq!(a.id(), 0);
    assert_eq!(b.id(), 1);
    assert_eq!(a.update_nick(&mut directory, s("bob")), Ok(()));
    assert_eq!(b.update_nick(&mut directory, s("bob")), Err(Error::NickCollision));
    assert_eq!(directory.get_user_by_nick(s("bob")), Ok(User::new(1)));
    a.release(&mut directory);
    assert_eq!(directory.get_user_by_nick(s("bob")), Err(Error::NickNotFound));
    assert_eq!(directory.get_users(), vec![User::new(2)]);
    assert_eq!(b.update_nick(&mut directory, s("bob")), Ok(()));
    let c = directory.new_user(User::new(3));
    assert_eq!(c.id(), 0);
}

#[test]
fn two_requests_for_a_new_channel_get_the_same_handle() {
    let mut directory = Directory::new();
    let first = directory.get_channel_by_name(s("#y"), s("al"));
    let second = directory.get_channel_by_name(s("#y"), s("bob"));
    assert_eq!(first, second);
    assert_eq!(directory.get_channels(), vec![first]);
    assert_eq!(directory.channel_name(first), Ok(s("#y")));
    let other = directory.get_channel_by_name(s("#z"), s("bob"));
    assert_eq!(directory.get_channels(), vec![first, other]);
    assert_eq!(directory.channel_name(other), Ok(s("#z")));
}

#[test]
fn join_through_a_handle_gives_an_entry_and_mail() {
    let mut directory = Directory::new();
    let channel = directory.get_channel_by_name(s("#x"), s("A"));
    let a = channel.join(&mut directory, User::new(1), mask("A")).unwrap();
    let b = channel.join(&mut directory, User::new(2), mask("B")).unwrap();
    assert_eq!((a.id(), b.id()), (0, 1));
    assert_eq!(a.channel(), channel);
    assert_eq!(
        directory.take_mail(),
        vec![
            to(1, UserThreadMsg::JoinSelf(s("#x"))),
            to(1, UserThreadMsg::JoinOther(s("B!u@h"), s("#x"))),
            to(2, UserThreadMsg::JoinSelf(s("#x"))),
        ]
    );
    assert!(directory.take_mail().is_empty());
    assert_eq!(directory.channel_nicks(channel), Ok(vec![s("A"), s("B")]));
}

#[test]
fn release_without_a_reason_sends_the_default_reason() {
    let mut directory = Directory::new();
    let channel = directory.get_channel_by_name(s("#x"), s("A"));
    let mut a = channel.join(&mut directory, User::new(1), mask("A")).unwrap();
    let _b = channel.join(&mut directory, User::new(2), mask("B")).unwrap();
    a.update_mask(s("A"));
    directory.take_mail();
    assert_eq!(a.release(&mut directory), Ok(()));
    assert_eq!(
        directory.take_mail(),
        vec![
            to(1, UserThreadMsg::PartSelf(s("#x"), s("No reason provided"))),
            to(2, UserThreadMsg::PartOther(s("A"), s("#x"), s("No reason provided"))),
        ]
    );
    assert_eq!(directory.channel_nicks(channel), Ok(vec![s("B")]));
}

#[test]
fn release_with_a_reason_sends_that_reason() {
    let mut directory = Directory::new();
    let channel = directory.get_channel_by_name(s("#x"), s("A"));
    let mut a = channel.join(&mut directory, User::new(1), mask("A")).unwrap();
    let _b = channel.join(&mut directory, User::new(2), mask("B")).unwrap();
    a.update_mask(s("A"));
    a.part_reason(Some(s("bye now")));
    directory.take_mail();
    assert_eq!(a.release(&mut directory), Ok(()));
    assert_eq!(
        directory.take_mail(),
        vec![
            to(1, UserThreadMsg::PartSelf(s("#x"), s("bye now"))),
            to(2, UserThreadMsg::PartOther(s("A"), s("#x"), s("bye now"))),
        ]
    );
}

#[test]
fn reason_can_be_taken_back_before_the_release() {
    let mut directory = Directory::new();
    let channel = directory.get_channel_by_name(s("#x"), s("A"));
    let mut a = channel.join(&mut directory, User::new(1), mask("A")).unwrap();
    a.part_reason(Some(s("first thought")));
    a.part_reason(None);
    directory.take_mail();
    assert_eq!(a.release(&mut directory), Ok(()));
    assert_eq!(
        directory.take_mail(),
        vec![to(1, UserThreadMsg::PartSelf(s("#x"), s("No reason provided")))]
    );
}

#[test]
fn entry_sends_messages_and_asks_for_names() {
    let mut directory = Directory::new();
    let channel = directory.get_channel_by_name(s("#x"), s("A"));
    let a = channel.join(&mut directory, User::new(1), mask("A")).unwrap();
    let _b = channel.join(&mut directory, User::new(2), mask("B")).unwrap();
    directory.take_mail();
    assert_eq!(a.privmsg(&mut directory, s("A!u@h"), s("hello")), Ok(()));
    assert_eq!(a.who(&mut directory), Ok(()));
    assert_eq!(
        directory.take_mail(),
        vec![
            to(2, UserThreadMsg::PrivmsgChan(s("A!u@h"), s("#x"), s("hello"))),
            to(1, UserThreadMsg::TransmitNames(s("#x"), vec![s("A"), s("B")])),
        ]
    );
}

#[test]
fn handle_that_leads_nowhere_gives_a_send_error() {
    let mut directory = Directory::new();
    let nowhere = Channel::new(3);
    assert_eq!(
        nowhere.join(&mut directory, User::new(1), mask("A")).err(),
        Some(Error::SendError("ChannelThreadMsg"))
    );
    assert_eq!(
        directory.ask_channel(nowhere, ChannelThreadMsg::GetName),
        Err(Error::SendError("ChannelThreadMsg"))
    );
    assert_eq!(directory.channel_name(nowhere), Err(Error::SendError("ChannelThreadMsg")));
    assert_eq!(directory.channel_nicks(nowhere), Err(Error::SendError("ChannelThreadMsg")));
    assert!(directory.take_mail().is_empty());
}

#[test]
fn ask_channel_hands_back_the_answer() {
    let mut directory = Directory::new();
    let channel = directory.get_channel_by_name(s("#x"), s("A"));
    assert_eq!(
        directory.ask_channel(channel, ChannelThreadMsg::Join(User::new(5), mask("A"))),
        Ok(ChannelReply::Joined(0))
    );
    assert_eq!(
        directory.ask_channel(channel, ChannelThreadMsg::GetUsers),
        Ok(ChannelReply::Users(vec![User::new(5)]))
    );
    assert_eq!(
        directory.ask_channel(channel, ChannelThreadMsg::GetName),
        Ok(ChannelReply::Name(s("#x")))
    );
}

#[test]
fn posted_mail_waits_in_order() {
    let mut directory = Directory::new();
    directory.post(User::new(1).privmsg(s("a"), s("one")));
    directory.post(User::new(2).privmsg(s("b"), s("two")));
    assert_eq!(
        directory.take_mail(),
        vec![
            to(1, UserThreadMsg::Privmsg(s("a"), s("one"))),
            to(2, UserThreadMsg::Privmsg(s("b"), s("two"))),
        ]
    );
}
