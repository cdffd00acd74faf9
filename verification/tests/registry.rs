use ircd::registry::{DirectoryReply, Error};
use ircd::{Channel, DirectoryThreadMsg, DirectoryWorker, User};

fn s(text: &str) -> String {
    text.to_string()
}

#[test]
fn ids_are_handed_out_from_zero() {
    let mut registry = DirectoryWorker::new();
    assert_eq!(registry.new_user(User::new(10)), 0);
    assert_eq!(registry.new_user(User::new(11)), 1);
    assert_eq!(registry.new_user(User::new(12)), 2);
}

#[test]
fn live_ids_are_pairwise_distinct() {
    let mut registry = DirectoryWorker::new();
    let mut ids = Vec::new();
    for n in 0..50u64 {
        ids.push(registry.new_user(User::new(100 + n)));
        if n % 7 == 3 {
            let freed = ids.remove(1);
            registry.destroy_user(freed);
        }
    }
    let mut sorted = ids.clone();
    sorted.sort();
    sorted.dedup();
    assert_eq!(sorted.len(), ids.len());
}

#[test]
fn freed_id_is_reused_lowest_first() {
    let mut registry = DirectoryWorker::new();
    for n in 0..4 {
        registry.new_user(User::new(n));
    }
    registry.destroy_user(2);
    registry.destroy_user(1);
    assert_eq!(registry.new_user(User::new(20)), 1);
    assert_eq!(registry.new_user(User::new(21)), 2);
    assert_eq!(registry.new_user(User::new(22)), 4);
    assert_eq!(
        registry.get_users(),
        vec![User::new(0), User::new(20), User::new(21), User::new(3), User::new(22)]
    );
}

#[test]
fn destroy_user_is_idempotent() {
    let mut registry = DirectoryWorker::new();
    registry.new_user(User::new(1));
    registry.destroy_user(0);
    registry.destroy_user(0);
    registry.destroy_user(99);
    assert!(registry.get_users().is_empty());
    assert_eq!(registry.new_user(User::new(2)), 0);
}

#[test]
fn second_claim_of_a_nick_collides() {
    let mut registry = DirectoryWorker::new();
    let a = registry.new_user(User::new(1));
    let b = registry.new_user(User::new(2));
    assert_eq!(registry.update_nick(a, s("bob")), Ok(()));
    assert_eq!(registry.update_nick(b, s("bob")), Err(Error::NickCollision));
    assert_eq!(registry.get_user_by_nick(&s("bob")), Ok(User::new(1)));
    assert_eq!(registry.update_nick(b, s("bobby")), Ok(()));
    assert_eq!(registry.get_user_by_nick(&s("bobby")), Ok(User::new(2)));
}

#[test]
fn holder_may_claim_its_nick_again() {
    let mut registry = DirectoryWorker::new();
    let a = registry.new_user(User::new(1));
    assert_eq!(registry.update_nick(a, s("bob")), Ok(()));
    assert_eq!(registry.update_nick(a, s("bob")), Ok(()));
    assert_eq!(registry.get_user_by_nick(&s("bob")), Ok(User::new(1)));
}

#[test]
fn new_nick_frees_the_old_one() {
    let mut registry = DirectoryWorker::new();
    let a = registry.new_user(User::new(1));
    let b = registry.new_user(User::new(2));
    assert_eq!(registry.update_nick(a, s("bob")), Ok(()));
    assert_eq!(registry.update_nick(a, s("rob")), Ok(()));
    assert_eq!(registry.get_user_by_nick(&s("bob")), Err(Error::NickNotFound));
    assert_eq!(registry.update_nick(b, s("bob")), Ok(()));
}

#[test]
fn release_frees_the_nick() {
    let mut registry = DirectoryWorker::new();
    let a = registry.new_user(User::new(1));
    let b = registry.new_user(User::new(2));
    assert_eq!(registry.update_nick(a, s("bob")), Ok(()));
    registry.destroy_user(a);
    assert_eq!(registry.get_user_by_nick(&s("bob")), Err(Error::NickNotFound));
    assert_eq!(registry.update_nick(b, s("bob")), Ok(()));
}

#[test]
fn empty_nick_is_a_nick_like_any_other() {
    let mut registry = DirectoryWorker::new();
    let a = registry.new_user(User::new(1));
    let b = registry.new_user(User::new(2));
    assert_eq!(registry.get_user_by_nick(&s("")), Err(Error::NickNotFound));
    assert_eq!(registry.update_nick(a, s("")), Ok(()));
    assert_eq!(registry.get_user_by_nick(&s("")), Ok(User::new(1)));
    assert_eq!(registry.update_nick(b, s("")), Err(Error::NickCollision));
    assert_eq!(registry.update_nick(a, s("")), Ok(()));
    registry.destroy_user(a);
    assert_eq!(registry.update_nick(b, s("")), Ok(()));
    assert_eq!(registry.get_user_by_nick(&s("")), Ok(User::new(2)));
}

#[test]
fn session_without_a_claim_holds_no_nick() {
    let mut registry = DirectoryWorker::new();
    let _a = registry.new_user(User::new(1));
    let b = registry.new_user(User::new(2));
    assert_eq!(registry.get_user_by_nick(&s("")), Err(Error::NickNotFound));
    assert_eq!(registry.update_nick(b, s("")), Ok(()));
    assert_eq!(registry.get_user_by_nick(&s("")), Ok(User::new(2)));
}

#[test]
fn claim_for_a_free_slot_changes_nothing() {
    let mut registry = DirectoryWorker::new();
    assert_eq!(registry.update_nick(5, s("ghost")), Ok(()));
    assert_eq!(registry.get_user_by_nick(&s("ghost")), Err(Error::NickNotFound));
}

#[test]
fn unknown_nick_is_not_found() {
    let registry = DirectoryWorker::new();
    assert_eq!(registry.get_user_by_nick(&s("nobody")), Err(Error::NickNotFound));
}

#[test]
fn channel_is_created_once_per_name() {
    let mut registry = DirectoryWorker::new();
    assert_eq!(registry.get_channel_by_name(s("#y"), s("al")), (Channel::new(0), true));
    assert_eq!(registry.get_channel_by_name(s("#y"), s("bob")), (Channel::new(0), false));
    assert_eq!(registry.get_channel_by_name(s("#z"), s("bob")), (Channel::new(1), true));
    assert_eq!(registry.get_channel_by_name(s("#y"), s("al")), (Channel::new(0), false));
    assert_eq!(registry.get_channels(), vec![Channel::new(0), Channel::new(1)]);
}

#[test]
fn handle_msg_answers_each_request() {
    let mut registry = DirectoryWorker::new();
    assert_eq!(
        registry.handle_msg(DirectoryThreadMsg::NewUser(User::new(7))),
        (DirectoryReply::Id(0), false)
    );
    assert_eq!(
        registry.handle_msg(DirectoryThreadMsg::UpdateNick(0, s("bob"))),
        (DirectoryReply::Nick(Ok(())), false)
    );
    assert_eq!(
        registry.handle_msg(DirectoryThreadMsg::GetUserByNick(s("bob"))),
        (DirectoryReply::User(Ok(User::new(7))), false)
    );
    assert_eq!(
        registry.handle_msg(DirectoryThreadMsg::GetUserByNick(s("al"))),
        (DirectoryReply::User(Err(Error::NickNotFound)), false)
    );
    assert_eq!(
        registry.handle_msg(DirectoryThreadMsg::GetChannelByName(s("#x"), s("bob"))),
        (DirectoryReply::Channel(Channel::new(0), true), false)
    );
    assert_eq!(
        registry.handle_msg(DirectoryThreadMsg::GetChannels),
        (DirectoryReply::Channels(vec![Channel::new(0)]), false)
    );
    assert_eq!(
        registry.handle_msg(DirectoryThreadMsg::GetUsers),
        (DirectoryReply::Users(vec![User::new(7)]), false)
    );
    assert_eq!(
        registry.handle_msg(DirectoryThreadMsg::DestroyUser(0)),
        (DirectoryReply::Nothing, false)
    );
    assert_eq!(
        registry.handle_msg(DirectoryThreadMsg::GetUsers),
        (DirectoryReply::Users(vec![]), false)
    );
    assert_eq!(registry.handle_msg(DirectoryThreadMsg::Exit), (DirectoryReply::Nothing, true));
}
