//! What holds of the daemon whatever is asked of it, stated over the plain
//! values of its state machines and proved from their definitions.

use crate::channel::{
    default_part_reason, fan_out, member_nicks, ChannelMemberView, ChannelReplyView,
    ChannelThreadMsgView, ChannelWorkerView,
};
use crate::command::{ParsedCommandView, Verb};
use crate::directory::DirectoryView;
use crate::find::{found_from, lemma_found_from};
use crate::line_parser::{lemma_trailing_start_bounds, parsed, starts_with_colon, trailing_start};
use crate::link::{
    answer_of, answered, burst, nick_line, sjoin_line, LinkEvent, ServerWorkerView,
};
use crate::mask::MaskView;
use crate::membership::{released, released_all, stored_at, stored_names, StoredChannelView};
use crate::registry::{DirectoryReplyView, DirectoryThreadMsgView, DirectoryWorkerView, Error};
use crate::reply::SRPLView;
use crate::session::{turn, SessionEvent, StateView, UserWorkerView};
use crate::slots::{first_free, lemma_first_free, occupied};
use crate::text::{
    is_whitespace, joined, lemma_word_len_bounds, trailing_whitespace, trim_end, word_len,
    words, words_from,
};
use crate::user_msg::{DeliveryView, User, UserThreadMsgView};
use crate::writer::WriterThreadMsgView;
use vstd::prelude::*;

verus! {

/// The registry after the requests `msgs`, first to last.
pub open spec fn after_all(
    registry: DirectoryWorkerView,
    msgs: Seq<DirectoryThreadMsgView>,
) -> DirectoryWorkerView
    decreases msgs.len(),
{
    if msgs.len() == 0 {
        registry
    } else {
        after_all(registry, msgs.drop_last()).step(msgs.last()).0
    }
}

/// Whatever has been asked of a registry since it was new, no two of its
/// sessions hold the same nick and no two of its channels have the same
/// name.
pub proof fn law_nicks_and_names_stay_unique(msgs: Seq<DirectoryThreadMsgView>)
    ensures
        after_all(
            DirectoryWorkerView { users: Seq::empty(), channels: Seq::empty() },
            msgs,
        ).wf(),
    decreases msgs.len(),
{
    let new = DirectoryWorkerView { users: Seq::empty(), channels: Seq::empty() };
    if msgs.len() > 0 {
        law_nicks_and_names_stay_unique(msgs.drop_last());
        after_all(new, msgs.drop_last()).lemma_step_keeps_wf(msgs.last());
    }
}

/// A new session gets an id that no live session has, and the sessions
/// that were there keep their ids, handles and nicks.
pub proof fn law_new_id_is_fresh(registry: DirectoryWorkerView, user: User)
    ensures
        ({
            let (next, reply) = registry.step(DirectoryThreadMsgView::NewUser(user));
            &&& reply matches DirectoryReplyView::Id(id) && !occupied(registry.users, id)
                && occupied(next.users, id) && next.users[id]->0.thread == user
            &&& forall|other: int| #[trigger]
                occupied(registry.users, other) ==> occupied(next.users, other)
                    && next.users[other] == registry.users[other]
        }),
{
    lemma_first_free(registry.users);
}

/// A session keeps its id through every request but its own release.
pub proof fn law_id_lives_until_released(
    registry: DirectoryWorkerView,
    msg: DirectoryThreadMsgView,
    id: int,
)
    requires
        occupied(registry.users, id),
        msg != DirectoryThreadMsgView::DestroyUser(id),
    ensures
        occupied(registry.step(msg).0.users, id),
{
    lemma_first_free(registry.users);
}

/// The release of a session frees its id.
pub proof fn law_released_id_is_free(registry: DirectoryWorkerView, id: int)
    ensures
        !occupied(registry.step(DirectoryThreadMsgView::DestroyUser(id)).0.users, id),
{
}

/// Two sessions that are registered one after the other get different
/// ids, whatever is asked of the registry in between, as long as the first
/// is not released.
pub proof fn law_live_ids_are_distinct(
    registry: DirectoryWorkerView,
    first: User,
    between: Seq<DirectoryThreadMsgView>,
    second: User,
)
    requires
        forall|k: int|
            0 <= k < between.len() ==> #[trigger] between[k] != DirectoryThreadMsgView::DestroyUser(
                first_free(registry.users),
            ),
    ensures
        ({
            let (one, a) = registry.step(DirectoryThreadMsgView::NewUser(first));
            let (two, b) = after_all(one, between).step(DirectoryThreadMsgView::NewUser(second));
            a != b
        }),
{
    let id = first_free(registry.users);
    let one = registry.step(DirectoryThreadMsgView::NewUser(first)).0;
    law_new_id_is_fresh(registry, first);
    lemma_stays_alive(one, between, id);
    law_new_id_is_fresh(after_all(one, between), second);
}

proof fn lemma_stays_alive(
    registry: DirectoryWorkerView,
    msgs: Seq<DirectoryThreadMsgView>,
    id: int,
)
    requires
        occupied(registry.users, id),
        forall|k: int|
            0 <= k < msgs.len() ==> #[trigger] msgs[k] != DirectoryThreadMsgView::DestroyUser(id),
    ensures
        occupied(after_all(registry, msgs).users, id),
    decreases msgs.len(),
{
    if msgs.len() > 0 {
        lemma_stays_alive(registry, msgs.drop_last(), id);
        assert(msgs.last() == msgs[msgs.len() - 1]);
        law_id_lives_until_released(after_all(registry, msgs.drop_last()), msgs.last(), id);
    }
}

/// A nick that one session holds cannot be claimed by another: the claim
/// is answered with a collision and changes nothing.
pub proof fn law_held_nick_collides(
    registry: DirectoryWorkerView,
    holder: int,
    claimant: int,
    nick: Seq<char>,
)
    requires
        registry.holds(holder, nick),
        claimant != holder,
    ensures
        registry.step(DirectoryThreadMsgView::UpdateNick(claimant, nick)) == (
            registry,
            DirectoryReplyView::Nick(Err(Error::NickCollision)),
        ),
{
    assert(registry.collides(claimant, nick));
}

/// A session may claim again the nick that it holds, and a nick that
/// nobody holds: the claim succeeds, and the session holds the nick.
pub proof fn law_free_nick_is_claimed(registry: DirectoryWorkerView, id: int, nick: Seq<char>)
    requires
        occupied(registry.users, id),
        !registry.collides(id, nick),
    ensures
        ({
            let (next, reply) = registry.step(DirectoryThreadMsgView::UpdateNick(id, nick));
            reply == DirectoryReplyView::Nick(Ok(())) && next.holds(id, nick)
        }),
{
}

/// A nick that a session has claimed with success is found by a lookup,
/// which answers with the handle of that session.
pub proof fn law_claimed_nick_is_found(registry: DirectoryWorkerView, id: int, nick: Seq<char>)
    requires
        registry.wf(),
        occupied(registry.users, id),
        !registry.collides(id, nick),
    ensures
        ({
            let (next, reply) = registry.step(DirectoryThreadMsgView::UpdateNick(id, nick));
            &&& reply == DirectoryReplyView::Nick(Ok(()))
            &&& next.step(DirectoryThreadMsgView::GetUserByNick(nick)).1
                == DirectoryReplyView::User(Ok(registry.users[id]->0.thread))
        }),
{
    let claim = DirectoryThreadMsgView::UpdateNick(id, nick);
    registry.lemma_step_keeps_wf(claim);
    law_free_nick_is_claimed(registry, id, nick);
    law_lookup_finds_the_holder(registry.step(claim).0, id, nick);
}

/// Asking twice for a channel by the same name gives the same handle, and
/// at most the first request creates a channel: the second changes
/// nothing.
pub proof fn law_channel_is_created_once(
    registry: DirectoryWorkerView,
    name: Seq<char>,
    first_nick: Seq<char>,
    second_nick: Seq<char>,
)
    ensures
        ({
            let (one, a) = registry.step(
                DirectoryThreadMsgView::GetChannelByName(name, first_nick),
            );
            let (two, b) = one.step(DirectoryThreadMsgView::GetChannelByName(name, second_nick));
            &&& a matches DirectoryReplyView::Channel(first, created) && b == DirectoryReplyView::Channel(
                first,
                false,
            ) && one.channels.len() == registry.channels.len() + if created {
                1int
            } else {
                0int
            }
            &&& two == one
        }),
{
    lemma_found_from(registry.channels, name, 0);
    let one = registry.step(DirectoryThreadMsgView::GetChannelByName(name, first_nick)).0;
    lemma_found_from(one.channels, name, 0);
    let at = found_from(registry.channels, name, 0);
    let again = found_from(one.channels, name, 0);
    if at < registry.channels.len() {
        assert(one.channels[at] == name);
    } else {
        assert(one.channels[at] == name);
        assert forall|j: int| 0 <= j < at implies one.channels[j] != name by {
            assert(one.channels[j] == registry.channels[j]);
        }
    }
    if again < at {
        assert(one.channels[again] == name);
        assert(registry.channels[again] == name);
    }
    assert(again == at);
}

/// The same of a whole directory: after the second request there are as
/// many channels as after the first.
pub proof fn law_directory_creates_channel_once(
    directory: DirectoryView,
    name: Seq<char>,
    first_nick: Seq<char>,
    second_nick: Seq<char>,
)
    ensures
        ({
            let one = directory.ask_registry(
                DirectoryThreadMsgView::GetChannelByName(name, first_nick),
            );
            one.ask_registry(DirectoryThreadMsgView::GetChannelByName(name, second_nick)) == one
        }),
{
    law_channel_is_created_once(directory.registry, name, first_nick, second_nick);
}

/// A broadcast reaches every member but the one in the skipped slot, and
/// nobody else.
pub proof fn law_fan_out_reaches_the_others(
    users: Seq<Option<ChannelMemberView>>,
    skip: Option<int>,
    msg: UserThreadMsgView,
)
    ensures
        forall|slot: int|
            occupied(users, slot) && skip != Some(slot) ==> fan_out(users, skip, msg).contains(
                DeliveryView { to: (#[trigger] users[slot])->0.user, msg },
            ),
        forall|k: int|
            0 <= k < fan_out(users, skip, msg).len() ==> exists|slot: int|
                occupied(users, slot) && skip != Some(slot) && #[trigger] fan_out(users, skip, msg)[k]
                    == (DeliveryView { to: users[slot]->0.user, msg }),
    decreases users.len(),
{
    let all = fan_out(users, skip, msg);
    if users.len() > 0 {
        let front = users.drop_last();
        let before = fan_out(front, skip, msg);
        let last = users.len() - 1;
        law_fan_out_reaches_the_others(front, skip, msg);
        assert forall|slot: int| occupied(users, slot) && skip != Some(slot) implies all.contains(
            DeliveryView { to: (#[trigger] users[slot])->0.user, msg },
        ) by {
            let wanted = DeliveryView { to: users[slot]->0.user, msg };
            if slot < last {
                assert(occupied(front, slot));
                assert(front[slot] == users[slot]);
                assert(before.contains(wanted));
                let k = choose|k: int| 0 <= k < before.len() && before[k] == wanted;
                assert(all[k] == wanted);
            } else {
                assert(all[all.len() - 1] == wanted);
            }
        }
        assert forall|k: int| 0 <= k < all.len() implies exists|slot: int|
            occupied(users, slot) && skip != Some(slot) && #[trigger] all[k] == (DeliveryView {
                to: users[slot]->0.user,
                msg,
            }) by {
            if k < before.len() {
                let slot = choose|slot: int|
                    occupied(front, slot) && skip != Some(slot) && before[k] == (DeliveryView {
                        to: front[slot]->0.user,
                        msg,
                    });
                assert(front[slot] == users[slot]);
                assert(occupied(users, slot) && skip != Some(slot) && all[k] == (DeliveryView {
                    to: users[slot]->0.user,
                    msg,
                }));
            } else {
                assert(occupied(users, last) && skip != Some(last) && all[k] == (DeliveryView {
                    to: users[last]->0.user,
                    msg,
                }));
            }
        }
    }
}

/// The slots that a broadcast reaches, lowest first: the taken slots but
/// for the skipped one.
pub open spec fn reached(users: Seq<Option<ChannelMemberView>>, skip: Option<int>) -> Seq<int>
    decreases users.len(),
{
    if users.len() == 0 {
        Seq::empty()
    } else {
        let before = reached(users.drop_last(), skip);
        if users.last() is Some && skip != Some(users.len() - 1) {
            before.push(users.len() - 1)
        } else {
            before
        }
    }
}

/// A broadcast goes once to each member but the skipped one, in slot
/// order: its deliveries are those to the members in the slots reached,
/// and the slots reached rise.
pub proof fn law_fan_out_goes_once_to_each_in_slot_order(
    users: Seq<Option<ChannelMemberView>>,
    skip: Option<int>,
    msg: UserThreadMsgView,
)
    ensures
        fan_out(users, skip, msg).len() == reached(users, skip).len(),
        forall|k: int|
            0 <= k < reached(users, skip).len() ==> {
                let slot = #[trigger] reached(users, skip)[k];
                &&& occupied(users, slot)
                &&& skip != Some(slot)
                &&& fan_out(users, skip, msg)[k] == (DeliveryView { to: users[slot]->0.user, msg })
            },
        forall|a: int, b: int|
            0 <= a < b < reached(users, skip).len() ==> reached(users, skip)[a] < reached(
                users,
                skip,
            )[b],
        forall|slot: int|
            occupied(users, slot) && skip != Some(slot) ==> reached(users, skip).contains(slot),
    decreases users.len(),
{
    let slots = reached(users, skip);
    let all = fan_out(users, skip, msg);
    if users.len() > 0 {
        let front = users.drop_last();
        let last = users.len() - 1;
        let before = reached(front, skip);
        law_fan_out_goes_once_to_each_in_slot_order(front, skip, msg);
        let takes_last = users.last() is Some && skip != Some(last);
        assert forall|k: int| 0 <= k < slots.len() implies {
            let slot = #[trigger] slots[k];
            &&& occupied(users, slot)
            &&& skip != Some(slot)
            &&& all[k] == (DeliveryView { to: users[slot]->0.user, msg })
        } by {
            if k < before.len() {
                let slot = before[k];
                assert(occupied(front, slot));
                assert(front[slot] == users[slot]);
                assert(all[k] == fan_out(front, skip, msg)[k]);
            }
        }
        assert forall|a: int, b: int| 0 <= a < b < slots.len() implies slots[a] < slots[b] by {
            assert(occupied(front, before[a]));
            if b < before.len() {
                assert(before[a] < before[b]);
            }
        }
        assert forall|slot: int| occupied(users, slot) && skip != Some(slot) implies slots.contains(
            slot,
        ) by {
            if slot < last {
                assert(occupied(front, slot));
                assert(before.contains(slot));
                let k = choose|k: int| 0 <= k < before.len() && before[k] == slot;
                assert(slots[k] == slot);
            } else {
                assert(slots[slots.len() - 1] == slot);
            }
        }
    }
}

/// A join is answered with the free slot of the lowest index. It is told
/// to every member that was there before, in slot order, and then, as its
/// own, to the one who joins; the members that were there keep their
/// slots.
pub proof fn law_join_tells_the_others_first(channel: ChannelWorkerView, user: User, mask: MaskView)
    ensures
        ({
            let (next, out) = channel.step(ChannelThreadMsgView::Join(user, mask));
            let told = fan_out(
                channel.users,
                None,
                UserThreadMsgView::JoinOther(mask.for_privmsg(), channel.name),
            );
            &&& out.reply matches ChannelReplyView::Joined(id) && !occupied(channel.users, id)
                && next.users[id] == Some(ChannelMemberView { user, mask })
            &&& out.deliveries.drop_last() == told
            &&& out.deliveries.last() == (DeliveryView {
                to: user,
                msg: UserThreadMsgView::JoinSelf(channel.name),
            })
            &&& forall|slot: int| #[trigger]
                occupied(channel.users, slot) ==> next.users[slot] == channel.users[slot]
        }),
{
    lemma_first_free(channel.users);
    let (next, out) = channel.step(ChannelThreadMsgView::Join(user, mask));
    let told = fan_out(
        channel.users,
        None,
        UserThreadMsgView::JoinOther(mask.for_privmsg(), channel.name),
    );
    assert(out.deliveries.drop_last() =~= told);
}

/// In a channel that nobody has left, the nicks come in the order of
/// joining: the nick of the one who joins goes to the end.
pub proof fn law_names_follow_join_order(channel: ChannelWorkerView, user: User, mask: MaskView)
    requires
        forall|slot: int| 0 <= slot < channel.users.len() ==> occupied(channel.users, slot),
    ensures
        member_nicks(channel.step(ChannelThreadMsgView::Join(user, mask)).0.users) == member_nicks(
            channel.users,
        ).push(mask.nick),
{
    lemma_first_free(channel.users);
    let next = channel.step(ChannelThreadMsgView::Join(user, mask)).0;
    let id = first_free(channel.users);
    if id < channel.users.len() {
        assert(occupied(channel.users, id));
    }
    assert(next.users.drop_last() =~= channel.users);
}

/// A part of a taken slot carries the reason that was given, or the
/// default reason where none was: to the one who leaves as its own part,
/// to every other member as the part of `mask`. The slot is free
/// afterwards.
pub proof fn law_part_carries_its_reason(
    channel: ChannelWorkerView,
    id: int,
    mask: Seq<char>,
    reason: Option<Seq<char>>,
)
    requires
        occupied(channel.users, id),
    ensures
        ({
            let (next, out) = channel.step(ChannelThreadMsgView::Part(id, mask, reason));
            let why = if reason is Some {
                reason->0
            } else {
                default_part_reason()
            };
            &&& !occupied(next.users, id)
            &&& out.deliveries[0] == (DeliveryView {
                to: channel.users[id]->0.user,
                msg: UserThreadMsgView::PartSelf(channel.name, why),
            })
            &&& out.deliveries.skip(1) == fan_out(
                channel.users,
                Some(id),
                UserThreadMsgView::PartOther(mask, channel.name, why),
            )
        }),
{
    let (next, out) = channel.step(ChannelThreadMsgView::Part(id, mask, reason));
    let why = if reason is Some {
        reason->0
    } else {
        default_part_reason()
    };
    assert(out.deliveries.skip(1) =~= fan_out(
        channel.users,
        Some(id),
        UserThreadMsgView::PartOther(mask, channel.name, why),
    ));
}

/// A session that has heard nothing for the time allowed ends, and so
/// does one whose mailbox or reader is gone, whatever its state.
pub proof fn law_silence_ends_a_session(session: UserWorkerView, directory: DirectoryView)
    ensures
        session.woken(SessionEvent::Timeout, directory).exit,
        session.woken(SessionEvent::Closed, directory).exit,
{
}

/// The release of memberships leaves the registry alone and frees slots
/// only: no slot that was free is taken afterwards.
pub proof fn law_release_only_frees(directory: DirectoryView, channels: Seq<StoredChannelView>)
    ensures
        released_all(directory, channels).registry == directory.registry,
        released_all(directory, channels).channels.len() == directory.channels.len(),
        forall|c: int, slot: int|
            0 <= c < directory.channels.len() && !occupied(directory.channels[c].users, slot)
                ==> !#[trigger] occupied(released_all(directory, channels).channels[c].users, slot),
    decreases channels.len(),
{
    if channels.len() > 0 {
        law_release_only_frees(directory, channels.drop_last());
        let before = released_all(directory, channels.drop_last());
        let after = released_all(directory, channels);
        assert(after == released(before, channels.last().thread));
        assert forall|c: int, slot: int|
            0 <= c < directory.channels.len() && !occupied(
                directory.channels[c].users,
                slot,
            ) implies !#[trigger] occupied(after.channels[c].users, slot) by {
            assert(!occupied(before.channels[c].users, slot));
        }
    }
}

/// The end of a session frees its id, whatever else it held.
pub proof fn law_teardown_frees_the_id(session: UserWorkerView, directory: DirectoryView)
    ensures
        !occupied(session.torn_down(directory).registry.users, session.entry),
{
    law_release_only_frees(
        directory.ask_registry(DirectoryThreadMsgView::DestroyUser(session.entry)),
        session.channels,
    );
}

/// The end of a session frees the slot of each of its memberships.
pub proof fn law_teardown_frees_the_slots(
    session: UserWorkerView,
    directory: DirectoryView,
    at: int,
)
    requires
        0 <= at < session.channels.len(),
        directory.reaches(session.channels[at].thread.channel),
    ensures
        !occupied(
            session.torn_down(
                directory,
            ).channels[session.channels[at].thread.channel.thread as int].users,
            session.channels[at].thread.id,
        ),
{
    let start = directory.ask_registry(DirectoryThreadMsgView::DestroyUser(session.entry));
    assert(start.channels == directory.channels);
    lemma_release_frees_slot(start, session.channels, at);
}

proof fn lemma_release_frees_slot(
    directory: DirectoryView,
    channels: Seq<StoredChannelView>,
    at: int,
)
    requires
        0 <= at < channels.len(),
        directory.reaches(channels[at].thread.channel),
    ensures
        !occupied(
            released_all(directory, channels).channels[channels[at].thread.channel.thread as int].users,
            channels[at].thread.id,
        ),
    decreases channels.len(),
{
    let front = channels.drop_last();
    let before = released_all(directory, front);
    let after = released_all(directory, channels);
    let entry = channels[at].thread;
    law_release_only_frees(directory, front);
    assert(after == released(before, channels.last().thread));
    if at < channels.len() - 1 {
        assert(front[at] == channels[at]);
        lemma_release_frees_slot(directory, front, at);
    }
}

/// Where every one of `users` has answered, the burst names each of them
/// once, in their order, with the mask that it has answered with.
pub proof fn law_burst_names_every_answering_user(
    users: Seq<User>,
    answers: Seq<(User, MaskView)>,
)
    requires
        forall|i: int| 0 <= i < users.len() ==> answer_of(answers, #[trigger] users[i]) is Some,
    ensures
        answered(users, answers).len() == users.len(),
        forall|i: int|
            0 <= i < users.len() ==> #[trigger] answered(users, answers)[i] == answer_of(
                answers,
                users[i],
            )->0,
    decreases users.len(),
{
    if users.len() > 0 {
        let front = users.drop_last();
        assert forall|i: int| 0 <= i < front.len() implies answer_of(
            answers,
            #[trigger] front[i],
        ) is Some by {
            assert(front[i] == users[i]);
        }
        law_burst_names_every_answering_user(front, answers);
        assert(users.last() == users[users.len() - 1]);
        assert forall|i: int| 0 <= i < users.len() implies #[trigger] answered(users, answers)[i]
            == answer_of(answers, users[i])->0 by {
            if i < front.len() {
                assert(front[i] == users[i]);
                assert(answered(users, answers)[i] == answered(front, answers)[i]);
            }
        }
    }
}

/// The burst names every user once, then every channel once, and ends
/// with the end mark.
pub proof fn law_burst_shape(masks: Seq<MaskView>, directory: DirectoryView)
    ensures
        burst(masks, directory).len() == masks.len() + directory.channels.len() + 1,
        forall|i: int|
            0 <= i < masks.len() ==> #[trigger] burst(masks, directory)[i]
                == WriterThreadMsgView::SSend(nick_line(masks[i])),
        forall|j: int|
            0 <= j < directory.channels.len() ==> #[trigger] burst(masks, directory)[masks.len() + j]
                == WriterThreadMsgView::SSend(sjoin_line(directory.channels[j])),
        burst(masks, directory).last() == WriterThreadMsgView::SSend(SRPLView::EOS),
{
}

/// Every word of a text holds a character, and none of its characters is
/// whitespace.
pub proof fn law_words_hold_no_whitespace(s: Seq<char>)
    ensures
        forall|k: int| 0 <= k < words(s).len() ==> (#[trigger] words(s)[k]).len() > 0,
        forall|k: int, j: int|
            0 <= k < words(s).len() && 0 <= j < words(s)[k].len() ==> !is_whitespace(
                #[trigger] words(s)[k][j],
            ),
{
    lemma_words_from(s, 0);
}

proof fn lemma_words_from(s: Seq<char>, i: int)
    requires
        0 <= i <= s.len(),
    ensures
        forall|k: int|
            0 <= k < words_from(s, i).len() ==> (#[trigger] words_from(s, i)[k]).len() > 0,
        forall|k: int, j: int|
            0 <= k < words_from(s, i).len() && 0 <= j < words_from(s, i)[k].len()
                ==> !is_whitespace(#[trigger] words_from(s, i)[k][j]),
    decreases s.len() - i,
{
    let all = words_from(s, i);
    if i >= s.len() {
        assert(all.len() == 0);
    } else if is_whitespace(s[i]) {
        lemma_words_from(s, i + 1);
        assert(all == words_from(s, i + 1));
    } else {
        lemma_word_len_bounds(s, i);
        let end = i + word_len(s, i);
        lemma_words_from(s, end);
        let w = s.subrange(i, end);
        let rest = words_from(s, end);
        assert(all == seq![w] + rest);
        assert forall|k: int| 0 <= k < all.len() implies (#[trigger] all[k]).len() > 0 by {
            if k > 0 {
                assert(all[k] == rest[k - 1]);
            }
        }
        assert forall|k: int, j: int| 0 <= k < all.len() && 0 <= j < all[k].len()
            implies !is_whitespace(#[trigger] all[k][j]) by {
            if k > 0 {
                assert(all[k] == rest[k - 1]);
            } else {
                assert(w[j] == s[i + j]);
            }
        }
    }
}

proof fn lemma_word_len_ignores_last_whitespace(s: Seq<char>, i: int)
    requires
        s.len() > 0,
        is_whitespace(s.last()),
        0 <= i < s.len(),
    ensures
        word_len(s, i) == word_len(s.drop_last(), i),
    decreases s.len() - i,
{
    if i < s.len() - 1 && !is_whitespace(s[i]) {
        lemma_word_len_ignores_last_whitespace(s, i + 1);
    }
}

proof fn lemma_words_ignore_last_whitespace(s: Seq<char>, i: int)
    requires
        s.len() > 0,
        is_whitespace(s.last()),
        0 <= i < s.len(),
    ensures
        words_from(s, i) == words_from(s.drop_last(), i),
    decreases s.len() - i,
{
    let t = s.drop_last();
    if i == s.len() - 1 {
        assert(words_from(s, i) == words_from(s, i + 1));
    } else if is_whitespace(s[i]) {
        lemma_words_ignore_last_whitespace(s, i + 1);
    } else {
        lemma_word_len_ignores_last_whitespace(s, i);
        lemma_word_len_bounds(t, i);
        let end = i + word_len(s, i);
        assert(s.subrange(i, end) =~= t.subrange(i, end));
        if end < s.len() {
            lemma_words_ignore_last_whitespace(s, end);
        }
    }
}

/// Whitespace at the end of a text reaches no word: the text has the
/// same words with it and without it.
pub proof fn law_trailing_whitespace_is_ignored(s: Seq<char>)
    ensures
        words(trim_end(s)) == words(s),
    decreases s.len(),
{
    if s.len() > 0 && is_whitespace(s.last()) {
        let t = s.drop_last();
        law_trailing_whitespace_is_ignored(t);
        lemma_trailing_whitespace_bound(t);
        assert(trim_end(s) =~= trim_end(t));
        lemma_words_ignore_last_whitespace(s, 0);
    } else {
        assert(trim_end(s) =~= s);
    }
}

proof fn lemma_trailing_whitespace_bound(s: Seq<char>)
    ensures
        trailing_whitespace(s) <= s.len(),
    decreases s.len(),
{
    if s.len() > 0 && is_whitespace(s.last()) {
        lemma_trailing_whitespace_bound(s.drop_last());
    }
}

/// The words of a line after the command fall into parameters and
/// trailing words: no parameter begins with a colon, and the trailing
/// words are there exactly if one of the words begins with a colon.
pub proof fn law_parameters_come_before_the_colon(ws: Seq<Seq<char>>)
    requires
        ws.len() > 0,
    ensures
        parsed(ws).command == ws[0],
        parsed(ws).params.len() + parsed(ws).trailing.len() == ws.len() - 1,
        forall|j: int|
            0 <= j < parsed(ws).params.len() ==> !starts_with_colon(#[trigger] parsed(ws).params[j]),
        parsed(ws).trailing.len() > 0 <==> exists|k: int|
            1 <= k < ws.len() && starts_with_colon(#[trigger] ws[k]),
{
    lemma_trailing_start_bounds(ws, 1);
    let at = trailing_start(ws, 1);
    assert forall|j: int| 0 <= j < parsed(ws).params.len() implies !starts_with_colon(
        #[trigger] parsed(ws).params[j],
    ) by {
        assert(parsed(ws).params[j] == ws[j + 1]);
    }
    if at < ws.len() {
        assert(starts_with_colon(ws[at]));
    }
}

/// The session that holds a nick is the one that a lookup of the nick
/// finds.
pub proof fn law_lookup_finds_the_holder(registry: DirectoryWorkerView, id: int, nick: Seq<char>)
    requires
        registry.wf(),
        registry.holds(id, nick),
    ensures
        registry.step(DirectoryThreadMsgView::GetUserByNick(nick)) == (
            registry,
            DirectoryReplyView::User(Ok(registry.users[id]->0.thread)),
        ),
{
    registry.lemma_holder_from(nick, 0);
    let at = registry.holder_from(nick, 0);
    if at >= registry.users.len() {
        assert(!registry.holds(id, nick));
    }
}

/// No two of `channels` have the same name.
pub open spec fn each_once(channels: Seq<StoredChannelView>) -> bool {
    forall|a: int, b: int|
        0 <= a < b < channels.len() ==> (#[trigger] channels[a]).name != (#[trigger] channels[b]).name
}

/// A session that holds no channel twice holds none twice after a
/// command: a join of a channel that it is in does nothing.
pub proof fn law_session_holds_each_channel_once(
    session: UserWorkerView,
    verb: Verb,
    cmd: ParsedCommandView,
    directory: DirectoryView,
)
    requires
        each_once(session.channels),
        session.accepts(verb, cmd),
    ensures
        each_once(session.command(verb, cmd, directory).worker.channels),
{
    let after = session.command(verb, cmd, directory).worker.channels;
    let before = session.channels;
    if session.state is Connected && verb == Verb::Join {
        let name = cmd.params[0];
        lemma_found_from(stored_names(before), name, 0);
        if stored_at(before, name) >= before.len() && after != before {
            assert(after.len() == before.len() + 1);
            assert(after.drop_last() =~= before);
            assert(after.last().name == name);
            assert forall|a: int, b: int| 0 <= a < b < after.len() implies (#[trigger] after[a]).name
                != (#[trigger] after[b]).name by {
                assert(after[a] == before[a]);
                if b < before.len() {
                    assert(after[b] == before[b]);
                } else {
                    assert(stored_names(before)[a] != name);
                }
            }
        }
    } else if session.state is Connected && verb == Verb::Part {
        let at = stored_at(before, UserWorkerView::part_target(cmd));
        lemma_found_from(stored_names(before), UserWorkerView::part_target(cmd), 0);
        if at < before.len() {
            assert(after == before.remove(at));
            assert forall|a: int, b: int| 0 <= a < b < after.len() implies (#[trigger] after[a]).name
                != (#[trigger] after[b]).name by {
                let a0 = if a < at {
                    a
                } else {
                    a + 1
                };
                let b0 = if b < at {
                    b
                } else {
                    b + 1
                };
                assert(after[a] == before[a0]);
                assert(after[b] == before[b0]);
            }
        }
    }
}

/// Whatever a link writes for a command of the peer comes after what it
/// has written before, its burst first of all.
pub proof fn law_link_writes_after_its_burst(
    link: ServerWorkerView,
    verb: Verb,
    cmd: ParsedCommandView,
    directory: DirectoryView,
)
    ensures
        link.writer.is_prefix_of(link.command(verb, cmd, directory).worker.writer),
{
}

/// Whatever a session writes for a command comes after what it has
/// written before.
pub proof fn law_session_only_adds_output(
    session: UserWorkerView,
    verb: Verb,
    cmd: ParsedCommandView,
    directory: DirectoryView,
)
    ensures
        session.writer.is_prefix_of(session.command(verb, cmd, directory).worker.writer),
{
}

/// A run of a session ends with the first event if that event says that
/// the time has run out: nothing is changed, nothing after it is looked
/// at, and the session has ended.
pub proof fn law_run_ends_when_the_time_is_out(
    session: UserWorkerView,
    later: Seq<SessionEvent>,
    directory: DirectoryView,
)
    ensures
        ({
            let run = session.ran(seq![SessionEvent::Timeout] + later, directory);
            &&& run.turn == turn(session, directory, true)
            &&& run.handled == 1
            &&& !run.rejected
        }),
{
    let events = seq![SessionEvent::Timeout] + later;
    assert(events[0] == SessionEvent::Timeout);
}

/// Only the link secret, sent as the first command of a connection, makes
/// a connection go on as a server link.
pub proof fn law_upgrade_needs_the_secret(
    session: UserWorkerView,
    verb: Verb,
    cmd: ParsedCommandView,
    directory: DirectoryView,
)
    requires
        !session.do_upgrade,
        session.command(verb, cmd, directory).worker.do_upgrade,
    ensures
        verb == Verb::Pass,
        session.state == StateView::NewConnection(None),
        joined(cmd.params, " "@) + joined(cmd.trailing, " "@) == session.config.server_pass,
        session.command(verb, cmd, directory).exit,
{
}

/// Whatever a link writes in a run comes after what it has written
/// before, its burst first of all.
pub proof fn law_link_runs_after_its_burst(
    link: ServerWorkerView,
    events: Seq<LinkEvent>,
    directory: DirectoryView,
)
    ensures
        link.writer.is_prefix_of(link.ran(events, directory).turn.worker.writer),
    decreases events.len(),
{
    if events.len() > 0 && !link.refuses(events[0]) {
        let first = link.woken(events[0], directory);
        assert(link.writer.is_prefix_of(first.worker.writer)) by {
            match events[0] {
                LinkEvent::Line(crate::writer::ReaderThreadMsg::Command(cmd)) => {
                    law_link_writes_after_its_burst(link, cmd@.verb(), cmd@, directory);
                },
                _ => {},
            }
        }
        if !(events[0] is Closed) {
            law_link_runs_after_its_burst(first.worker, events.drop_first(), first.directory);
            let last = first.worker.ran(events.drop_first(), first.directory).turn.worker.writer;
            assert(link.writer.is_prefix_of(last)) by {
                assert(link.writer =~= last.subrange(0, link.writer.len() as int)) by {
                    assert(first.worker.writer =~= last.subrange(
                        0,
                        first.worker.writer.len() as int,
                    ));
                }
            }
        }
    }
}

/// The full rendering of a mask begins with its short rendering.
pub proof fn law_full_rendering_begins_with_the_short_one(mask: MaskView)
    ensures
        mask.for_privmsg().is_prefix_of(mask.full()),
{
    assert(mask.for_privmsg() =~= mask.full().subrange(0, mask.for_privmsg().len() as int));
}

} // verus!
