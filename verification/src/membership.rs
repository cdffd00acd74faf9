//! The channels that a user is in: joining, leaving, and finding them by
//! name. Sessions and the proxies of remote users keep their memberships
//! the same way, so that a channel cannot tell one from the other.

use crate::channel::ChannelThreadMsgView;
use crate::directory::{ChannelEntry, ChannelEntryView, Directory, DirectoryView};
use crate::mask::{Mask, MaskView};
use crate::find::found_from;
use crate::registry::{Channel, DirectoryReplyView, DirectoryThreadMsgView};
use crate::slots::first_free;
use vstd::prelude::*;

verus! {

/// A channel that a user is in, with the right to its slot there.
#[derive(Debug)]
pub struct StoredChannel {
    pub name: String,
    pub thread: ChannelEntry,
}

/// A `StoredChannel` as plain values.
pub struct StoredChannelView {
    pub name: Seq<char>,
    pub thread: ChannelEntryView,
}

impl View for StoredChannel {
    type V = StoredChannelView;

    open spec fn view(&self) -> StoredChannelView {
        StoredChannelView { name: self.name@, thread: self.thread@ }
    }
}

impl DeepView for StoredChannel {
    type V = StoredChannelView;

    open spec fn deep_view(&self) -> StoredChannelView {
        self@
    }
}

/// The names of `channels`, in order.
pub open spec fn stored_names(channels: Seq<StoredChannelView>) -> Seq<Seq<char>> {
    Seq::new(channels.len(), |i: int| channels[i].name)
}

/// The position of the first of `channels` called `name`, or their number
/// where there is none.
pub open spec fn stored_at(channels: Seq<StoredChannelView>, name: Seq<char>) -> int {
    found_from(stored_names(channels), name, 0)
}

/// The directory after the release of `entry`: its channel gets the part,
/// unless the entry leads nowhere.
pub open spec fn released(directory: DirectoryView, entry: ChannelEntryView) -> DirectoryView {
    if directory.reaches(entry.channel) {
        directory.ask_channel(entry.channel, entry.parting())
    } else {
        directory
    }
}

/// The directory after the release of the entries of `channels`, first to
/// last.
pub open spec fn released_all(
    directory: DirectoryView,
    channels: Seq<StoredChannelView>,
) -> DirectoryView
    decreases channels.len(),
{
    if channels.len() == 0 {
        directory
    } else {
        released(released_all(directory, channels.drop_last()), channels.last().thread)
    }
}

/// The memberships and the directory after the holder of `nick`, shown as
/// `mask`, has joined the channel called `name`: the channel is found or
/// created, the holder of the nick joins it, and the right to the slot is
/// kept, with the nick as the mask of the part to come. Where nobody holds
/// the nick only the channel is found or created.
pub open spec fn entered(
    channels: Seq<StoredChannelView>,
    directory: DirectoryView,
    name: Seq<char>,
    nick: Seq<char>,
    mask: MaskView,
) -> (Seq<StoredChannelView>, DirectoryView) {
    let found = directory.ask_registry(DirectoryThreadMsgView::GetChannelByName(name, nick));
    let channel = Channel { thread: found_from(directory.registry.channels, name, 0) as usize };
    match found.registry.step(DirectoryThreadMsgView::GetUserByNick(nick)).1 {
        DirectoryReplyView::User(Ok(user)) => (
            channels.push(
                StoredChannelView {
                    name,
                    thread: ChannelEntryView {
                        channel,
                        id: first_free(found.channels[channel.thread as int].users),
                        mask: nick,
                        part_reason: None,
                    },
                },
            ),
            found.ask_channel(channel, ChannelThreadMsgView::Join(user, mask)),
        ),
        _ => (channels, found),
    }
}

/// The position of the first of `channels` called `name`, or their number.
pub fn find_channel(channels: &Vec<StoredChannel>, name: &String) -> (at: usize)
    ensures
        at == stored_at(channels.deep_view(), name@),
        at <= channels.len(),
{
    let ghost names = stored_names(channels.deep_view());
    let mut i: usize = 0;
    while i < channels.len() && channels[i].name != *name
        invariant
            i <= channels.len(),
            names == stored_names(channels.deep_view()),
            found_from(names, name@, 0) == found_from(names, name@, i as int),
        decreases channels.len() - i,
    {
        assert(names[i as int] == channels@[i as int].name@);
        i += 1;
    }
    proof {
        if i < channels.len() {
            assert(names[i as int] == channels@[i as int].name@);
        }
    }
    i
}

/// Takes the channel at position `at` out of `channels` and gives up the
/// right to its slot, with `reason` where one is given.
pub fn leave_channel(
    channels: &mut Vec<StoredChannel>,
    at: usize,
    reason: Option<Option<String>>,
    directory: &mut Directory,
)
    requires
        at < old(channels).len(),
        old(directory)@.wf(),
    ensures
        final(directory)@.wf(),
        final(channels).deep_view() == old(channels).deep_view().remove(at as int),
        final(directory)@ == released(
            old(directory)@,
            match reason {
                Some(r) => ChannelEntryView {
                    part_reason: r.deep_view(),
                    ..old(channels).deep_view()[at as int].thread
                },
                None => old(channels).deep_view()[at as int].thread,
            },
        ),
{
    let ghost before = channels.deep_view();
    assert(before[at as int] == channels@[at as int]@);
    let stored = channels.remove(at);
    assert(channels.deep_view() =~= before.remove(at as int));
    let mut entry = stored.thread;
    match reason {
        Some(r) => {
            entry.part_reason(r);
        },
        None => {},
    }
    let _ = entry.release(directory);
}

/// Gives up the rights to all of `channels`, first to last.
pub fn leave_all(channels: Vec<StoredChannel>, directory: &mut Directory)
    requires
        old(directory)@.wf(),
    ensures
        final(directory)@.wf(),
        final(directory)@ == released_all(old(directory)@, channels.deep_view()),
{
    let ghost all = channels.deep_view();
    let ghost start = directory@;
    let mut rest = channels;
    let mut done: Ghost<int> = Ghost(0);
    assert(all.take(0) =~= Seq::empty());
    assert(all.skip(0) =~= all);
    while rest.len() > 0
        invariant
            directory@.wf(),
            0 <= done@ <= all.len(),
            rest.deep_view() == all.skip(done@),
            directory@ == released_all(start, all.take(done@)),
        decreases rest.len(),
    {
        let ghost left = rest.deep_view();
        assert(left[0] == rest@[0]@);
        let stored = rest.remove(0);
        assert(rest.deep_view() =~= left.remove(0));
        let _ = stored.thread.release(directory);
        proof {
            let k = done@;
            assert(all.take(k + 1).drop_last() =~= all.take(k));
            assert(all.take(k + 1).last() == all[k]);
            assert(left[0] == all[k]);
            assert(left.remove(0) =~= all.skip(k + 1));
            done@ = k + 1;
        }
    }
    assert(all.take(all.len() as int) =~= all);
}

/// Joins the holder of `nick`, shown as `mask`, to the channel called
/// `name`, and keeps the right to the slot in `channels`.
pub fn join_channel(
    channels: &mut Vec<StoredChannel>,
    directory: &mut Directory,
    name: String,
    nick: String,
    mask: Mask,
)
    requires
        old(directory)@.wf(),
    ensures
        final(directory)@.wf(),
        (final(channels).deep_view(), final(directory)@) == entered(
            old(channels).deep_view(),
            old(directory)@,
            name@,
            nick@,
            mask@,
        ),
{
    let channel = directory.get_channel_by_name(name.clone(), nick.clone());
    match directory.get_user_by_nick(nick.clone()) {
        Ok(user) => {
            match channel.join(directory, user, mask) {
                Ok(mut entry) => {
                    entry.update_mask(nick);
                    let ghost before = channels.deep_view();
                    let stored = StoredChannel { name, thread: entry };
                    channels.push(stored);
                    assert(channels.deep_view() =~= before.push(stored@));
                },
                Err(_) => {},
            }
        },
        Err(_) => {},
    }
}

} // verus!
