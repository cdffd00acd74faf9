//! The identity descriptor of a user.

use crate::text::{decimal, decimal_string};
use vstd::prelude::*;

verus! {

/// Who a user is: the fields that wire prefixes and federation lines are
/// rendered from.
#[derive(Debug, PartialEq, Eq)]
pub struct Mask {
    pub nick: String,
    pub user: String,
    pub host: String,
    pub real: String,
    pub hops: u32,
    pub timestamp: String,
    pub servername: String,
}

/// A `Mask` as plain values.
pub struct MaskView {
    pub nick: Seq<char>,
    pub user: Seq<char>,
    pub host: Seq<char>,
    pub real: Seq<char>,
    pub hops: u32,
    pub timestamp: Seq<char>,
    pub servername: Seq<char>,
}

impl View for Mask {
    type V = MaskView;

    open spec fn view(&self) -> MaskView {
        MaskView {
            nick: self.nick@,
            user: self.user@,
            host: self.host@,
            real: self.real@,
            hops: self.hops,
            timestamp: self.timestamp@,
            servername: self.servername@,
        }
    }
}

impl DeepView for Mask {
    type V = MaskView;

    open spec fn deep_view(&self) -> MaskView {
        self@
    }
}

impl MaskView {
    /// The short rendering, `nick!user@host`.
    pub open spec fn for_privmsg(self) -> Seq<char> {
        self.nick + "!"@ + self.user + "@"@ + self.host
    }

    /// The full rendering: the short one, then the hop count, the time
    /// stamp and the server name, each after a space, then ` * ` and the
    /// real name.
    pub open spec fn full(self) -> Seq<char> {
        self.for_privmsg() + " "@ + decimal(self.hops as nat) + " "@ + self.timestamp + " "@
            + self.servername + " * "@ + self.real
    }
}

impl Mask {
    pub fn new(
        nick: String,
        user: String,
        host: String,
        realname: String,
        hops: u32,
        timestamp: String,
        servername: String,
    ) -> (mask: Self)
        ensures
            mask@ == (MaskView {
                nick: nick@,
                user: user@,
                host: host@,
                real: realname@,
                hops: hops,
                timestamp: timestamp@,
                servername: servername@,
            }),
    {
        Mask { nick, user, host, real: realname, hops, timestamp, servername }
    }

    /// `nick!user@host hops timestamp servername * real`.
    pub fn full(&self) -> (ret: String)
        ensures
            ret@ == self@.full(),
    {
        let mut ret = self.for_privmsg();
        ret.append(" ");
        ret.append(decimal_string(self.hops as u64).as_str());
        ret.append(" ");
        ret.append(self.timestamp.as_str());
        ret.append(" ");
        ret.append(self.servername.as_str());
        ret.append(" * ");
        ret.append(self.real.as_str());
        ret
    }

    /// `nick!user@host`, the prefix of client-facing messages.
    pub fn for_privmsg(&self) -> (ret: String)
        ensures
            ret@ == self@.for_privmsg(),
    {
        let mut ret = String::new();
        ret.append(self.nick.as_str());
        ret.append("!");
        ret.append(self.user.as_str());
        ret.append("@");
        ret.append(self.host.as_str());
        assert(ret@ == self@.for_privmsg());
        ret
    }

}

impl Clone for Mask {
    fn clone(&self) -> (ret: Mask)
        ensures
            ret@ == self@,
    {
        Mask {
            nick: self.nick.clone(),
            user: self.user.clone(),
            host: self.host.clone(),
            real: self.real.clone(),
            hops: self.hops,
            timestamp: self.timestamp.clone(),
            servername: self.servername.clone(),
        }
    }
}

} // verus!
