//! A parsed line of the wire protocol, and the errors of the connection
//! layer.

use crate::mailbox::ChanError;
use crate::text::{to_uppercase, uppercase};
use vstd::prelude::*;

verus! {

/// One line of input, taken apart.
#[derive(Debug, PartialEq, Eq)]
pub struct ParsedCommand {
    /// The sender named in front of the command, if any.
    pub prefix: Option<String>,
    pub command: String,
    /// The words between the command and the trailing part.
    pub params: Vec<String>,
    /// The words of the trailing part, the first without its colon.
    pub trailing: Vec<String>,
}

/// A `ParsedCommand` as plain values.
pub struct ParsedCommandView {
    pub prefix: Option<Seq<char>>,
    pub command: Seq<char>,
    pub params: Seq<Seq<char>>,
    pub trailing: Seq<Seq<char>>,
}

impl View for ParsedCommand {
    type V = ParsedCommandView;

    open spec fn view(&self) -> ParsedCommandView {
        ParsedCommandView {
            prefix: self.prefix.deep_view(),
            command: self.command@,
            params: self.params.deep_view(),
            trailing: self.trailing.deep_view(),
        }
    }
}

impl Clone for ParsedCommand {
    fn clone(&self) -> (ret: ParsedCommand)
        ensures
            ret@ == self@,
    {
        let prefix = match &self.prefix {
            Some(p) => Some(p.clone()),
            None => None,
        };
        ParsedCommand {
            prefix,
            command: self.command.clone(),
            params: self.params.clone(),
            trailing: self.trailing.clone(),
        }
    }
}

/// The commands that sessions and server links know.
#[derive(Debug, Clone, Copy, PartialEq, Eq, Structural)]
pub enum Verb {
    Pass,
    Nick,
    User,
    Ping,
    Mode,
    Who,
    Privmsg,
    Join,
    Part,
    Quit,
    Smo,
    Eos,
    Sjoin,
    /// Any other word.
    Unknown,
}

/// The command that the upper-case word `word` names.
pub open spec fn verb_of(word: Seq<char>) -> Verb {
    if word == "PASS"@ {
        Verb::Pass
    } else if word == "NICK"@ {
        Verb::Nick
    } else if word == "USER"@ {
        Verb::User
    } else if word == "PING"@ {
        Verb::Ping
    } else if word == "MODE"@ {
        Verb::Mode
    } else if word == "WHO"@ {
        Verb::Who
    } else if word == "PRIVMSG"@ {
        Verb::Privmsg
    } else if word == "JOIN"@ {
        Verb::Join
    } else if word == "PART"@ {
        Verb::Part
    } else if word == "QUIT"@ {
        Verb::Quit
    } else if word == "SMO"@ {
        Verb::Smo
    } else if word == "EOS"@ {
        Verb::Eos
    } else if word == "SJOIN"@ {
        Verb::Sjoin
    } else {
        Verb::Unknown
    }
}

fn is_word(word: &String, lit: &str) -> (b: bool)
    ensures
        b == (word@ == lit@),
{
    *word == String::from_str(lit)
}

/// The command that the upper-case word `word` names.
pub fn classify(word: &String) -> (verb: Verb)
    ensures
        verb == verb_of(word@),
{
    if is_word(word, "PASS") {
        Verb::Pass
    } else if is_word(word, "NICK") {
        Verb::Nick
    } else if is_word(word, "USER") {
        Verb::User
    } else if is_word(word, "PING") {
        Verb::Ping
    } else if is_word(word, "MODE") {
        Verb::Mode
    } else if is_word(word, "WHO") {
        Verb::Who
    } else if is_word(word, "PRIVMSG") {
        Verb::Privmsg
    } else if is_word(word, "JOIN") {
        Verb::Join
    } else if is_word(word, "PART") {
        Verb::Part
    } else if is_word(word, "QUIT") {
        Verb::Quit
    } else if is_word(word, "SMO") {
        Verb::Smo
    } else if is_word(word, "EOS") {
        Verb::Eos
    } else if is_word(word, "SJOIN") {
        Verb::Sjoin
    } else {
        Verb::Unknown
    }
}

impl ParsedCommandView {
    /// The command that the command word names once it is upper-cased.
    pub open spec fn verb(self) -> Verb {
        verb_of(uppercase(self.command))
    }
}

impl ParsedCommand {
    /// The command that the command word names, whatever its case.
    pub fn verb(&self) -> (verb: Verb)
        ensures
            verb == self@.verb(),
    {
        let upper = to_uppercase(self.command.as_str());
        classify(&upper)
    }
}

/// The std I/O error, carried through untouched.
#[verifier::external_type_specification]
#[verifier::external_body]
pub struct ExIoError(std::io::Error);

/// What can go wrong on a connection.
#[derive(Debug)]
pub enum Error {
    SendError(&'static str),
    RecvError(&'static str),
    IoError(std::io::Error),
    /// The line holds no command.
    MalformedString,
    /// The session behind the connection is gone.
    UserError,
}

impl From<ChanError> for Error {
    fn from(err: ChanError) -> (e: Error) {
        match err {
            ChanError::SendError(what) => Error::SendError(what),
            ChanError::RecvError(what) => Error::RecvError(what),
        }
    }
}

impl vstd::std_specs::convert::FromSpecImpl<ChanError> for Error {
    open spec fn obeys_from_spec() -> bool {
        true
    }

    open spec fn from_spec(err: ChanError) -> Error {
        match err {
            ChanError::SendError(what) => Error::SendError(what),
            ChanError::RecvError(what) => Error::RecvError(what),
        }
    }
}

impl From<std::io::Error> for Error {
    fn from(err: std::io::Error) -> (e: Error) {
        Error::IoError(err)
    }
}

impl vstd::std_specs::convert::FromSpecImpl<std::io::Error> for Error {
    open spec fn obeys_from_spec() -> bool {
        true
    }

    open spec fn from_spec(err: std::io::Error) -> Error {
        Error::IoError(err)
    }
}

} // verus!
