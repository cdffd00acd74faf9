//! The line parser: one line of text in, one `ParsedCommand` out.
//!
//! A line is a command word followed by parameter words. From the first
//! parameter word that begins with a colon on, the words form the trailing
//! part; that first word loses its colon. Words are separated by whitespace,
//! so whitespace at the end of a line never reaches a word.

use crate::command::{Error, ParsedCommand, ParsedCommandView};
use crate::text::{begins_with, chars_of, split_whitespace, string_of, words};
use vstd::prelude::*;

verus! {

/// Whether `w` begins with a colon.
pub open spec fn starts_with_colon(w: Seq<char>) -> bool {
    w.len() > 0 && w[0] == ':'
}

/// The position of the first word at or after `from` that begins with a
/// colon, or the number of words where there is none.
pub open spec fn trailing_start(ws: Seq<Seq<char>>, from: int) -> int
    decreases ws.len() - from,
{
    if from < 0 || from >= ws.len() {
        ws.len() as int
    } else if starts_with_colon(ws[from]) {
        from
    } else {
        trailing_start(ws, from + 1)
    }
}

/// The command that the words `ws` of a line spell, the first being the
/// command word.
pub open spec fn parsed(ws: Seq<Seq<char>>) -> ParsedCommandView
    recommends
        ws.len() > 0,
{
    let k = trailing_start(ws, 1);
    ParsedCommandView {
        prefix: None,
        command: ws[0],
        params: ws.subrange(1, k),
        trailing: if k < ws.len() {
            seq![ws[k].skip(1)] + ws.skip(k + 1)
        } else {
            Seq::empty()
        },
    }
}

/// The bounds of `trailing_start`.
pub proof fn lemma_trailing_start_bounds(ws: Seq<Seq<char>>, from: int)
    requires
        0 <= from <= ws.len(),
    ensures
        from <= trailing_start(ws, from) <= ws.len(),
        forall|j: int| from <= j < trailing_start(ws, from) ==> !starts_with_colon(#[trigger] ws[j]),
        trailing_start(ws, from) < ws.len() ==> starts_with_colon(ws[trailing_start(ws, from)]),
    decreases ws.len() - from,
{
    if from < ws.len() && !starts_with_colon(ws[from]) {
        lemma_trailing_start_bounds(ws, from + 1);
    }
}

/// The line parser. It keeps no state between lines.
pub struct LineFSM {}

impl LineFSM {
    pub fn new() -> Self {
        LineFSM {  }
    }

    /// Whether `line` names a sender in front of its command, which this
    /// parser does not read.
    pub fn has_prefix(line: &str) -> (b: bool)
        ensures
            b == starts_with_colon(line@),
    {
        begins_with(line, ':')
    }

    /// Parses one line. A line without a single word is malformed.
    pub fn handle_line(&mut self, line: String) -> (r: Result<ParsedCommand, Error>)
        requires
            !starts_with_colon(line@),
        ensures
            match r {
                Ok(cmd) => words(line@).len() > 0 && cmd@ == parsed(words(line@)),
                Err(e) => words(line@).len() == 0 && e == Error::MalformedString,
            },
    {
        let tokens = split_whitespace(line.as_str());
        if tokens.len() == 0 {
            return Err(Error::MalformedString);
        }
        let ghost ws = words(line@);
        let command = tokens[0].clone();
        let mut params: Vec<String> = Vec::new();
        let mut trailing: Vec<String> = Vec::new();
        let mut i: usize = 1;
        assert(params.deep_view() =~= ws.subrange(1, 1));
        while i < tokens.len() && !begins_with(tokens[i].as_str(), ':')
            invariant
                1 <= i <= tokens.len(),
                tokens.deep_view() == ws,
                trailing_start(ws, 1) == trailing_start(ws, i as int),
                params.deep_view() == ws.subrange(1, i as int),
                trailing@.len() == 0,
            decreases tokens.len() - i,
        {
            assert(ws[i as int] == tokens[i as int]@);
            let ghost before = params.deep_view();
            let word = tokens[i].clone();
            params.push(word);
            i += 1;
            assert(params.deep_view() =~= before.push(word@));
            assert(before.push(word@) =~= ws.subrange(1, i as int));
        }
        let ghost k = trailing_start(ws, 1);
        assert(i < tokens.len() ==> ws[i as int] == tokens[i as int]@);
        assert(k == i);
        if i < tokens.len() {
            let chars = chars_of(tokens[i].as_str());
            let first = string_of(&chars, 1, chars.len());
            trailing.push(first);
            assert(trailing.deep_view() =~= seq![ws[k].skip(1)]);
            let mut j: usize = i + 1;
            assert(ws.skip(k + 1).take(0) =~= Seq::empty());
            while j < tokens.len()
                invariant
                    i < j <= tokens.len(),
                    k == i,
                    tokens.deep_view() == ws,
                    trailing.deep_view() == seq![ws[k].skip(1)] + ws.skip(k + 1).take(j - i - 1),
                decreases tokens.len() - j,
            {
                let ghost before = trailing.deep_view();
                let word = tokens[j].clone();
                assert(ws[j as int] == tokens[j as int]@);
                trailing.push(word);
                j += 1;
                assert(trailing.deep_view() =~= before.push(word@));
                assert(before.push(word@) =~= seq![ws[k].skip(1)] + ws.skip(k + 1).take(
                    j - i - 1,
                ));
            }
            assert(ws.skip(k + 1).take(j - i - 1) =~= ws.skip(k + 1));
        } else {
            assert(trailing.deep_view() =~= Seq::empty());
        }
        assert(ws[0] == tokens[0]@);
        Ok(ParsedCommand { prefix: None, command, params, trailing })
    }
}

} // verus!
