//! The wire protocol: one newline-terminated line of text per command.
//!
//! A line is cut at its first space into a command token and, where a space
//! was found, a payload. The token is compared as received, its trailing
//! newline included.

use vstd::prelude::*;
use vstd::slice::slice_subrange;
use vstd::string::*;
use vstd::utf8::{decode_utf8, encode_utf8, valid_utf8};
use crate::error::Error;
use crate::text::{
    chars_of, contains_char, ends_with, ends_with_char, find_char, prefix_len, spells,
    trim_bounds, trimmed,
};

verus! {

/// A parsed command.
#[derive(Debug, PartialEq)]
pub enum Command {
    /// Append the payload, one line of text, to the store.
    Publish(String),
    /// Remove the oldest message from the store.
    Retrieve,
}

/// What a [`Command`] is in contracts: the same variants over plain text.
pub enum CommandModel {
    Publish(Seq<char>),
    Retrieve,
}

impl View for Command {
    type V = CommandModel;

    open spec fn view(&self) -> CommandModel {
        match self {
            Command::Publish(payload) => CommandModel::Publish(payload@),
            Command::Retrieve => CommandModel::Retrieve,
        }
    }
}

/// The command token of a line: what stands before its first space.
pub open spec fn token(raw: Seq<char>) -> Seq<char> {
    raw.take(prefix_len(raw, ' ') as int)
}

/// Whether a line holds a space, and so a payload behind it.
pub open spec fn has_payload(raw: Seq<char>) -> bool {
    raw.contains(' ')
}

/// The payload of a line: what stands behind its first space.
pub open spec fn payload(raw: Seq<char>) -> Seq<char>
    recommends
        has_payload(raw),
{
    raw.skip(prefix_len(raw, ' ') as int + 1)
}

/// Whether a publish payload breaks the one-line framing: a newline stands
/// in it while it does not end in one, or a newline is left after trimming.
pub open spec fn spans_lines(body: Seq<char>) -> bool {
    ||| body.contains('\n') && !ends_with(body, '\n')
    ||| trimmed(body).contains('\n')
}

/// The outcome of parsing a line. The token selects the branch, and the
/// first branch that matches decides:
///
/// - `RETRIEVE` with its newline is a retrieve, unless a payload follows;
/// - `PUBLISH`, with or without a newline, is a publish of the trimmed
///   payload, which must be there and must be one line;
/// - `RETRIEVE` without its newline is incomplete, or has a payload that it
///   must not have;
/// - an empty token is incomplete, a bare newline is an empty message;
/// - every other token is an unknown command.
pub open spec fn parse_spec(raw: Seq<char>) -> Result<CommandModel, Error> {
    let tok = token(raw);
    if tok == "RETRIEVE\n"@ {
        if has_payload(raw) {
            Err(Error::UnexpectedPayload)
        } else {
            Ok(CommandModel::Retrieve)
        }
    } else if tok == "PUBLISH"@ || tok == "PUBLISH\n"@ {
        if !has_payload(raw) {
            Err(Error::MissingPayload)
        } else if spans_lines(payload(raw)) {
            Err(Error::TrailingData)
        } else {
            Ok(CommandModel::Publish(trimmed(payload(raw))))
        }
    } else if tok == "RETRIEVE"@ {
        if has_payload(raw) {
            Err(Error::UnexpectedPayload)
        } else {
            Err(Error::IncompleteMessage)
        }
    } else if tok == ""@ {
        Err(Error::IncompleteMessage)
    } else if tok == "\n"@ {
        Err(Error::EmptyMessage)
    } else {
        Err(Error::UnknownCommand)
    }
}

/// The result of [`parse`] in the terms of [`parse_spec`].
pub open spec fn outcome(r: Result<Command, Error>) -> Result<CommandModel, Error> {
    match r {
        Ok(command) => Ok(command@),
        Err(e) => Err(e),
    }
}

/// `String::from_utf8`: succeeds exactly on valid UTF-8, and the string then
/// consists of the very bytes it was given.
pub assume_specification[ String::from_utf8 ](bytes: Vec<u8>) -> (r: Result<
    String,
    std::string::FromUtf8Error,
>)
    ensures
        r is Ok <==> valid_utf8(bytes@),
        r matches Ok(text) ==> encode_utf8(text@) == bytes@,
;

/// Turns received bytes into text. Bytes that are no valid UTF-8 are refused
/// as a whole.
pub fn decode(bytes: Vec<u8>) -> (r: Result<String, Error>)
    ensures
        r is Ok <==> valid_utf8(bytes@),
        r matches Ok(text) ==> text@ == decode_utf8(bytes@),
        r matches Err(e) ==> e is BytesConversion,
{
    match String::from_utf8(bytes) {
        Ok(text) => {
            proof {
                vstd::utf8::encode_utf8_decode_utf8(text@);
            }
            Ok(text)
        },
        Err(e) => Err(Error::BytesConversion(e)),
    }
}

/// Parses one raw line, as received, into a command.
///
/// The line is read once; the work is linear in its length.
pub fn parse(data: &str) -> (r: Result<Command, Error>)
    ensures
        outcome(r) == parse_spec(data@),
{
    let chars: Vec<char> = chars_of(data);
    let line: &[char] = chars.as_slice();
    let n: usize = line.len();
    let cut = find_char(line, ' ');
    let tok: &[char] = match cut {
        Some(i) => slice_subrange(line, 0, i),
        None => line,
    };
    assert(tok@ =~= token(data@));
    if spells(tok, "RETRIEVE\n") {
        if cut.is_some() {
            Err(Error::UnexpectedPayload)
        } else {
            Ok(Command::Retrieve)
        }
    } else if spells(tok, "PUBLISH") || spells(tok, "PUBLISH\n") {
        match cut {
            None => Err(Error::MissingPayload),
            Some(i) => {
                let body: &[char] = slice_subrange(line, i + 1, n);
                assert(body@ =~= payload(data@));
                let (start, end) = trim_bounds(body);
                let kept: &[char] = slice_subrange(body, start, end);
                if (contains_char(body, '\n') && !ends_with_char(body, '\n')) || contains_char(
                    kept,
                    '\n',
                ) {
                    Err(Error::TrailingData)
                } else {
                    let text: &str = data.substring_char(i + 1 + start, i + 1 + end);
                    assert(text@ =~= kept@);
                    Ok(Command::Publish(text.to_owned()))
                }
            },
        }
    } else if spells(tok, "RETRIEVE") {
        if cut.is_some() {
            Err(Error::UnexpectedPayload)
        } else {
            Err(Error::IncompleteMessage)
        }
    } else if spells(tok, "") {
        Err(Error::IncompleteMessage)
    } else if spells(tok, "\n") {
        Err(Error::EmptyMessage)
    } else {
        Err(Error::UnknownCommand)
    }
}

/// Whether a token is one of the command words, with or without its newline.
pub open spec fn is_command_word(tok: Seq<char>) -> bool {
    ||| tok == "RETRIEVE\n"@
    ||| tok == "RETRIEVE"@
    ||| tok == "PUBLISH"@
    ||| tok == "PUBLISH\n"@
}

/// A line is answered with `UnknownCommand` exactly when its token is no
/// command word, not empty and not a bare newline.
pub proof fn lemma_unknown_command(raw: Seq<char>)
    ensures
        parse_spec(raw) == Err::<CommandModel, Error>(Error::UnknownCommand) <==> {
            &&& !is_command_word(token(raw))
            &&& token(raw) != ""@
            &&& token(raw) != "\n"@
        },
{
}

/// Every failure of the parser is a framing error, and the empty line is
/// incomplete.
pub proof fn lemma_parse_failures(raw: Seq<char>)
    ensures
        parse_spec(raw) matches Err(e) ==> e.is_framing(),
        raw.len() == 0 ==> parse_spec(raw) == Err::<CommandModel, Error>(Error::IncompleteMessage),
{
    if raw.len() == 0 {
        reveal_strlit("");
        reveal_strlit("RETRIEVE\n");
        reveal_strlit("RETRIEVE");
        reveal_strlit("PUBLISH");
        reveal_strlit("PUBLISH\n");
        assert(token(raw) =~= ""@);
    }
}

/// A published payload is one line of text: it holds no newline, and it is
/// the trimmed text behind the first space of the line.
pub proof fn lemma_publish_is_one_line(raw: Seq<char>)
    ensures
        parse_spec(raw) matches Ok(CommandModel::Publish(text)) ==> {
            &&& !text.contains('\n')
            &&& text == trimmed(payload(raw))
            &&& has_payload(raw)
        },
{
}

} // verus!
