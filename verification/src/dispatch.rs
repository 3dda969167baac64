//! The step between the transport and the store, for one received payload.

use vstd::prelude::*;
use vstd::utf8::{decode_utf8, valid_utf8};
use crate::error::Error;
use crate::protocol::{decode, parse, parse_spec, Command, CommandModel};
use crate::queue::{published, retrieved, MessageQueue};
use crate::store::{guarded, publish_held, retrieve_held, DataStore};

verus! {

/// What [`process_command`] may fail with, by command: a publish only with
/// `WriteLockError`, a retrieve only with `EmptyMessage`.
pub open spec fn store_failure(command: CommandModel, e: Error) -> bool {
    match command {
        CommandModel::Publish(_) => e is WriteLockError,
        CommandModel::Retrieve => e == Error::EmptyMessage,
    }
}

/// Applies `command` to the store under one acquisition of its lock:
/// [`process_held`] of the lock's answer.
pub fn process_command(command: Command, data_store: DataStore) -> (r: Result<(), Error>)
    ensures
        r matches Err(e) ==> store_failure(command@, e),
{
    match data_store.hold() {
        Ok(mut guard) => process_held(command, Ok(guarded(&mut guard))),
        Err(text) => process_held(command, Err(text)),
    }
}

/// Handles one payload as it was read from a connection: decodes it, parses
/// it and applies the command to the store.
///
/// Bytes that are no text, and text that is no command, are refused before
/// the store is touched.
pub fn receive(bytes: Vec<u8>, data_store: DataStore) -> (r: Result<(), Error>)
    ensures
        !valid_utf8(bytes@) ==> r matches Err(Error::BytesConversion(_)),
        valid_utf8(bytes@) ==> match parse_spec(decode_utf8(bytes@)) {
            Err(refused) => r == Err::<(), Error>(refused),
            Ok(command) => r matches Err(e) ==> store_failure(command, e),
        },
{
    let text: String = match decode(bytes) {
        Ok(text) => text,
        Err(e) => {
            return Err(e);
        },
    };
    let command: Command = match parse(text.as_str()) {
        Ok(command) => command,
        Err(e) => {
            return Err(e);
        },
    };
    process_command(command, data_store)
}

/// The queue after `command` was applied to `queue`.
pub open spec fn applied(command: CommandModel, queue: Seq<Seq<char>>) -> Seq<Seq<char>> {
    match command {
        CommandModel::Publish(text) => published(queue, text),
        CommandModel::Retrieve => retrieved(queue).1,
    }
}

/// The error that `command` fails with where the lock is refused with
/// `text`.
pub open spec fn lock_failure(command: CommandModel, text: String) -> Error {
    match command {
        CommandModel::Publish(_) => Error::WriteLockError(text),
        CommandModel::Retrieve => Error::EmptyMessage,
    }
}

/// What a command does with the answer of the store's lock. Holding the
/// queue, a publish appends its payload and a retrieve removes the oldest
/// message and drops it, and either succeeds; refused the lock, the command
/// fails and nothing is changed.
pub fn process_held(command: Command, held: Result<&mut MessageQueue, String>) -> (r: Result<
    (),
    Error,
>)
    ensures
        match held {
            Ok(queue) => {
                &&& r == Ok::<(), Error>(())
                &&& final(queue)@ == applied(command@, queue@)
            },
            Err(text) => r == Err::<(), Error>(lock_failure(command@, text)),
        },
{
    match command {
        Command::Publish(message) => publish_held(held, message),
        Command::Retrieve => match retrieve_held(held) {
            Ok(_) => Ok(()),
            Err(e) => Err(e),
        },
    }
}

} // verus!
