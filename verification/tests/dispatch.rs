use ferrous_test::dispatch::process_held;
use ferrous_test::protocol::decode;
use ferrous_test::queue::MessageQueue;
use ferrous_test::{receive, Command, DataStore, Error};

#[test]
fn decode_accepts_utf8() {
    assert_eq!(decode(b"PUBLISH hi\n".to_vec()), Ok("PUBLISH hi\n".to_string()));
    assert_eq!(decode(vec![0xc3, 0xa9]), Ok("\u{e9}".to_string()));
    assert_eq!(decode(Vec::new()), Ok(String::new()));
}

#[test]
fn decode_refuses_other_bytes() {
    assert!(matches!(decode(vec![0xff]), Err(Error::BytesConversion(_))));
    assert!(matches!(decode(vec![b'a', 0xc3]), Err(Error::BytesConversion(_))));
    assert!(matches!(decode(vec![0xed, 0xa0, 0x80]), Err(Error::BytesConversion(_))));
}

#[test]
fn receive_applies_commands_in_order() {
    let store = DataStore::new();
    assert_eq!(receive(b"PUBLISH one\n".to_vec(), store.clone()), Ok(()));
    assert_eq!(receive(b"PUBLISH  two words \n".to_vec(), store.clone()), Ok(()));
    assert_eq!(receive(b"PUBLISH three\n".to_vec(), store.clone()), Ok(()));
    assert_eq!(receive(b"RETRIEVE\n".to_vec(), store.clone()), Ok(()));
    assert_eq!(store.retrieve(), Ok(Some("two words".to_string())));
    assert_eq!(store.retrieve(), Ok(Some("three".to_string())));
    assert_eq!(store.retrieve(), Ok(None));
    assert_eq!(receive(b"RETRIEVE\n".to_vec(), store.clone()), Ok(()));
}

#[test]
fn receive_refuses_before_touching_the_store() {
    let store = DataStore::new();
    assert_eq!(receive(b"PUBLISH kept\n".to_vec(), store.clone()), Ok(()));
    assert!(matches!(
        receive(vec![b'P', 0xff, b'\n'], store.clone()),
        Err(Error::BytesConversion(_))
    ));
    assert_eq!(receive(b"".to_vec(), store.clone()), Err(Error::IncompleteMessage));
    assert_eq!(receive(b"\n".to_vec(), store.clone()), Err(Error::EmptyMessage));
    assert_eq!(receive(b"PUSH x\n".to_vec(), store.clone()), Err(Error::UnknownCommand));
    assert_eq!(receive(b"PUBLISH\n".to_vec(), store.clone()), Err(Error::MissingPayload));
    assert_eq!(receive(b"PUBLISH a\nb\n".to_vec(), store.clone()), Err(Error::TrailingData));
    assert_eq!(receive(b"RETRIEVE\n now".to_vec(), store.clone()), Err(Error::UnexpectedPayload));
    assert_eq!(receive(b"RETRIEVE".to_vec(), store.clone()), Err(Error::IncompleteMessage));
    assert_eq!(store.retrieve(), Ok(Some("kept".to_string())));
    assert_eq!(store.retrieve(), Ok(None));
}

#[test]
fn process_held_applies_the_command_to_the_queue() {
    let mut queue = MessageQueue::new();
    assert_eq!(process_held(Command::Publish("a".to_string()), Ok(&mut queue)), Ok(()));
    assert_eq!(process_held(Command::Publish("b".to_string()), Ok(&mut queue)), Ok(()));
    assert_eq!(queue.len(), 2);
    assert_eq!(process_held(Command::Retrieve, Ok(&mut queue)), Ok(()));
    assert_eq!(queue.len(), 1);
    assert_eq!(queue.pop(), Some("b".to_string()));
    assert_eq!(process_held(Command::Retrieve, Ok(&mut queue)), Ok(()));
    assert_eq!(queue.len(), 0);
}

#[test]
fn process_held_fails_by_command_where_the_lock_is_refused() {
    assert_eq!(
        process_held(Command::Publish("a".to_string()), Err("poisoned".to_string())),
        Err(Error::WriteLockError("poisoned".to_string()))
    );
    assert_eq!(
        process_held(Command::Retrieve, Err("poisoned".to_string())),
        Err(Error::EmptyMessage)
    );
}
