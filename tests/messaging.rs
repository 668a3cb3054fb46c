use omega_stylus::{
    Address, MessagingContract, MessagingError, MessagingEvent, RelayRequest, Uint256,
};

fn id(n: u128) -> Uint256 {
    Uint256 { hi: 0, lo: n }
}

fn account(b: u8) -> Address {
    Address { bytes: [b; 20] }
}

#[test]
fn ids_are_sequential_from_zero() {
    let mut c = MessagingContract::new();
    for n in 0..5u128 {
        let r = c.send_message(format!("message {}", n), account(1));
        assert_eq!(r, Ok(id(n)));
        assert_eq!(c.message_count(), id(n + 1));
    }
}

#[test]
fn empty_content_is_refused() {
    let mut c = MessagingContract::new();
    assert_eq!(c.send_message(String::new(), account(1)), Err(MessagingError::EmptyContent));
    assert_eq!(c.message_count(), id(0));
    c.send_message("a".to_string(), account(1)).unwrap();
    assert_eq!(c.send_message("".to_string(), account(1)), Err(MessagingError::EmptyContent));
    assert_eq!(c.message_count(), id(1));
    assert_eq!(c.events().len(), 1);
}

#[test]
fn lookups_fail_exactly_beyond_count() {
    let mut c = MessagingContract::new();
    assert_eq!(c.get_message(id(0)), Err(MessagingError::NotFound(id(0))));
    assert_eq!(c.get_sender(id(0)), Err(MessagingError::NotFound(id(0))));
    c.send_message("x".to_string(), account(2)).unwrap();
    c.send_message("y".to_string(), account(3)).unwrap();
    assert_eq!(c.get_message(id(1)), Ok("y".to_string()));
    assert_eq!(c.get_sender(id(1)), Ok(account(3)));
    assert_eq!(c.get_message(id(2)), Err(MessagingError::NotFound(id(2))));
    assert_eq!(c.get_sender(id(2)), Err(MessagingError::NotFound(id(2))));
    let huge = Uint256 { hi: 1, lo: 0 };
    assert_eq!(c.get_message(huge), Err(MessagingError::NotFound(huge)));
    assert_eq!(c.get_sender(huge), Err(MessagingError::NotFound(huge)));
}

#[test]
fn round_trip_survives_later_calls() {
    let mut c = MessagingContract::new();
    let first = c.send_message("first".to_string(), account(7)).unwrap();
    for n in 0..10 {
        c.send_message(format!("later {}", n), account(8)).unwrap();
    }
    let req = c.bridge_message(first, account(9)).unwrap();
    c.complete_bridge(&req, Ok(id(42))).unwrap();
    assert_eq!(c.get_message(first), Ok("first".to_string()));
    assert_eq!(c.get_sender(first), Ok(account(7)));
}

#[test]
fn bridge_of_unknown_id_is_not_found() {
    let mut c = MessagingContract::new();
    assert_eq!(c.bridge_message(id(0), account(1)), Err(MessagingError::NotFound(id(0))));
    c.send_message("m".to_string(), account(1)).unwrap();
    assert_eq!(c.bridge_message(id(1), account(1)), Err(MessagingError::NotFound(id(1))));
    let huge = Uint256 { hi: 3, lo: 0 };
    assert_eq!(c.bridge_message(huge, account(1)), Err(MessagingError::NotFound(huge)));
}

#[test]
fn end_to_end_submit_read_and_bridge() {
    let mut c = MessagingContract::new();
    let alice = account(0xa1);
    assert_eq!(c.send_message("hello".to_string(), alice), Ok(id(0)));
    assert_eq!(c.message_count(), id(1));
    assert_eq!(c.send_message("world".to_string(), alice), Ok(id(1)));
    assert_eq!(c.message_count(), id(2));
    assert_eq!(c.get_message(id(0)), Ok("hello".to_string()));
    assert_eq!(c.get_message(id(1)), Ok("world".to_string()));

    let req = c.bridge_message(id(0), alice).unwrap();
    assert_eq!(
        req,
        RelayRequest { id: id(0), recipient: alice, payload: b"hello".to_vec() }
    );
    let ticket = id(77);
    assert_eq!(c.complete_bridge(&req, Ok(ticket)), Ok(()));
    assert_eq!(
        c.events()[2],
        MessagingEvent::MessageBridged { id: id(0), ticket }
    );
    assert_eq!(c.bridge_message(id(5), alice), Err(MessagingError::NotFound(id(5))));
}

#[test]
fn sent_events_carry_id_sender_and_content() {
    let mut c = MessagingContract::new();
    c.send_message("one".to_string(), account(4)).unwrap();
    c.send_message("two".to_string(), account(5)).unwrap();
    assert_eq!(
        c.events().clone(),
        vec![
            MessagingEvent::MessageSent { id: id(0), sender: account(4), content: "one".to_string() },
            MessagingEvent::MessageSent { id: id(1), sender: account(5), content: "two".to_string() },
        ]
    );
}

#[test]
fn failed_relay_keeps_message_bridgeable() {
    let mut c = MessagingContract::new();
    let bob = account(0xb0);
    c.send_message("retry me".to_string(), bob).unwrap();
    let req = c.bridge_message(id(0), bob).unwrap();
    let r = c.complete_bridge(&req, Err(b"reverted".to_vec()));
    assert_eq!(r, Err(MessagingError::RelayCallFailed(b"reverted".to_vec())));
    assert_eq!(c.events().len(), 1);
    assert_eq!(c.get_message(id(0)), Ok("retry me".to_string()));
    assert_eq!(c.get_sender(id(0)), Ok(bob));
    let again = c.bridge_message(id(0), bob).unwrap();
    assert_eq!(again, req);
    assert_eq!(c.complete_bridge(&again, Ok(id(1))), Ok(()));
    assert_eq!(c.events().len(), 2);
}

#[test]
fn payload_is_utf8_of_content() {
    let mut c = MessagingContract::new();
    c.send_message("héllo ✓".to_string(), account(1)).unwrap();
    let req = c.bridge_message(id(0), account(6)).unwrap();
    assert_eq!(req.payload, "héllo ✓".as_bytes().to_vec());
    assert_eq!(req.recipient, account(6));
}

#[test]
fn a_message_may_be_bridged_many_times() {
    let mut c = MessagingContract::new();
    c.send_message("again".to_string(), account(1)).unwrap();
    for t in 0..3u128 {
        let req = c.bridge_message(id(0), account(1)).unwrap();
        assert_eq!(c.complete_bridge(&req, Ok(id(t))), Ok(()));
    }
    assert_eq!(c.events().len(), 4);
}
