use pcsc::Attribute;
use pcsc::Context;
use pcsc::Disposition;
use pcsc::Error;
use pcsc::Protocol;
use pcsc::Protocols;
use pcsc::Scope;
use pcsc::ShareMode;
use pcsc::PROTOCOL_RAW;
use pcsc::PROTOCOL_T0;
use pcsc::PROTOCOL_T1;
use pcsc::STATUS_NEGOTIABLE;
use pcsc::STATUS_POWERED;
use pcsc::STATUS_PRESENT;

#[test]
fn connect_records_the_negotiated_protocol() {
    let ctx = Context::establish(Scope::User, 0, 1).unwrap();
    let prefs = Protocols::from_bits(PROTOCOL_T0 | PROTOCOL_T1);
    let card = ctx.connect(b"Reader A", ShareMode::Shared, prefs, 0, 42, 2).unwrap();
    assert_eq!(card.handle(), 42);
    assert_eq!(card.active_protocol(), Protocol::T1);
}

#[test]
fn connect_failure_maps_the_reported_code() {
    let ctx = Context::establish(Scope::User, 0, 1).unwrap();
    let prefs = Protocols::from_bits(PROTOCOL_T0);
    let err = ctx
        .connect(b"Reader A", ShareMode::Exclusive, prefs, 0x8010_000C, 0, 0)
        .unwrap_err();
    assert_eq!(err, Error::NoSmartcard);
}

#[test]
fn transmit_returns_exactly_the_reported_response() {
    // Establish a user-scope context, connect to "Reader A" shared with
    // protocols T0 and T1 on offer, and send a four-byte select command;
    // the native call answers with a two-byte status word.
    let ctx = Context::establish(Scope::User, 0, 1).unwrap();
    let prefs = Protocols::from_bits(PROTOCOL_T0 | PROTOCOL_T1);
    let card = ctx.connect(b"Reader A", ShareMode::Shared, prefs, 0, 42, 2).unwrap();
    let send = [0x00u8, 0xA4, 0x04, 0x00];
    let receive = [0x90u8, 0x00];
    let response = card.transmit(&send, &receive, 0, 2).unwrap();
    assert_eq!(response, &[0x90u8, 0x00][..]);
    assert_eq!(response.len(), 2);
}

#[test]
fn transmit_too_small_a_buffer_reports_insufficient_buffer() {
    let ctx = Context::establish(Scope::User, 0, 1).unwrap();
    let card = ctx
        .connect(b"Reader A", ShareMode::Shared, Protocols::from_bits(PROTOCOL_T0), 0, 42, 1)
        .unwrap();
    let send = [0x00u8, 0xA4, 0x04, 0x00];
    let receive = [0u8; 1];
    let err = card.transmit(&send, &receive, 0x8010_0008, 0).unwrap_err();
    assert_eq!(err, Error::InsufficientBuffer);
}

#[test]
fn get_attribute_returns_the_reported_prefix_of_the_buffer() {
    let ctx = Context::establish(Scope::User, 0, 1).unwrap();
    let card = ctx
        .connect(b"Reader A", ShareMode::Shared, Protocols::from_bits(PROTOCOL_T0), 0, 42, 1)
        .unwrap();
    let buffer = [0xDEu8, 0xAD, 0xBE, 0xEF, 0x00];
    let data = card.get_attribute(Attribute::VendorName, &buffer, 0, 3).unwrap();
    assert_eq!(data, &[0xDEu8, 0xAD, 0xBE][..]);
}

#[test]
fn get_attribute_too_small_a_buffer_reports_insufficient_buffer() {
    let ctx = Context::establish(Scope::User, 0, 1).unwrap();
    let card = ctx
        .connect(b"Reader A", ShareMode::Shared, Protocols::from_bits(PROTOCOL_T0), 0, 42, 1)
        .unwrap();
    let buffer = [0u8; 2];
    let err = card
        .get_attribute(Attribute::AtrString, &buffer, 0x8010_0008, 0)
        .unwrap_err();
    assert_eq!(err, Error::InsufficientBuffer);
}

#[test]
fn set_attribute_maps_the_reported_code() {
    let ctx = Context::establish(Scope::User, 0, 1).unwrap();
    let card = ctx
        .connect(b"Reader A", ShareMode::Shared, Protocols::from_bits(PROTOCOL_T0), 0, 42, 1)
        .unwrap();
    assert!(card.set_attribute(Attribute::CurrentIfsc, &[1, 2], 0).is_ok());
    let err = card.set_attribute(Attribute::CurrentIfsc, &[1, 2], 0x8010_0009).unwrap_err();
    assert_eq!(err, Error::UnknownReader);
}

#[test]
fn status_masks_undefined_bits_and_decodes_the_protocol() {
    let ctx = Context::establish(Scope::User, 0, 1).unwrap();
    let card = ctx
        .connect(b"Reader A", ShareMode::Shared, Protocols::from_bits(PROTOCOL_T0), 0, 42, 1)
        .unwrap();
    let raw = STATUS_PRESENT | STATUS_POWERED | STATUS_NEGOTIABLE | 0x8000;
    let (status, protocol) = card.status(0, raw, 1).unwrap();
    assert_eq!(status.bits(), STATUS_PRESENT | STATUS_POWERED | STATUS_NEGOTIABLE);
    assert_eq!(protocol, Protocol::T0);
}

#[test]
fn reconnect_renegotiates_the_protocol() {
    let ctx = Context::establish(Scope::User, 0, 1).unwrap();
    let mut card = ctx
        .connect(b"Reader A", ShareMode::Shared, Protocols::from_bits(PROTOCOL_T0), 0, 42, 1)
        .unwrap();
    assert_eq!(card.active_protocol(), Protocol::T0);
    card.reconnect(
        ShareMode::Direct,
        Protocols::from_bits(PROTOCOL_RAW),
        Disposition::ResetCard,
        0,
        4,
    )
    .unwrap();
    assert_eq!(card.active_protocol(), Protocol::RAW);
    // A failed reconnect leaves the recorded protocol alone.
    let err = card
        .reconnect(
            ShareMode::Shared,
            Protocols::from_bits(PROTOCOL_T1),
            Disposition::LeaveCard,
            0x8010_000F,
            0,
        )
        .unwrap_err();
    assert_eq!(err, Error::ProtoMismatch);
    assert_eq!(card.active_protocol(), Protocol::RAW);
}

#[test]
fn failed_disconnect_returns_the_card_for_a_retry() {
    let ctx = Context::establish(Scope::User, 0, 1).unwrap();
    let card = ctx
        .connect(b"Reader A", ShareMode::Shared, Protocols::from_bits(PROTOCOL_T0), 0, 42, 1)
        .unwrap();
    let (card, err) = card.disconnect(Disposition::EjectCard, 0x8010_000E).unwrap_err();
    assert_eq!(err, Error::CantDispose);
    assert_eq!(card.handle(), 42);
    assert!(card.disconnect(Disposition::ResetCard, 0).is_ok());
}

#[test]
fn transaction_owns_the_card_until_it_ends() {
    // Begin a transaction on a connected card, perform two attribute
    // operations through it, and end it leaving the card; only then can
    // a second transaction begin.
    let ctx = Context::establish(Scope::User, 0, 1).unwrap();
    let card = ctx
        .connect(b"Reader A", ShareMode::Shared, Protocols::from_bits(PROTOCOL_T1), 0, 42, 2)
        .unwrap();
    let tx = card.transaction(0).unwrap();
    let buffer = [7u8; 4];
    let data = tx.get_attribute(Attribute::VendorIfdVersion, &buffer, 0, 4).unwrap();
    assert_eq!(data, &[7u8; 4][..]);
    assert!(tx.set_attribute(Attribute::CurrentIfsd, &[0x20], 0).is_ok());
    // While `tx` owns the card no second transaction can be made: the
    // card value itself has moved into `tx` and comes back only here.
    let card = tx.end(Disposition::LeaveCard, 0).unwrap();
    let tx2 = card.transaction(0).unwrap();
    assert!(tx2.end(Disposition::LeaveCard, 0).is_ok());
}

#[test]
fn failed_transaction_begin_returns_the_card() {
    let ctx = Context::establish(Scope::User, 0, 1).unwrap();
    let card = ctx
        .connect(b"Reader A", ShareMode::Shared, Protocols::from_bits(PROTOCOL_T0), 0, 42, 1)
        .unwrap();
    let (card, err) = card.transaction(0x8010_000B).unwrap_err();
    assert_eq!(err, Error::SharingViolation);
    assert_eq!(card.handle(), 42);
    assert!(card.transaction(0).is_ok());
}

#[test]
fn failed_transaction_end_returns_the_transaction_for_a_retry() {
    let ctx = Context::establish(Scope::User, 0, 1).unwrap();
    let card = ctx
        .connect(b"Reader A", ShareMode::Shared, Protocols::from_bits(PROTOCOL_T0), 0, 42, 1)
        .unwrap();
    let tx = card.transaction(0).unwrap();
    let (tx, err) = tx.end(Disposition::UnpowerCard, 0x8010_0016).unwrap_err();
    assert_eq!(err, Error::NotTransacted);
    let card = tx.end(Disposition::LeaveCard, 0).unwrap();
    assert_eq!(card.handle(), 42);
}

#[test]
fn transaction_forwards_card_operations() {
    let ctx = Context::establish(Scope::User, 0, 1).unwrap();
    let card = ctx
        .connect(b"Reader A", ShareMode::Shared, Protocols::from_bits(PROTOCOL_T1), 0, 42, 2)
        .unwrap();
    let mut tx = card.transaction(0).unwrap();
    assert_eq!(tx.active_protocol(), Protocol::T1);
    let (status, protocol) = tx.status(0, STATUS_PRESENT, 2).unwrap();
    assert_eq!(status.bits(), STATUS_PRESENT);
    assert_eq!(protocol, Protocol::T1);
    let send = [0x00u8, 0xB0, 0x00, 0x00];
    let receive = [0x61u8, 0x10];
    assert_eq!(tx.transmit(&send, &receive, 0, 2).unwrap(), &[0x61u8, 0x10][..]);
    tx.reconnect(
        ShareMode::Shared,
        Protocols::from_bits(PROTOCOL_T0),
        Disposition::LeaveCard,
        0,
        1,
    )
    .unwrap();
    assert_eq!(tx.active_protocol(), Protocol::T0);
    assert!(tx.end(Disposition::LeaveCard, 0).is_ok());
}
