use pcsc::timeout_millis;
use pcsc::Context;
use pcsc::Error;
use pcsc::Scope;
use pcsc::INFINITE;

#[test]
fn establish_success_carries_the_reported_handle() {
    let ctx = Context::establish(Scope::User, 0, 7).unwrap();
    assert_eq!(ctx.handle(), 7);
}

#[test]
fn establish_failure_maps_the_reported_code() {
    let err = Context::establish(Scope::System, 0x8010_001D, 0).unwrap_err();
    assert_eq!(err, Error::NoService);
}

#[test]
fn failed_release_returns_the_context_for_a_retry() {
    let ctx = Context::establish(Scope::User, 0, 7).unwrap();
    let (ctx, err) = ctx.release(0x8010_0013).unwrap_err();
    assert_eq!(err, Error::CommError);
    assert_eq!(ctx.handle(), 7);
    // The returned context is still usable: the retry succeeds and
    // consumes it for good.
    assert!(ctx.release(0).is_ok());
}

#[test]
fn is_valid_probes_without_side_effects() {
    let ctx = Context::establish(Scope::Terminal, 0, 3).unwrap();
    assert!(ctx.is_valid(0).is_ok());
    assert_eq!(ctx.is_valid(0x8010_0003).unwrap_err(), Error::InvalidHandle);
    assert_eq!(ctx.handle(), 3);
}

#[test]
fn canceler_copies_the_handle_and_outlives_the_context() {
    let ctx = Context::establish(Scope::User, 0, 11).unwrap();
    let canceler = ctx.get_canceler();
    assert_eq!(canceler.handle(), 11);
    assert!(ctx.release(0).is_ok());
    // After the release the native service would report an invalid
    // handle; that is a defined, recoverable failure.
    assert_eq!(canceler.cancel(0x8010_0003).unwrap_err(), Error::InvalidHandle);
}

#[test]
fn cancel_success_is_ok() {
    let ctx = Context::establish(Scope::User, 0, 11).unwrap();
    assert!(ctx.get_canceler().cancel(0).is_ok());
}

#[test]
fn list_readers_yields_names_from_the_reported_prefix() {
    let ctx = Context::establish(Scope::User, 0, 1).unwrap();
    // The native call filled the first eleven bytes; the rest is junk
    // the decoder must never look at.
    let buffer: &[u8] = b"one\0two\0\0\0\0xyzw";
    let mut names = ctx.list_readers(buffer, 0, 9).unwrap();
    assert_eq!(names.next(), Some(&b"one"[..]));
    assert_eq!(names.next(), Some(&b"two"[..]));
    assert_eq!(names.next(), None);
}

#[test]
fn list_readers_too_small_a_buffer_reports_insufficient_buffer() {
    let ctx = Context::establish(Scope::User, 0, 1).unwrap();
    let buffer = [0u8; 4];
    let err = ctx.list_readers(&buffer, 0x8010_0008, 0).unwrap_err();
    assert_eq!(err, Error::InsufficientBuffer);
}

#[test]
fn list_readers_normalises_no_readers_to_an_empty_sequence() {
    let ctx = Context::establish(Scope::User, 0, 1).unwrap();
    let buffer = [0u8; 16];
    let mut names = ctx.list_readers(&buffer, 0x8010_002E, 0).unwrap();
    assert_eq!(names.next(), None);
}

#[test]
fn timeout_millis_converts_and_saturates() {
    assert_eq!(timeout_millis(0, 0), 0);
    assert_eq!(timeout_millis(0, 999_999), 0);
    assert_eq!(timeout_millis(0, 1_000_000), 1);
    assert_eq!(timeout_millis(1, 500_000_000), 1500);
    assert_eq!(timeout_millis(4_294_967, 294_000_000), 4_294_967_294);
    assert_eq!(timeout_millis(4_294_967, 295_000_000), INFINITE);
    assert_eq!(timeout_millis(5_000_000_000, 0), INFINITE);
    assert_eq!(timeout_millis(u64::MAX, 999_999_999), INFINITE);
}
