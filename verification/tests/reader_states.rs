use pcsc::Context;
use pcsc::ReaderState;
use pcsc::Scope;
use pcsc::State;
use pcsc::INFINITE;
use pcsc::STATE_CHANGED;
use pcsc::STATE_EMPTY;
use pcsc::STATE_PRESENT;
use pcsc::STATE_UNAWARE;

#[test]
fn new_record_owns_name_and_starts_unaware() {
    let name = b"Reader A".to_vec();
    let rs = ReaderState::new(&name, State::from_bits_truncate(STATE_EMPTY));
    drop(name);
    assert_eq!(rs.name(), &b"Reader A"[..]);
    assert_eq!(rs.event_state().bits(), STATE_UNAWARE);
    assert_eq!(rs.event_count(), 0);
}

#[test]
fn event_count_reads_the_high_half_of_the_event_word() {
    let ctx = Context::establish(Scope::User, 0, 1).unwrap();
    let mut readers = vec![ReaderState::new(b"R", State::from_bits_truncate(STATE_EMPTY))];
    let word = (0xABCD << 16) | STATE_PRESENT;
    ctx.get_status_change(INFINITE, &mut readers, 0, &vec![word]).unwrap();
    assert_eq!(readers[0].event_count(), 0xABCD);
    assert_eq!(readers[0].event_state().bits(), STATE_PRESENT);
}

#[test]
fn sync_then_no_change_report_leaves_record_alone() {
    let ctx = Context::establish(Scope::User, 0, 1).unwrap();
    let mut readers = vec![ReaderState::new(b"R", State::from_bits_truncate(STATE_UNAWARE))];

    // A first wait reports a present card, with three events seen so far.
    let word = (3 << 16) | STATE_CHANGED | STATE_PRESENT;
    ctx.get_status_change(INFINITE, &mut readers, 0, &vec![word]).unwrap();
    assert_eq!(readers[0].event_count(), 3);

    // Prime the record, then report the same word again: nothing moves.
    readers[0].sync_current_state();
    ctx.get_status_change(INFINITE, &mut readers, 0, &vec![word]).unwrap();
    assert_eq!(readers[0].event_state().bits(), STATE_CHANGED | STATE_PRESENT);
    assert_eq!(readers[0].event_count(), 3);
}

#[test]
fn single_insertion_increments_event_count_by_one() {
    let ctx = Context::establish(Scope::User, 0, 1).unwrap();
    let mut readers = vec![ReaderState::new(b"R", State::from_bits_truncate(STATE_EMPTY))];

    let word = (3 << 16) | STATE_EMPTY;
    ctx.get_status_change(INFINITE, &mut readers, 0, &vec![word]).unwrap();
    readers[0].sync_current_state();
    let before = readers[0].event_count();

    // One card insertion: the state flips to present and the embedded
    // counter goes up by exactly one.
    let word = (4 << 16) | STATE_CHANGED | STATE_PRESENT;
    ctx.get_status_change(INFINITE, &mut readers, 0, &vec![word]).unwrap();
    assert_eq!(readers[0].event_count(), before + 1);
    assert!(readers[0].event_state().contains(State::from_bits_truncate(STATE_PRESENT)));
}

#[test]
fn failed_wait_leaves_records_unchanged() {
    let ctx = Context::establish(Scope::User, 0, 1).unwrap();
    let mut readers = vec![ReaderState::new(b"R", State::from_bits_truncate(STATE_EMPTY))];
    let err = ctx
        .get_status_change(1000, &mut readers, 0x8010_000A, &vec![0xFFFF_FFFF])
        .unwrap_err();
    assert_eq!(err, pcsc::Error::Timeout);
    assert_eq!(readers[0].event_state().bits(), STATE_UNAWARE);
    assert_eq!(readers[0].event_count(), 0);
}
