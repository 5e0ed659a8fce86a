use pcsc::Error;

#[test]
fn from_raw_maps_first_and_last_hard_failure_codes() {
    assert_eq!(Error::from_raw(0x8010_0001), Error::InternalError);
    assert_eq!(Error::from_raw(0x8010_0031), Error::ServerTooBusy);
}

#[test]
fn from_raw_maps_hard_failure_codes_inside_the_range() {
    assert_eq!(Error::from_raw(0x8010_0002), Error::Cancelled);
    assert_eq!(Error::from_raw(0x8010_0003), Error::InvalidHandle);
    assert_eq!(Error::from_raw(0x8010_0008), Error::InsufficientBuffer);
    assert_eq!(Error::from_raw(0x8010_000A), Error::Timeout);
    assert_eq!(Error::from_raw(0x8010_000B), Error::SharingViolation);
    assert_eq!(Error::from_raw(0x8010_000C), Error::NoSmartcard);
    assert_eq!(Error::from_raw(0x8010_0014), Error::UnknownError);
    assert_eq!(Error::from_raw(0x8010_002E), Error::NoReadersAvailable);
}

#[test]
fn from_raw_maps_first_and_last_warning_codes() {
    assert_eq!(Error::from_raw(0x8010_0065), Error::UnsupportedCard);
    assert_eq!(Error::from_raw(0x8010_0072), Error::CacheItemTooBig);
}

#[test]
fn from_raw_maps_warning_codes_inside_the_range() {
    assert_eq!(Error::from_raw(0x8010_0066), Error::UnresponsiveCard);
    assert_eq!(Error::from_raw(0x8010_0068), Error::ResetCard);
    assert_eq!(Error::from_raw(0x8010_0069), Error::RemovedCard);
    assert_eq!(Error::from_raw(0x8010_006E), Error::CancelledByUser);
}

#[test]
fn every_code_in_both_ranges_maps_to_a_distinct_named_kind() {
    let mut seen: Vec<Error> = Vec::new();
    let hard = 0x8010_0001..=0x8010_0031;
    let warning = 0x8010_0065..=0x8010_0072;
    for code in hard.chain(warning) {
        let kind = Error::from_raw(code);
        // Inside the ranges only the real unknown-error code maps to the
        // catch-all kind; every code gets a kind of its own.
        if code != 0x8010_0014 {
            assert_ne!(kind, Error::UnknownError, "gap at {:#x}", code);
        }
        assert!(!seen.contains(&kind), "codes collide at {:#x}", code);
        seen.push(kind);
    }
    assert_eq!(seen.len(), 49 + 14);
}

#[test]
fn from_raw_coerces_codes_outside_both_ranges_to_the_catch_all() {
    assert_eq!(Error::from_raw(0), Error::UnknownError);
    assert_eq!(Error::from_raw(1), Error::UnknownError);
    assert_eq!(Error::from_raw(-1), Error::UnknownError);
    assert_eq!(Error::from_raw(0x8010_0000), Error::UnknownError);
    assert_eq!(Error::from_raw(0x8010_0032), Error::UnknownError);
    assert_eq!(Error::from_raw(0x8010_0064), Error::UnknownError);
    assert_eq!(Error::from_raw(0x8010_0073), Error::UnknownError);
    assert_eq!(Error::from_raw(i64::MAX), Error::UnknownError);
    assert_eq!(Error::from_raw(i64::MIN), Error::UnknownError);
}
