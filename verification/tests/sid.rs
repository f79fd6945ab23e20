use exa_fields::sid::{
    decode_utf16_lossy, resolve_account, Error, FillOutcome, NamedSecurityInfo, ProbeOutcome,
};

fn utf16(s: &str) -> Vec<u16> {
    s.encode_utf16().collect()
}

fn good_probe(name_count: u32, domain_count: u32) -> ProbeOutcome {
    ProbeOutcome { succeeded: false, name_count, domain_count }
}

fn good_fill(name: &str, domain: &str) -> FillOutcome {
    FillOutcome {
        succeeded: true,
        last_error: 0,
        name_units: utf16(name),
        domain_units: utf16(domain),
    }
}

fn failed_fill(last_error: u32) -> FillOutcome {
    FillOutcome { succeeded: false, last_error, name_units: vec![], domain_units: vec![] }
}

#[test]
fn probe_with_zero_count_fails_with_not_found() {
    let mut releases: Vec<u64> = vec![];
    let info = NamedSecurityInfo::from_acquisition(1, 2, 3, &mut releases).unwrap();
    // The fills would succeed, but a zero probed count must stop the
    // resolution before any fill is consulted.
    let probes = vec![good_probe(0, 5), good_probe(0, 5)];
    let fills = vec![good_fill("User", "DOM"), good_fill("User", "DOM")];
    let r = info.lookup_account_sid(&probes, &fills);
    assert_eq!(r.unwrap_err(), Error::NotFound);

    let probes = vec![good_probe(5, 0), good_probe(5, 0)];
    let fills = vec![good_fill("User", "DOM"), good_fill("User", "DOM")];
    let r = info.lookup_account_sid(&probes, &fills);
    assert_eq!(r.unwrap_err(), Error::NotFound);
}

#[test]
fn probe_success_with_null_buffers_is_distrusted() {
    let mut releases: Vec<u64> = vec![];
    let info = NamedSecurityInfo::from_acquisition(1, 2, 3, &mut releases).unwrap();
    let probes = vec![
        ProbeOutcome { succeeded: true, name_count: 4, domain_count: 3 },
        ProbeOutcome { succeeded: true, name_count: 4, domain_count: 3 },
    ];
    let fills = vec![good_fill("User", "DOM"), good_fill("User", "DOM")];
    let r = info.lookup_account_sid(&probes, &fills);
    assert_eq!(r.unwrap_err(), Error::InvalidInput(0));
}

#[test]
fn successful_fill_decodes_exactly_the_probed_counts() {
    let mut releases: Vec<u64> = vec![];
    let info = NamedSecurityInfo::from_acquisition(1, 2, 3, &mut releases).unwrap();
    let probes = vec![good_probe(4, 3), good_probe(4, 3)];
    let fills = vec![good_fill("User", "DOM"), failed_fill(0)];
    let account = info.lookup_account_sid(&probes, &fills).unwrap();
    assert_eq!(account.name, "User");
    assert_eq!(account.domain, "DOM");
    assert_eq!(account.name.encode_utf16().count(), 4);
    assert_eq!(account.domain.encode_utf16().count(), 3);
}

#[test]
fn fill_failure_surfaces_the_last_error_code() {
    let mut releases: Vec<u64> = vec![];
    let info = NamedSecurityInfo::from_acquisition(1, 2, 3, &mut releases).unwrap();
    let probes = vec![good_probe(4, 3), good_probe(4, 3)];
    let fills = vec![failed_fill(5), good_fill("User", "DOM")];
    let r = info.lookup_account_sid(&probes, &fills);
    assert_eq!(r.unwrap_err(), Error::InvalidInput(5));
}

#[test]
fn insufficient_buffer_earns_one_retry() {
    let mut releases: Vec<u64> = vec![];
    let info = NamedSecurityInfo::from_acquisition(1, 2, 3, &mut releases).unwrap();
    let probes = vec![good_probe(4, 3), good_probe(9, 3)];
    let fills = vec![failed_fill(122), good_fill("LongerOne", "DOM")];
    let account = info.lookup_account_sid(&probes, &fills).unwrap();
    assert_eq!(account.name, "LongerOne");
    assert_eq!(account.domain, "DOM");
}

#[test]
fn second_insufficient_buffer_gives_up() {
    let mut releases: Vec<u64> = vec![];
    let info = NamedSecurityInfo::from_acquisition(1, 2, 3, &mut releases).unwrap();
    let probes = vec![good_probe(4, 3), good_probe(4, 3)];
    let fills = vec![failed_fill(122), failed_fill(122)];
    let r = info.lookup_account_sid(&probes, &fills);
    assert_eq!(r.unwrap_err(), Error::InvalidInput(122));
}

#[test]
fn decoding_is_lossy_for_unpaired_surrogates() {
    let units = vec![0xD800, 0x41];
    assert_eq!(decode_utf16_lossy(&units), "\u{FFFD}A");

    let lone_low = vec![0x42, 0xDC00];
    assert_eq!(decode_utf16_lossy(&lone_low), "B\u{FFFD}");
}

#[test]
fn decoding_combines_surrogate_pairs() {
    let units = vec![0xD83D, 0xDE00];
    let s = decode_utf16_lossy(&units);
    assert_eq!(s, "\u{1F600}");
    assert_eq!(s.chars().count(), 1);
    assert_eq!(s.encode_utf16().count(), 2);
}

#[test]
fn decoding_consumes_every_unit_once() {
    let units = vec![0x48, 0xD800, 0xD83D, 0xDE00, 0x69];
    let s = decode_utf16_lossy(&units);
    assert_eq!(s, "H\u{FFFD}\u{1F600}i");
    assert_eq!(s.encode_utf16().count(), units.len());
}

#[test]
fn decoding_empty_units_yields_empty_text() {
    let units: Vec<u16> = vec![];
    assert_eq!(decode_utf16_lossy(&units), "");
}

#[test]
fn resolution_releases_the_descriptor_once_on_success() {
    let mut releases: Vec<u64> = vec![];
    let probes = vec![good_probe(4, 3), good_probe(4, 3)];
    let fills = vec![good_fill("User", "DOM"), failed_fill(0)];
    let r = resolve_account(11, 22, 33, &probes, &fills, &mut releases);
    assert!(r.is_ok());
    assert_eq!(releases, vec![33]);
}

#[test]
fn resolution_releases_the_descriptor_once_on_lookup_failure() {
    let mut releases: Vec<u64> = vec![];
    let probes = vec![good_probe(0, 0), good_probe(0, 0)];
    let fills = vec![failed_fill(0), failed_fill(0)];
    let r = resolve_account(11, 22, 33, &probes, &fills, &mut releases);
    assert_eq!(r.unwrap_err(), Error::NotFound);
    assert_eq!(releases, vec![33]);
}

#[test]
fn partial_acquisition_still_releases_the_descriptor() {
    // The subsystem allocated a descriptor but the owner SID is null:
    // the acquisition fails, and the allocation is still handed back.
    let mut releases: Vec<u64> = vec![];
    let probes = vec![good_probe(4, 3), good_probe(4, 3)];
    let fills = vec![good_fill("User", "DOM"), failed_fill(0)];
    let r = resolve_account(0, 22, 33, &probes, &fills, &mut releases);
    assert_eq!(r.unwrap_err(), Error::NotFound);
    assert_eq!(releases, vec![33]);

    let mut releases: Vec<u64> = vec![];
    let r = resolve_account(11, 0, 44, &probes, &fills, &mut releases);
    assert_eq!(r.unwrap_err(), Error::NotFound);
    assert_eq!(releases, vec![44]);
}

#[test]
fn null_descriptor_is_permission_denied_and_nothing_is_released() {
    let mut releases: Vec<u64> = vec![];
    let probes = vec![good_probe(4, 3), good_probe(4, 3)];
    let fills = vec![good_fill("User", "DOM"), failed_fill(0)];
    let r = resolve_account(11, 22, 0, &probes, &fills, &mut releases);
    assert_eq!(r.unwrap_err(), Error::PermissionDenied);
    assert!(releases.is_empty());
}

#[test]
fn acquisition_validates_in_owner_group_descriptor_order() {
    let mut releases: Vec<u64> = vec![];
    // Owner and descriptor both null: the owner check answers first.
    let r = NamedSecurityInfo::from_acquisition(0, 1, 0, &mut releases);
    assert_eq!(r.map(|_| ()).unwrap_err(), Error::NotFound);
    assert!(releases.is_empty());
}

#[test]
fn sid_accessors_read_back_the_acquired_handles() {
    let mut releases: Vec<u64> = vec![];
    let info = NamedSecurityInfo::from_acquisition(7, 8, 9, &mut releases).unwrap();
    assert_eq!(info.owner_sid(), 7);
    assert_eq!(info.group_sid(), 8);
    assert!(releases.is_empty());
}
