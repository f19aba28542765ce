use win_token::information::rebase_native_groups;
use win_token::information::Groups;
use win_token::information::LinkedToken;
use win_token::information::TokenElevation;
use win_token::information::TokenInformation;
use win_token::interpret_probe;
use win_token::finish_query;
use win_token::policy::is_member;
use win_token::security::sid_raw_len;
use win_token::security::GroupSidAttributes;
use win_token::security::IdentifierAuthority;
use win_token::security::SecurityIdentifier;
use win_token::security::WellKnownSid;
use win_token::AccessToken;
use win_token::OsError;
use win_token::ProbeStep;
use win_token::TokenAccessLevel;

#[test]
fn it_works() {
    assert_eq!(2 + 2, 4);
}

#[test]
fn composite_presets_are_unions() {
    assert_eq!(TokenAccessLevel::read().bits(), 0x20000 | 0x0008);
    assert_eq!(TokenAccessLevel::write().bits(), 0x20000 | 0x0020 | 0x0040 | 0x0080);
    assert_eq!(
        TokenAccessLevel::all_access().bits(),
        0xF0000 | 0x0001 | 0x0002 | 0x0004 | 0x0008 | 0x0010 | 0x0020 | 0x0040 | 0x0080 | 0x0100
    );
    assert!(TokenAccessLevel::write().contains(TokenAccessLevel::adjust_privileges()));
    assert!(TokenAccessLevel::write().contains(TokenAccessLevel::adjust_groups()));
    assert!(TokenAccessLevel::write().contains(TokenAccessLevel::adjust_default()));
    assert!(!TokenAccessLevel::write().contains(TokenAccessLevel::query()));
    assert!(TokenAccessLevel::read().contains(TokenAccessLevel::query()));
    assert_eq!(GroupSidAttributes::valid_attributes().bits(), 0xE000007F);
    assert_eq!(TokenAccessLevel::maximum_allowed().bits(), 0x2000000);
}

#[test]
fn bitset_operations() {
    let a = TokenAccessLevel::from_bits(0b1100);
    let b = TokenAccessLevel::from_bits(0b1010);
    assert_eq!(a.union(b).bits(), 0b1110);
    assert_eq!(a.intersection(b).bits(), 0b1000);
    let m = GroupSidAttributes::mandatory().union(GroupSidAttributes::enabled());
    assert_eq!(m.bits(), 0b101);
    assert!(m.contains(GroupSidAttributes::enabled()));
    assert!(!m.contains(GroupSidAttributes::owner()));
    assert_eq!(TokenAccessLevel::assign_primary().bits(), 0x0001);
    assert_eq!(TokenAccessLevel::duplicate().bits(), 0x0002);
    assert_eq!(TokenAccessLevel::impersonate().bits(), 0x0004);
    assert_eq!(TokenAccessLevel::query().bits(), 0x0008);
    assert_eq!(TokenAccessLevel::query_source().bits(), 0x0010);
    assert_eq!(TokenAccessLevel::adjust_privileges().bits(), 0x0020);
    assert_eq!(TokenAccessLevel::adjust_groups().bits(), 0x0040);
    assert_eq!(TokenAccessLevel::adjust_default().bits(), 0x0080);
    assert_eq!(TokenAccessLevel::adjust_session_id().bits(), 0x0100);
}

fn admins_sid() -> SecurityIdentifier {
    SecurityIdentifier::new(1, IdentifierAuthority::new([0, 0, 0, 0, 0, 5]), vec![32, 544])
}

fn users_sid() -> SecurityIdentifier {
    SecurityIdentifier::new(1, IdentifierAuthority::new([0, 0, 0, 0, 0, 5]), vec![32, 545])
}

const ADMINS_BLOB: [u8; 16] = [1, 2, 0, 0, 0, 0, 0, 5, 32, 0, 0, 0, 0x20, 0x02, 0, 0];
const USERS_BLOB: [u8; 16] = [1, 2, 0, 0, 0, 0, 0, 5, 32, 0, 0, 0, 0x21, 0x02, 0, 0];

#[test]
fn decode_sid_blob() {
    let decoded = SecurityIdentifier::from_raw(&ADMINS_BLOB).unwrap();
    assert_eq!(decoded.revision(), 1);
    assert_eq!(decoded.sub_authorities().len(), 2);
    assert_eq!(decoded.sub_authorities()[0], 32);
    assert_eq!(decoded.sub_authorities()[1], 544);
    assert_eq!(decoded.identifier_authority().byte_at(5), 5);
    assert!(decoded == admins_sid());
}

#[test]
fn decode_reads_exactly_announced_bytes() {
    let mut padded = ADMINS_BLOB.to_vec();
    padded.extend_from_slice(&[0xAB, 0xCD, 0xEF, 0x01, 0x23]);
    let from_exact = SecurityIdentifier::from_raw(&ADMINS_BLOB).unwrap();
    let from_padded = SecurityIdentifier::from_raw(&padded).unwrap();
    assert!(from_exact == from_padded);
}

#[test]
fn decode_sid_rejects_malformed_blobs() {
    assert!(SecurityIdentifier::from_raw(&[1u8]).is_none());
    // Announced sub-authority count exceeds the OS maximum.
    let mut oversized = vec![1u8, 16, 0, 0, 0, 0, 0, 5];
    oversized.extend_from_slice(&[0u8; 64]);
    assert!(SecurityIdentifier::from_raw(&oversized).is_none());
    // Announced extent does not fit in the buffer.
    let truncated = [1u8, 2, 0, 0, 0, 0, 0, 5, 32, 0, 0, 0];
    assert!(SecurityIdentifier::from_raw(&truncated).is_none());
}

#[test]
fn sid_announced_extent() {
    assert_eq!(sid_raw_len(&ADMINS_BLOB), Some(16));
    let mut padded = ADMINS_BLOB.to_vec();
    padded.extend_from_slice(&[9, 9, 9]);
    assert_eq!(sid_raw_len(&padded), Some(16));
    assert_eq!(sid_raw_len(&[1u8, 2, 0]), None);
    assert_eq!(sid_raw_len(&[1u8, 16, 0, 0, 0, 0, 0, 5]), None);
}

#[test]
fn attribute_constructors_are_single_bits() {
    assert_eq!(GroupSidAttributes::mandatory().bits(), 0x1);
    assert_eq!(GroupSidAttributes::enabled_by_default().bits(), 0x2);
    assert_eq!(GroupSidAttributes::enabled().bits(), 0x4);
    assert_eq!(GroupSidAttributes::owner().bits(), 0x8);
    assert_eq!(GroupSidAttributes::use_for_deny_only().bits(), 0x10);
    assert_eq!(GroupSidAttributes::integrity().bits(), 0x20);
    assert_eq!(GroupSidAttributes::integrity_enabled().bits(), 0x40);
    assert_eq!(GroupSidAttributes::logon_id().bits(), 0xC0000000);
    assert_eq!(GroupSidAttributes::resource().bits(), 0x20000000);
    assert_eq!(GroupSidAttributes::from_bits(7).bits(), 7);
}

#[test]
fn sid_equality_is_structural_across_paths() {
    let decoded = SecurityIdentifier::from_raw(&ADMINS_BLOB).unwrap();
    let constructed = admins_sid();
    assert!(decoded == constructed);
    assert!(!(decoded == users_sid()));
}

#[test]
fn sid_round_trips_through_its_raw_form() {
    let world = SecurityIdentifier::new(1, IdentifierAuthority::new([0, 0, 0, 0, 0, 1]), vec![0]);
    let raw = world.to_raw();
    assert_eq!(raw.len(), 12);
    let back = SecurityIdentifier::from_raw(&raw).unwrap();
    assert!(back == world);

    let admins = admins_sid();
    let raw = admins.to_raw();
    assert_eq!(raw, ADMINS_BLOB.to_vec());
    let back = SecurityIdentifier::from_raw(&raw).unwrap();
    assert!(back == admins);
}

#[test]
fn well_known_selectors() {
    assert_eq!(WellKnownSid::WinNullSid.selector(), 0);
    assert_eq!(WellKnownSid::WinWorldSid.selector(), 1);
    assert_eq!(WellKnownSid::WinBuiltinAdministratorsSid.selector(), 26);
    assert_eq!(WellKnownSid::WinBuiltinUsersSid.selector(), 27);
    assert_eq!(WellKnownSid::WinCapabilityRemovableStorageSid.selector(), 94);
}

#[test]
fn probe_success_means_absent() {
    assert_eq!(interpret_probe(true, 0, 0), ProbeStep::Absent);
    assert_eq!(interpret_probe(true, 122, 64), ProbeStep::Absent);
}

#[test]
fn probe_size_signals_mean_retry() {
    assert_eq!(interpret_probe(false, 122, 64), ProbeStep::Fetch(64));
    assert_eq!(interpret_probe(false, 24, 16), ProbeStep::Fetch(16));
}

#[test]
fn probe_other_codes_are_errors() {
    assert_eq!(interpret_probe(false, 5, 99), ProbeStep::Abort(OsError { code: 5 }));
    assert_eq!(interpret_probe(false, 0, 0), ProbeStep::Abort(OsError { code: 0 }));
}

#[test]
fn finish_query_surfaces_fill_failure() {
    let r = finish_query::<TokenElevation>(false, 6, &[]);
    assert_eq!(r, Err(OsError { code: 6 }));
}

#[test]
fn finish_query_decodes_on_success() {
    let r = finish_query::<TokenElevation>(true, 0, &[3, 0, 0, 0]);
    assert_eq!(r, Ok(Some(TokenElevation::Limited)));
}

#[test]
fn elevation_discriminants_decode() {
    assert_eq!(TokenElevation::from_buf(&[1, 0, 0, 0]), Some(TokenElevation::Default));
    assert_eq!(TokenElevation::from_buf(&[2, 0, 0, 0]), Some(TokenElevation::Full));
    assert_eq!(TokenElevation::from_buf(&[3, 0, 0, 0]), Some(TokenElevation::Limited));
    assert_eq!(TokenElevation::from_buf(&[99, 0, 0, 0]), Some(TokenElevation::Unknown));
    assert_eq!(TokenElevation::from_buf(&[1, 2]), None);
    assert_eq!(TokenElevation::level(), 18);
}

#[test]
fn linked_token_null_handle_is_absent() {
    assert!(LinkedToken::from_buf(&[0; 8]).is_none());
    let token = LinkedToken::from_buf(&[42, 0, 0, 0, 0, 0, 0, 0]).unwrap();
    assert_eq!(token.raw_handle(), 42);
    assert!(LinkedToken::from_buf(&[42, 0, 0, 0]).is_none());
    assert_eq!(LinkedToken::level(), 19);
}

#[test]
fn token_handle_releases_once() {
    let token = AccessToken::from_raw_handle(42);
    assert_eq!(token.raw_handle(), 42);
    // `release` consumes the owner, so a second release of the same owner
    // cannot be written at all; the surrendered value is the handle.
    assert_eq!(token.release(), 42);
}

fn groups_buffer() -> Vec<u8> {
    // Two records: the administrators group with mandatory and enabled set,
    // the users group with mandatory alone. The identifier blobs follow the
    // record array; each record points at its blob by offset.
    let mut buf = vec![2u8, 0, 0, 0];
    // record 0: blob at 36, attributes mandatory | enabled = 5
    buf.extend_from_slice(&36u64.to_le_bytes());
    buf.extend_from_slice(&5u32.to_le_bytes());
    buf.extend_from_slice(&[0u8; 4]);
    // record 1: blob at 52, attributes mandatory = 1
    buf.extend_from_slice(&52u64.to_le_bytes());
    buf.extend_from_slice(&1u32.to_le_bytes());
    buf.extend_from_slice(&[0u8; 4]);
    buf.extend_from_slice(&ADMINS_BLOB);
    buf.extend_from_slice(&USERS_BLOB);
    buf
}

#[test]
fn groups_buffer_decodes_in_order() {
    let buf = groups_buffer();
    let groups = Groups::from_buf(&buf).unwrap();
    assert_eq!(groups.len(), 2);
    assert!(groups[0].0 == admins_sid());
    assert_eq!(groups[0].1.bits(), 5);
    assert!(groups[1].0 == users_sid());
    assert_eq!(groups[1].1.bits(), 1);
    assert_eq!(Groups::level(), 2);
}

#[test]
fn groups_buffer_rejects_bad_records() {
    // Count announces more records than the buffer holds.
    assert!(Groups::from_buf(&[9, 0, 0, 0]).is_none());
    // A record whose offset lies outside the buffer.
    let mut buf = vec![1u8, 0, 0, 0];
    buf.extend_from_slice(&500u64.to_le_bytes());
    buf.extend_from_slice(&1u32.to_le_bytes());
    buf.extend_from_slice(&[0u8; 4]);
    assert!(Groups::from_buf(&buf).is_none());
    // A record whose offset points at a malformed identifier.
    let mut buf = vec![1u8, 0, 0, 0];
    buf.extend_from_slice(&18u64.to_le_bytes());
    buf.extend_from_slice(&1u32.to_le_bytes());
    buf.extend_from_slice(&[0u8; 4]);
    assert!(Groups::from_buf(&buf).is_none());
}

fn native_groups_buffer() -> Vec<u8> {
    // The OS-native form: count word, four bytes of alignment padding,
    // then records whose identifier fields are machine addresses into the
    // same buffer. The two blobs sit at offsets 40 and 56.
    let mut buf = vec![0u8; 72];
    buf[0..4].copy_from_slice(&2u32.to_le_bytes());
    let base = buf.as_ptr() as u64;
    buf[8..16].copy_from_slice(&(base + 40).to_le_bytes());
    buf[16..20].copy_from_slice(&5u32.to_le_bytes());
    buf[24..32].copy_from_slice(&(base + 56).to_le_bytes());
    buf[32..36].copy_from_slice(&1u32.to_le_bytes());
    buf[40..56].copy_from_slice(&ADMINS_BLOB);
    buf[56..72].copy_from_slice(&USERS_BLOB);
    buf
}

#[test]
fn native_groups_buffer_rebases_and_decodes() {
    let buf = native_groups_buffer();
    let plain = rebase_native_groups(&buf, buf.as_ptr() as u64).unwrap();
    let groups = Groups::from_buf(&plain).unwrap();
    assert_eq!(groups.len(), 2);
    assert!(groups[0].0 == admins_sid());
    assert_eq!(groups[0].1.bits(), 5);
    assert!(groups[1].0 == users_sid());
    assert_eq!(groups[1].1.bits(), 1);
}

#[test]
fn native_groups_buffer_with_stray_pointer_is_rejected() {
    let mut buf = native_groups_buffer();
    let base = buf.as_ptr() as u64;
    // Point the first record far outside the buffer.
    buf[8..16].copy_from_slice(&(base + 4096).to_le_bytes());
    assert!(rebase_native_groups(&buf, base).is_none());
}

#[test]
fn membership_requires_sid_and_attributes() {
    let groups = vec![
        (admins_sid(), GroupSidAttributes::mandatory().union(GroupSidAttributes::enabled())),
        (users_sid(), GroupSidAttributes::mandatory()),
    ];
    assert!(is_member(&groups, &admins_sid(), GroupSidAttributes::enabled()));
    assert!(!is_member(&groups, &users_sid(), GroupSidAttributes::enabled()));
    assert!(is_member(&groups, &users_sid(), GroupSidAttributes::mandatory()));
    let absent = SecurityIdentifier::new(1, IdentifierAuthority::new([0, 0, 0, 0, 0, 1]), vec![0]);
    assert!(!is_member(&groups, &absent, GroupSidAttributes::mandatory()));
}

#[test]
fn membership_through_decoded_buffer() {
    let buf = groups_buffer();
    let groups = Groups::from_buf(&buf).unwrap();
    assert!(is_member(&groups, &admins_sid(), GroupSidAttributes::enabled()));
    assert!(!is_member(&groups, &users_sid(), GroupSidAttributes::enabled()));
}
