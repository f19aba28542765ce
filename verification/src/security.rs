//! Security identifiers and their binary layout.
//!
//! A raw identifier blob, as the OS lays it out, is self-describing: byte 0
//! is the revision, byte 1 the sub-authority count, bytes 2 through 7 the
//! identifier authority, and from byte 8 on the sub-authorities follow as
//! consecutive 32-bit little-endian integers. The decoder reads exactly
//! `8 + 4 * count` bytes, trusts only the count byte for the extent of the
//! read, and bounds the count by the OS-defined maximum.

use vstd::bytes::lemma_auto_spec_u32_to_from_le_bytes;
use vstd::bytes::spec_u32_from_le_bytes;
use vstd::bytes::spec_u32_to_le_bytes;
use vstd::bytes::u32_from_le_bytes;
use vstd::bytes::u32_to_le_bytes;
use vstd::prelude::*;
use vstd::slice::slice_index_get;
use vstd::std_specs::cmp::PartialEqSpec;
use vstd::slice::slice_subrange;

verus! {

/// The OS-defined maximum number of sub-authorities a security identifier
/// can carry.
pub const MAX_SUB_AUTHORITY_COUNT: u8 = 15;

/// The size in bytes of the largest possible security identifier blob: the
/// two leading bytes, the 6-byte authority, and the maximal sub-authority
/// array.
pub const MAX_SID_BYTES: usize = 2 + 6 + 4 * 15;

/// Group attribute: the group cannot be disabled.
pub const SE_GROUP_MANDATORY_BITS: u32 = 0x00000001;

/// Group attribute: the group is enabled by default.
pub const SE_GROUP_ENABLED_BY_DEFAULT_BITS: u32 = 0x00000002;

/// Group attribute: the group is enabled.
pub const SE_GROUP_ENABLED_BITS: u32 = 0x00000004;

/// Group attribute: the group may be assigned as the owner.
pub const SE_GROUP_OWNER_BITS: u32 = 0x00000008;

/// Group attribute: the group is used for deny checks only.
pub const SE_GROUP_USE_FOR_DENY_ONLY_BITS: u32 = 0x00000010;

/// Group attribute: the group is a mandatory-integrity level.
pub const SE_GROUP_INTEGRITY_BITS: u32 = 0x00000020;

/// Group attribute: the integrity level is enabled for access checks.
pub const SE_GROUP_INTEGRITY_ENABLED_BITS: u32 = 0x00000040;

/// Group attribute: the group is a logon identifier.
pub const SE_GROUP_LOGON_ID_BITS: u32 = 0xC0000000;

/// Group attribute: the group identifies a domain-local resource group.
pub const SE_GROUP_RESOURCE_BITS: u32 = 0x20000000;

/// Every attribute bit the OS may validly set, computed as the union of the
/// named attributes so it cannot drift from them.
pub const SE_GROUP_VALID_ATTRIBUTES_BITS: u32 = SE_GROUP_MANDATORY_BITS
    | SE_GROUP_ENABLED_BY_DEFAULT_BITS | SE_GROUP_ENABLED_BITS | SE_GROUP_OWNER_BITS
    | SE_GROUP_USE_FOR_DENY_ONLY_BITS | SE_GROUP_INTEGRITY_BITS | SE_GROUP_INTEGRITY_ENABLED_BITS
    | SE_GROUP_LOGON_ID_BITS | SE_GROUP_RESOURCE_BITS;

/// Attribute flags attached to one group membership of a token. The view of
/// a value is its raw 32-bit pattern.
#[derive(Clone, Copy, PartialEq, Eq, Structural, Debug)]
pub struct GroupSidAttributes {
    bits: u32,
}

impl View for GroupSidAttributes {
    type V = u32;

    closed spec fn view(&self) -> u32 {
        self.bits
    }
}

impl GroupSidAttributes {
    /// Builds an attribute set from the raw bit pattern the OS reported.
    pub fn from_bits(bits: u32) -> (r: Self)
        ensures
            r@ == bits,
    {
        GroupSidAttributes { bits }
    }

    /// The raw bit pattern of this attribute set.
    pub fn bits(&self) -> (r: u32)
        ensures
            r == self@,
    {
        self.bits
    }

    /// The attribute set holding the attributes of both operands.
    pub fn union(self, other: Self) -> (r: Self)
        ensures
            r@ == (self@ | other@),
    {
        GroupSidAttributes { bits: self.bits | other.bits }
    }

    /// The attribute set holding the attributes common to both operands.
    pub fn intersection(self, other: Self) -> (r: Self)
        ensures
            r@ == (self@ & other@),
    {
        GroupSidAttributes { bits: self.bits & other.bits }
    }

    /// Whether this set holds every attribute of `other`.
    pub fn contains(self, other: Self) -> (r: bool)
        ensures
            r == ((self@ & other@) == other@),
    {
        (self.bits & other.bits) == other.bits
    }

    /// The mandatory attribute alone.
    pub fn mandatory() -> (r: Self)
        ensures
            r@ == SE_GROUP_MANDATORY_BITS,
    {
        GroupSidAttributes { bits: SE_GROUP_MANDATORY_BITS }
    }

    /// The enabled-by-default attribute alone.
    pub fn enabled_by_default() -> (r: Self)
        ensures
            r@ == SE_GROUP_ENABLED_BY_DEFAULT_BITS,
    {
        GroupSidAttributes { bits: SE_GROUP_ENABLED_BY_DEFAULT_BITS }
    }

    /// The enabled attribute alone.
    pub fn enabled() -> (r: Self)
        ensures
            r@ == SE_GROUP_ENABLED_BITS,
    {
        GroupSidAttributes { bits: SE_GROUP_ENABLED_BITS }
    }

    /// The owner attribute alone.
    pub fn owner() -> (r: Self)
        ensures
            r@ == SE_GROUP_OWNER_BITS,
    {
        GroupSidAttributes { bits: SE_GROUP_OWNER_BITS }
    }

    /// The use-for-deny-only attribute alone.
    pub fn use_for_deny_only() -> (r: Self)
        ensures
            r@ == SE_GROUP_USE_FOR_DENY_ONLY_BITS,
    {
        GroupSidAttributes { bits: SE_GROUP_USE_FOR_DENY_ONLY_BITS }
    }

    /// The integrity attribute alone.
    pub fn integrity() -> (r: Self)
        ensures
            r@ == SE_GROUP_INTEGRITY_BITS,
    {
        GroupSidAttributes { bits: SE_GROUP_INTEGRITY_BITS }
    }

    /// The integrity-enabled attribute alone.
    pub fn integrity_enabled() -> (r: Self)
        ensures
            r@ == SE_GROUP_INTEGRITY_ENABLED_BITS,
    {
        GroupSidAttributes { bits: SE_GROUP_INTEGRITY_ENABLED_BITS }
    }

    /// The logon-identifier attribute alone.
    pub fn logon_id() -> (r: Self)
        ensures
            r@ == SE_GROUP_LOGON_ID_BITS,
    {
        GroupSidAttributes { bits: SE_GROUP_LOGON_ID_BITS }
    }

    /// The resource attribute alone.
    pub fn resource() -> (r: Self)
        ensures
            r@ == SE_GROUP_RESOURCE_BITS,
    {
        GroupSidAttributes { bits: SE_GROUP_RESOURCE_BITS }
    }

    /// The set of every attribute the OS may validly report.
    pub fn valid_attributes() -> (r: Self)
        ensures
            r@ == SE_GROUP_VALID_ATTRIBUTES_BITS,
    {
        GroupSidAttributes { bits: SE_GROUP_VALID_ATTRIBUTES_BITS }
    }
}

/// The valid-attributes mask is exactly the union of the nine named
/// attributes, and an attribute set lies within it exactly when it holds no
/// bit outside them.
pub proof fn lemma_valid_attributes_is_union()
    ensures
        SE_GROUP_VALID_ATTRIBUTES_BITS == SE_GROUP_MANDATORY_BITS | SE_GROUP_ENABLED_BY_DEFAULT_BITS
            | SE_GROUP_ENABLED_BITS | SE_GROUP_OWNER_BITS | SE_GROUP_USE_FOR_DENY_ONLY_BITS
            | SE_GROUP_INTEGRITY_BITS | SE_GROUP_INTEGRITY_ENABLED_BITS | SE_GROUP_LOGON_ID_BITS
            | SE_GROUP_RESOURCE_BITS,
        SE_GROUP_VALID_ATTRIBUTES_BITS == 0xE000007F,
        forall|a: u32|
            (#[trigger] (a & SE_GROUP_VALID_ATTRIBUTES_BITS)) == a <==> (a
                & !SE_GROUP_VALID_ATTRIBUTES_BITS) == 0,
{
    assert(SE_GROUP_VALID_ATTRIBUTES_BITS == 0xE000007F) by (bit_vector);
    assert(forall|a: u32|
        (#[trigger] (a & SE_GROUP_VALID_ATTRIBUTES_BITS)) == a <==> (a
            & !SE_GROUP_VALID_ATTRIBUTES_BITS) == 0) by (bit_vector);
}

/// The fixed 6-byte identifier authority of a security identifier. Its view
/// is the byte sequence.
#[derive(Clone, Copy, Debug)]
pub struct IdentifierAuthority {
    value: [u8; 6],
}

impl View for IdentifierAuthority {
    type V = Seq<u8>;

    closed spec fn view(&self) -> Seq<u8> {
        self.value@
    }
}

impl IdentifierAuthority {
    /// Builds an authority from its six bytes.
    pub fn new(value: [u8; 6]) -> (r: Self)
        ensures
            r@ == value@,
    {
        IdentifierAuthority { value }
    }

    /// The byte at the given position.
    pub fn byte_at(&self, i: usize) -> (b: u8)
        requires
            i < 6,
        ensures
            b == self@[i as int],
    {
        self.value[i]
    }
}

impl PartialEq for IdentifierAuthority {
    fn eq(&self, other: &Self) -> (r: bool) {
        let mut i: usize = 0;
        while i < 6
            invariant
                i <= 6,
                forall|j: int| 0 <= j < i ==> self@[j] == other@[j],
            decreases 6 - i,
        {
            if self.value[i] != other.value[i] {
                return false;
            }
            i = i + 1;
        }
        proof {
            assert(self@ =~= other@);
        }
        true
    }
}

impl Eq for IdentifierAuthority {

}

impl vstd::std_specs::cmp::PartialEqSpecImpl for IdentifierAuthority {
    open spec fn obeys_eq_spec() -> bool {
        true
    }

    open spec fn eq_spec(&self, other: &Self) -> bool {
        self@ == other@
    }
}

/// The mathematical shape of a security identifier: its revision byte, its
/// 6-byte authority, and its sub-authority sequence.
pub struct SidAbs {
    pub revision: u8,
    pub authority: Seq<u8>,
    pub sub_authorities: Seq<u32>,
}

/// A decoded security identifier. Its view is the structural `SidAbs`
/// value; two identifiers compare equal exactly when their views agree
/// field for field, whatever code path produced each of them.
#[derive(Debug)]
pub struct SecurityIdentifier {
    revision: u8,
    identifier: IdentifierAuthority,
    sub_authority: Vec<u32>,
}

impl View for SecurityIdentifier {
    type V = SidAbs;

    closed spec fn view(&self) -> SidAbs {
        SidAbs {
            revision: self.revision,
            authority: self.identifier@,
            sub_authorities: self.sub_authority@,
        }
    }
}

impl SecurityIdentifier {
    /// Builds an identifier directly from its structural fields.
    pub fn new(revision: u8, identifier: IdentifierAuthority, sub_authority: Vec<u32>) -> (r: Self)
        ensures
            r@.revision == revision,
            r@.authority == identifier@,
            r@.sub_authorities == sub_authority@,
    {
        SecurityIdentifier { revision, identifier, sub_authority }
    }

    /// The revision byte.
    pub fn revision(&self) -> (r: u8)
        ensures
            r == self@.revision,
    {
        self.revision
    }

    /// The identifier authority.
    pub fn identifier_authority(&self) -> (r: &IdentifierAuthority)
        ensures
            r@ == self@.authority,
    {
        &self.identifier
    }

    /// The sub-authorities in order.
    pub fn sub_authorities(&self) -> (r: &Vec<u32>)
        ensures
            r@ == self@.sub_authorities,
    {
        &self.sub_authority
    }
}

impl PartialEq for SecurityIdentifier {
    fn eq(&self, other: &Self) -> (r: bool) {
        if self.revision != other.revision {
            return false;
        }
        if !(self.identifier == other.identifier) {
            return false;
        }
        if self.sub_authority.len() != other.sub_authority.len() {
            return false;
        }
        let n = self.sub_authority.len();
        let mut i: usize = 0;
        while i < n
            invariant
                i <= n,
                n == self@.sub_authorities.len(),
                n == other@.sub_authorities.len(),
                forall|j: int| 0 <= j < i ==> self@.sub_authorities[j] == other@.sub_authorities[j],
            decreases n - i,
        {
            if self.sub_authority[i] != other.sub_authority[i] {
                return false;
            }
            i = i + 1;
        }
        proof {
            assert(self@.sub_authorities =~= other@.sub_authorities);
        }
        true
    }
}

impl Eq for SecurityIdentifier {

}

impl vstd::std_specs::cmp::PartialEqSpecImpl for SecurityIdentifier {
    open spec fn obeys_eq_spec() -> bool {
        true
    }

    open spec fn eq_spec(&self, other: &Self) -> bool {
        self@.revision == other@.revision && self@.authority == other@.authority
            && self@.sub_authorities == other@.sub_authorities
    }
}

/// Whether a raw blob carries a well-formed security identifier: it holds
/// the two leading bytes and the authority, its count byte does not exceed
/// the OS maximum, and the sub-authority array it announces lies within the
/// blob.
pub open spec fn spec_sid_well_formed(buf: Seq<u8>) -> bool {
    buf.len() >= 8 && buf[1] <= MAX_SUB_AUTHORITY_COUNT && buf.len() >= 8 + 4 * (buf[1] as int)
}

/// The structural value a well-formed blob encodes. Only the first
/// `8 + 4 * count` bytes take part.
pub open spec fn spec_decode_sid(buf: Seq<u8>) -> Option<SidAbs> {
    if spec_sid_well_formed(buf) {
        Some(
            SidAbs {
                revision: buf[0],
                authority: buf.subrange(2, 8),
                sub_authorities: Seq::new(
                    buf[1] as nat,
                    |i: int| spec_u32_from_le_bytes(buf.subrange(8 + 4 * i, 12 + 4 * i)),
                ),
            },
        )
    } else {
        None
    }
}

impl SecurityIdentifier {
    /// Decodes a raw security-identifier blob. The count byte of the blob
    /// itself bounds the read: exactly `8 + 4 * count` bytes are
    /// interpreted and anything beyond them is ignored. A blob whose count
    /// byte exceeds the OS maximum, or whose announced extent does not fit
    /// in the buffer, yields no value.
    pub fn from_raw(buf: &[u8]) -> (r: Option<SecurityIdentifier>)
        ensures
            match r {
                Some(s) => spec_decode_sid(buf@) == Some(s@),
                None => spec_decode_sid(buf@) is None,
            },
    {
        if buf.len() < 8 {
            return None;
        }
        let revision: u8 = *slice_index_get(buf, 0);
        let count: u8 = *slice_index_get(buf, 1);
        if count > MAX_SUB_AUTHORITY_COUNT {
            return None;
        }
        let needed: usize = 8 + 4 * (count as usize);
        if buf.len() < needed {
            return None;
        }
        let mut identifier: [u8; 6] = [0; 6];
        let mut i: usize = 0;
        while i < 6
            invariant
                i <= 6,
                buf@.len() >= 8,
                forall|j: int| 0 <= j < i ==> identifier@[j] == buf@[2 + j],
            decreases 6 - i,
        {
            identifier[i] = *slice_index_get(buf, 2 + i);
            i = i + 1;
        }
        let mut sub_authority: Vec<u32> = Vec::new();
        let mut k: usize = 0;
        while k < count as usize
            invariant
                k <= count as usize,
                buf@.len() >= 8 + 4 * (count as int),
                sub_authority@.len() == k,
                forall|j: int|
                    0 <= j < k ==> sub_authority@[j] == spec_u32_from_le_bytes(
                        buf@.subrange(8 + 4 * j, 12 + 4 * j),
                    ),
            decreases count as usize - k,
        {
            let word = u32_from_le_bytes(slice_subrange(buf, 8 + 4 * k, 12 + 4 * k));
            sub_authority.push(word);
            k = k + 1;
        }
        let result = SecurityIdentifier {
            revision,
            identifier: IdentifierAuthority { value: identifier },
            sub_authority,
        };
        proof {
            let abs = spec_decode_sid(buf@)->Some_0;
            assert(result@.authority =~= abs.authority);
            assert(result@.sub_authorities =~= abs.sub_authorities);
        }
        Some(result)
    }
}

impl SecurityIdentifier {
    /// Lays the identifier out in its raw binary form: revision byte, count
    /// byte, the 6-byte authority, then the sub-authorities as little-endian
    /// 32-bit words. Decoding the result yields this identifier back: the
    /// codec loses nothing.
    pub fn to_raw(&self) -> (r: Vec<u8>)
        requires
            self@.sub_authorities.len() <= MAX_SUB_AUTHORITY_COUNT,
        ensures
            r@.len() == 8 + 4 * self@.sub_authorities.len(),
            spec_decode_sid(r@) == Some(self@),
    {
        let n = self.sub_authority.len();
        let mut r: Vec<u8> = Vec::new();
        r.push(self.revision);
        r.push(n as u8);
        let mut i: usize = 0;
        while i < 6
            invariant
                i <= 6,
                n == self@.sub_authorities.len(),
                n <= MAX_SUB_AUTHORITY_COUNT,
                r@.len() == 2 + i,
                r@[0] == self@.revision,
                r@[1] == n as u8,
                forall|j: int| 0 <= j < i ==> r@[2 + j] == self@.authority[j],
            decreases 6 - i,
        {
            let b = self.identifier.byte_at(i);
            r.push(b);
            i = i + 1;
        }
        let mut k: usize = 0;
        while k < n
            invariant
                k <= n,
                n == self@.sub_authorities.len(),
                n <= MAX_SUB_AUTHORITY_COUNT,
                r@.len() == 8 + 4 * k,
                r@[0] == self@.revision,
                r@[1] == n as u8,
                forall|j: int| 0 <= j < 6 ==> r@[2 + j] == self@.authority[j],
                forall|j: int|
                    0 <= j < k ==> r@.subrange(8 + 4 * j, 12 + 4 * j) == spec_u32_to_le_bytes(
                        self@.sub_authorities[j],
                    ),
            decreases n - k,
        {
            let ghost r_old = r@;
            let mut bytes = u32_to_le_bytes(self.sub_authority[k]);
            r.append(&mut bytes);
            proof {
                lemma_auto_spec_u32_to_from_le_bytes();
                assert forall|j: int| 0 <= j < k implies r@.subrange(8 + 4 * j, 12 + 4 * j)
                    == spec_u32_to_le_bytes(self@.sub_authorities[j]) by {
                    assert(r@.subrange(8 + 4 * j, 12 + 4 * j) =~= r_old.subrange(
                        8 + 4 * j,
                        12 + 4 * j,
                    ));
                }
                assert(r@.subrange(8 + 4 * (k as int), 12 + 4 * (k as int)) =~= spec_u32_to_le_bytes(
                    self@.sub_authorities[k as int],
                ));
            }
            k = k + 1;
        }
        proof {
            lemma_auto_spec_u32_to_from_le_bytes();
            assert(r@[1] == n as u8 && n as u8 <= MAX_SUB_AUTHORITY_COUNT);
            assert(spec_sid_well_formed(r@));
            let abs = spec_decode_sid(r@)->Some_0;
            assert(abs.authority =~= self@.authority);
            assert forall|j: int| 0 <= j < n implies abs.sub_authorities[j]
                == self@.sub_authorities[j] by {
                assert(r@.subrange(8 + 4 * j, 12 + 4 * j) == spec_u32_to_le_bytes(
                    self@.sub_authorities[j],
                ));
            }
            assert(abs.sub_authorities =~= self@.sub_authorities);
        }
        r
    }
}

/// The extent a raw identifier blob announces for itself: `8 + 4 * count`
/// bytes. `None` exactly when no well-formed identifier starts at the head
/// of the buffer.
pub fn sid_raw_len(buf: &[u8]) -> (r: Option<usize>)
    ensures
        match r {
            Some(n) => spec_sid_well_formed(buf@) && n == 8 + 4 * (buf@[1] as int),
            None => !spec_sid_well_formed(buf@),
        },
{
    if buf.len() < 8 {
        return None;
    }
    let count: u8 = *slice_index_get(buf, 1);
    if count > MAX_SUB_AUTHORITY_COUNT {
        return None;
    }
    let needed: usize = 8 + 4 * (count as usize);
    if buf.len() < needed {
        return None;
    }
    Some(needed)
}

/// Decoding reads nothing past the extent the blob itself announces: two
/// blobs that agree on the first `8 + 4 * count` bytes decode to the same
/// identifier, whatever trailing bytes either of them carries.
pub proof fn lemma_decode_reads_prefix_only(b1: Seq<u8>, b2: Seq<u8>)
    requires
        spec_sid_well_formed(b1),
        b2.len() >= 8 + 4 * (b1[1] as int),
        b1.subrange(0, 8 + 4 * (b1[1] as int)) == b2.subrange(0, 8 + 4 * (b1[1] as int)),
    ensures
        spec_decode_sid(b2) == spec_decode_sid(b1),
{
    let n = 8 + 4 * (b1[1] as int);
    assert forall|i: int| 0 <= i < n implies b1[i] == b2[i] by {
        assert(b1.subrange(0, n)[i] == b1[i]);
        assert(b2.subrange(0, n)[i] == b2[i]);
    }
    assert(spec_sid_well_formed(b2));
    let a1 = spec_decode_sid(b1)->Some_0;
    let a2 = spec_decode_sid(b2)->Some_0;
    assert(a1.authority =~= a2.authority);
    assert forall|i: int| 0 <= i < b1[1] as int implies a1.sub_authorities[i]
        == a2.sub_authorities[i] by {
        assert(b1.subrange(8 + 4 * i, 12 + 4 * i) =~= b2.subrange(8 + 4 * i, 12 + 4 * i));
    }
    assert(a1.sub_authorities =~= a2.sub_authorities);
}

/// Two identifiers whose revision, authority, and sub-authority sequences
/// agree are equal under `==`, whatever code paths constructed them.
pub proof fn lemma_eq_is_structural(a: &SecurityIdentifier, b: &SecurityIdentifier)
    ensures
        a.eq_spec(b) <==> (a@.revision == b@.revision && a@.authority == b@.authority
            && a@.sub_authorities == b@.sub_authorities),
{
}


/// A selector for a security identifier the OS can synthesize on demand.
/// `selector` gives the numeric value the OS expects for each variant.
#[derive(Clone, Copy, PartialEq, Eq, Structural, Debug)]
pub enum WellKnownSid {
    WinNullSid,
    WinWorldSid,
    WinLocalSid,
    WinCreatorOwnerSid,
    WinCreatorGroupSid,
    WinCreatorOwnerServerSid,
    WinCreatorGroupServerSid,
    WinNtAuthoritySid,
    WinDialupSid,
    WinNetworkSid,
    WinBatchSid,
    WinInteractiveSid,
    WinServiceSid,
    WinAnonymousSid,
    WinProxySid,
    WinEnterpriseControllersSid,
    WinSelfSid,
    WinAuthenticatedUserSid,
    WinRestrictedCodeSid,
    WinTerminalServerSid,
    WinRemoteLogonIdSid,
    WinLogonIdsSid,
    WinLocalSystemSid,
    WinLocalServiceSid,
    WinNetworkServiceSid,
    WinBuiltinDomainSid,
    WinBuiltinAdministratorsSid,
    WinBuiltinUsersSid,
    WinBuiltinGuestsSid,
    WinBuiltinPowerUsersSid,
    WinBuiltinAccountOperatorsSid,
    WinBuiltinSystemOperatorsSid,
    WinBuiltinPrintOperatorsSid,
    WinBuiltinBackupOperatorsSid,
    WinBuiltinReplicatorSid,
    WinBuiltinPreWindows2000CompatibleAccessSid,
    WinBuiltinRemoteDesktopUsersSid,
    WinBuiltinNetworkConfigurationOperatorsSid,
    WinAccountAdministratorSid,
    WinAccountGuestSid,
    WinAccountKrbtgtSid,
    WinAccountDomainAdminsSid,
    WinAccountDomainUsersSid,
    WinAccountDomainGuestsSid,
    WinAccountComputersSid,
    WinAccountControllersSid,
    WinAccountCertAdminsSid,
    WinAccountSchemaAdminsSid,
    WinAccountEnterpriseAdminsSid,
    WinAccountPolicyAdminsSid,
    WinAccountRasAndIasServersSid,
    WinNTLMAuthenticationSid,
    WinDigestAuthenticationSid,
    WinSChannelAuthenticationSid,
    WinThisOrganizationSid,
    WinOtherOrganizationSid,
    WinBuiltinIncomingForestTrustBuildersSid,
    WinBuiltinPerfMonitoringUsersSid,
    WinBuiltinPerfLoggingUsersSid,
    WinBuiltinAuthorizationAccessSid,
    WinBuiltinTerminalServerLicenseServersSid,
    WinBuiltinDCOMUsersSid,
    WinBuiltinIUsersSid,
    WinIUserSid,
    WinBuiltinCryptoOperatorsSid,
    WinUntrustedLabelSid,
    WinLowLabelSid,
    WinMediumLabelSid,
    WinHighLabelSid,
    WinSystemLabelSid,
    WinWriteRestrictedCodeSid,
    WinCreatorOwnerRightsSid,
    WinCacheablePrincipalsGroupSid,
    WinNonCacheablePrincipalsGroupSid,
    WinEnterpriseReadonlyControllersSid,
    WinAccountReadonlyControllersSid,
    WinBuiltinEventLogReadersGroup,
    WinNewEnterpriseReadonlyControllersSid,
    WinBuiltinCertSvcDComAccessGroup,
    WinMediumPlusLabelSid,
    WinLocalLogonSid,
    WinConsoleLogonSid,
    WinThisOrganizationCertificateSid,
    WinApplicationPackageAuthoritySid,
    WinBuiltinAnyPackageSid,
    WinCapabilityInternetClientSid,
    WinCapabilityInternetClientServerSid,
    WinCapabilityPrivateNetworkClientServerSid,
    WinCapabilityPicturesLibrarySid,
    WinCapabilityVideosLibrarySid,
    WinCapabilityMusicLibrarySid,
    WinCapabilityDocumentsLibrarySid,
    WinCapabilitySharedUserCertificatesSid,
    WinCapabilityEnterpriseAuthenticationSid,
    WinCapabilityRemovableStorageSid,
}

/// The numeric selector value of each well-known identifier, as the OS
/// defines it.
pub open spec fn spec_selector(sid: WellKnownSid) -> u32 {
    match sid {
        WellKnownSid::WinNullSid => 0,
        WellKnownSid::WinWorldSid => 1,
        WellKnownSid::WinLocalSid => 2,
        WellKnownSid::WinCreatorOwnerSid => 3,
        WellKnownSid::WinCreatorGroupSid => 4,
        WellKnownSid::WinCreatorOwnerServerSid => 5,
        WellKnownSid::WinCreatorGroupServerSid => 6,
        WellKnownSid::WinNtAuthoritySid => 7,
        WellKnownSid::WinDialupSid => 8,
        WellKnownSid::WinNetworkSid => 9,
        WellKnownSid::WinBatchSid => 10,
        WellKnownSid::WinInteractiveSid => 11,
        WellKnownSid::WinServiceSid => 12,
        WellKnownSid::WinAnonymousSid => 13,
        WellKnownSid::WinProxySid => 14,
        WellKnownSid::WinEnterpriseControllersSid => 15,
        WellKnownSid::WinSelfSid => 16,
        WellKnownSid::WinAuthenticatedUserSid => 17,
        WellKnownSid::WinRestrictedCodeSid => 18,
        WellKnownSid::WinTerminalServerSid => 19,
        WellKnownSid::WinRemoteLogonIdSid => 20,
        WellKnownSid::WinLogonIdsSid => 21,
        WellKnownSid::WinLocalSystemSid => 22,
        WellKnownSid::WinLocalServiceSid => 23,
        WellKnownSid::WinNetworkServiceSid => 24,
        WellKnownSid::WinBuiltinDomainSid => 25,
        WellKnownSid::WinBuiltinAdministratorsSid => 26,
        WellKnownSid::WinBuiltinUsersSid => 27,
        WellKnownSid::WinBuiltinGuestsSid => 28,
        WellKnownSid::WinBuiltinPowerUsersSid => 29,
        WellKnownSid::WinBuiltinAccountOperatorsSid => 30,
        WellKnownSid::WinBuiltinSystemOperatorsSid => 31,
        WellKnownSid::WinBuiltinPrintOperatorsSid => 32,
        WellKnownSid::WinBuiltinBackupOperatorsSid => 33,
        WellKnownSid::WinBuiltinReplicatorSid => 34,
        WellKnownSid::WinBuiltinPreWindows2000CompatibleAccessSid => 35,
        WellKnownSid::WinBuiltinRemoteDesktopUsersSid => 36,
        WellKnownSid::WinBuiltinNetworkConfigurationOperatorsSid => 37,
        WellKnownSid::WinAccountAdministratorSid => 38,
        WellKnownSid::WinAccountGuestSid => 39,
        WellKnownSid::WinAccountKrbtgtSid => 40,
        WellKnownSid::WinAccountDomainAdminsSid => 41,
        WellKnownSid::WinAccountDomainUsersSid => 42,
        WellKnownSid::WinAccountDomainGuestsSid => 43,
        WellKnownSid::WinAccountComputersSid => 44,
        WellKnownSid::WinAccountControllersSid => 45,
        WellKnownSid::WinAccountCertAdminsSid => 46,
        WellKnownSid::WinAccountSchemaAdminsSid => 47,
        WellKnownSid::WinAccountEnterpriseAdminsSid => 48,
        WellKnownSid::WinAccountPolicyAdminsSid => 49,
        WellKnownSid::WinAccountRasAndIasServersSid => 50,
        WellKnownSid::WinNTLMAuthenticationSid => 51,
        WellKnownSid::WinDigestAuthenticationSid => 52,
        WellKnownSid::WinSChannelAuthenticationSid => 53,
        WellKnownSid::WinThisOrganizationSid => 54,
        WellKnownSid::WinOtherOrganizationSid => 55,
        WellKnownSid::WinBuiltinIncomingForestTrustBuildersSid => 56,
        WellKnownSid::WinBuiltinPerfMonitoringUsersSid => 57,
        WellKnownSid::WinBuiltinPerfLoggingUsersSid => 58,
        WellKnownSid::WinBuiltinAuthorizationAccessSid => 59,
        WellKnownSid::WinBuiltinTerminalServerLicenseServersSid => 60,
        WellKnownSid::WinBuiltinDCOMUsersSid => 61,
        WellKnownSid::WinBuiltinIUsersSid => 62,
        WellKnownSid::WinIUserSid => 63,
        WellKnownSid::WinBuiltinCryptoOperatorsSid => 64,
        WellKnownSid::WinUntrustedLabelSid => 65,
        WellKnownSid::WinLowLabelSid => 66,
        WellKnownSid::WinMediumLabelSid => 67,
        WellKnownSid::WinHighLabelSid => 68,
        WellKnownSid::WinSystemLabelSid => 69,
        WellKnownSid::WinWriteRestrictedCodeSid => 70,
        WellKnownSid::WinCreatorOwnerRightsSid => 71,
        WellKnownSid::WinCacheablePrincipalsGroupSid => 72,
        WellKnownSid::WinNonCacheablePrincipalsGroupSid => 73,
        WellKnownSid::WinEnterpriseReadonlyControllersSid => 74,
        WellKnownSid::WinAccountReadonlyControllersSid => 75,
        WellKnownSid::WinBuiltinEventLogReadersGroup => 76,
        WellKnownSid::WinNewEnterpriseReadonlyControllersSid => 77,
        WellKnownSid::WinBuiltinCertSvcDComAccessGroup => 78,
        WellKnownSid::WinMediumPlusLabelSid => 79,
        WellKnownSid::WinLocalLogonSid => 80,
        WellKnownSid::WinConsoleLogonSid => 81,
        WellKnownSid::WinThisOrganizationCertificateSid => 82,
        WellKnownSid::WinApplicationPackageAuthoritySid => 83,
        WellKnownSid::WinBuiltinAnyPackageSid => 84,
        WellKnownSid::WinCapabilityInternetClientSid => 85,
        WellKnownSid::WinCapabilityInternetClientServerSid => 86,
        WellKnownSid::WinCapabilityPrivateNetworkClientServerSid => 87,
        WellKnownSid::WinCapabilityPicturesLibrarySid => 88,
        WellKnownSid::WinCapabilityVideosLibrarySid => 89,
        WellKnownSid::WinCapabilityMusicLibrarySid => 90,
        WellKnownSid::WinCapabilityDocumentsLibrarySid => 91,
        WellKnownSid::WinCapabilitySharedUserCertificatesSid => 92,
        WellKnownSid::WinCapabilityEnterpriseAuthenticationSid => 93,
        WellKnownSid::WinCapabilityRemovableStorageSid => 94,
    }
}

impl WellKnownSid {
    /// The numeric selector value the OS expects for this identifier.
    pub fn selector(self) -> (r: u32)
        ensures
            r == spec_selector(self),
    {
        match self {
            WellKnownSid::WinNullSid => 0,
            WellKnownSid::WinWorldSid => 1,
            WellKnownSid::WinLocalSid => 2,
            WellKnownSid::WinCreatorOwnerSid => 3,
            WellKnownSid::WinCreatorGroupSid => 4,
            WellKnownSid::WinCreatorOwnerServerSid => 5,
            WellKnownSid::WinCreatorGroupServerSid => 6,
            WellKnownSid::WinNtAuthoritySid => 7,
            WellKnownSid::WinDialupSid => 8,
            WellKnownSid::WinNetworkSid => 9,
            WellKnownSid::WinBatchSid => 10,
            WellKnownSid::WinInteractiveSid => 11,
            WellKnownSid::WinServiceSid => 12,
            WellKnownSid::WinAnonymousSid => 13,
            WellKnownSid::WinProxySid => 14,
            WellKnownSid::WinEnterpriseControllersSid => 15,
            WellKnownSid::WinSelfSid => 16,
            WellKnownSid::WinAuthenticatedUserSid => 17,
            WellKnownSid::WinRestrictedCodeSid => 18,
            WellKnownSid::WinTerminalServerSid => 19,
            WellKnownSid::WinRemoteLogonIdSid => 20,
            WellKnownSid::WinLogonIdsSid => 21,
            WellKnownSid::WinLocalSystemSid => 22,
            WellKnownSid::WinLocalServiceSid => 23,
            WellKnownSid::WinNetworkServiceSid => 24,
            WellKnownSid::WinBuiltinDomainSid => 25,
            WellKnownSid::WinBuiltinAdministratorsSid => 26,
            WellKnownSid::WinBuiltinUsersSid => 27,
            WellKnownSid::WinBuiltinGuestsSid => 28,
            WellKnownSid::WinBuiltinPowerUsersSid => 29,
            WellKnownSid::WinBuiltinAccountOperatorsSid => 30,
            WellKnownSid::WinBuiltinSystemOperatorsSid => 31,
            WellKnownSid::WinBuiltinPrintOperatorsSid => 32,
            WellKnownSid::WinBuiltinBackupOperatorsSid => 33,
            WellKnownSid::WinBuiltinReplicatorSid => 34,
            WellKnownSid::WinBuiltinPreWindows2000CompatibleAccessSid => 35,
            WellKnownSid::WinBuiltinRemoteDesktopUsersSid => 36,
            WellKnownSid::WinBuiltinNetworkConfigurationOperatorsSid => 37,
            WellKnownSid::WinAccountAdministratorSid => 38,
            WellKnownSid::WinAccountGuestSid => 39,
            WellKnownSid::WinAccountKrbtgtSid => 40,
            WellKnownSid::WinAccountDomainAdminsSid => 41,
            WellKnownSid::WinAccountDomainUsersSid => 42,
            WellKnownSid::WinAccountDomainGuestsSid => 43,
            WellKnownSid::WinAccountComputersSid => 44,
            WellKnownSid::WinAccountControllersSid => 45,
            WellKnownSid::WinAccountCertAdminsSid => 46,
            WellKnownSid::WinAccountSchemaAdminsSid => 47,
            WellKnownSid::WinAccountEnterpriseAdminsSid => 48,
            WellKnownSid::WinAccountPolicyAdminsSid => 49,
            WellKnownSid::WinAccountRasAndIasServersSid => 50,
            WellKnownSid::WinNTLMAuthenticationSid => 51,
            WellKnownSid::WinDigestAuthenticationSid => 52,
            WellKnownSid::WinSChannelAuthenticationSid => 53,
            WellKnownSid::WinThisOrganizationSid => 54,
            WellKnownSid::WinOtherOrganizationSid => 55,
            WellKnownSid::WinBuiltinIncomingForestTrustBuildersSid => 56,
            WellKnownSid::WinBuiltinPerfMonitoringUsersSid => 57,
            WellKnownSid::WinBuiltinPerfLoggingUsersSid => 58,
            WellKnownSid::WinBuiltinAuthorizationAccessSid => 59,
            WellKnownSid::WinBuiltinTerminalServerLicenseServersSid => 60,
            WellKnownSid::WinBuiltinDCOMUsersSid => 61,
            WellKnownSid::WinBuiltinIUsersSid => 62,
            WellKnownSid::WinIUserSid => 63,
            WellKnownSid::WinBuiltinCryptoOperatorsSid => 64,
            WellKnownSid::WinUntrustedLabelSid => 65,
            WellKnownSid::WinLowLabelSid => 66,
            WellKnownSid::WinMediumLabelSid => 67,
            WellKnownSid::WinHighLabelSid => 68,
            WellKnownSid::WinSystemLabelSid => 69,
            WellKnownSid::WinWriteRestrictedCodeSid => 70,
            WellKnownSid::WinCreatorOwnerRightsSid => 71,
            WellKnownSid::WinCacheablePrincipalsGroupSid => 72,
            WellKnownSid::WinNonCacheablePrincipalsGroupSid => 73,
            WellKnownSid::WinEnterpriseReadonlyControllersSid => 74,
            WellKnownSid::WinAccountReadonlyControllersSid => 75,
            WellKnownSid::WinBuiltinEventLogReadersGroup => 76,
            WellKnownSid::WinNewEnterpriseReadonlyControllersSid => 77,
            WellKnownSid::WinBuiltinCertSvcDComAccessGroup => 78,
            WellKnownSid::WinMediumPlusLabelSid => 79,
            WellKnownSid::WinLocalLogonSid => 80,
            WellKnownSid::WinConsoleLogonSid => 81,
            WellKnownSid::WinThisOrganizationCertificateSid => 82,
            WellKnownSid::WinApplicationPackageAuthoritySid => 83,
            WellKnownSid::WinBuiltinAnyPackageSid => 84,
            WellKnownSid::WinCapabilityInternetClientSid => 85,
            WellKnownSid::WinCapabilityInternetClientServerSid => 86,
            WellKnownSid::WinCapabilityPrivateNetworkClientServerSid => 87,
            WellKnownSid::WinCapabilityPicturesLibrarySid => 88,
            WellKnownSid::WinCapabilityVideosLibrarySid => 89,
            WellKnownSid::WinCapabilityMusicLibrarySid => 90,
            WellKnownSid::WinCapabilityDocumentsLibrarySid => 91,
            WellKnownSid::WinCapabilitySharedUserCertificatesSid => 92,
            WellKnownSid::WinCapabilityEnterpriseAuthenticationSid => 93,
            WellKnownSid::WinCapabilityRemovableStorageSid => 94,
        }
    }
}

} // verus!
