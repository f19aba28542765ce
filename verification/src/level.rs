//! Access-rights masks for opening a token.
//!
//! Each named right is one bit; the composite presets (`read`, `write`,
//! `all_access`) are defined as unions of their constituents, never as
//! separate literals, so they cannot drift from them.

use vstd::prelude::*;

verus! {

/// Right to attach the token as a primary token to a process.
pub const ASSIGN_PRIMARY_BITS: u32 = 0x0001;

/// Right to duplicate the token.
pub const DUPLICATE_BITS: u32 = 0x0002;

/// Right to use the token for impersonation.
pub const IMPERSONATE_BITS: u32 = 0x0004;

/// Right to query the token's contents.
pub const QUERY_BITS: u32 = 0x0008;

/// Right to query the token's source.
pub const QUERY_SOURCE_BITS: u32 = 0x0010;

/// Right to adjust the token's privileges.
pub const ADJUST_PRIVILEGES_BITS: u32 = 0x0020;

/// Right to adjust the token's group list.
pub const ADJUST_GROUPS_BITS: u32 = 0x0040;

/// Right to adjust the token's defaults.
pub const ADJUST_DEFAULT_BITS: u32 = 0x0080;

/// Right to adjust the token's session identifier.
pub const ADJUST_SESSION_ID_BITS: u32 = 0x0100;

/// The OS's standard-rights base of the read preset.
pub const STANDARD_RIGHTS_READ_BITS: u32 = 0x20000;

/// The OS's standard-rights base of the write preset.
pub const STANDARD_RIGHTS_WRITE_BITS: u32 = 0x20000;

/// The OS's standard-rights base of the all-access preset.
pub const STANDARD_RIGHTS_REQUIRED_BITS: u32 = 0xF0000;

/// Read preset: the standard read base together with query.
pub const READ_BITS: u32 = STANDARD_RIGHTS_READ_BITS | QUERY_BITS;

/// Write preset: the standard write base together with the three adjust
/// rights.
pub const WRITE_BITS: u32 = STANDARD_RIGHTS_WRITE_BITS | ADJUST_PRIVILEGES_BITS | ADJUST_GROUPS_BITS
    | ADJUST_DEFAULT_BITS;

/// All-access preset: the required standard base together with every named
/// token right.
pub const ALL_ACCESS_BITS: u32 = STANDARD_RIGHTS_REQUIRED_BITS | ASSIGN_PRIMARY_BITS
    | DUPLICATE_BITS | IMPERSONATE_BITS | QUERY_BITS | QUERY_SOURCE_BITS | ADJUST_PRIVILEGES_BITS
    | ADJUST_GROUPS_BITS | ADJUST_DEFAULT_BITS | ADJUST_SESSION_ID_BITS;

/// Request whatever access the OS will grant.
pub const MAXIMUM_ALLOWED_BITS: u32 = 0x2000000;

/// A mask of access rights requested when opening a token. The view of a
/// mask is its raw 32-bit value.
#[derive(Clone, Copy, PartialEq, Eq, Structural, Debug)]
pub struct TokenAccessLevel {
    bits: u32,
}

impl View for TokenAccessLevel {
    type V = u32;

    closed spec fn view(&self) -> u32 {
        self.bits
    }
}

impl TokenAccessLevel {
    /// Builds a mask from a raw bit pattern.
    pub fn from_bits(bits: u32) -> (r: Self)
        ensures
            r@ == bits,
    {
        TokenAccessLevel { bits }
    }

    /// The raw bit pattern of this mask.
    pub fn bits(&self) -> (r: u32)
        ensures
            r == self@,
    {
        self.bits
    }

    /// The mask holding the rights of both operands.
    pub fn union(self, other: Self) -> (r: Self)
        ensures
            r@ == (self@ | other@),
    {
        TokenAccessLevel { bits: self.bits | other.bits }
    }

    /// The mask holding the rights common to both operands.
    pub fn intersection(self, other: Self) -> (r: Self)
        ensures
            r@ == (self@ & other@),
    {
        TokenAccessLevel { bits: self.bits & other.bits }
    }

    /// Whether this mask holds every right of `other`.
    pub fn contains(self, other: Self) -> (r: bool)
        ensures
            r == ((self@ & other@) == other@),
    {
        (self.bits & other.bits) == other.bits
    }

    /// The assign-primary right alone.
    pub fn assign_primary() -> (r: Self)
        ensures
            r@ == ASSIGN_PRIMARY_BITS,
    {
        TokenAccessLevel { bits: ASSIGN_PRIMARY_BITS }
    }

    /// The duplicate right alone.
    pub fn duplicate() -> (r: Self)
        ensures
            r@ == DUPLICATE_BITS,
    {
        TokenAccessLevel { bits: DUPLICATE_BITS }
    }

    /// The impersonate right alone.
    pub fn impersonate() -> (r: Self)
        ensures
            r@ == IMPERSONATE_BITS,
    {
        TokenAccessLevel { bits: IMPERSONATE_BITS }
    }

    /// The query right alone.
    pub fn query() -> (r: Self)
        ensures
            r@ == QUERY_BITS,
    {
        TokenAccessLevel { bits: QUERY_BITS }
    }

    /// The query-source right alone.
    pub fn query_source() -> (r: Self)
        ensures
            r@ == QUERY_SOURCE_BITS,
    {
        TokenAccessLevel { bits: QUERY_SOURCE_BITS }
    }

    /// The adjust-privileges right alone.
    pub fn adjust_privileges() -> (r: Self)
        ensures
            r@ == ADJUST_PRIVILEGES_BITS,
    {
        TokenAccessLevel { bits: ADJUST_PRIVILEGES_BITS }
    }

    /// The adjust-groups right alone.
    pub fn adjust_groups() -> (r: Self)
        ensures
            r@ == ADJUST_GROUPS_BITS,
    {
        TokenAccessLevel { bits: ADJUST_GROUPS_BITS }
    }

    /// The adjust-default right alone.
    pub fn adjust_default() -> (r: Self)
        ensures
            r@ == ADJUST_DEFAULT_BITS,
    {
        TokenAccessLevel { bits: ADJUST_DEFAULT_BITS }
    }

    /// The adjust-session-id right alone.
    pub fn adjust_session_id() -> (r: Self)
        ensures
            r@ == ADJUST_SESSION_ID_BITS,
    {
        TokenAccessLevel { bits: ADJUST_SESSION_ID_BITS }
    }

    /// The read preset.
    pub fn read() -> (r: Self)
        ensures
            r@ == READ_BITS,
    {
        TokenAccessLevel { bits: READ_BITS }
    }

    /// The write preset.
    pub fn write() -> (r: Self)
        ensures
            r@ == WRITE_BITS,
    {
        TokenAccessLevel { bits: WRITE_BITS }
    }

    /// The all-access preset.
    pub fn all_access() -> (r: Self)
        ensures
            r@ == ALL_ACCESS_BITS,
    {
        TokenAccessLevel { bits: ALL_ACCESS_BITS }
    }

    /// The maximum-allowed request.
    pub fn maximum_allowed() -> (r: Self)
        ensures
            r@ == MAXIMUM_ALLOWED_BITS,
    {
        TokenAccessLevel { bits: MAXIMUM_ALLOWED_BITS }
    }
}

/// The composite presets are exactly the unions of their documented
/// constituents, and a mask contains a preset exactly when it contains each
/// constituent: no preset holds a bit outside its constituents.
pub proof fn lemma_presets_are_unions()
    ensures
        READ_BITS == STANDARD_RIGHTS_READ_BITS | QUERY_BITS,
        WRITE_BITS == STANDARD_RIGHTS_WRITE_BITS | ADJUST_PRIVILEGES_BITS | ADJUST_GROUPS_BITS
            | ADJUST_DEFAULT_BITS,
        ALL_ACCESS_BITS == STANDARD_RIGHTS_REQUIRED_BITS | ASSIGN_PRIMARY_BITS | DUPLICATE_BITS
            | IMPERSONATE_BITS | QUERY_BITS | QUERY_SOURCE_BITS | ADJUST_PRIVILEGES_BITS
            | ADJUST_GROUPS_BITS | ADJUST_DEFAULT_BITS | ADJUST_SESSION_ID_BITS,
        forall|m: u32|
            #[trigger] (m & WRITE_BITS) == WRITE_BITS <==> (m & STANDARD_RIGHTS_WRITE_BITS)
                == STANDARD_RIGHTS_WRITE_BITS && (m & ADJUST_PRIVILEGES_BITS)
                == ADJUST_PRIVILEGES_BITS && (m & ADJUST_GROUPS_BITS) == ADJUST_GROUPS_BITS && (m
                & ADJUST_DEFAULT_BITS) == ADJUST_DEFAULT_BITS,
        forall|m: u32|
            #[trigger] (m & READ_BITS) == READ_BITS <==> (m & STANDARD_RIGHTS_READ_BITS)
                == STANDARD_RIGHTS_READ_BITS && (m & QUERY_BITS) == QUERY_BITS,
{
    assert(forall|m: u32|
        #[trigger] (m & WRITE_BITS) == WRITE_BITS <==> (m & STANDARD_RIGHTS_WRITE_BITS)
            == STANDARD_RIGHTS_WRITE_BITS && (m & ADJUST_PRIVILEGES_BITS) == ADJUST_PRIVILEGES_BITS
            && (m & ADJUST_GROUPS_BITS) == ADJUST_GROUPS_BITS && (m & ADJUST_DEFAULT_BITS)
            == ADJUST_DEFAULT_BITS) by (bit_vector);
    assert(forall|m: u32|
        #[trigger] (m & READ_BITS) == READ_BITS <==> (m & STANDARD_RIGHTS_READ_BITS)
            == STANDARD_RIGHTS_READ_BITS && (m & QUERY_BITS) == QUERY_BITS) by (bit_vector);
}

} // verus!
