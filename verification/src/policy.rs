//! An authorization check built on the decoded group list: whether a token
//! is a member of a given group with given attributes set.

use vstd::prelude::*;

use crate::security::GroupSidAttributes;
use crate::security::SecurityIdentifier;
use crate::security::SidAbs;

verus! {

/// Whether two identifiers agree field for field: same revision, same
/// authority, same sub-authority sequence.
pub open spec fn spec_sid_eq(a: SidAbs, b: SidAbs) -> bool {
    a.revision == b.revision && a.authority == b.authority && a.sub_authorities
        == b.sub_authorities
}

/// Whether entry `i` of a group list names `sid` and carries every
/// attribute of `required`.
pub open spec fn spec_member_at(
    groups: Seq<(SecurityIdentifier, GroupSidAttributes)>,
    sid: SidAbs,
    required: u32,
    i: int,
) -> bool {
    spec_sid_eq(groups[i].0@, sid) && (groups[i].1@ & required) == required
}

/// Whether the group list holds an entry for `sid` whose attributes contain
/// every attribute of `required`. True exactly when such an entry exists.
pub fn is_member(
    groups: &Vec<(SecurityIdentifier, GroupSidAttributes)>,
    sid: &SecurityIdentifier,
    required: GroupSidAttributes,
) -> (r: bool)
    ensures
        r == exists|i: int|
            0 <= i < groups@.len() && #[trigger] spec_member_at(groups@, sid@, required@, i),
{
    let mut i: usize = 0;
    while i < groups.len()
        invariant
            i <= groups@.len(),
            forall|j: int| 0 <= j < i ==> !(#[trigger] spec_member_at(groups@, sid@, required@, j)),
        decreases groups@.len() - i,
    {
        let entry = &groups[i];
        if entry.0 == *sid && entry.1.contains(required) {
            proof {
                assert(spec_member_at(groups@, sid@, required@, i as int));
            }
            return true;
        }
        i = i + 1;
    }
    false
}

} // verus!
