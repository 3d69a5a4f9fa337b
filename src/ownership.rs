use vstd::prelude::*;

verus! {

/// An operation on a resource that the caller does not own. It is answered
/// exactly as a missing resource is.
#[derive(Debug, PartialEq, Eq, Structural)]
pub enum OwnershipError {
    NotFound,
}

/// The resolved account may act on a resource with this owner.
pub fn authorize(resolved_id: i64, resource_owner_id: i64) -> (r: bool)
    ensures
        r == (resolved_id == resource_owner_id),
{
    resolved_id == resource_owner_id
}

/// Admits the operation when the resolved account owns the resource; rejects
/// it as not found otherwise.
pub fn guard_owner(resolved_id: i64, resource_owner_id: i64) -> (r: Result<(), OwnershipError>)
    ensures
        r is Ok <==> resolved_id == resource_owner_id,
        r matches Err(e) ==> e == OwnershipError::NotFound,
{
    if authorize(resolved_id, resource_owner_id) {
        Ok(())
    } else {
        Err(OwnershipError::NotFound)
    }
}

} // verus!
