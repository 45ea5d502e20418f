use vstd::prelude::*;

use crate::errors::ErrorCode;

verus! {

/// Pairwise distinctness of the identities in an owner list.
pub open spec fn unique_owners(s: Seq<u64>) -> bool {
    forall|i: int, j: int| 0 <= i < j < s.len() ==> s[i] != s[j]
}

/// Checks that the given owner list holds no duplicate identity.
pub fn assert_unique_owners(owners: &Vec<u64>) -> (r: Result<(), ErrorCode>)
    ensures
        r is Ok <==> unique_owners(owners@),
        r is Err ==> r == Err::<(), ErrorCode>(ErrorCode::UniqueOwners),
{
    let n = owners.len();
    let mut i: usize = 0;
    while i < n
        invariant
            n == owners@.len(),
            i <= n,
            forall|p: int, q: int| 0 <= p < q < n && p < i ==> owners@[p] != owners@[q],
        decreases n - i,
    {
        let mut j: usize = i + 1;
        while j < n
            invariant
                n == owners@.len(),
                i < n,
                i + 1 <= j <= n,
                forall|p: int, q: int| 0 <= p < q < n && p < i ==> owners@[p] != owners@[q],
                forall|q: int| i < q < j ==> owners@[i as int] != owners@[q],
            decreases n - j,
        {
            if owners[i] == owners[j] {
                return Err(ErrorCode::UniqueOwners);
            }
            j = j + 1;
        }
        i = i + 1;
    }
    Ok(())
}

} // verus!
