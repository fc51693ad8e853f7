//! Gathering the outcome of resolving each named path into a selection.
use vstd::prelude::*;
use crate::error::FerryError;
use crate::string_views;

verus! {

/// What resolving one path to its canonical form gave.
#[derive(Debug)]
pub enum Resolution {
    /// The path, made absolute, does not exist: it is skipped with a warning.
    Missing(String),
    /// The canonical path.
    Canonical(String),
    /// Canonicalization failed, with this message: the whole batch stops.
    Failed(String),
}

/// The canonical paths among the first `n` outcomes, in order.
pub open spec fn canonical_among(rs: Seq<Resolution>, n: nat) -> Seq<Seq<char>>
    decreases n,
{
    if n == 0 {
        Seq::empty()
    } else {
        let before = canonical_among(rs, (n - 1) as nat);
        match rs[n - 1] {
            Resolution::Canonical(p) => before.push(p@),
            _ => before,
        }
    }
}

/// The skipped paths among the first `n` outcomes, in order.
pub open spec fn missing_among(rs: Seq<Resolution>, n: nat) -> Seq<Seq<char>>
    decreases n,
{
    if n == 0 {
        Seq::empty()
    } else {
        let before = missing_among(rs, (n - 1) as nat);
        match rs[n - 1] {
            Resolution::Missing(p) => before.push(p@),
            _ => before,
        }
    }
}

pub open spec fn none_failed_among(rs: Seq<Resolution>, n: nat) -> bool {
    forall|i: int| 0 <= i < n ==> !(#[trigger] rs[i] is Failed)
}

/// The index of the first failure, where there is one.
pub open spec fn is_first_failure(rs: Seq<Resolution>, i: int) -> bool {
    0 <= i < rs.len() && rs[i] is Failed && none_failed_among(rs, i as nat)
}

/// The paths that resolved, and those that were skipped.
#[derive(Debug)]
pub struct Resolved {
    pub paths: Vec<String>,
    pub skipped: Vec<String>,
}

/// Gathers the outcomes of resolving each named path, in order: canonical
/// paths are kept, missing ones are reported as skipped, and the first
/// failure is the result.
pub fn validate_and_canonicalize_items(resolutions: &Vec<Resolution>) -> (r: Result<
    Resolved,
    FerryError,
>)
    ensures
        r is Ok <==> none_failed_among(resolutions@, resolutions@.len()),
        r matches Ok(res) ==> string_views(res.paths@) == canonical_among(
            resolutions@,
            resolutions@.len(),
        ) && string_views(res.skipped@) == missing_among(resolutions@, resolutions@.len()),
        r matches Err(e) ==> exists|i: int|
            is_first_failure(resolutions@, i) && e == (FerryError::Io {
                message: resolutions@[i]->Failed_0,
            }),
{
    let mut paths: Vec<String> = Vec::new();
    let mut skipped: Vec<String> = Vec::new();
    let mut i: usize = 0;
    while i < resolutions.len()
        invariant
            i <= resolutions.len(),
            none_failed_among(resolutions@, i as nat),
            string_views(paths@) == canonical_among(resolutions@, i as nat),
            string_views(skipped@) == missing_among(resolutions@, i as nat),
        decreases resolutions.len() - i,
    {
        match &resolutions[i] {
            Resolution::Missing(p) => {
                skipped.push(p.clone());
            },
            Resolution::Canonical(p) => {
                paths.push(p.clone());
            },
            Resolution::Failed(m) => {
                assert(is_first_failure(resolutions@, i as int));
                return Err(FerryError::Io { message: m.clone() });
            },
        }
        proof {
            assert(string_views(paths@) =~= canonical_among(resolutions@, (i + 1) as nat));
            assert(string_views(skipped@) =~= missing_among(resolutions@, (i + 1) as nat));
        }
        i += 1;
    }
    Ok(Resolved { paths, skipped })
}

} // verus!
