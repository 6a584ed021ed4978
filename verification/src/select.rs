//! Selector resolution: mapping the 1-based ordinal a human supplies to a
//! record in the most recently fetched list. The list is fetched fresh for
//! every command and never cached, so an ordinal is meaningful only for the
//! single invocation it was typed for.

use vstd::prelude::*;
use vstd::string::StringExecFns;

use crate::method::AccessMethodRecord;
use crate::text::{spec_dec, u64_to_dec};

verus! {

/// Why a selector failed to resolve.
#[derive(Clone, Copy, PartialEq, Eq, Structural, Debug)]
pub enum SelectError {
    /// The ordinal was 0; ordinals start at 1.
    ZeroIndex,
    /// The ordinal (carried here) exceeds the length of the list.
    OutOfRange(usize),
}

impl SelectError {
    /// The operator-facing report: the ordinal that failed to resolve,
    /// in the wording the command layer prints.
    pub fn message(&self) -> (r: String)
        ensures
            *self is ZeroIndex ==> r@ == "Access method 0 does not exist"@,
            *self matches SelectError::OutOfRange(n) ==> r@ == "Access method "@ + spec_dec(
                n as int,
            ) + " does not exist"@,
    {
        match self {
            SelectError::ZeroIndex => String::from_str("Access method 0 does not exist"),
            SelectError::OutOfRange(n) => {
                let mut s = String::from_str("Access method ");
                let num = u64_to_dec(*n as u64);
                s.append(num.as_str());
                s.append(" does not exist");
                proof {
                    assert(s@ =~= "Access method "@ + spec_dec(*n as int) + " does not exist"@);
                }
                s
            },
        }
    }
}

/// A wrapper for the 1-based list position a user supplies to pick an
/// access method.
#[derive(Clone, Copy, PartialEq, Eq, Structural, Debug)]
pub struct SelectItem {
    /// Which access method to pick.
    pub index: usize,
}

impl SelectItem {
    /// Transform human-readable (1-based) index to 0-based indexing.
    pub fn as_array_index(&self) -> (r: Result<usize, SelectError>)
        ensures
            self.index == 0 ==> r == Err::<usize, _>(SelectError::ZeroIndex),
            self.index >= 1 ==> r == Ok::<_, SelectError>((self.index - 1) as usize),
    {
        if self.index == 0 {
            Err(SelectError::ZeroIndex)
        } else {
            Ok(self.index - 1)
        }
    }
}

/// Resolve a 1-based ordinal against the live list: ordinal `i` names the
/// record at position `i - 1`. Returns a copy of that record; its identity
/// is the part a caller may trust for a subsequent mutation, the rest is a
/// snapshot that may already be stale.
pub fn resolve(item: &SelectItem, list: &Vec<AccessMethodRecord>) -> (r: Result<
    AccessMethodRecord,
    SelectError,
>)
    ensures
        item.index == 0 ==> r == Err::<AccessMethodRecord, _>(SelectError::ZeroIndex),
        1 <= item.index <= list@.len() ==> r == Ok::<_, SelectError>(
            list@[item.index - 1],
        ),
        item.index > list@.len() ==> r == Err::<AccessMethodRecord, _>(
            SelectError::OutOfRange(item.index),
        ),
{
    match item.as_array_index() {
        Err(e) => Err(e),
        Ok(position) => {
            if position < list.len() {
                Ok(list[position].clone())
            } else {
                Err(SelectError::OutOfRange(item.index))
            }
        },
    }
}

} // verus!
