//! Reading the current transform out of a compositor's list of outputs.

use vstd::prelude::*;
use crate::error::QueryError;
use crate::text::str_eq;

verus! {

/// One output as the compositor reports it.
#[derive(Clone, Debug, PartialEq, Eq)]
pub struct SwayOutput {
    pub name: String,
    pub transform: String,
}

/// Whether `outputs[i]` is the first output named `display`.
pub open spec fn is_first_named(outputs: Seq<SwayOutput>, display: Seq<char>, i: int) -> bool {
    &&& 0 <= i < outputs.len()
    &&& outputs[i].name@ == display
    &&& forall|j: int| 0 <= j < i ==> (#[trigger] outputs[j]).name@ != display
}

/// Whether some output is named `display`.
pub open spec fn has_output(outputs: Seq<SwayOutput>, display: Seq<char>) -> bool {
    exists|i: int| 0 <= i < outputs.len() && (#[trigger] outputs[i]).name@ == display
}

/// The transform of the first output whose name is exactly `display`.
///
/// Fails with `NoSuchDisplay` if and only if no output has that name.
pub fn current_transform(outputs: &Vec<SwayOutput>, display: &str) -> (r: Result<
    String,
    QueryError,
>)
    ensures
        r is Ok <==> has_output(outputs@, display@),
        match r {
            Ok(transform) => exists|i: int|
                is_first_named(outputs@, display@, i) && transform@ == (
                #[trigger] outputs@[i]).transform@,
            Err(e) => e == QueryError::NoSuchDisplay,
        },
{
    let mut i: usize = 0;
    while i < outputs.len()
        invariant
            i <= outputs.len(),
            forall|j: int| 0 <= j < i ==> (#[trigger] outputs@[j]).name@ != display@,
        decreases outputs.len() - i,
    {
        if str_eq(outputs[i].name.as_str(), display) {
            assert(is_first_named(outputs@, display@, i as int));
            return Ok(outputs[i].transform.clone());
        }
        i += 1;
    }
    Err(QueryError::NoSuchDisplay)
}

} // verus!
