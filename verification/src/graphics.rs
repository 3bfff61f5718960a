//! Transformation matrices for 2D drawing.
//!
//! A matrix has two rows of three entries. Its entries are of a scalar type
//! `T` that the library stores and hands back, and never computes with.

use vstd::prelude::*;

verus! {

/// Whether `rows` begins with two rows of three entries each.
pub open spec fn begins_with_2x3<T>(rows: Seq<Vec<T>>) -> bool {
    &&& rows.len() >= 2
    &&& rows[0].len() == 3
    &&& rows[1].len() == 3
}

/// The matrix whose two rows are the first two of `rows`.
pub open spec fn first_2x3<T>(rows: Seq<Vec<T>>) -> [[T; 3]; 2] {
    [[rows[0][0], rows[0][1], rows[0][2]], [rows[1][0], rows[1][1], rows[1][2]]]
}

/// The matrix made of the first two of `rows`, which must have three entries
/// each. Rows after the second are not looked at.
pub fn expand2x3<T: Copy>(rows: &Vec<Vec<T>>) -> (m: [[T; 3]; 2])
    requires
        begins_with_2x3(rows@),
    ensures
        m == first_2x3(rows@),
{
    [[rows[0][0], rows[0][1], rows[0][2]], [rows[1][0], rows[1][1], rows[1][2]]]
}

/// The transformation to draw with: the matrix made of the given rows, or,
/// where none are given, the matrix whose entries are all `zero`.
pub fn matrix2x3<T: Copy>(transform: Option<&Vec<Vec<T>>>, zero: T) -> (m: [[T; 3]; 2])
    requires
        transform matches Some(rows) ==> begins_with_2x3(rows@),
    ensures
        m == match transform {
            Some(rows) => first_2x3(rows@),
            None => [[zero, zero, zero], [zero, zero, zero]],
        },
{
    match transform {
        Some(rows) => expand2x3(rows),
        None => [[zero, zero, zero], [zero, zero, zero]],
    }
}

} // verus!
