use vstd::prelude::*;
use vstd::string::*;
use crate::ctext::{CText, c_text, nul_free, is_nul_error_for};
use crate::error::{Error, checked_c_int, fits};

verus! {

/// Whether a zero-based cell has a one-based row and column that fit in C `int`s.
pub open spec fn matrix_cell_ok(row: u32, col: u32) -> bool {
    &&& fits((row + 1) as u64)
    &&& fits((col + 1) as u64)
}

/// Whether `e` is the error for the first coordinate of a zero-based cell that does not fit.
pub open spec fn matrix_cell_error(row: u32, col: u32, e: Error) -> bool {
    if !fits((row + 1) as u64) {
        e == Error::ValueOutOfRange("row", (row + 1) as u64)
    } else if !fits((col + 1) as u64) {
        e == Error::ValueOutOfRange("column", (col + 1) as u64)
    } else {
        false
    }
}

/// Converts a zero-based cell to the one-based row and column CDK's matrix uses.
pub fn matrix_cell_index(row: u32, col: u32) -> (r: Result<(i32, i32), Error>)
    ensures
        r is Ok <==> matrix_cell_ok(row, col),
        r matches Err(e) ==> matrix_cell_error(row, col, e),
        r matches Ok(rc) ==> rc.0 == row + 1 && rc.1 == col + 1,
        (row < i32::MAX && col < i32::MAX) <==> r is Ok,
{
    let native_row = checked_c_int(row as u64 + 1, "row")?;
    let native_col = checked_c_int(col as u64 + 1, "column")?;
    Ok((native_row, native_col))
}

/// The native arguments for writing one cell of a matrix, converted for CDK.
#[derive(Debug)]
pub struct MatrixCellParams {
    pub row: i32,
    pub col: i32,
    pub value: CText,
}

impl MatrixCellParams {
    /// Converts the arguments of Matrix::set_cell: the zero-based cell, then the value.
    pub fn new(row: u32, col: u32, value: &str) -> (r: Result<MatrixCellParams, Error>)
        ensures
            r is Ok <==> matrix_cell_ok(row, col) && nul_free(value),
            r matches Err(e) ==> if matrix_cell_ok(row, col) {
                is_nul_error_for(e, value.spec_bytes())
            } else {
                matrix_cell_error(row, col, e)
            },
            r matches Ok(p) ==> p.row == row + 1 && p.col == col + 1 && p.value@ == value.spec_bytes(),
            (row < i32::MAX && col < i32::MAX && nul_free(value)) <==> r is Ok,
    {
        let (native_row, native_col) = matrix_cell_index(row, col)?;
        let value = c_text(value)?;
        Ok(MatrixCellParams { row: native_row, col: native_col, value })
    }
}

/// The zero-based coordinate for one of CDK's one-based matrix coordinates;
/// a coordinate below 1 stands for the first row or column.
pub open spec fn zero_based(v: i32) -> u32 {
    if v >= 1 { (v - 1) as u32 } else { 0 }
}

/// The zero-based position of CDK's one-based current matrix cell.
pub fn matrix_position(row: i32, col: i32) -> (r: (u32, u32))
    ensures
        r.0 == zero_based(row),
        r.1 == zero_based(col),
{
    (zero_based_coordinate(row), zero_based_coordinate(col))
}

fn zero_based_coordinate(v: i32) -> (r: u32)
    ensures
        r == zero_based(v),
{
    if v >= 1 { (v - 1) as u32 } else { 0 }
}

/// A zero-based cell that converts to CDK's coordinates comes back unchanged:
/// the position reported for the native row and column is the cell itself.
pub proof fn lemma_matrix_cell_round_trip(row: u32, col: u32)
    requires
        matrix_cell_ok(row, col),
    ensures
        zero_based((row + 1) as i32) == row,
        zero_based((col + 1) as i32) == col,
{
}

} // verus!
