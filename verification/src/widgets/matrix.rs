use vstd::prelude::*;
use vstd::string::*;
use crate::border::{Border, flag_value};
use crate::ctext::{CStringArray, CText, all_fit, any_nul, c_text, is_first_nul_error, is_first_out_of_range, is_nul_error_for, is_one_based_ints, nul_free, one_based_ints, one_based_strings, texts_bytes};
use crate::error::{Error, checked_c_int, fits};

verus! {

/// The native arguments of a new matrix, converted for CDK.
#[derive(Debug)]
pub struct MatrixParams {
    pub xpos: i32,
    pub ypos: i32,
    pub view_rows: i32,
    pub view_cols: i32,
    pub actual_rows: i32,
    pub actual_cols: i32,
    pub title: CText,
    pub row_titles: CStringArray,
    pub col_titles: CStringArray,
    pub col_widths: Vec<i32>,
    pub boxed: i32,
    pub shadow: i32,
}

/// Whether every argument of a new matrix converts for CDK.
pub open spec fn matrix_args_ok(
    xpos: u32,
    ypos: u32,
    view_rows: u32,
    view_cols: u32,
    title: &str,
    row_titles: Seq<&str>,
    col_titles: Seq<&str>,
    col_widths: Seq<u32>,
) -> bool {
    &&& col_titles.len() == col_widths.len()
    &&& fits(xpos as u64)
    &&& fits(ypos as u64)
    &&& fits(view_rows as u64)
    &&& fits(view_cols as u64)
    &&& fits(row_titles.len() as u64)
    &&& fits(col_titles.len() as u64)
    &&& nul_free(title)
    &&& !any_nul(row_titles)
    &&& !any_nul(col_titles)
    &&& all_fit(col_widths)
}

/// Whether `e` is the error of the first argument of a new matrix that does not convert.
pub open spec fn matrix_args_error(
    xpos: u32,
    ypos: u32,
    view_rows: u32,
    view_cols: u32,
    title: &str,
    row_titles: Seq<&str>,
    col_titles: Seq<&str>,
    col_widths: Seq<u32>,
    e: Error,
) -> bool {
    if col_titles.len() != col_widths.len() {
        e == Error::LengthMismatch("matrix column widths", col_titles.len() as usize, col_widths.len() as usize)
    } else if !fits(xpos as u64) {
        e == Error::ValueOutOfRange("x position", xpos as u64)
    } else if !fits(ypos as u64) {
        e == Error::ValueOutOfRange("y position", ypos as u64)
    } else if !fits(view_rows as u64) {
        e == Error::ValueOutOfRange("view rows", view_rows as u64)
    } else if !fits(view_cols as u64) {
        e == Error::ValueOutOfRange("view columns", view_cols as u64)
    } else if !fits(row_titles.len() as u64) {
        e == Error::ValueOutOfRange("row count", row_titles.len() as u64)
    } else if !fits(col_titles.len() as u64) {
        e == Error::ValueOutOfRange("column count", col_titles.len() as u64)
    } else if !nul_free(title) {
        is_nul_error_for(e, title.spec_bytes())
    } else if any_nul(row_titles) {
        is_first_nul_error(e, row_titles)
    } else if any_nul(col_titles) {
        is_first_nul_error(e, col_titles)
    } else if !all_fit(col_widths) {
        is_first_out_of_range(e, col_widths, "column width")
    } else {
        false
    }
}

impl MatrixParams {
    /// Converts the arguments of Matrix::new, in the order the binding checks them.
    pub fn new(
        xpos: u32,
        ypos: u32,
        view_rows: u32,
        view_cols: u32,
        title: &str,
        row_titles: &[&str],
        col_titles: &[&str],
        col_widths: &[u32],
        border: Border,
    ) -> (r: Result<MatrixParams, Error>)
        ensures
            r is Ok <==> matrix_args_ok(xpos, ypos, view_rows, view_cols, title, row_titles@, col_titles@, col_widths@),
            r matches Err(e) ==> matrix_args_error(xpos, ypos, view_rows, view_cols, title, row_titles@, col_titles@, col_widths@, e),
            r matches Ok(p) ==> {
                &&& p.xpos == xpos
                &&& p.ypos == ypos
                &&& p.view_rows == view_rows
                &&& p.view_cols == view_cols
                &&& p.actual_rows == row_titles.len()
                &&& p.actual_cols == col_titles.len()
                &&& p.title@ == title.spec_bytes()
                &&& p.row_titles@ == seq![Seq::<u8>::empty()] + texts_bytes(row_titles@)
                &&& p.col_titles@ == seq![Seq::<u8>::empty()] + texts_bytes(col_titles@)
                &&& is_one_based_ints(p.col_widths@, col_widths@)
                &&& p.boxed == flag_value(border.boxed)
                &&& p.shadow == flag_value(border.shadow)
            },
            ({
                &&& col_titles@.len() == col_widths@.len()
                &&& fits(xpos as u64)
                &&& fits(ypos as u64)
                &&& fits(view_rows as u64)
                &&& fits(view_cols as u64)
                &&& fits(row_titles@.len() as u64)
                &&& fits(col_titles@.len() as u64)
                &&& nul_free(title)
                &&& !any_nul(row_titles@)
                &&& !any_nul(col_titles@)
                &&& all_fit(col_widths@)
            }) <==> r is Ok,
    {
        if col_titles.len() != col_widths.len() {
            return Err(Error::LengthMismatch("matrix column widths", col_titles.len(), col_widths.len()));
        }
        let xpos = checked_c_int(xpos as u64, "x position")?;
        let ypos = checked_c_int(ypos as u64, "y position")?;
        let view_rows = checked_c_int(view_rows as u64, "view rows")?;
        let view_cols = checked_c_int(view_cols as u64, "view columns")?;
        let actual_rows = checked_c_int(row_titles.len() as u64, "row count")?;
        let actual_cols = checked_c_int(col_titles.len() as u64, "column count")?;
        let title_text = c_text(title)?;
        let row_titles = one_based_strings(row_titles)?;
        let col_titles = one_based_strings(col_titles)?;
        let col_widths = one_based_ints(col_widths, "column width")?;
        let boxed = border.boxed_flag();
        let shadow = border.shadow_flag();
        Ok(MatrixParams { xpos, ypos, view_rows, view_cols, actual_rows, actual_cols, title: title_text, row_titles, col_titles, col_widths, boxed, shadow })
    }
}

} // verus!
