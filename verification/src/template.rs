//! Filling the text templates of the status-bar modules.

use crate::error::PbStatusError;
use std::collections::HashMap;
use vstd::prelude::*;

verus! {

/// The variables given by a list of name/value pairs; a later pair wins over
/// an earlier one with the same name.
pub open spec fn vars_map(pairs: Seq<(String, String)>) -> Map<Seq<char>, Seq<char>>
    decreases pairs.len(),
{
    if pairs.len() == 0 {
        Map::empty()
    } else {
        vars_map(pairs.drop_last()).insert(pairs.last().0@, pairs.last().1@)
    }
}

/// The text that `strfmt::strfmt` makes of a template and string variables,
/// or `None` where it returns an error.
pub uninterp spec fn strfmt_text(template: Seq<char>, vars: Map<Seq<char>, Seq<char>>) -> Option<
    Seq<char>,
>;

/// Calls `strfmt::strfmt(template, &vars)` with the pairs collected into a
/// `HashMap`. Trusted: the text it returns, or whether it fails, is named by
/// `strfmt_text` of the template and the variables; which `FmtError` it gives
/// when it fails is not stated.
#[verifier::external_body]
fn strfmt_call(template: &str, vars: Vec<(String, String)>) -> (r: std::result::Result<
    String,
    strfmt::FmtError,
>)
    ensures
        match r {
            Ok(text) => strfmt_text(template@, vars_map(vars@)) == Some(text@),
            Err(_) => strfmt_text(template@, vars_map(vars@)) is None,
        },
{
    let map: HashMap<String, String> = vars.into_iter().collect();
    strfmt::strfmt(template, &map)
}

/// Turns what `strfmt` returned into the library's result: the text, or the
/// formatting error wrapped as `PbStatusError::DynamicFormat`.
pub fn fill_result(r: std::result::Result<String, strfmt::FmtError>) -> (out:
    crate::error::Result<String>)
    ensures
        match r {
            Ok(text) => out matches Ok(t) && t == text,
            Err(e) => out matches Err(PbStatusError::DynamicFormat(f)) && f == e,
        },
{
    match r {
        Ok(text) => Ok(text),
        Err(e) => Err(PbStatusError::DynamicFormat(e)),
    }
}

/// Fills `template` with the named values in `vars`. A template that
/// `strfmt` refuses (a stray brace, an unknown name, a bad format
/// specification) gives `PbStatusError::DynamicFormat`.
pub fn fill(template: &str, vars: Vec<(String, String)>) -> (r: crate::error::Result<String>)
    ensures
        match r {
            Ok(text) => strfmt_text(template@, vars_map(vars@)) == Some(text@),
            Err(e) => strfmt_text(template@, vars_map(vars@)) is None && e is DynamicFormat,
        },
{
    fill_result(strfmt_call(template, vars))
}

} // verus!
