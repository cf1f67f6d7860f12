//! Extraction of the pagination window from request query parameters.

use vstd::prelude::*;
use vstd::string::StringExecFns;
use crate::errors::Error;
use crate::parse::parse_u32;
use crate::parse::spec_parse_u32;

verus! {

/// The window a listing request asks for: how many rows at most, from
/// which row on.
#[derive(Debug, Clone, Copy, PartialEq, Eq)]
pub struct Pagination {
    pub limit: Option<u32>,
    pub offset: u32,
}

impl Default for Pagination {
    /// The window used when a request carries no parameters: everything,
    /// from the first row.
    fn default() -> (r: Pagination)
        ensures
            r.limit is None,
            r.offset == 0,
    {
        Pagination { limit: None, offset: 0 }
    }
}

/// The value of the first query parameter with this key, if any.
pub open spec fn spec_find_param(ps: Seq<(String, String)>, key: Seq<char>) -> Option<Seq<char>>
    decreases ps.len(),
{
    if ps.len() == 0 {
        None
    } else if ps.first().0@ == key {
        Some(ps.first().1@)
    } else {
        spec_find_param(ps.drop_first(), key)
    }
}

/// Looks up the first query parameter with this key.
pub fn find_param<'a>(params: &'a Vec<(String, String)>, key: &String) -> (r: Option<&'a String>)
    ensures
        match r {
            Some(v) => spec_find_param(params@, key@) == Some(v@),
            None => spec_find_param(params@, key@) is None,
        },
{
    let n: usize = params.len();
    let mut i: usize = 0;
    proof {
        assert(params@.skip(0) =~= params@);
    }
    while i < n
        invariant
            0 <= i <= n,
            n == params@.len(),
            spec_find_param(params@, key@) == spec_find_param(params@.skip(i as int), key@),
        decreases n - i,
    {
        proof {
            assert(params@.skip(i as int).first() == params@[i as int]);
            assert(params@.skip(i as int).drop_first() =~= params@.skip(i as int + 1));
        }
        let pair: &(String, String) = &params[i];
        if pair.0 == *key {
            return Some(&pair.1);
        }
        i = i + 1;
    }
    assert(params@.skip(n as int) =~= Seq::<(String, String)>::empty());
    None
}

/// What extraction yields: both `limit` and `offset` must be present,
/// else the missing-parameter failure, and both must parse as decimal
/// numbers, else the parse failure.
pub open spec fn spec_extract_pagination(ps: Seq<(String, String)>) -> Result<Pagination, Error> {
    match (spec_find_param(ps, "limit"@), spec_find_param(ps, "offset"@)) {
        (Some(l), Some(o)) => match (spec_parse_u32(l), spec_parse_u32(o)) {
            (Some(lv), Some(ov)) => Ok(Pagination { limit: Some(lv), offset: ov }),
            _ => Err(Error::ParseError),
        },
        _ => Err(Error::MissingParameters),
    }
}

/// Extracts the pagination window from the request's query parameters.
pub fn extract_pagination(params: &Vec<(String, String)>) -> (r: Result<Pagination, Error>)
    ensures
        r == spec_extract_pagination(params@),
{
    let limit_key: String = String::from_str("limit");
    let offset_key: String = String::from_str("offset");
    match (find_param(params, &limit_key), find_param(params, &offset_key)) {
        (Some(l), Some(o)) => match (parse_u32(l.as_str()), parse_u32(o.as_str())) {
            (Some(lv), Some(ov)) => Ok(Pagination { limit: Some(lv), offset: ov }),
            _ => Err(Error::ParseError),
        },
        _ => Err(Error::MissingParameters),
    }
}

} // verus!
