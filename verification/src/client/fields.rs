//! Typed views of the JSON fields the converters read, with the defaults they
//! fall back on.
use vstd::prelude::*;

use crate::models::{opt_chars, Usage};

verus! {

/// The token counts of a response as they appear in the JSON (`None` where a
/// count is missing or not an unsigned integer).
#[derive(Clone, Copy, Debug)]
pub struct UsageJson {
    pub input_tokens: Option<u64>,
    pub output_tokens: Option<u64>,
}

pub open spec fn count_or_zero(o: Option<u64>) -> u32 {
    match o {
        Some(n) => n as u32,
        None => 0,
    }
}

/// The usage record read from a response: zero for what is missing, counts
/// truncated to 32 bits; all zero when there is no usage object at all.
pub open spec fn spec_usage(u: Option<UsageJson>) -> Usage {
    match u {
        Some(u) => Usage {
            input_tokens: count_or_zero(u.input_tokens),
            output_tokens: count_or_zero(u.output_tokens),
        },
        None => Usage { input_tokens: 0, output_tokens: 0 },
    }
}

/// The usage read from a response keeps each count in its place: the input
/// count as the input tokens and the output count as the output tokens (a
/// missing count read as zero), and a response without usage counts nothing.
pub proof fn law_usage_counts(u: UsageJson, i: u32, o: u32)
    ensures
        u.input_tokens == Some(i as u64) ==> spec_usage(Some(u)).input_tokens == i,
        u.output_tokens == Some(o as u64) ==> spec_usage(Some(u)).output_tokens == o,
        u.input_tokens is None ==> spec_usage(Some(u)).input_tokens == 0,
        u.output_tokens is None ==> spec_usage(Some(u)).output_tokens == 0,
        spec_usage(None) == (Usage { input_tokens: 0, output_tokens: 0 }),
{
}

pub fn usage_from_json(u: &Option<UsageJson>) -> (r: Usage)
    ensures
        r == spec_usage(*u),
{
    match u {
        Some(u) => Usage {
            input_tokens: match u.input_tokens {
                Some(n) => n as u32,
                None => 0,
            },
            output_tokens: match u.output_tokens {
                Some(n) => n as u32,
                None => 0,
            },
        },
        None => Usage::default(),
    }
}

/// The string, or a default where there is none.
pub open spec fn str_or(o: Option<String>, d: Seq<char>) -> Seq<char> {
    match o {
        Some(s) => s@,
        None => d,
    }
}

pub fn string_or(o: &Option<String>, d: &str) -> (r: String)
    ensures
        r@ == str_or(*o, d@),
{
    match o {
        Some(s) => s.clone(),
        None => d.to_owned(),
    }
}

pub fn clone_opt(o: &Option<String>) -> (r: Option<String>)
    ensures
        opt_chars(r) == opt_chars(*o),
{
    match o {
        Some(s) => Some(s.clone()),
        None => None,
    }
}

/// Whether an optional string is present and equal to `lit`.
pub open spec fn is_str(o: Option<String>, lit: Seq<char>) -> bool {
    o matches Some(s) && s@ == lit
}

pub fn opt_is(o: &Option<String>, lit: &str) -> (r: bool)
    ensures
        r == is_str(*o, lit@),
{
    match o {
        Some(s) => crate::text::str_eq(s.as_str(), lit),
        None => false,
    }
}

} // verus!
