//! Which profile and which region the session shows: the command line first,
//! then the environment, then a default.

use vstd::prelude::*;
use vstd::string::*;

use crate::text::opt_view;

verus! {

/// The first text that is there, or `default`.
pub open spec fn first_of(
    first: Option<Seq<char>>,
    second: Option<Seq<char>>,
    third: Option<Seq<char>>,
    default: Seq<char>,
) -> Seq<char> {
    match (first, second, third) {
        (Some(text), _, _) => text,
        (None, Some(text), _) => text,
        (None, None, Some(text)) => text,
        (None, None, None) => default,
    }
}

/// The profile to show: the one given on the command line, else the one of
/// the environment, else `default`.
pub fn resolve_profile(flag: Option<String>, env_profile: Option<String>) -> (out: String)
    ensures
        out@ == first_of(opt_view(flag), opt_view(env_profile), None, "default"@),
{
    match flag {
        Some(profile) => profile,
        None => match env_profile {
            Some(profile) => profile,
            None => String::from_str("default"),
        },
    }
}

/// The region to show: the one given on the command line, else the region of
/// the environment, else the default region of the environment, else
/// `us-east-1`.
pub fn resolve_region(
    flag: Option<String>,
    env_region: Option<String>,
    env_default_region: Option<String>,
) -> (out: String)
    ensures
        out@ == first_of(
            opt_view(flag),
            opt_view(env_region),
            opt_view(env_default_region),
            "us-east-1"@,
        ),
{
    match flag {
        Some(region) => region,
        None => match env_region {
            Some(region) => region,
            None => match env_default_region {
                Some(region) => region,
                None => String::from_str("us-east-1"),
            },
        },
    }
}

} // verus!
