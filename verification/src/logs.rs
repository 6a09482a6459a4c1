//! Parsing of the owner's log-query arguments: an optional line count and
//! an optional severity filter, picked out of free-form arguments.

use vstd::prelude::*;

use crate::strutil::spec_parse_i64;
use crate::strutil::parse_i64;
use crate::strutil::str_eq;
use crate::strutil::trim_seq;
use crate::strutil::trim_str;

verus! {

/// A log severity that can be filtered on.
#[allow(non_camel_case_types)]
#[derive(Debug, Clone, Copy, PartialEq, Eq, Structural)]
pub enum Type {
    INFO,
    DEBUG,
    ERROR,
}

/// The trimmed argument names a severity.
pub open spec fn spec_type_from(s: Seq<char>) -> Option<Type> {
    if s == "INFO"@ {
        Some(Type::INFO)
    } else if s == "DEBUG"@ {
        Some(Type::DEBUG)
    } else if s == "ERROR"@ {
        Some(Type::ERROR)
    } else {
        None
    }
}

impl Type {
    pub fn from_str(s: &str) -> (r: Option<Type>)
        ensures
            r == spec_type_from(s@),
    {
        if str_eq(s, "INFO") {
            Some(Type::INFO)
        } else if str_eq(s, "DEBUG") {
            Some(Type::DEBUG)
        } else if str_eq(s, "ERROR") {
            Some(Type::ERROR)
        } else {
            None
        }
    }
}

/// What scanning the arguments in order leaves behind: the last one that
/// trims to an integer, and the last one that trims to a severity name
/// (kept untrimmed).
pub open spec fn spec_parsing(args: Seq<Seq<char>>) -> (Option<i64>, Option<Seq<char>>)
    decreases args.len(),
{
    if args.len() == 0 {
        (None, None)
    } else {
        let prev = spec_parsing(args.drop_last());
        let a = args.last();
        (
            match spec_parse_i64(trim_seq(a)) {
                Some(v) => Some(v),
                None => prev.0,
            },
            if spec_type_from(trim_seq(a)) is Some {
                Some(a)
            } else {
                prev.1
            },
        )
    }
}

/// Scans the arguments for a line count and a severity filter.
pub fn parsing(args: Vec<String>) -> (r: (Option<i64>, Option<String>))
    ensures
        r.0 == spec_parsing(args.deep_view()).0,
        r.1.deep_view() == spec_parsing(args.deep_view()).1,
{
    let mut lines: Option<i64> = None;
    let mut types: Option<String> = None;
    let n: usize = args.len();
    for i in 0..n
        invariant
            n == args@.len(),
            args.deep_view().len() == n,
            lines == spec_parsing(args.deep_view().subrange(0, i as int)).0,
            types.deep_view() == spec_parsing(args.deep_view().subrange(0, i as int)).1,
    {
        let trimmed = trim_str(args[i].as_str());
        match Type::from_str(trimmed.as_str()) {
            Some(_) => {
                types = Some(args[i].clone());
            },
            None => {},
        }
        match parse_i64(trimmed.as_str()) {
            Some(v) => {
                lines = Some(v);
            },
            None => {},
        }
        proof {
            let prefix = args.deep_view().subrange(0, i as int);
            let ext = args.deep_view().subrange(0, i + 1);
            assert(ext =~= prefix.push(args.deep_view()[i as int]));
            assert(ext.drop_last() =~= prefix);
            assert(ext.last() == args.deep_view()[i as int]);
        }
    }
    proof {
        assert(args.deep_view().subrange(0, n as int) =~= args.deep_view());
    }
    (lines, types)
}

} // verus!
