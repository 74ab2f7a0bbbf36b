//! Whether the process environment asks for verbose debug output.
//!
//! The program reads the two environment variables and keeps the resulting
//! switch; the decision itself is made here.

use vstd::prelude::*;
use crate::text::{contains, lowercase, seq_contains, to_lowercase};

verus! {

/// A log filter asks for verbose output: lowercased, it names the `debug`
/// or the `trace` level somewhere.
pub open spec fn verbose_filter(filter: Seq<char>) -> bool {
    seq_contains(lowercase(filter), "debug"@) || seq_contains(lowercase(filter), "trace"@)
}

/// Debug output is wanted when `THALEIA_DEBUG` is set at all, or when
/// `RUST_LOG` holds a verbose filter.
pub open spec fn debug_wanted(debug_var_set: bool, rust_log: Option<Seq<char>>) -> bool {
    debug_var_set || match rust_log {
        Some(filter) => verbose_filter(filter),
        None => false,
    }
}

/// Whether a `RUST_LOG` filter asks for debug or trace output.
pub fn is_verbose_filter(filter: &str) -> (b: bool)
    ensures
        b == verbose_filter(filter@),
{
    let lower = to_lowercase(filter);
    contains(lower.as_str(), "debug") || contains(lower.as_str(), "trace")
}

/// Whether debug output is requested, given whether `THALEIA_DEBUG` is set
/// and the value of `RUST_LOG` (`None` when unset or not Unicode).
pub fn debug_requested(debug_var_set: bool, rust_log: Option<&str>) -> (b: bool)
    ensures
        b == debug_wanted(debug_var_set, match rust_log {
            Some(s) => Some(s@),
            None => None,
        }),
{
    let from_rust_log = match rust_log {
        Some(filter) => is_verbose_filter(filter),
        None => false,
    };
    debug_var_set || from_rust_log
}

} // verus!
