//! Paths on this platform, as bytes: `/` separates components, and a name
//! before the first `:` is a device namespace.

use vstd::prelude::*;
use vstd::slice::slice_subrange;

verus! {

pub const MAIN_SEP_STR: &'static str = "/";

pub const MAIN_SEP: char = '/';

/// The byte `/`.
pub open spec fn spec_is_sep_byte(b: u8) -> bool {
    b == 0x2f
}

#[verifier::when_used_as_spec(spec_is_sep_byte)]
pub fn is_sep_byte(b: u8) -> (r: bool)
    ensures
        r == spec_is_sep_byte(b),
{
    b == 0x2f
}

/// In a verbatim path too, only `/` separates.
pub fn is_verbatim_sep(b: u8) -> (r: bool)
    ensures
        r == spec_is_sep_byte(b),
{
    b == 0x2f
}

/// The path begins with exactly two `/`: such a root may have a meaning of
/// its own, while three or more count as one.
pub open spec fn spec_has_double_root(path: Seq<u8>) -> bool {
    path.len() >= 2 && path[0] == 0x2f && path[1] == 0x2f && !(path.len() >= 3 && path[2] == 0x2f)
}

pub fn has_double_root(path: &[u8]) -> (r: bool)
    ensures
        r == spec_has_double_root(path@),
{
    path.len() >= 2 && path[0] == 0x2f && path[1] == 0x2f && !(path.len() >= 3 && path[2] == 0x2f)
}

/// The path ends with `/`. An absolute form of it keeps that.
pub open spec fn spec_has_trailing_sep(path: Seq<u8>) -> bool {
    path.len() >= 1 && path[path.len() - 1] == 0x2f
}

pub fn has_trailing_sep(path: &[u8]) -> (r: bool)
    ensures
        r == spec_has_trailing_sep(path@),
{
    path.len() >= 1 && path[path.len() - 1] == 0x2f
}

/// `k` is the place of the first `:` in `path`.
pub open spec fn is_first_colon(path: Seq<u8>, k: int) -> bool {
    0 <= k < path.len() && path[k] == 0x3a && forall|j: int| 0 <= j < k ==> path[j] != 0x3a
}

/// The device namespace that a path begins with: what stands before its
/// first `:`. A path without `:` names none.
pub fn parse_prefix(prefix: &[u8]) -> (r: Option<&[u8]>)
    ensures
        match r {
            Some(name) => exists|k: int| #[trigger]
                is_first_colon(prefix@, k) && name@ == prefix@.subrange(0, k),
            None => forall|k: int| 0 <= k < prefix@.len() ==> prefix@[k] != 0x3a,
        },
{
    let n: usize = prefix.len();
    let mut i: usize = 0;
    while i < n
        invariant
            n == prefix@.len(),
            i <= n,
            forall|j: int| 0 <= j < i ==> prefix@[j] != 0x3a,
        decreases n - i,
    {
        if prefix[i] == 0x3a {
            assert(is_first_colon(prefix@, i as int));
            return Some(slice_subrange(prefix, 0, i));
        }
        i += 1;
    }
    None
}

} // verus!
