//! The shop resource: the path of its single endpoint. The shop's own
//! data shape (which includes geographic coordinates) lives with the
//! unverified callers.

use vstd::prelude::*;

verus! {

/// The endpoint describing the shop itself.
pub fn shop_path() -> (r: &'static str)
    ensures
        r@ == "/admin/shop.json"@,
{
    "/admin/shop.json"
}

} // verus!
