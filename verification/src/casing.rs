//! Case folding, as the standard library defines it over Unicode.

use vstd::prelude::*;

verus! {

/// The upper-case form of a text under the Unicode case mappings.
pub uninterp spec fn uppercase(s: Seq<char>) -> Seq<char>;

/// The lower-case form of a text under the Unicode case mappings.
pub uninterp spec fn lowercase(s: Seq<char>) -> Seq<char>;

/// `str::to_uppercase` of the standard library. The mapping depends on the
/// characters alone; nothing more is claimed of it than that it has a value.
pub assume_specification[ str::to_uppercase ](s: &str) -> (r: std::string::String)
    ensures
        r@ == uppercase(s@),
;

/// `str::to_lowercase` of the standard library. The mapping depends on the
/// characters alone; nothing more is claimed of it than that it has a value.
pub assume_specification[ str::to_lowercase ](s: &str) -> (r: std::string::String)
    ensures
        r@ == lowercase(s@),
;

} // verus!
