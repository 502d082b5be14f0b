use vstd::prelude::*;

pub mod clock;
pub mod comic;
pub mod scheduler;

verus! {

/// The characters held by an optional string.
pub open spec fn opt_view(o: Option<String>) -> Option<Seq<char>> {
    match o {
        Some(s) => Some(s@),
        None => None,
    }
}

} // verus!
