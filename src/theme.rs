use vstd::prelude::*;

verus! {

/// Whether a reading of the "apps use light theme" preference means that dark
/// mode is active: the value must have been read, and be zero.
pub open spec fn reading_is_dark(reading: Option<u32>) -> bool {
    reading == Some(0u32)
}

/// Decides the theme from a reading of the preference value.
///
/// `None` stands for a failed read, which falls back to the light theme; any
/// nonzero value means light as well.
pub fn dark_from_reading(reading: Option<u32>) -> (r: bool)
    ensures
        r == reading_is_dark(reading),
        r <==> (reading == Some(0u32)),
{
    match reading {
        Some(v) => v == 0,
        None => false,
    }
}

} // verus!
