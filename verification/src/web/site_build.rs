use vstd::prelude::*;

verus! {

/// SCSS partials (file names that start with `_`) are only imported by
/// other files, never compiled on their own.
pub fn is_scss_partial(file_name: &str) -> (b: bool)
    ensures
        b == (file_name@.len() > 0 && file_name@[0] == '_'),
{
    let chars = crate::text::chars_of(file_name);
    chars.len() > 0 && chars[0] == '_'
}

} // verus!
