use vstd::prelude::*;

verus! {

/// What one comparison is asked to do: the two input paths, and the path to
/// write a difference image to, if one is wanted.
#[derive(Debug)]
pub struct Config<'a> {
    pub image1: &'a str,
    pub image2: &'a str,
    pub filename: Option<&'a str>,
}

} // verus!
