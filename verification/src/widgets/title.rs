//! The title bar.
use vstd::prelude::*;

verus! {

/// The title bar: its text and the size of its frame.
pub struct Title {
    pub title: String,
    pub width: u16,
    pub hight: u16,
}

impl Title {
    pub fn new(title: String, width: u16, hight: u16) -> (r: Self)
        ensures
            r.title == title,
            r.width == width,
            r.hight == hight,
    {
        Title { title, width, hight }
    }
}

} // verus!
