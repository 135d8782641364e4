use vstd::prelude::*;

verus! {

/// A single line of text: a line number paired with its content.
pub struct Line {
    pub no: i32,
    pub content: String,
}

/// A classification of lines. Nothing reads it yet.
#[allow(dead_code)]
enum LineType {
    Normal,
    Strange,
}

impl Line {
    /// Returns the default line: number 0, empty content.
    pub fn new() -> (r: Line)
        ensures
            r.no == 0,
            r.content@ == Seq::<char>::empty(),
    {
        Line { no: 0, content: String::new() }
    }

    /// Consumes the line and returns the pair of its fields, unchanged.
    pub fn as_tuple(self) -> (r: (i32, String))
        ensures
            r.0 == self.no,
            r.1@ == self.content@,
    {
        (self.no, self.content)
    }
}

} // verus!
