use vstd::prelude::*;

verus! {

/// Layout direction of a widget.
#[derive(Debug, Clone, Copy, PartialEq, Eq, Structural)]
pub enum Orientation {
    Horizontal,
    Vertical,
}

impl Orientation {
    /// The `aria-orientation` value for this direction.
    pub fn as_aria_value(self) -> (r: &'static str)
        ensures
            r@ == (if self is Horizontal { "horizontal"@ } else { "vertical"@ }),
    {
        match self {
            Orientation::Horizontal => "horizontal",
            Orientation::Vertical => "vertical",
        }
    }
}

impl Default for Orientation {
    fn default() -> (r: Self)
        ensures
            r == Orientation::Horizontal,
    {
        Orientation::Horizontal
    }
}

} // verus!
