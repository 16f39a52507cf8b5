use vstd::prelude::*;

verus! {

/// An icon drawn from SVG markup that is compiled into the program.
#[derive(Debug, Clone, PartialEq, Eq, Hash)]
pub struct Icon {
    svg_data: &'static [u8],
}

impl Icon {
    /// The SVG markup of the icon.
    pub closed spec fn data(self) -> Seq<u8> {
        self.svg_data@
    }

    /// An icon drawn from the given SVG markup.
    pub fn new(svg_data: &'static [u8]) -> (res: Self)
        ensures
            res.data() == svg_data@,
    {
        Icon { svg_data }
    }

    /// The SVG markup of the icon.
    pub fn svg_data(&self) -> (res: &'static [u8])
        ensures
            res@ == self.data(),
    {
        self.svg_data
    }
}

} // verus!
