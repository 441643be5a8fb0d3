use vstd::prelude::*;

verus! {

/// A loader for data files: it claims the file extensions it was built with,
/// one extension set for each type of asset loaded.
#[derive(Default)]
pub struct DataFileLoader {
    matching_extensions: Vec<&'static str>,
}

impl View for DataFileLoader {
    type V = Seq<&'static str>;

    closed spec fn view(&self) -> Seq<&'static str> {
        self.matching_extensions@
    }
}

impl DataFileLoader {
    /// A loader that claims exactly `matching_extensions`.
    pub fn from_extensions(matching_extensions: Vec<&'static str>) -> (r: Self)
        ensures
            r@ == matching_extensions@,
    {
        DataFileLoader { matching_extensions }
    }

    /// The extensions this loader claims, in the order given.
    pub fn extensions(&self) -> (r: &[&'static str])
        ensures
            r@ == self@,
    {
        self.matching_extensions.as_slice()
    }
}

} // verus!
