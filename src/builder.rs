use vstd::prelude::*;
use crate::opening::{start, OpenStep, Opening};

verus! {

/// The first stage of configuring a region: its system-wide name.
#[derive(Debug)]
pub struct Builder {
    id: String,
}

impl View for Builder {
    type V = Seq<char>;

    closed spec fn view(&self) -> Seq<char> {
        self.id@
    }
}

impl Builder {
    /// Starts a configuration for the region called `id`.
    pub fn new(id: &str) -> (r: Self)
        ensures
            r@ == id@,
    {
        Builder { id: id.to_owned() }
    }

    /// Attaches the requested length in bytes.
    pub fn with_size(self, size: i64) -> (r: BuilderWithSize)
        ensures
            r@.name == self@,
            r@.size == size,
    {
        BuilderWithSize { id: self.id, size }
    }
}

/// A region's name and requested length, ready to be opened.
#[derive(Debug)]
pub struct BuilderWithSize {
    id: String,
    size: i64,
}

/// What a sized configuration holds.
pub struct SizedView {
    pub name: Seq<char>,
    pub size: i64,
}

impl View for BuilderWithSize {
    type V = SizedView;

    closed spec fn view(&self) -> SizedView {
        SizedView { name: self.id@, size: self.size }
    }
}

impl BuilderWithSize {
    /// The region's name.
    pub fn id(&self) -> (r: &str)
        ensures
            r@ == self@.name,
    {
        self.id.as_str()
    }

    /// Begins opening the region: creates it, or attaches to it when it
    /// already exists, then maps it.
    ///
    /// A length that is not positive, or too large to address, is refused
    /// with `AllocationFailedErr` before any object is touched.
    pub fn open(self) -> (r: OpenStep)
        ensures
            r@ == start(self@),
    {
        Opening::begin(self.id, self.size)
    }

    /// The requested length in bytes.
    pub fn size(&self) -> (r: i64)
        ensures
            r == self@.size,
    {
        self.size
    }
}

} // verus!
