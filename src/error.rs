use vstd::prelude::*;

verus! {

/// Why opening a shared memory region failed.
#[derive(Clone, Copy, Debug, PartialEq, Eq, Structural)]
pub enum ShmemError {
    /// The object could neither be created nor attached to.
    CreateFailedErr,
    /// The object could not be given the requested length.
    AllocationFailedErr,
    /// Mapping the object into this process gave no usable address.
    NullPointerErr,
}

impl ShmemError {
    /// The variant's name, as it is shown to users.
    pub fn name(&self) -> (r: &'static str)
        ensures
            r@ == error_name(*self),
    {
        match self {
            ShmemError::CreateFailedErr => "CreateFailedErr",
            ShmemError::AllocationFailedErr => "AllocationFailedErr",
            ShmemError::NullPointerErr => "NullPointerErr",
        }
    }
}

/// The name of each error variant.
pub open spec fn error_name(e: ShmemError) -> Seq<char> {
    match e {
        ShmemError::CreateFailedErr => "CreateFailedErr"@,
        ShmemError::AllocationFailedErr => "AllocationFailedErr"@,
        ShmemError::NullPointerErr => "NullPointerErr"@,
    }
}

} // verus!
