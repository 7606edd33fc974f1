use vstd::prelude::*;

verus! {

/// Power ignore `Result`, spelled as a method.
///
/// Only a `Result` is accepted, so a value that must still be driven to
/// completion (a future, say) cannot be dropped through it by mistake.
pub trait ResultIgnore {
    fn I(self);
}

impl<T, E> ResultIgnore for Result<T, E> {
    fn I(self) {
        let _ = self;
    }
}

/// Power ignore `Result`: consumes `r`, success or failure alike, and never
/// fails itself.
pub fn I<T, E>(r: Result<T, E>) {
    let _ = r;
}

} // verus!
