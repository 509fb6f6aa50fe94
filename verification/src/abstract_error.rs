//! The capability contract that every concrete error type satisfies.

use vstd::prelude::*;

verus! {

/// What a type must offer to travel behind an erased error handle.
///
/// A name is required; a description is optional and absent by default.
/// The bounds make every implementor transferable between threads and free
/// of borrowed data, which is what erasure needs.
pub trait AbstractError: Send + 'static {
    /// A human-readable name for this kind of error.
    fn name(&self) -> String;

    /// A human-readable account of this error, if it has one. A type that
    /// does not say otherwise has none.
    fn description(&self) -> (text: Option<String>)
        default_ensures
            text is None,
    {
        None
    }
}

/// A plain text is itself an error: its name is a generic label and its
/// description is the text.
impl AbstractError for String {
    fn name(&self) -> (label: String)
        ensures
            label@ == "Error"@,
    {
        "Error".to_owned()
    }

    fn description(&self) -> (text: Option<String>)
        ensures
            text == Some(*self),
    {
        Some(self.clone())
    }
}

} // verus!
