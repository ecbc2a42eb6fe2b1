use std::fmt::Write;
use vstd::prelude::*;
use crate::handle::RocBox;
use crate::heap::Heap;

verus! {

/// `write!` with `{:?}` into a fresh `String`, which hands the value to its
/// `Debug` impl. The result is the text if that impl reports success and
/// `None` if it reports an error. Nothing is claimed of which of the two
/// comes, nor of the text: both are whatever that impl does.
#[verifier::external_body]
fn debug_text<T: core::fmt::Debug>(value: &T) -> (text: Option<String>) {
    let mut text = String::new();
    match write!(text, "{:?}", value) {
        Ok(()) => Some(text),
        Err(_) => None,
    }
}

impl<T: core::fmt::Debug> RocBox<T> {
    /// The payload's own debug text, or `None` where the payload's `Debug`
    /// impl reports an error; the handle adds nothing to either.
    pub fn fmt(&self, heap: &Heap<T>) -> (text: Option<String>)
        requires
            self.live_in(heap),
    {
        debug_text(self.deref(heap))
    }
}

} // verus!
