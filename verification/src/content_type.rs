//! The content types a procedure can answer with.

use vstd::prelude::*;

verus! {

/// A content type a procedure can answer with.
pub trait ContentType {}

/// JSON content.
pub struct Json;

impl ContentType for Json {}

/// A set of content types.
pub trait ContentTypes {}

impl ContentTypes for () {}

impl<T: ContentType> ContentTypes for T {}

impl<A: ContentType, B: ContentType> ContentTypes for (A, B) {}

} // verus!
