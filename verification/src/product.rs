//! The product model: ids for entries of a product catalogue.
//!
//! The one invariant worth enforcing here is on the id: Rust by itself
//! won't reject `""`, so the type does.

use vstd::prelude::*;
use vstd::string::StrSliceExecFns;

use crate::errors::Error;

verus! {

/// The longest product id that is accepted.
pub const PRODUCT_ID_MAX_LEN: usize = 32;

/// A product id.
///
/// A `ProductId` must be a non-empty string with a maximum length of 32
/// chars.
#[derive(Debug, PartialEq)]
pub struct ProductId(String);

impl View for ProductId {
    type V = Seq<char>;

    closed spec fn view(&self) -> Seq<char> {
        self.0@
    }
}

impl ProductId {
    /// The invariant every `ProductId` value satisfies: non-empty, at most
    /// 32 chars.
    pub open spec fn wf(self) -> bool {
        0 < self@.len() <= PRODUCT_ID_MAX_LEN
    }

    /// Maybe convert a borrowed string into a `ProductId`: the empty string
    /// and strings over 32 chars are rejected with `NotAnId`.
    pub fn try_from(id: &str) -> (r: Result<ProductId, Error>)
        ensures
            r is Ok <==> 0 < id@.len() <= PRODUCT_ID_MAX_LEN,
            r matches Ok(v) ==> v@ == id@ && v.wf(),
            r matches Err(e) ==> e == Error::NotAnId,
    {
        let chars = id.unicode_len();
        if 0 < chars && chars <= PRODUCT_ID_MAX_LEN {
            Ok(ProductId(id.to_owned()))
        } else {
            Err(Error::NotAnId)
        }
    }

    /// An immutable reference to the underlying id value as a string.
    pub fn as_ref(&self) -> (r: &str)
        ensures
            r@ == self@,
    {
        self.0.as_str()
    }
}

} // verus!
