//! The bundle that one request is made from.

use vstd::prelude::*;
use crate::address::Url;
use crate::method::Method;

verus! {

/// The method and the address of the request, and the sink that owns the
/// response body's destination. `W` is whatever stands for the sink where
/// the bundle is used: the selected `SinkChoice` while the request is
/// being resolved, an open writer once it runs.
#[derive(Debug)]
pub struct RequestParameters<W> {
    pub method: Method,
    pub url: Url,
    pub output_writer: W,
}

impl<W> RequestParameters<W> {
    /// Lends out the sink for writing. The method and the address stay as
    /// they are; the bundle's sink ends as the borrower leaves it.
    pub fn borrow_mut_output_writer(&mut self) -> (r: &mut W)
        ensures
            *r == old(self).output_writer,
            final(self).output_writer == *final(r),
            final(self).method == old(self).method,
            final(self).url == old(self).url,
    {
        &mut self.output_writer
    }

    /// The same method and address, with another value in the sink's place.
    pub fn with_output_writer<V>(self, output_writer: V) -> (r: RequestParameters<V>)
        ensures
            r.method == self.method,
            r.url == self.url,
            r.output_writer == output_writer,
    {
        RequestParameters { method: self.method, url: self.url, output_writer }
    }
}

} // verus!
