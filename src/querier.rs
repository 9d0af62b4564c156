use vstd::prelude::*;
use crate::memory::{release1, released, Memory};

verus! {

/// Chain queries: the request goes out as opaque bytes and the host's
/// response comes back as opaque bytes.
pub struct ExternalQuerier {}

impl ExternalQuerier {
    pub fn new() -> (r: ExternalQuerier) {
        ExternalQuerier {}
    }

    /// Stages a query: the request goes out as a region.
    pub fn prepare_raw_query(&self, mem: &mut Memory, bin_request: &[u8]) -> (h: u32)
        requires
            old(mem).wf(),
            old(mem).room(1, bin_request@.len()),
        ensures
            Memory::built(*old(mem), *final(mem), h, bin_request@),
    {
        mem.build_region(bin_request)
    }

    /// Finishes a query whose host result was the region `response`: its
    /// bytes are the response, and both regions are released.
    pub fn complete_raw_query(&self, mem: &mut Memory, request: u32, response: u32) -> (r: Vec<u8>)
        requires
            old(mem).wf(),
            old(mem).live(request),
            old(mem).live(response),
            request != response,
        ensures
            r@ == old(mem).content(response),
            released(*old(mem), *final(mem), set![request, response]),
    {
        release1(mem, request);
        let r = mem.consume_region(response);
        assert(mem.regions() =~= old(mem).regions().remove_keys(set![request, response]));
        r
    }
}

} // verus!
