use vstd::prelude::*;
use crate::errors::{HostReply, StdError};
use crate::memory::{
    get_optional_region_address, release1, released, Memory, NO_REGION,
};
use crate::sections::{decode_sections2, decoded2};

verus! {

/// A key and its value.
pub type Record = (Vec<u8>, Vec<u8>);

/// The direction of a range scan.
#[derive(Clone, Copy, Debug, PartialEq, Eq, Structural)]
pub enum Order {
    Ascending,
    Descending,
}

/// The number that stands for `order` on the boundary.
pub open spec fn order_number(order: Order) -> i32 {
    match order {
        Order::Ascending => 1,
        Order::Descending => 2,
    }
}

pub fn order_code(order: Order) -> (r: i32)
    ensures
        r == order_number(order),
{
    match order {
        Order::Ascending => 1,
        Order::Descending => 2,
    }
}

/// The arguments of a scan call: a handle or `NO_REGION` for each bound.
#[derive(Clone, Copy, Debug, PartialEq, Eq, Structural)]
pub struct ScanCall {
    pub start: u32,
    pub end: u32,
    pub order: i32,
}

/// The room that an optional bound takes.
pub open spec fn bound_len(bound: Option<&[u8]>) -> nat {
    match bound {
        Some(b) => b@.len(),
        None => 0,
    }
}

/// What the host's storage makes of the guest's requests, in stage and
/// finish steps around each host call.
pub struct ExternalStorage {}

impl ExternalStorage {
    pub fn new() -> (r: ExternalStorage) {
        ExternalStorage {}
    }

    /// Stages a read: the key goes out as a region.
    pub fn prepare_get(&self, mem: &mut Memory, key: &[u8]) -> (h: u32)
        requires
            old(mem).wf(),
            old(mem).room(1, key@.len()),
        ensures
            Memory::built(*old(mem), *final(mem), h, key@),
    {
        mem.build_region(key)
    }

    /// Finishes a read whose host result was `read`: no value where it is
    /// `NO_REGION`, else the bytes of that region. Both regions are released.
    pub fn complete_get(&self, mem: &mut Memory, key: u32, read: u32) -> (r: Option<Vec<u8>>)
        requires
            old(mem).wf(),
            old(mem).live(key),
            read == NO_REGION || (old(mem).live(read) && read != key),
        ensures
            read == NO_REGION ==> r is None && released(*old(mem), *final(mem), set![key]),
            read != NO_REGION ==> r is Some && r->0@ == old(mem).content(read) && released(
                *old(mem),
                *final(mem),
                set![key, read],
            ),
    {
        release1(mem, key);
        if read == NO_REGION {
            return None;
        }
        let data = mem.consume_region(read);
        assert(mem.regions() =~= old(mem).regions().remove_keys(set![key, read]));
        Some(data)
    }

    /// Stages a write. An empty value is refused here, and nothing is sent.
    pub fn prepare_set(&self, mem: &mut Memory, key: &[u8], value: &[u8]) -> (r: Result<
        (u32, u32),
        StdError,
    >)
        requires
            old(mem).wf(),
            old(mem).room(2, key@.len() + value@.len()),
        ensures
            value@.len() == 0 <==> r == Err::<(u32, u32), StdError>(StdError::EmptyValue),
            value@.len() == 0 ==> *final(mem) == *old(mem),
            value@.len() > 0 ==> r is Ok && crate::memory::sent2(
                *old(mem),
                *final(mem),
                r->Ok_0,
                key@,
                value@,
            ),
    {
        if value.len() == 0 {
            return Err(StdError::EmptyValue);
        }
        Ok(crate::memory::send2(mem, key, value))
    }

    /// Finishes a write: the key and value regions are released.
    pub fn complete_set(&self, mem: &mut Memory, staged: (u32, u32))
        requires
            old(mem).wf(),
            old(mem).live(staged.0),
            old(mem).live(staged.1),
            staged.0 != staged.1,
        ensures
            released(*old(mem), *final(mem), set![staged.0, staged.1]),
    {
        crate::memory::release2(mem, staged)
    }

    /// Stages a removal: the key goes out as a region.
    pub fn prepare_remove(&self, mem: &mut Memory, key: &[u8]) -> (h: u32)
        requires
            old(mem).wf(),
            old(mem).room(1, key@.len()),
        ensures
            Memory::built(*old(mem), *final(mem), h, key@),
    {
        mem.build_region(key)
    }

    /// Finishes a removal: the key region is released.
    pub fn complete_remove(&self, mem: &mut Memory, key: u32)
        requires
            old(mem).wf(),
            old(mem).live(key),
        ensures
            released(*old(mem), *final(mem), set![key]),
    {
        release1(mem, key)
    }

    /// Stages a range scan. An absent bound is `NO_REGION`; a present one is a
    /// region, even when empty.
    pub fn prepare_range(
        &self,
        mem: &mut Memory,
        start: Option<&[u8]>,
        end: Option<&[u8]>,
        order: Order,
    ) -> (r: ScanCall)
        requires
            old(mem).wf(),
            old(mem).room(2, bound_len(start) + bound_len(end)),
        ensures
            final(mem).wf(),
            r.order == order_number(order),
            start is None <==> r.start == NO_REGION,
            end is None <==> r.end == NO_REGION,
            start is Some ==> final(mem).live(r.start) && final(mem).content(r.start)
                == start->0@,
            end is Some ==> final(mem).live(r.end) && final(mem).content(r.end) == end->0@,
            start is Some && end is Some ==> r.start != r.end,
            forall|h: u32|
                #![trigger final(mem).regions().contains_key(h)]
                old(mem).live(h) ==> final(mem).live(h) && final(mem).regions()[h]
                    == old(mem).regions()[h],
            forall|h: u32|
                #![trigger final(mem).regions().contains_key(h)]
                final(mem).live(h) ==> old(mem).live(h) || (start is Some && h == r.start) || (
                end is Some && h == r.end),
    {
        let s = get_optional_region_address(mem, start);
        let e = get_optional_region_address(mem, end);
        ScanCall { start: s, end: e, order: order_code(order) }
    }

    /// Finishes a range scan whose host result was `iterator_id`: the bound
    /// regions are released. An id of zero is a fault of the host.
    pub fn complete_range(
        &self,
        mem: &mut Memory,
        call: ScanCall,
        iterator_id: u32,
    ) -> (r: HostReply<ExternalIterator>)
        requires
            old(mem).wf(),
            call.start != NO_REGION ==> old(mem).live(call.start),
            call.end != NO_REGION ==> old(mem).live(call.end),
            call.start != NO_REGION && call.end != NO_REGION ==> call.start != call.end,
        ensures
            final(mem).wf(),
            final(mem).regions() == old(mem).regions().remove_keys(
                set![call.start, call.end],
            ),
            iterator_id == 0 ==> r == (HostReply::<ExternalIterator>::ContractViolation { code: 0 }),
            iterator_id != 0 ==> r == HostReply::Ready(
                (ExternalIterator { iterator_id, exhausted: false }),
            ),
    {
        if call.start != NO_REGION {
            release1(mem, call.start);
        }
        if call.end != NO_REGION {
            release1(mem, call.end);
        }
        assert(mem.regions() =~= old(mem).regions().remove_keys(set![call.start, call.end])) by {
            assert(!old(mem).regions().contains_key(NO_REGION));
        }
        if iterator_id == 0 {
            return HostReply::ContractViolation { code: 0 };
        }
        HostReply::Ready(ExternalIterator { iterator_id, exhausted: false })
    }
}

/// What a pair fetched from a scan yields: the key and value, or nothing
/// where the key is empty (the end of the scan) or the pair is malformed.
pub open spec fn next_step(content: Seq<u8>) -> Option<(Seq<u8>, Seq<u8>)> {
    match decoded2(content) {
        Some((k, v)) => if k.len() > 0 {
            Some((k, v))
        } else {
            None
        },
        None => None,
    }
}

/// The records a scan yields from the host's successive answers: each pair
/// up to the first that ends it.
pub open spec fn yielded(answers: Seq<Seq<u8>>) -> Seq<(Seq<u8>, Seq<u8>)>
    decreases answers.len(),
{
    if answers.len() == 0 {
        Seq::empty()
    } else {
        match next_step(answers[0]) {
            Some(p) => seq![p] + yielded(answers.drop_first()),
            None => Seq::empty(),
        }
    }
}

/// A scan that the host runs, read forward one pair at a time.
#[derive(Clone, Copy, Debug, PartialEq, Eq, Structural)]
pub struct ExternalIterator {
    pub iterator_id: u32,
    pub exhausted: bool,
}

impl ExternalIterator {
    /// Whether another pair is to be fetched from the host.
    pub fn is_open(&self) -> (r: bool)
        ensures
            r == !self.exhausted,
    {
        !self.exhausted
    }

    /// Takes the pair that the host wrote under `next_result`, releasing its
    /// region. An empty key ends the scan, as does a malformed pair.
    pub fn complete_next(&mut self, mem: &mut Memory, next_result: u32) -> (r: Option<Record>)
        requires
            !old(self).exhausted,
            old(mem).wf(),
            old(mem).live(next_result),
        ensures
            released(*old(mem), *final(mem), set![next_result]),
            final(self).iterator_id == old(self).iterator_id,
            final(self).exhausted == next_step(old(mem).content(next_result)) is None,
            match next_step(old(mem).content(next_result)) {
                Some((k, v)) => r is Some && (r->0).0@ == k && (r->0).1@ == v,
                None => r is None,
            },
    {
        let kv = mem.consume_region(next_result);
        assert(mem.regions() =~= old(mem).regions().remove_keys(set![next_result]));
        match decode_sections2(kv) {
            Some((key, value)) => {
                if key.len() == 0 {
                    self.exhausted = true;
                    None
                } else {
                    Some((key, value))
                }
            },
            None => {
                self.exhausted = true;
                None
            },
        }
    }
}

/// Where the host answers `n - 1` pairs with non-empty keys and then a pair
/// with an empty key, the scan yields exactly those `n - 1` pairs and ends.
pub proof fn lemma_scan_ends_at_empty_key(answers: Seq<Seq<u8>>, n: nat, last_value: Seq<u8>)
    requires
        1 <= n <= answers.len(),
        forall|i: int| 0 <= i < n - 1 ==> #[trigger] next_step(answers[i]) is Some,
        last_value.len() <= u32::MAX,
        answers[n - 1] == crate::sections::encoded(seq![Seq::<u8>::empty(), last_value]),
    ensures
        yielded(answers).len() == n - 1,
        forall|i: int| 0 <= i < n - 1 ==> #[trigger] yielded(answers)[i] == next_step(answers[i])->0,
    decreases n,
{
    if n == 1 {
        crate::sections::lemma_sections2_round_trip(Seq::empty(), last_value);
        assert(next_step(answers[0]) is None);
    } else {
        let rest = answers.drop_first();
        assert forall|i: int| 0 <= i < n - 2 implies #[trigger] next_step(rest[i]) is Some by {
            assert(rest[i] == answers[i + 1]);
        }
        lemma_scan_ends_at_empty_key(rest, (n - 1) as nat, last_value);
        assert(next_step(answers[0]) is Some);
        assert forall|i: int| 0 <= i < n - 1 implies #[trigger] yielded(answers)[i] == next_step(
            answers[i],
        )->0 by {
            if i > 0 {
                assert(yielded(answers)[i] == yielded(rest)[i - 1]);
                assert(rest[i - 1] == answers[i]);
            }
        }
    }
}

} // verus!
