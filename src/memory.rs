use vstd::prelude::*;

verus! {

/// Describes a byte buffer in guest memory: where it starts, how much room it
/// has, and how many of its bytes are in use.
#[derive(Clone, Copy, Debug, PartialEq, Eq, Structural)]
pub struct Region {
    pub offset: u32,
    pub capacity: u32,
    pub length: u32,
}

struct Slot {
    region: Region,
    data: Vec<u8>,
}

/// Guest memory as the boundary sees it: the regions that are live, each
/// reached by a nonzero handle that is never issued twice.
pub struct Memory {
    slots: Vec<Option<Slot>>,
    next_offset: u32,
}

/// The handle that stands for "no region".
pub const NO_REGION: u32 = 0;

/// A copy of `bytes` that the guest owns.
pub fn copy_bytes(bytes: &[u8]) -> (r: Vec<u8>)
    ensures
        r@ == bytes@,
{
    let mut out: Vec<u8> = Vec::new();
    let mut i: usize = 0;
    while i < bytes.len()
        invariant
            i <= bytes@.len(),
            out@ == bytes@.subrange(0, i as int),
        decreases bytes@.len() - i,
    {
        out.push(bytes[i]);
        i = i + 1;
        assert(out@ =~= bytes@.subrange(0, i as int));
    }
    assert(bytes@.subrange(0, i as int) =~= bytes@);
    out
}

impl Memory {
    /// The live regions by handle, each with the bytes in use.
    pub closed spec fn regions(&self) -> Map<u32, (Region, Seq<u8>)> {
        Map::new(
            |h: u32| 1 <= h <= self.slots@.len() && self.slots@[h - 1] is Some,
            |h: u32| (self.slots@[h - 1]->0.region, self.slots@[h - 1]->0.data@),
        )
    }

    /// The handle that the next region will get.
    pub closed spec fn next_handle(&self) -> nat {
        self.slots@.len() + 1
    }

    /// The offset at which the next region's buffer will start.
    pub closed spec fn next_offset(&self) -> nat {
        self.next_offset as nat
    }

    /// Whether `n` more regions with `bytes` bytes of room in all still fit.
    pub open spec fn room(&self, n: nat, bytes: nat) -> bool {
        &&& self.next_handle() + n <= u32::MAX
        &&& self.next_offset() + bytes <= u32::MAX
    }

    pub open spec fn live(&self, h: u32) -> bool {
        self.regions().contains_key(h)
    }

    /// The bytes in use in the region of handle `h`.
    pub open spec fn content(&self, h: u32) -> Seq<u8> {
        self.regions()[h].1
    }

    pub open spec fn region(&self, h: u32) -> Region {
        self.regions()[h].0
    }

    pub open spec fn wf(&self) -> bool {
        &&& 1 <= self.next_handle() <= u32::MAX
        &&& forall|h: u32| #[trigger]
            self.regions().contains_key(h) ==> {
                &&& 1 <= h < self.next_handle()
                &&& self.regions()[h].0.length <= self.regions()[h].0.capacity
                &&& self.regions()[h].0.length == self.regions()[h].1.len()
            }
    }

    /// `new` is `old` with one more region, of handle `h`, that starts at the
    /// next offset.
    pub open spec fn added(old: Memory, new: Memory, h: u32, capacity: nat, content: Seq<u8>) -> bool {
        &&& h == old.next_handle()
        &&& new.wf()
        &&& new.next_handle() == old.next_handle() + 1
        &&& new.next_offset() == old.next_offset() + capacity
        &&& new.regions() == old.regions().insert(
            h,
            (
                Region {
                    offset: old.next_offset() as u32,
                    capacity: capacity as u32,
                    length: content.len() as u32,
                },
                content,
            ),
        )
    }

    /// `new` is `old` with the region of `h` sent out for the host to read:
    /// `bytes` in use and as much room as that.
    pub open spec fn built(old: Memory, new: Memory, h: u32, bytes: Seq<u8>) -> bool {
        Memory::added(old, new, h, bytes.len(), bytes)
    }

    /// `new` is `old` without the region of `h`, whose bytes in use were `r`.
    pub open spec fn consumed(old: Memory, new: Memory, h: u32, r: Seq<u8>) -> bool {
        &&& new.wf()
        &&& r == old.content(h)
        &&& new.next_handle() == old.next_handle()
        &&& new.next_offset() == old.next_offset()
        &&& new.regions() == old.regions().remove(h)
    }

    /// Whether `regions` more regions with `bytes` bytes of room in all still fit.
    pub fn has_room(&self, regions: u32, bytes: usize) -> (r: bool)
        ensures
            r == self.room(regions as nat, bytes as nat),
    {
        (self.slots.len() as u128) + 1 + (regions as u128) <= u32::MAX as u128
            && (self.next_offset as u128) + (bytes as u128) <= u32::MAX as u128
    }

    /// An empty guest memory.
    pub fn new() -> (r: Memory)
        ensures
            r.wf(),
            r.regions().is_empty(),
            r.next_handle() == 1,
            r.next_offset() == 0,
    {
        let r = Memory { slots: Vec::new(), next_offset: 0 };
        assert(r.regions() =~= Map::empty());
        r
    }

    fn push_slot(&mut self, capacity: u32, data: Vec<u8>) -> (h: u32)
        requires
            old(self).wf(),
            old(self).room(1, capacity as nat),
            data@.len() <= capacity,
        ensures
            Memory::added(*old(self), *final(self), h, capacity as nat, data@),
    {
        let region = Region { offset: self.next_offset, capacity, length: data.len() as u32 };
        self.slots.push(Some(Slot { region, data }));
        self.next_offset = self.next_offset + capacity;
        let h = self.slots.len() as u32;
        proof {
            assert(self.regions() =~= old(self).regions().insert(h, (region, data@)));
            assert forall|k: u32| #[trigger] self.regions().contains_key(k) implies {
                &&& 1 <= k < self.next_handle()
                &&& self.regions()[k].0.length <= self.regions()[k].0.capacity
                &&& self.regions()[k].0.length == self.regions()[k].1.len()
            } by {
                if k != h {
                    assert(old(self).regions().contains_key(k));
                }
            }
        }
        h
    }

    /// Reserves a region of `capacity` bytes with none in use, for the host to fill.
    pub fn allocate(&mut self, capacity: u32) -> (h: u32)
        requires
            old(self).wf(),
            old(self).room(1, capacity as nat),
        ensures
            Memory::added(*old(self), *final(self), h, capacity as nat, Seq::empty()),
            h != NO_REGION,
    {
        self.push_slot(capacity, Vec::new())
    }

    /// Sends `bytes` out as a region whose length and capacity are both its size.
    pub fn build_region(&mut self, bytes: &[u8]) -> (h: u32)
        requires
            old(self).wf(),
            old(self).room(1, bytes@.len()),
        ensures
            Memory::built(*old(self), *final(self), h, bytes@),
            h != NO_REGION,
    {
        let data = copy_bytes(bytes);
        self.push_slot(bytes.len() as u32, data)
    }

    /// Takes back the bytes in use of the region of `h` and releases the region.
    pub fn consume_region(&mut self, h: u32) -> (r: Vec<u8>)
        requires
            old(self).wf(),
            old(self).live(h),
        ensures
            Memory::consumed(*old(self), *final(self), h, r@),
    {
        let i = (h - 1) as usize;
        let r = match &self.slots[i] {
            Some(slot) => copy_bytes(slot.data.as_slice()),
            None => Vec::new(),
        };
        self.slots.set(i, None);
        proof {
            assert(self.regions() =~= old(self).regions().remove(h));
            assert forall|k: u32| #[trigger] self.regions().contains_key(k) implies {
                &&& 1 <= k < self.next_handle()
                &&& self.regions()[k].0.length <= self.regions()[k].0.capacity
                &&& self.regions()[k].0.length == self.regions()[k].1.len()
            } by {
                assert(old(self).regions().contains_key(k));
            }
        }
        r
    }

    /// The host's write into the region of `h`: `bytes` become its bytes in use.
    pub fn write_region(&mut self, h: u32, bytes: &[u8])
        requires
            old(self).wf(),
            old(self).live(h),
            bytes@.len() <= old(self).region(h).capacity,
        ensures
            final(self).wf(),
            final(self).next_handle() == old(self).next_handle(),
            final(self).next_offset() == old(self).next_offset(),
            final(self).regions() == old(self).regions().insert(
                h,
                (Region { length: bytes@.len() as u32, ..old(self).region(h) }, bytes@),
            ),
    {
        let i = (h - 1) as usize;
        let region = match &self.slots[i] {
            Some(slot) => slot.region,
            None => Region { offset: 0, capacity: 0, length: 0 },
        };
        let new_region = Region { length: bytes.len() as u32, ..region };
        let data = copy_bytes(bytes);
        self.slots.set(i, Some(Slot { region: new_region, data }));
        proof {
            assert(self.regions() =~= old(self).regions().insert(h, (new_region, bytes@)));
            assert forall|k: u32| #[trigger] self.regions().contains_key(k) implies {
                &&& 1 <= k < self.next_handle()
                &&& self.regions()[k].0.length <= self.regions()[k].0.capacity
                &&& self.regions()[k].0.length == self.regions()[k].1.len()
            } by {
                if k != h {
                    assert(old(self).regions().contains_key(k));
                }
            }
        }
    }

    /// The descriptor of the region of `h`, if it is live.
    pub fn region_of(&self, h: u32) -> (r: Option<Region>)
        ensures
            r == (if self.live(h) { Some(self.region(h)) } else { None::<Region> }),
    {
        if h == 0 || h as usize > self.slots.len() {
            return None;
        }
        match &self.slots[(h - 1) as usize] {
            Some(slot) => Some(slot.region),
            None => None,
        }
    }

    /// The host's read of the bytes in use of the region of `h`, if it is live.
    pub fn read_region(&self, h: u32) -> (r: Option<Vec<u8>>)
        ensures
            match r {
                Some(v) => self.live(h) && v@ == self.content(h),
                None => !self.live(h),
            },
    {
        if h == 0 || h as usize > self.slots.len() {
            return None;
        }
        match &self.slots[(h - 1) as usize] {
            Some(slot) => Some(copy_bytes(slot.data.as_slice())),
            None => None,
        }
    }
}

/// The handle of an optional region: `NO_REGION` when absent, else a region
/// built from the bytes, even when there are none.
pub fn get_optional_region_address(mem: &mut Memory, bytes: Option<&[u8]>) -> (h: u32)
    requires
        old(mem).wf(),
        old(mem).room(1, if bytes is Some { bytes->0@.len() } else { 0 }),
    ensures
        match bytes {
            None => h == NO_REGION && *final(mem) == *old(mem),
            Some(b) => h != NO_REGION && Memory::built(*old(mem), *final(mem), h, b@),
        },
{
    match bytes {
        None => NO_REGION,
        Some(b) => mem.build_region(b),
    }
}

/// The entry of a region sent out at `offset` with `bytes`.
pub open spec fn sent_entry(offset: nat, bytes: Seq<u8>) -> (Region, Seq<u8>) {
    (Region { offset: offset as u32, capacity: bytes.len() as u32, length: bytes.len() as u32 }, bytes)
}

/// `new` is `old` with two regions sent out, `a` under `h.0` and then `b` under `h.1`.
pub open spec fn sent2(old: Memory, new: Memory, h: (u32, u32), a: Seq<u8>, b: Seq<u8>) -> bool {
    &&& new.wf()
    &&& h.0 == old.next_handle() && h.1 == h.0 + 1
    &&& new.next_handle() == old.next_handle() + 2
    &&& new.next_offset() == old.next_offset() + a.len() + b.len()
    &&& new.regions() == old.regions().insert(h.0, sent_entry(old.next_offset(), a)).insert(
        h.1,
        sent_entry(old.next_offset() + a.len(), b),
    )
}

/// `new` is `old` with three regions sent out, `a`, `b`, `c`, under `h.0`, `h.1`, `h.2`.
pub open spec fn sent3(
    old: Memory,
    new: Memory,
    h: (u32, u32, u32),
    a: Seq<u8>,
    b: Seq<u8>,
    c: Seq<u8>,
) -> bool {
    &&& new.wf()
    &&& h.0 == old.next_handle() && h.1 == h.0 + 1 && h.2 == h.0 + 2
    &&& new.next_handle() == old.next_handle() + 3
    &&& new.next_offset() == old.next_offset() + a.len() + b.len() + c.len()
    &&& new.regions() == old.regions().insert(h.0, sent_entry(old.next_offset(), a)).insert(
        h.1,
        sent_entry(old.next_offset() + a.len(), b),
    ).insert(h.2, sent_entry(old.next_offset() + a.len() + b.len(), c))
}

/// `new` is `old` without the regions `gone`, handles and offsets untouched.
pub open spec fn released(old: Memory, new: Memory, gone: Set<u32>) -> bool {
    &&& new.wf()
    &&& new.next_handle() == old.next_handle()
    &&& new.next_offset() == old.next_offset()
    &&& new.regions() == old.regions().remove_keys(gone)
}

/// Sends two byte strings out as regions, in order.
pub fn send2(mem: &mut Memory, a: &[u8], b: &[u8]) -> (h: (u32, u32))
    requires
        old(mem).wf(),
        old(mem).room(2, a@.len() + b@.len()),
    ensures
        sent2(*old(mem), *final(mem), h, a@, b@),
{
    let ha = mem.build_region(a);
    let hb = mem.build_region(b);
    (ha, hb)
}

/// Sends three byte strings out as regions, in order.
pub fn send3(mem: &mut Memory, a: &[u8], b: &[u8], c: &[u8]) -> (h: (u32, u32, u32))
    requires
        old(mem).wf(),
        old(mem).room(3, a@.len() + b@.len() + c@.len()),
    ensures
        sent3(*old(mem), *final(mem), h, a@, b@, c@),
{
    let ha = mem.build_region(a);
    let hb = mem.build_region(b);
    let hc = mem.build_region(c);
    (ha, hb, hc)
}

/// Releases one region after the host call that read it.
pub fn release1(mem: &mut Memory, h: u32)
    requires
        old(mem).wf(),
        old(mem).live(h),
    ensures
        released(*old(mem), *final(mem), set![h]),
{
    let _ = mem.consume_region(h);
    assert(mem.regions() =~= old(mem).regions().remove_keys(set![h]));
}

/// Releases two regions after the host call that read them.
pub fn release2(mem: &mut Memory, h: (u32, u32))
    requires
        old(mem).wf(),
        old(mem).live(h.0),
        old(mem).live(h.1),
        h.0 != h.1,
    ensures
        released(*old(mem), *final(mem), set![h.0, h.1]),
{
    let _ = mem.consume_region(h.0);
    let _ = mem.consume_region(h.1);
    assert(mem.regions() =~= old(mem).regions().remove_keys(set![h.0, h.1]));
}

/// Releases three regions after the host call that read them.
pub fn release3(mem: &mut Memory, h: (u32, u32, u32))
    requires
        old(mem).wf(),
        old(mem).live(h.0),
        old(mem).live(h.1),
        old(mem).live(h.2),
        h.0 != h.1 && h.0 != h.2 && h.1 != h.2,
    ensures
        released(*old(mem), *final(mem), set![h.0, h.1, h.2]),
{
    let _ = mem.consume_region(h.0);
    let _ = mem.consume_region(h.1);
    let _ = mem.consume_region(h.2);
    assert(mem.regions() =~= old(mem).regions().remove_keys(set![h.0, h.1, h.2]));
}

/// A region built from bytes and then consumed gives back those bytes, and
/// while it lived its length equalled its capacity.
pub proof fn lemma_build_then_consume(
    m0: Memory,
    m1: Memory,
    m2: Memory,
    h: u32,
    bytes: Seq<u8>,
    r: Seq<u8>,
)
    requires
        Memory::built(m0, m1, h, bytes),
        Memory::consumed(m1, m2, h, r),
    ensures
        r == bytes,
        m1.region(h).length == m1.region(h).capacity,
        m2.regions() == m0.regions(),
{
    assert(m2.regions() =~= m0.regions()) by {
        assert(m1.wf());
        assert forall|k: u32| #[trigger] m0.regions().contains_key(k) implies k != h by {
            assert(m1.regions().contains_key(k));
        }
    }
}

} // verus!
