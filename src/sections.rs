use vstd::prelude::*;

verus! {

/// The four bytes of `n`, most significant first.
pub open spec fn be32(n: u32) -> Seq<u8> {
    seq![
        ((n >> 24u32) & 0xffu32) as u8,
        ((n >> 16u32) & 0xffu32) as u8,
        ((n >> 8u32) & 0xffu32) as u8,
        (n & 0xffu32) as u8,
    ]
}

/// The big-endian number held by the four bytes of `s` that start at `at`.
pub open spec fn read_be32(s: Seq<u8>, at: int) -> u32 {
    ((s[at] as u32) << 24u32) | ((s[at + 1] as u32) << 16u32) | ((s[at + 2] as u32) << 8u32) | (
    s[at + 3] as u32)
}

/// Each section followed by its length as four big-endian bytes, in order.
pub open spec fn encoded(sections: Seq<Seq<u8>>) -> Seq<u8>
    decreases sections.len(),
{
    if sections.len() == 0 {
        Seq::empty()
    } else {
        let last = sections.last();
        encoded(sections.drop_last()) + last + be32(last.len() as u32)
    }
}

/// Splits off the last section of `s`: what stands before it, and the section.
pub open spec fn split_tail(s: Seq<u8>) -> Option<(Seq<u8>, Seq<u8>)> {
    if s.len() < 4 {
        None
    } else {
        let n = read_be32(s, s.len() - 4) as int;
        if n > s.len() - 4 {
            None
        } else {
            Some((s.subrange(0, s.len() - 4 - n), s.subrange(s.len() - 4 - n, s.len() - 4)))
        }
    }
}

/// The last two sections of `s`, in order, or `None` when `s` does not end with two.
pub open spec fn decoded2(s: Seq<u8>) -> Option<(Seq<u8>, Seq<u8>)> {
    match split_tail(s) {
        Some((rest, second)) => match split_tail(rest) {
            Some((_, first)) => Some((first, second)),
            None => None,
        },
        None => None,
    }
}

/// The bytes of each section.
pub open spec fn views(sections: Seq<Vec<u8>>) -> Seq<Seq<u8>> {
    sections.map_values(|v: Vec<u8>| v@)
}

/// Whether each section length fits in four bytes and the encoding fits in memory.
pub open spec fn sections_fit(sections: Seq<Seq<u8>>) -> bool {
    &&& forall|i: int| 0 <= i < sections.len() ==> #[trigger] sections[i].len() <= u32::MAX
    &&& encoded(sections).len() <= usize::MAX
}

proof fn lemma_be32_read(n: u32)
    ensures
        be32(n).len() == 4,
        read_be32(be32(n), 0) == n,
{
    let b0 = ((n >> 24u32) & 0xffu32) as u8;
    let b1 = ((n >> 16u32) & 0xffu32) as u8;
    let b2 = ((n >> 8u32) & 0xffu32) as u8;
    let b3 = (n & 0xffu32) as u8;
    assert(((b0 as u32) << 24u32) | ((b1 as u32) << 16u32) | ((b2 as u32) << 8u32) | (b3 as u32)
        == n) by (bit_vector)
        requires
            b0 == ((n >> 24u32) & 0xffu32) as u8,
            b1 == ((n >> 16u32) & 0xffu32) as u8,
            b2 == ((n >> 8u32) & 0xffu32) as u8,
            b3 == (n & 0xffu32) as u8,
    ;
}

proof fn lemma_encoded_prefix(sections: Seq<Seq<u8>>, i: int)
    requires
        0 <= i <= sections.len(),
    ensures
        encoded(sections.subrange(0, i)).len() <= encoded(sections).len(),
    decreases sections.len() - i,
{
    if i < sections.len() {
        lemma_encoded_prefix(sections, i + 1);
        assert(sections.subrange(0, i + 1).drop_last() =~= sections.subrange(0, i));
    } else {
        assert(sections.subrange(0, i) =~= sections);
    }
}

/// Concatenates the sections, each followed by its length as four big-endian bytes.
pub fn encode_sections(sections: &Vec<Vec<u8>>) -> (r: Vec<u8>)
    requires
        sections_fit(views(sections@)),
    ensures
        r@ == encoded(views(sections@)),
{
    let mut out: Vec<u8> = Vec::new();
    let mut i: usize = 0;
    while i < sections.len()
        invariant
            i <= sections@.len(),
            sections_fit(views(sections@)),
            out@ == encoded(views(sections@).subrange(0, i as int)),
        decreases sections@.len() - i,
    {
        let section = &sections[i];
        proof {
            lemma_encoded_prefix(views(sections@), i + 1);
            assert(views(sections@).subrange(0, i + 1).drop_last() =~= views(sections@).subrange(
                0,
                i as int,
            ));
            assert(views(sections@)[i as int] == section@);
        }
        let ghost start = out@;
        let mut j: usize = 0;
        while j < section.len()
            invariant
                j <= section@.len(),
                out@ == start + section@.subrange(0, j as int),
                start.len() + section@.len() + 4 <= usize::MAX,
            decreases section@.len() - j,
        {
            out.push(section[j]);
            j = j + 1;
            assert(out@ =~= start + section@.subrange(0, j as int));
        }
        let n = section.len() as u32;
        out.push(((n >> 24u32) & 0xffu32) as u8);
        out.push(((n >> 16u32) & 0xffu32) as u8);
        out.push(((n >> 8u32) & 0xffu32) as u8);
        out.push((n & 0xffu32) as u8);
        assert(section@.subrange(0, j as int) =~= section@);
        assert(out@ =~= encoded(views(sections@).subrange(0, i + 1)));
        i = i + 1;
    }
    assert(views(sections@).subrange(0, i as int) =~= views(sections@));
    out
}

fn read_tail_len(data: &Vec<u8>) -> (r: u32)
    requires
        data@.len() >= 4,
    ensures
        r == read_be32(data@, data@.len() - 4),
{
    let k = data.len() - 4;
    ((data[k] as u32) << 24u32) | ((data[k + 1] as u32) << 16u32) | ((data[k + 2] as u32) << 8u32)
        | (data[k + 3] as u32)
}

/// Splits the last section off `data`: `data` keeps what stands before it.
fn take_tail(data: &mut Vec<u8>) -> (r: Option<Vec<u8>>)
    ensures
        match split_tail(old(data)@) {
            Some((rest, last)) => r is Some && r->0@ == last && final(data)@ == rest,
            None => r is None,
        },
{
    if data.len() < 4 {
        return None;
    }
    let n = read_tail_len(data);
    let body = data.len() - 4;
    if n as usize > body {
        return None;
    }
    data.truncate(body);
    let last = data.split_off(body - n as usize);
    Some(last)
}

/// The last two sections of `data`, in order; `None` when `data` is malformed.
pub fn decode_sections2(data: Vec<u8>) -> (r: Option<(Vec<u8>, Vec<u8>)>)
    ensures
        match decoded2(data@) {
            Some((a, b)) => r is Some && (r->0).0@ == a && (r->0).1@ == b,
            None => r is None,
        },
{
    let mut data = data;
    match take_tail(&mut data) {
        Some(second) => match take_tail(&mut data) {
            Some(first) => Some((first, second)),
            None => None,
        },
        None => None,
    }
}

/// Two sections encoded together decode to the same two sections.
pub proof fn lemma_sections2_round_trip(a: Seq<u8>, b: Seq<u8>)
    requires
        a.len() <= u32::MAX,
        b.len() <= u32::MAX,
    ensures
        decoded2(encoded(seq![a, b])) == Some((a, b)),
{
    let s = seq![a, b];
    assert(s.drop_last() =~= seq![a]);
    assert(seq![a].drop_last() =~= Seq::<Seq<u8>>::empty());
    let ea = a + be32(a.len() as u32);
    assert(encoded(Seq::<Seq<u8>>::empty()) =~= Seq::<u8>::empty());
    assert(seq![a].last() == a);
    assert(encoded(seq![a]) == encoded(Seq::<Seq<u8>>::empty()) + a + be32(a.len() as u32));
    assert(encoded(seq![a]) =~= ea);
    let e = ea + b + be32(b.len() as u32);
    assert(encoded(s) =~= e);
    lemma_be32_read(a.len() as u32);
    lemma_be32_read(b.len() as u32);
    assert(read_be32(e, e.len() - 4) == read_be32(be32(b.len() as u32), 0));
    assert(e.subrange(0, e.len() - 4 - b.len()) =~= ea);
    assert(e.subrange(e.len() - 4 - b.len(), e.len() - 4) =~= b);
    assert(read_be32(ea, ea.len() - 4) == read_be32(be32(a.len() as u32), 0));
    assert(ea.subrange(0, ea.len() - 4 - a.len()) =~= Seq::<u8>::empty());
    assert(ea.subrange(ea.len() - 4 - a.len(), ea.len() - 4) =~= a);
}

} // verus!
