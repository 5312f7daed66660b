//! Splits a payload into numbered pages.

use vstd::prelude::*;
use vstd::slice::slice_subrange;

verus! {

/// How many pages `len` bytes take at `size` bytes a page.
pub open spec fn page_count(len: nat, size: nat) -> nat {
    if size == 0 {
        0
    } else {
        ((len + size - 1) / (size as int)) as nat
    }
}

/// The bytes of `data` that page `i` (from 0) carries.
pub open spec fn page_chunk(data: Seq<u8>, size: nat, i: int) -> Seq<u8> {
    let start = i * size;
    let end = if start + size <= data.len() { start + size } else { data.len() as int };
    data.subrange(start, end)
}

/// The index byte of page `i` (from 0): pages count from 1, in one byte.
pub open spec fn page_index(i: int) -> u8 {
    ((i + 1) % 256) as u8
}

/// Page `i` (from 0): the header, the index byte, the chunk.
pub open spec fn page(header: Seq<u8>, size: nat, data: Seq<u8>, i: int) -> Seq<u8> {
    header + seq![page_index(i)] + page_chunk(data, size, i)
}

/// All pages of `data`, in order.
pub open spec fn paginated(header: Seq<u8>, size: nat, data: Seq<u8>) -> Seq<Seq<u8>> {
    Seq::new(page_count(data.len(), size), |i: int| page(header, size, data, i))
}

/// The pages of `paginated` with header and index byte taken off.
pub open spec fn stripped_pages(header: Seq<u8>, size: nat, data: Seq<u8>) -> Seq<Seq<u8>> {
    Seq::new(
        page_count(data.len(), size),
        |i: int| paginated(header, size, data)[i].skip(header.len() as int + 1),
    )
}

proof fn lemma_page_count_bounds(len: nat, size: nat)
    requires
        size >= 1,
    ensures
        (page_count(len, size) - 1) * size < len || len == 0,
        len <= page_count(len, size) * size,
        len == 0 <==> page_count(len, size) == 0,
{
    let n = (len + size - 1) / (size as int);
    assert(0 <= n && n * size <= len + size - 1 < n * size + size) by (nonlinear_arith)
        requires
            size >= 1,
            n == (len + size - 1) / (size as int),
    ;
    assert((n - 1) * size == n * size - size) by (nonlinear_arith);
    if len == 0 {
        assert(n == 0) by (nonlinear_arith)
            requires
                n * size <= size - 1,
                n >= 0,
                size >= 1,
        ;
    } else {
        assert(n != 0) by (nonlinear_arith)
            requires
                len + size - 1 < n * size + size,
                len >= 1,
        ;
    }
}

/// The first `k` chunks, joined, are the first `k * size` bytes of the data
/// (all of it once the chunks run out).
proof fn lemma_chunks_join(header: Seq<u8>, size: nat, data: Seq<u8>, k: int)
    requires
        size >= 1,
        0 <= k <= page_count(data.len(), size),
    ensures
        stripped_pages(header, size, data).take(k).flatten() == data.take(
            if k * size <= data.len() { k * size } else { data.len() as int },
        ),
    decreases k,
{
    let pages = stripped_pages(header, size, data);
    lemma_page_count_bounds(data.len(), size);
    if k == 0 {
        assert(pages.take(0) =~= Seq::<Seq<u8>>::empty());
        assert(data.take(0) =~= Seq::<u8>::empty());
    } else {
        lemma_chunks_join(header, size, data, k - 1);
        let n = page_count(data.len(), size);
        assert((k - 1) * size == k * size - size) by (nonlinear_arith);
        assert((k - 1) * size <= (n - 1) * size) by (nonlinear_arith)
            requires
                k <= n,
                size >= 1,
        ;
        let start = (k - 1) * size;
        let end = if k * size <= data.len() { k * size } else { data.len() as int };
        assert(pages.take(k) =~= pages.take(k - 1).push(pages[k - 1]));
        pages.take(k - 1).lemma_flatten_push(pages[k - 1]);
        assert(pages[k - 1] =~= page_chunk(data, size, k - 1));
        assert(data.take(start) + data.subrange(start, end) =~= data.take(end));
    }
}

/// Joining the chunks of all pages, in order, gives the data back, and the
/// index bytes count 1, 2, 3, ... (in one byte) without a gap.
pub proof fn lemma_pages_rebuild_data(header: Seq<u8>, size: nat, data: Seq<u8>)
    requires
        size >= 1,
    ensures
        stripped_pages(header, size, data).flatten() == data,
        forall|i: int|
            0 <= i < page_count(data.len(), size) ==> (#[trigger] paginated(
                header,
                size,
                data,
            )[i])[header.len() as int] == page_index(i),
        forall|i: int| 0 <= i < 255 ==> #[trigger] page_index(i) == i + 1,
{
    let n = page_count(data.len(), size);
    let pages = stripped_pages(header, size, data);
    lemma_page_count_bounds(data.len(), size);
    lemma_chunks_join(header, size, data, n as int);
    assert(pages.take(n as int) =~= pages);
    assert(data.take(data.len() as int) =~= data);
}

/// No page is longer than header, index byte and a full chunk; all pages
/// but the last are exactly that long, and the last is not empty.
pub proof fn lemma_page_lengths(header: Seq<u8>, size: nat, data: Seq<u8>, i: int)
    requires
        size >= 1,
        0 <= i < page_count(data.len(), size),
    ensures
        paginated(header, size, data)[i].len() <= header.len() + 1 + size,
        paginated(header, size, data)[i].len() > header.len() + 1,
        i + 1 < page_count(data.len(), size) ==> paginated(header, size, data)[i].len()
            == header.len() + 1 + size,
{
    let n = page_count(data.len(), size);
    lemma_page_count_bounds(data.len(), size);
    assert(i * size <= (n - 1) * size) by (nonlinear_arith)
        requires
            i <= n - 1,
            size >= 1,
    ;
    assert((i + 1) * size == i * size + size) by (nonlinear_arith);
    if i + 1 < n {
        assert((i + 1) * size <= (n - 1) * size) by (nonlinear_arith)
            requires
                i + 1 <= n - 1,
                size >= 1,
        ;
    }
}

/// Splits `data` into chunks of at most `length` bytes and puts `header` and
/// a one-byte index, counting from 1, in front of each.
pub fn paginate_cpackets(header: &[u8], length: usize, data: &[u8]) -> (packets: Vec<Vec<u8>>)
    requires
        length >= 1,
    ensures
        packets.deep_view() == paginated(header@, length as nat, data@),
{
    let mut packets: Vec<Vec<u8>> = Vec::new();
    let mut start: usize = 0;
    let mut index: u8 = 1;
    proof {
        lemma_page_count_bounds(data@.len(), length as nat);
        assert(0 * length == 0) by (nonlinear_arith);
    }
    while start < data.len()
        invariant
            length >= 1,
            start <= data.len(),
            start < data.len() ==> start == packets.len() * length,
            start < data.len() ==> packets.len() < page_count(data@.len(), length as nat),
            start == data.len() ==> packets.len() == page_count(data@.len(), length as nat),
            index == page_index(packets.len() as int),
            forall|i: int|
                0 <= i < packets.len() ==> (#[trigger] packets[i])@ == page(
                    header@,
                    length as nat,
                    data@,
                    i,
                ),
        decreases data.len() - start,
    {
        let ghost i = packets.len() as int;
        let ghost n = page_count(data@.len(), length as nat) as int;
        let end: usize = if data.len() - start > length {
            start + length
        } else {
            data.len()
        };
        let mut packet: Vec<u8> = Vec::new();
        packet.extend_from_slice(header);
        packet.push(index);
        packet.extend_from_slice(slice_subrange(data, start, end));
        proof {
            lemma_page_count_bounds(data@.len(), length as nat);
            assert((i + 1) * length == i * length + length) by (nonlinear_arith);
            assert(packet@ =~= page(header@, length as nat, data@, i));
            if end == data.len() {
                // the last page: i + 1 pages cover the data, i do not
                assert(i + 1 == n) by (nonlinear_arith)
                    requires
                        i < n,
                        (n - 1) * length < data@.len(),
                        data@.len() <= (i + 1) * length,
                        length >= 1,
                ;
            } else {
                assert(i + 1 < n) by (nonlinear_arith)
                    requires
                        i < n,
                        data@.len() <= n * length,
                        (i + 1) * length < data@.len(),
                        length >= 1,
                ;
            }
        }
        packets.push(packet);
        index = if index == 255 { 0 } else { index + 1 };
        start = end;
    }
    proof {
        assert(packets.deep_view() =~~= paginated(header@, length as nat, data@));
    }
    packets
}

} // verus!
