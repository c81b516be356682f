use vstd::prelude::*;

verus! {

/// Whether bit `k` (0 is the least significant) of `b` is set.
pub open spec fn bit_is_set(b: u8, k: int) -> bool {
    0 <= k < 8 && (b >> (k as u8)) & 1u8 == 1u8
}

/// Edge indices encoded by the bits `0..k` of byte `b` standing at
/// position `i` of the map, in increasing bit order.
pub open spec fn byte_edges_below(b: u8, i: int, k: int) -> Seq<int>
    decreases k,
{
    if k <= 0 {
        Seq::empty()
    } else {
        let prev = byte_edges_below(b, i, k - 1);
        if bit_is_set(b, k - 1) {
            prev.push(8 * i + (k - 1))
        } else {
            prev
        }
    }
}

/// Edge indices encoded by byte `b` at position `i` of the map:
/// `8 * i + k` for every set bit `k`, lowest bit first.
pub open spec fn byte_edges(b: u8, i: int) -> Seq<int> {
    byte_edges_below(b, i, 8)
}

/// Edge indices encoded by the first `n` bytes of `map`.
pub open spec fn decode_prefix(map: Seq<u8>, n: int) -> Seq<int>
    decreases n,
{
    if n <= 0 {
        Seq::empty()
    } else {
        decode_prefix(map, n - 1) + byte_edges(map[n - 1], n - 1)
    }
}

/// Edge indices encoded by a whole coverage map, byte by byte and
/// lowest bit first.
pub open spec fn decode_map(map: Seq<u8>) -> Seq<int> {
    decode_prefix(map, map.len() as int)
}

/// Positions of the non-zero bytes among the first `n` of `map`.
pub open spec fn nonzero_prefix(map: Seq<u8>, n: int) -> Seq<int>
    decreases n,
{
    if n <= 0 {
        Seq::empty()
    } else if map[n - 1] != 0 {
        nonzero_prefix(map, n - 1).push(n - 1)
    } else {
        nonzero_prefix(map, n - 1)
    }
}

/// The values of a list of indices, as mathematical integers.
pub open spec fn as_ints(v: Seq<usize>) -> Seq<int> {
    v.map_values(|e: usize| e as int)
}

pub proof fn lemma_as_ints_push(v: Seq<usize>, e: usize)
    ensures
        as_ints(v.push(e)) == as_ints(v).push(e as int),
{
    assert(as_ints(v.push(e)) =~= as_ints(v).push(e as int));
}

/// Appends to `out` the edge indices of the byte at `byte_index`.
pub(crate) fn push_byte_edges(out: &mut Vec<usize>, map: &[u8], byte_index: usize)
    requires
        byte_index < map@.len(),
        map@.len() * 8 <= usize::MAX,
    ensures
        as_ints(final(out)@) == as_ints(old(out)@) + byte_edges(map@[byte_index as int], byte_index as int),
{
    let item = map[byte_index];
    if item == 0 {
        proof {
            assert forall|k: int| 0 <= k <= 8 implies byte_edges_below(item, byte_index as int, k) =~= Seq::<int>::empty() by {
                lemma_zero_byte_has_no_edges(item, byte_index as int, k);
            }
            assert(as_ints(out@) + byte_edges(item, byte_index as int) =~= as_ints(out@));
        }
        return;
    }
    let mut bit_index: u8 = 0;
    while bit_index < 8
        invariant
            0 <= bit_index <= 8,
            byte_index < map@.len(),
            map@.len() * 8 <= usize::MAX,
            item == map@[byte_index as int],
            as_ints(out@) == as_ints(old(out)@) + byte_edges_below(item, byte_index as int, bit_index as int),
        decreases 8 - bit_index,
    {
        let mask: u8 = 1u8 << bit_index;
        let set = (item & mask) != 0;
        proof {
            lemma_mask_bit(item, bit_index);
        }
        if set {
            let edge = byte_index * 8 + bit_index as usize;
            proof {
                lemma_as_ints_push(out@, edge);
            }
            out.push(edge);
            assert(as_ints(out@) =~= as_ints(old(out)@) + byte_edges_below(item, byte_index as int, bit_index as int + 1));
        }
        bit_index = bit_index + 1;
    }
}

proof fn lemma_mask_bit(b: u8, k: u8)
    requires
        k < 8,
    ensures
        ((b & (1u8 << k)) != 0) == bit_is_set(b, k as int),
{
    assert(((b & (1u8 << k)) != 0u8) == ((b >> k) & 1u8 == 1u8)) by (bit_vector)
        requires
            k < 8u8,
    ;
}

proof fn lemma_zero_byte_has_no_edges(b: u8, i: int, k: int)
    requires
        b == 0,
        0 <= k <= 8,
    ensures
        byte_edges_below(b, i, k) =~= Seq::<int>::empty(),
    decreases k,
{
    if k > 0 {
        lemma_zero_byte_has_no_edges(b, i, k - 1);
        let s = (k - 1) as u8;
        assert(((b >> s) & 1u8) == 0u8) by (bit_vector)
            requires
                b == 0u8,
        ;
    }
}

/// Decodes a coverage bitmap into edge indices: for each non-zero
/// byte `i` and each of its set bits `k`, the index `8 * i + k`, in
/// increasing order.
pub fn collect_bit_coverage(map: &[u8]) -> (coverage: Vec<usize>)
    requires
        map@.len() * 8 <= usize::MAX,
    ensures
        as_ints(coverage@) == decode_map(map@),
{
    let mut coverage: Vec<usize> = Vec::new();
    let mut i: usize = 0;
    while i < map.len()
        invariant
            i <= map@.len(),
            map@.len() * 8 <= usize::MAX,
            as_ints(coverage@) == decode_prefix(map@, i as int),
        decreases map@.len() - i,
    {
        push_byte_edges(&mut coverage, map, i);
        i = i + 1;
    }
    coverage
}

/// Positions of the non-zero bytes of a coverage map, in increasing
/// order.
pub fn collect_byte_coverage(map: &[u8]) -> (coverage: Vec<usize>)
    ensures
        as_ints(coverage@) == nonzero_prefix(map@, map@.len() as int),
{
    let mut coverage: Vec<usize> = Vec::new();
    let mut i: usize = 0;
    while i < map.len()
        invariant
            i <= map@.len(),
            as_ints(coverage@) == nonzero_prefix(map@, i as int),
        decreases map@.len() - i,
    {
        if map[i] != 0 {
            proof {
                lemma_as_ints_push(coverage@, i);
            }
            coverage.push(i);
        }
        i = i + 1;
    }
    coverage
}

/// The byte at position `i` of the bitmap encoding the edge set `edges`:
/// bit `k` is set exactly when `8 * i + k` is in `edges`.
pub open spec fn encode_byte(edges: Set<int>, i: int) -> u8 {
    (if edges.contains(8 * i) { 1u8 } else { 0u8 })
        | (if edges.contains(8 * i + 1) { 2u8 } else { 0u8 })
        | (if edges.contains(8 * i + 2) { 4u8 } else { 0u8 })
        | (if edges.contains(8 * i + 3) { 8u8 } else { 0u8 })
        | (if edges.contains(8 * i + 4) { 16u8 } else { 0u8 })
        | (if edges.contains(8 * i + 5) { 32u8 } else { 0u8 })
        | (if edges.contains(8 * i + 6) { 64u8 } else { 0u8 })
        | (if edges.contains(8 * i + 7) { 128u8 } else { 0u8 })
}

/// The `m`-byte bitmap encoding the edge set `edges`.
pub open spec fn encode_map(edges: Set<int>, m: nat) -> Seq<u8> {
    Seq::new(m, |i: int| encode_byte(edges, i))
}

proof fn lemma_byte_edges_below(b: u8, i: int, k: int)
    requires
        0 <= k <= 8,
    ensures
        forall|e: int| #[trigger] byte_edges_below(b, i, k).contains(e) <==> (8 * i <= e < 8 * i + k && bit_is_set(b, e - 8 * i)),
    decreases k,
{
    if k > 0 {
        lemma_byte_edges_below(b, i, k - 1);
        let prev = byte_edges_below(b, i, k - 1);
        if bit_is_set(b, k - 1) {
            let next = prev.push(8 * i + (k - 1));
            assert forall|e: int| #[trigger] next.contains(e) <==> (prev.contains(e) || e == 8 * i + (k - 1)) by {
                if e == 8 * i + (k - 1) {
                    assert(next[prev.len() as int] == e);
                }
                if next.contains(e) && e != 8 * i + (k - 1) {
                    let w = choose|w: int| 0 <= w < next.len() && #[trigger] next[w] == e;
                    assert(prev[w] == e);
                }
                if prev.contains(e) {
                    let w = choose|w: int| 0 <= w < prev.len() && #[trigger] prev[w] == e;
                    assert(next[w] == e);
                }
            }
        }
    }
}

/// Decoding one byte gives exactly the edges `8 * i + k` of its set bits
/// `k`.
pub proof fn lemma_byte_decode(b: u8, i: int)
    ensures
        forall|e: int| #[trigger] byte_edges(b, i).contains(e) <==> (8 * i <= e < 8 * i + 8 && bit_is_set(b, e - 8 * i)),
{
    lemma_byte_edges_below(b, i, 8);
}

proof fn lemma_decode_prefix(map: Seq<u8>, n: int)
    requires
        0 <= n <= map.len(),
    ensures
        forall|e: int| #[trigger] decode_prefix(map, n).contains(e) <==> (0 <= e < 8 * n && bit_is_set(map[e / 8], e % 8)),
    decreases n,
{
    if n > 0 {
        lemma_decode_prefix(map, n - 1);
        lemma_byte_decode(map[n - 1], n - 1);
        let a = decode_prefix(map, n - 1);
        let b = byte_edges(map[n - 1], n - 1);
        assert forall|e: int| #[trigger] (a + b).contains(e) <==> (a.contains(e) || b.contains(e)) by {
            if (a + b).contains(e) {
                let w = choose|w: int| 0 <= w < (a + b).len() && #[trigger] (a + b)[w] == e;
                if w < a.len() {
                    assert(a[w] == e);
                } else {
                    assert(b[w - a.len()] == e);
                }
            }
            if a.contains(e) {
                let w = choose|w: int| 0 <= w < a.len() && #[trigger] a[w] == e;
                assert((a + b)[w] == e);
            }
            if b.contains(e) {
                let w = choose|w: int| 0 <= w < b.len() && #[trigger] b[w] == e;
                assert((a + b)[w + a.len()] == e);
            }
        }
        assert forall|e: int| #[trigger] decode_prefix(map, n).contains(e) <==> (0 <= e < 8 * n && bit_is_set(
            map[e / 8],
            e % 8,
        )) by {
            assert(decode_prefix(map, n) == a + b);
            if 8 * (n - 1) <= e < 8 * n {
                assert(e / 8 == n - 1);
                assert(e % 8 == e - 8 * (n - 1));
            } else if 0 <= e < 8 * (n - 1) {
                assert(e / 8 < n - 1);
            }
        }
    }
}

/// Decoding a whole map gives exactly the edges `8 * i + k` for each set
/// bit `k` of each byte `i`.
pub proof fn lemma_map_decode(map: Seq<u8>)
    ensures
        forall|e: int| #[trigger] decode_map(map).contains(e) <==> (0 <= e < 8 * map.len() && bit_is_set(map[e / 8], e % 8)),
{
    lemma_decode_prefix(map, map.len() as int);
}

proof fn lemma_encode_byte_bits(edges: Set<int>, i: int, k: int)
    requires
        0 <= k < 8,
    ensures
        bit_is_set(encode_byte(edges, i), k) <==> edges.contains(8 * i + k),
{
    let b0 = edges.contains(8 * i);
    let b1 = edges.contains(8 * i + 1);
    let b2 = edges.contains(8 * i + 2);
    let b3 = edges.contains(8 * i + 3);
    let b4 = edges.contains(8 * i + 4);
    let b5 = edges.contains(8 * i + 5);
    let b6 = edges.contains(8 * i + 6);
    let b7 = edges.contains(8 * i + 7);
    let x = encode_byte(edges, i);
    let s = k as u8;
    assert(((x >> s) & 1u8 == 1u8) == ((s == 0u8 && b0) || (s == 1u8 && b1) || (s == 2u8 && b2) || (s == 3u8 && b3)
        || (s == 4u8 && b4) || (s == 5u8 && b5) || (s == 6u8 && b6) || (s == 7u8 && b7))) by (bit_vector)
        requires
            s < 8u8,
            x == (if b0 { 1u8 } else { 0u8 }) | (if b1 { 2u8 } else { 0u8 }) | (if b2 { 4u8 } else { 0u8 }) | (if b3 {
                8u8
            } else {
                0u8
            }) | (if b4 { 16u8 } else { 0u8 }) | (if b5 { 32u8 } else { 0u8 }) | (if b6 { 64u8 } else { 0u8 }) | (
            if b7 {
                128u8
            } else {
                0u8
            }),
    ;
}

/// Every element of `s` is smaller than every later one.
pub open spec fn strictly_increasing(s: Seq<int>) -> bool {
    forall|a: int, c: int| 0 <= a < c < s.len() ==> #[trigger] s[a] < #[trigger] s[c]
}

proof fn lemma_byte_edges_sorted(b: u8, i: int, k: int)
    requires
        0 <= k <= 8,
    ensures
        strictly_increasing(byte_edges_below(b, i, k)),
        forall|j: int| 0 <= j < byte_edges_below(b, i, k).len() ==> 8 * i <= #[trigger] byte_edges_below(b, i, k)[j] < 8 * i + k,
    decreases k,
{
    if k > 0 {
        lemma_byte_edges_sorted(b, i, k - 1);
    }
}

proof fn lemma_decode_prefix_sorted(map: Seq<u8>, n: int)
    requires
        0 <= n <= map.len(),
    ensures
        strictly_increasing(decode_prefix(map, n)),
        forall|j: int| 0 <= j < decode_prefix(map, n).len() ==> 0 <= #[trigger] decode_prefix(map, n)[j] < 8 * n,
    decreases n,
{
    if n > 0 {
        lemma_decode_prefix_sorted(map, n - 1);
        lemma_byte_edges_sorted(map[n - 1], n - 1, 8);
        let a = decode_prefix(map, n - 1);
        let b = byte_edges(map[n - 1], n - 1);
        assert(decode_prefix(map, n) == a + b);
        assert forall|x: int, y: int| 0 <= x < y < (a + b).len() implies #[trigger] (a + b)[x] < #[trigger] (a + b)[y] by {
            if y < a.len() {
                assert(a[x] < a[y]);
            } else if x < a.len() {
                assert(a[x] < 8 * (n - 1));
                assert(b[y - a.len()] >= 8 * (n - 1));
            } else {
                assert(b[x - a.len()] < b[y - a.len()]);
            }
        }
        assert forall|j: int| 0 <= j < (a + b).len() implies 0 <= #[trigger] (a + b)[j] < 8 * n by {
            if j < a.len() {
                assert(a[j] < 8 * (n - 1));
            } else {
                assert(8 * (n - 1) <= b[j - a.len()] < 8 * n);
            }
        }
    }
}

/// The decoded edge indices of a map come in strictly increasing order.
pub proof fn lemma_map_decode_sorted(map: Seq<u8>)
    ensures
        strictly_increasing(decode_map(map)),
{
    lemma_decode_prefix_sorted(map, map.len() as int);
}

/// Encoding a set of edge indices below `8 * m` into an `m`-byte bitmap
/// and decoding that bitmap gives back the same set, in increasing order.
pub proof fn lemma_encode_decode_round_trip(edges: Set<int>, m: nat)
    requires
        forall|e: int| #[trigger] edges.contains(e) ==> 0 <= e < 8 * m,
    ensures
        forall|e: int| #[trigger] decode_map(encode_map(edges, m)).contains(e) <==> edges.contains(e),
        strictly_increasing(decode_map(encode_map(edges, m))),
{
    let map = encode_map(edges, m);
    lemma_map_decode_sorted(map);
    lemma_map_decode(map);
    assert forall|e: int| #[trigger] decode_map(map).contains(e) <==> edges.contains(e) by {
        if 0 <= e < 8 * m {
            lemma_encode_byte_bits(edges, e / 8, e % 8);
            assert(8 * (e / 8) + e % 8 == e);
        }
    }
}

} // verus!
