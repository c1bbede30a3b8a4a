use vstd::prelude::*;
use vstd::bytes::*;

verus! {

/// A Solana account address, held as its 32 raw bytes.
pub type Pubkey = [u8; 32];

/// Little-endian encoding of a sequence of 64-bit words, one word after
/// another; this is how borsh lays out `u64` fields and `[u64; N]` arrays.
pub open spec fn words_bytes(ws: Seq<u64>) -> Seq<u8>
    decreases ws.len(),
{
    if ws.len() == 0 {
        Seq::empty()
    } else {
        words_bytes(ws.drop_last()) + spec_u64_to_le_bytes(ws.last())
    }
}

pub proof fn lemma_words_bytes_len(ws: Seq<u64>)
    ensures
        words_bytes(ws).len() == 8 * ws.len(),
    decreases ws.len(),
{
    lemma_auto_spec_u64_to_from_le_bytes();
    if ws.len() > 0 {
        lemma_words_bytes_len(ws.drop_last());
    }
}

pub proof fn lemma_words_bytes_push(ws: Seq<u64>, w: u64)
    ensures
        words_bytes(ws.push(w)) == words_bytes(ws) + spec_u64_to_le_bytes(w),
{
    assert(ws.push(w).drop_last() =~= ws);
}

/// Equal encodings of equally long word sequences come from equal words.
pub proof fn lemma_words_bytes_injective(a: Seq<u64>, b: Seq<u64>)
    requires
        a.len() == b.len(),
        words_bytes(a) == words_bytes(b),
    ensures
        a == b,
    decreases a.len(),
{
    if a.len() > 0 {
        lemma_auto_spec_u64_to_from_le_bytes();
        lemma_words_bytes_len(a.drop_last());
        lemma_words_bytes_len(b.drop_last());
        let n: int = 8 * (a.len() - 1);
        let wa = words_bytes(a);
        let wb = words_bytes(b);
        assert(wa.subrange(0, n) =~= words_bytes(a.drop_last()));
        assert(wb.subrange(0, n) =~= words_bytes(b.drop_last()));
        assert(wa.subrange(n, n + 8) =~= spec_u64_to_le_bytes(a.last()));
        assert(wb.subrange(n, n + 8) =~= spec_u64_to_le_bytes(b.last()));
        lemma_words_bytes_injective(a.drop_last(), b.drop_last());
        assert(spec_u64_from_le_bytes(spec_u64_to_le_bytes(a.last())) == a.last());
        assert(spec_u64_from_le_bytes(spec_u64_to_le_bytes(b.last())) == b.last());
        assert forall|i: int| 0 <= i < a.len() implies a[i] == b[i] by {
            if i < a.len() - 1 {
                assert(a.drop_last()[i] == b.drop_last()[i]);
            }
        }
        assert(a =~= b);
    }
}

/// Two concatenations with equally long first parts are equal part by part.
pub proof fn lemma_concat_split<A>(a1: Seq<A>, b1: Seq<A>, a2: Seq<A>, b2: Seq<A>)
    requires
        a1.len() == a2.len(),
        a1 + b1 == a2 + b2,
    ensures
        a1 == a2,
        b1 == b2,
{
    let n = a1.len() as int;
    assert(a1 =~= (a1 + b1).subrange(0, n));
    assert(a2 =~= (a2 + b2).subrange(0, n));
    assert(b1 =~= (a1 + b1).subrange(n, (a1 + b1).len() as int));
    assert(b2 =~= (a2 + b2).subrange(n, (a2 + b2).len() as int));
}

/// Reads the little-endian word at `off`.
pub fn read_u64(data: &[u8], off: usize) -> (v: u64)
    requires
        off + 8 <= data@.len(),
    ensures
        spec_u64_to_le_bytes(v) == data@.subrange(off as int, off + 8),
{
    let len = data.len();
    assert(off + 8 <= len);
    let s = &data[off..off + 8];
    let v = u64_from_le_bytes(s);
    proof {
        lemma_auto_spec_u64_to_from_le_bytes();
    }
    v
}

/// Reads `n` little-endian words starting at `off`.
pub fn read_words(data: &[u8], off: usize, n: usize) -> (ws: Vec<u64>)
    requires
        off + 8 * n <= data@.len(),
    ensures
        ws@.len() == n,
        words_bytes(ws@) == data@.subrange(off as int, off + 8 * n),
{
    let len = data.len();
    let mut ws: Vec<u64> = Vec::new();
    let mut i: usize = 0;
    while i < n
        invariant
            i <= n,
            off + 8 * n <= data@.len(),
            len == data@.len(),
            ws@.len() == i,
            words_bytes(ws@) == data@.subrange(off as int, off + 8 * i),
        decreases n - i,
    {
        let w = read_u64(data, off + 8 * i);
        proof {
            lemma_words_bytes_push(ws@, w);
        }
        ws.push(w);
        i = i + 1;
        assert(words_bytes(ws@) =~= data@.subrange(off as int, off + 8 * i));
    }
    ws
}

/// Appends the little-endian encoding of `v`.
pub fn append_u64(out: &mut Vec<u8>, v: u64)
    ensures
        final(out)@ == old(out)@ + spec_u64_to_le_bytes(v),
{
    let bytes = u64_to_le_bytes(v);
    out.extend_from_slice(bytes.as_slice());
}

/// Appends the little-endian encoding of every word of `ws`.
pub fn append_words(out: &mut Vec<u8>, ws: &[u64])
    ensures
        final(out)@ == old(out)@ + words_bytes(ws@),
{
    let ghost start = out@;
    let mut i: usize = 0;
    while i < ws.len()
        invariant
            i <= ws@.len(),
            out@ == start + words_bytes(ws@.subrange(0, i as int)),
        decreases ws@.len() - i,
    {
        proof {
            lemma_words_bytes_push(ws@.subrange(0, i as int), ws@[i as int]);
            assert(ws@.subrange(0, i as int).push(ws@[i as int]) =~= ws@.subrange(0, i + 1));
        }
        append_u64(out, ws[i]);
        i = i + 1;
    }
    assert(ws@.subrange(0, i as int) =~= ws@);
}

/// Appends raw bytes.
pub fn append_bytes(out: &mut Vec<u8>, bytes: &[u8])
    ensures
        final(out)@ == old(out)@ + bytes@,
{
    out.extend_from_slice(bytes);
}

/// Copies the 32 bytes at `off` into a key.
pub fn read_key(data: &[u8], off: usize) -> (k: Pubkey)
    requires
        off + 32 <= data@.len(),
    ensures
        k@ == data@.subrange(off as int, off + 32),
{
    let len = data.len();
    let mut k = [0u8; 32];
    let mut i: usize = 0;
    while i < 32
        invariant
            i <= 32,
            off + 32 <= data@.len(),
            len == data@.len(),
            forall|j: int| 0 <= j < i ==> k@[j] == data@[off + j],
        decreases 32 - i,
    {
        k[i] = data[off + i];
        i = i + 1;
    }
    assert(k@ =~= data@.subrange(off as int, off + 32));
    k
}

/// Copies `N` bytes at `off` into an array.
pub fn read_array<const N: usize>(data: &[u8], off: usize) -> (a: [u8; N])
    requires
        off + N <= data@.len(),
    ensures
        a@ == data@.subrange(off as int, off + N),
{
    let len = data.len();
    let mut a = [0u8; N];
    let mut i: usize = 0;
    while i < N
        invariant
            i <= N,
            a@.len() == N,
            off + N <= data@.len(),
            len == data@.len(),
            forall|j: int| 0 <= j < i ==> a@[j] == data@[off + j],
        decreases N - i,
    {
        a[i] = data[off + i];
        i = i + 1;
    }
    assert(a@ =~= data@.subrange(off as int, off + N));
    a
}

/// Copies `N` words of `ws`, starting at `off`, into an array.
pub fn words_to_array<const N: usize>(ws: &Vec<u64>, off: usize) -> (a: [u64; N])
    requires
        off + N <= ws@.len(),
    ensures
        a@ == ws@.subrange(off as int, off + N),
{
    let len = ws.len();
    let mut a = [0u64; N];
    let mut i: usize = 0;
    while i < N
        invariant
            i <= N,
            a@.len() == N,
            off + N <= ws@.len(),
            len == ws@.len(),
            forall|j: int| 0 <= j < i ==> a@[j] == ws@[off + j],
        decreases N - i,
    {
        a[i] = ws[off + i];
        i = i + 1;
    }
    assert(a@ =~= ws@.subrange(off as int, off + N));
    a
}

/// Byte-wise comparison of two keys.
pub fn keys_equal(a: &Pubkey, b: &Pubkey) -> (r: bool)
    ensures
        r == (a@ == b@),
{
    let mut i: usize = 0;
    while i < 32
        invariant
            i <= 32,
            forall|j: int| 0 <= j < i ==> a@[j] == b@[j],
        decreases 32 - i,
    {
        if a[i] != b[i] {
            return false;
        }
        i = i + 1;
    }
    assert(a@ =~= b@);
    true
}

} // verus!
