//! The encodings that both transports put around protobuf messages:
//! base64 text, CRC-32 checksums, and cutting byte strings into pieces.

use base64::Engine;
use vstd::prelude::*;

verus! {

/// The text that the standard base64 engine of the `base64` crate (standard
/// alphabet, with `=` padding) writes for `data`.
pub uninterp spec fn base64_text(data: Seq<u8>) -> Seq<u8>;

/// The bytes that the standard base64 engine reads from `text`, or `None`
/// where it reports a decode error.
pub uninterp spec fn base64_bytes(text: Seq<u8>) -> Option<Seq<u8>>;

/// The CRC-32 checksum that `crc32fast::hash` computes for `data`.
pub uninterp spec fn crc32_of(data: Seq<u8>) -> u32;

/// A byte of the standard base64 alphabet, or the padding byte `=`.
pub open spec fn is_base64_symbol(b: u8) -> bool {
    (65 <= b <= 90) || (97 <= b <= 122) || (48 <= b <= 57) || b == 43 || b == 47 || b == 61
}

/// Encodes `data` as standard base64 text.
///
/// Calls `Engine::encode` of `base64::engine::general_purpose::STANDARD`. The
/// contract claims: the result is the engine's text for `data`; it holds
/// four bytes for each started group of three input bytes (the engine
/// pads); every byte of it is a symbol of the standard alphabet or `=`; and
/// the same engine reads `data` back from it. The length bound rules out the overflow on which the
/// engine panics.
#[verifier::external_body]
pub(crate) fn base64_encode(data: &[u8]) -> (r: Vec<u8>)
    requires
        data@.len() <= usize::MAX / 2,
    ensures
        r@ == base64_text(data@),
        r@.len() == 4 * ((data@.len() + 2) / 3),
        forall|i: int| 0 <= i < r@.len() ==> is_base64_symbol(#[trigger] r@[i]),
        base64_bytes(r@) == Some(data@),
{
    base64::engine::general_purpose::STANDARD.encode(data).into_bytes()
}

/// Decodes standard base64 text.
///
/// Calls `Engine::decode` of `base64::engine::general_purpose::STANDARD`. The
/// contract claims that the result is the engine's reading of `text`, and an
/// error exactly where the engine reports one. The error carries the text of
/// the engine's `DecodeError`, of which nothing is stated.
#[verifier::external_body]
pub(crate) fn base64_decode(text: &[u8]) -> (r: Result<Vec<u8>, String>)
    ensures
        match r {
            Ok(v) => base64_bytes(text@) == Some(v@),
            Err(_) => base64_bytes(text@) is None,
        },
{
    base64::engine::general_purpose::STANDARD.decode(text).map_err(|e| e.to_string())
}

/// The CRC-32 checksum of `data`.
///
/// Calls `crc32fast::hash`; the contract names its result and claims nothing more.
#[verifier::external_body]
pub(crate) fn crc32(data: &[u8]) -> (r: u32)
    ensures
        r == crc32_of(data@),
{
    crc32fast::hash(data)
}

/// The `k`-th piece of `data` cut into pieces of `size` bytes; the last
/// piece may be shorter.
pub open spec fn piece(data: Seq<u8>, size: nat, k: nat) -> Seq<u8> {
    let start = k * size;
    let end = if (k + 1) * size <= data.len() { ((k + 1) * size) as int } else { data.len() as int };
    data.subrange(start as int, end as int)
}

/// How many pieces of `size` bytes hold `len` bytes.
pub open spec fn piece_count(len: nat, size: nat) -> nat {
    ((len + size - 1) / size as int) as nat
}

proof fn lemma_piece_count(n: int, size: int, k: int)
    by (nonlinear_arith)
    requires
        size > 0,
        n >= 0,
        k >= 0,
        k * size >= n,
        k == 0 || (k - 1) * size < n,
    ensures
        k == (n + size - 1) / size,
{
}

/// The bytes `data[from..to]` as a new vector.
pub fn copy_range(data: &[u8], from: usize, to: usize) -> (r: Vec<u8>)
    requires
        from <= to <= data@.len(),
    ensures
        r@ == data@.subrange(from as int, to as int),
{
    let mut r: Vec<u8> = Vec::new();
    let mut i = from;
    while i < to
        invariant
            from <= i <= to <= data@.len(),
            r@ == data@.subrange(from as int, i as int),
        decreases to - i,
    {
        r.push(data[i]);
        i = i + 1;
        assert(r@ =~= data@.subrange(from as int, i as int));
    }
    r
}

/// Cuts `data` into pieces of `size` bytes, in order; the last piece holds
/// what is left.
pub fn split_pieces(data: &[u8], size: usize) -> (r: Vec<Vec<u8>>)
    requires
        size > 0,
    ensures
        r@.len() == piece_count(data@.len(), size as nat),
        forall|k: int| 0 <= k < r@.len() ==> (#[trigger] r@[k])@ == piece(data@, size as nat, k as nat),
{
    let n = data.len();
    let mut out: Vec<Vec<u8>> = Vec::new();
    let mut pos: usize = 0;
    assert(out@.len() * size == 0) by (nonlinear_arith)
        requires
            out@.len() == 0,
    ;
    while pos < n
        invariant
            size > 0,
            n == data@.len(),
            pos <= n,
            pos < n ==> pos as int == out@.len() * size,
            pos == n ==> out@.len() * size >= n,
            out@.len() > 0 ==> (out@.len() - 1) * size < n,
            forall|k: int| 0 <= k < out@.len() ==> (#[trigger] out@[k])@ == piece(data@, size as nat, k as nat),
        decreases n - pos,
    {
        let rest = n - pos;
        let take = if rest < size { rest } else { size };
        let chunk = copy_range(data, pos, pos + take);
        let ghost k = out@.len();
        proof {
            assert((k + 1) * size == k * size + size) by (nonlinear_arith);
        }
        assert(chunk@ == piece(data@, size as nat, k as nat));
        out.push(chunk);
        pos = pos + take;
    }
    proof {
        lemma_piece_count(n as int, size as int, out@.len() as int);
    }
    out
}

/// The pieces `pieces`, joined in order.
pub open spec fn joined(pieces: Seq<Seq<u8>>) -> Seq<u8>
    decreases pieces.len(),
{
    if pieces.len() == 0 {
        Seq::empty()
    } else {
        joined(pieces.drop_last()) + pieces.last()
    }
}

proof fn lemma_pieces_prefix(data: Seq<u8>, size: nat, m: nat)
    requires
        size > 0,
        m <= piece_count(data.len(), size),
    ensures
        joined(Seq::new(m, |k: int| piece(data, size, k as nat)))
            == data.take(if m * size <= data.len() { (m * size) as int } else { data.len() as int }),
    decreases m,
{
    let n = data.len();
    let f = |k: int| piece(data, size, k as nat);
    if m == 0 {
        assert(m * size == 0) by (nonlinear_arith)
            requires
                m == 0,
        ;
        assert(joined(Seq::new(0, f)) =~= data.take(0));
    } else {
        let mm = (m - 1) as nat;
        lemma_pieces_prefix(data, size, mm);
        assert(Seq::new(m, f).drop_last() =~= Seq::new(mm, f));
        assert(m * size == mm * size + size && (mm + 1) * size == mm * size + size) by (nonlinear_arith)
            requires
                m == mm + 1,
        ;
        lemma_piece_count_bound(n as int, size as int, m as int);
        let prev = joined(Seq::new(mm, f));
        assert(prev == data.take((mm * size) as int));
        assert(Seq::new(m, f).last() == piece(data, size, mm));
        assert(joined(Seq::new(m, f)) =~= data.take(
            if m * size <= n { (m * size) as int } else { n as int },
        ));
    }
}

proof fn lemma_piece_count_bound(n: int, size: int, m: int)
    by (nonlinear_arith)
    requires
        size > 0,
        n >= 0,
        1 <= m <= (n + size - 1) / size,
    ensures
        (m - 1) * size < n,
{
}

/// Cutting law: the pieces of `data`, joined in order, are `data`.
pub proof fn lemma_pieces_join(data: Seq<u8>, size: nat)
    requires
        size > 0,
    ensures
        joined(Seq::new(piece_count(data.len(), size), |k: int| piece(data, size, k as nat))) == data,
{
    let c = piece_count(data.len(), size);
    lemma_pieces_prefix(data, size, c);
    assert(c * size >= data.len()) by (nonlinear_arith)
        requires
            size > 0,
            c == (data.len() + size - 1) / (size as int),
    ;
    assert(data.take(data.len() as int) =~= data);
}

} // verus!
