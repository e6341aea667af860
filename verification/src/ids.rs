//! Plain-value identities: account/contract addresses and invoice ids, and the
//! derivation of an invoice id from the terms of the invoice.

use vstd::prelude::*;
use crate::table::TableKey;

verus! {

/// An on-chain address (account or contract), identified by a number that the
/// host layer assigns to each distinct address it sees.
#[derive(Clone, Copy, Debug, PartialEq, Eq, Hash, Structural)]
pub struct Addr(pub u64);

impl TableKey for Addr {
    fn same(&self, other: &Self) -> (r: bool) {
        self.0 == other.0
    }
}

/// A 32-byte invoice identifier (a SHA-256 digest).
#[derive(Clone, Copy, Debug, PartialEq, Eq, Hash)]
pub struct InvoiceId(pub [u8; 32]);

impl TableKey for InvoiceId {
    fn same(&self, other: &Self) -> (r: bool) {
        broadcast use vstd::array::group_array_axioms;

        let mut i: usize = 0;
        while i < 32
            invariant
                i <= 32,
                forall|j: int| 0 <= j < i ==> self.0@[j] == other.0@[j],
            decreases 32 - i,
        {
            if self.0[i] != other.0[i] {
                return false;
            }
            i = i + 1;
        }
        assert(self.0 =~= other.0);
        true
    }
}

/// Big-endian encoding of `x` on `n` bytes (the low `n` bytes of `x`).
pub open spec fn be_bytes(x: nat, n: nat) -> Seq<u8>
    decreases n,
{
    if n == 0 {
        Seq::empty()
    } else {
        be_bytes(x / 256, (n - 1) as nat).push((x % 256) as u8)
    }
}

/// The encoding on `n` bytes has `n` bytes.
pub proof fn lemma_be_bytes_len(x: nat, n: nat)
    ensures
        be_bytes(x, n).len() == n,
    decreases n,
{
    if n > 0 {
        lemma_be_bytes_len(x / 256, (n - 1) as nat);
    }
}

/// Appends the big-endian encoding of `x` on `n` bytes to `out`.
pub fn push_be_bytes(out: &mut Vec<u8>, x: u128, n: usize)
    ensures
        final(out)@ == old(out)@ + be_bytes(x as nat, n as nat),
    decreases n,
{
    if n == 0 {
        assert(old(out)@ + be_bytes(x as nat, 0) =~= old(out)@);
    } else {
        push_be_bytes(out, x / 256, n - 1);
        let b: u8 = (x % 256) as u8;
        out.push(b);
        proof {
            assert((x / 256) as nat == (x as nat) / 256);
            assert(old(out)@ + be_bytes(x as nat, n as nat) =~= old(out)@ + be_bytes(
                (x / 256) as nat,
                (n - 1) as nat,
            ) + seq![b]);
        }
    }
}

/// Appends every byte of `src` to `out`.
pub fn push_all(out: &mut Vec<u8>, src: &Vec<u8>)
    ensures
        final(out)@ == old(out)@ + src@,
{
    let mut i: usize = 0;
    while i < src.len()
        invariant
            i <= src@.len(),
            out@ == old(out)@ + src@.subrange(0, i as int),
        decreases src@.len() - i,
    {
        out.push(src[i]);
        i = i + 1;
        proof {
            assert(src@.subrange(0, i as int) =~= src@.subrange(0, i - 1).push(src@[i - 1]));
        }
    }
    assert(src@.subrange(0, src@.len() as int) =~= src@);
}

/// The bytes an invoice id is the digest of: the issuer's, buyer's and funding
/// asset's encodings around the face value (16 bytes), due date (8 bytes) and
/// creation counter (8 bytes), all big-endian.
pub open spec fn invoice_id_preimage(
    issuer_enc: Seq<u8>,
    buyer_enc: Seq<u8>,
    face_value: u128,
    due_date: u64,
    counter: u64,
    asset_enc: Seq<u8>,
) -> Seq<u8> {
    issuer_enc + buyer_enc + be_bytes(face_value as nat, 16) + be_bytes(due_date as nat, 8)
        + be_bytes(counter as nat, 8) + asset_enc
}

pub fn build_invoice_id_preimage(
    issuer_enc: &Vec<u8>,
    buyer_enc: &Vec<u8>,
    face_value: u128,
    due_date: u64,
    counter: u64,
    asset_enc: &Vec<u8>,
) -> (r: Vec<u8>)
    ensures
        r@ == invoice_id_preimage(issuer_enc@, buyer_enc@, face_value, due_date, counter, asset_enc@),
{
    let mut out: Vec<u8> = Vec::new();
    push_all(&mut out, issuer_enc);
    push_all(&mut out, buyer_enc);
    push_be_bytes(&mut out, face_value, 16);
    push_be_bytes(&mut out, due_date as u128, 8);
    push_be_bytes(&mut out, counter as u128, 8);
    push_all(&mut out, asset_enc);
    assert(out@ =~= invoice_id_preimage(
        issuer_enc@,
        buyer_enc@,
        face_value,
        due_date,
        counter,
        asset_enc@,
    ));
    out
}

/// Longest input the library hashes: well within the host's default CPU
/// budget for SHA-256, which a much longer input would exhaust.
pub const MAX_DIGEST_INPUT: usize = 65536;

/// The SHA-256 digest of a byte string, as the host computes it.
pub uninterp spec fn sha256_digest(data: Seq<u8>) -> Seq<u8>;

/// Calls `soroban_sdk::crypto::Crypto::sha256` on `data`. The contract claims
/// only that the 32 bytes returned are the SHA-256 digest of `data`, a value
/// that depends on `data` alone. The input is bounded so that hashing stays
/// within the default budget of the host environment the call creates.
#[verifier::external_body]
pub(crate) fn host_sha256(data: &Vec<u8>) -> (r: [u8; 32])
    requires
        data@.len() <= MAX_DIGEST_INPUT,
    ensures
        r@ == sha256_digest(data@),
{
    let env = soroban_sdk::Env::default();
    let bytes = soroban_sdk::Bytes::from_slice(&env, data.as_slice());
    env.crypto().sha256(&bytes).to_array()
}

/// The id of an invoice with the given terms and creation counter.
pub open spec fn invoice_id_of(
    issuer_enc: Seq<u8>,
    buyer_enc: Seq<u8>,
    face_value: u128,
    due_date: u64,
    counter: u64,
    asset_enc: Seq<u8>,
) -> Seq<u8> {
    sha256_digest(invoice_id_preimage(issuer_enc, buyer_enc, face_value, due_date, counter, asset_enc))
}

/// Derives the invoice id: the SHA-256 digest of `invoice_id_preimage`.
pub fn derive_invoice_id(
    issuer_enc: &Vec<u8>,
    buyer_enc: &Vec<u8>,
    face_value: u128,
    due_date: u64,
    counter: u64,
    asset_enc: &Vec<u8>,
) -> (id: InvoiceId)
    requires
        issuer_enc@.len() + buyer_enc@.len() + asset_enc@.len() + 40 <= MAX_DIGEST_INPUT,
    ensures
        id.0@ == invoice_id_of(issuer_enc@, buyer_enc@, face_value, due_date, counter, asset_enc@),
{
    let pre = build_invoice_id_preimage(issuer_enc, buyer_enc, face_value, due_date, counter, asset_enc);
    proof {
        lemma_be_bytes_len(face_value as nat, 16);
        lemma_be_bytes_len(due_date as nat, 8);
        lemma_be_bytes_len(counter as nat, 8);
    }
    InvoiceId(host_sha256(&pre))
}

} // verus!
