use vstd::prelude::*;
use vstd::bytes::{
    lemma_auto_spec_u64_to_from_le_bytes,
    spec_u64_from_le_bytes,
    spec_u64_to_le_bytes,
    u64_from_le_bytes,
    u64_to_le_bytes,
};
use vstd::slice::slice_subrange;

use crate::pubkey::{Pubkey, PUBKEY_BYTES};

verus! {

/// Number of consuls that the fixed layout holds.
pub const CONSUL_COUNT: usize = 3;

/// Offset of the initializer's identifier in the encoded record.
pub const INITIALIZER_OFFSET: usize = 1;

/// Offset of the fault-tolerance threshold.
pub const BFT_OFFSET: usize = 33;

/// Offset of the first consul; the others follow it, 32 bytes apart.
pub const CONSULS_OFFSET: usize = 34;

/// Offset of the last round, eight bytes little-endian.
pub const LAST_ROUND_OFFSET: usize = 130;

/// Why a buffer could not be read as a contract state.
#[derive(Clone, Copy, Debug, PartialEq, Eq, Structural)]
pub enum DecodeError {
    /// The buffer is not exactly as long as an encoded record.
    SizeMismatch,
    /// The leading byte is neither `0` nor `1`.
    InvalidInitFlag,
}

/// The mathematical value of a contract state: identifiers as byte sequences.
pub struct ContractModel {
    pub is_initialized: bool,
    pub initializer_pubkey: Seq<u8>,
    pub bft: u8,
    pub consuls: Seq<Seq<u8>>,
    pub last_round: u64,
}

/// The state record of a consensus contract, stored as a flat byte buffer.
#[derive(PartialEq, PartialOrd, Default, Clone, Debug)]
pub struct GravityContract {
    pub is_initialized: bool,
    pub initializer_pubkey: Pubkey,
    pub bft: u8,
    pub consuls: Vec<Pubkey>,
    pub last_round: u64,
}

impl View for GravityContract {
    type V = ContractModel;

    open spec fn view(&self) -> ContractModel {
        ContractModel {
            is_initialized: self.is_initialized,
            initializer_pubkey: self.initializer_pubkey@,
            bft: self.bft,
            consuls: self.consuls@.map_values(|k: Pubkey| k@),
            last_round: self.last_round,
        }
    }
}

/// The byte that stores the initialization flag.
pub open spec fn flag_byte(b: bool) -> u8 {
    if b {
        1u8
    } else {
        0u8
    }
}

/// A model that the fixed layout can hold: 32-byte identifiers, exactly three consuls.
pub open spec fn valid_model(m: ContractModel) -> bool {
    &&& m.initializer_pubkey.len() == PUBKEY_BYTES
    &&& m.consuls.len() == CONSUL_COUNT
    &&& forall|i: int| 0 <= i < CONSUL_COUNT ==> #[trigger] m.consuls[i].len() == PUBKEY_BYTES
}

/// The encoded record: flag, initializer, threshold, the three consuls in order,
/// and the last round in little-endian order.
pub open spec fn encode_model(m: ContractModel) -> Seq<u8> {
    seq![flag_byte(m.is_initialized)] + m.initializer_pubkey + seq![m.bft] + m.consuls[0]
        + m.consuls[1] + m.consuls[2] + spec_u64_to_le_bytes(m.last_round)
}

/// The 32 bytes of the consul at position `i` in an encoded record.
pub open spec fn consul_at(b: Seq<u8>, i: int) -> Seq<u8> {
    b.subrange(CONSULS_OFFSET + i * PUBKEY_BYTES, CONSULS_OFFSET + (i + 1) * PUBKEY_BYTES)
}

/// What a buffer decodes to: a size check, a flag check, then the fields sliced
/// at their fixed offsets.
pub open spec fn decode_model(b: Seq<u8>) -> Result<ContractModel, DecodeError> {
    if b.len() != GravityContract::LEN {
        Err(DecodeError::SizeMismatch)
    } else if b[0] != 0 && b[0] != 1 {
        Err(DecodeError::InvalidInitFlag)
    } else {
        Ok(
            ContractModel {
                is_initialized: b[0] == 1,
                initializer_pubkey: b.subrange(
                    INITIALIZER_OFFSET as int,
                    INITIALIZER_OFFSET + PUBKEY_BYTES,
                ),
                bft: b[BFT_OFFSET as int],
                consuls: seq![consul_at(b, 0), consul_at(b, 1), consul_at(b, 2)],
                last_round: spec_u64_from_le_bytes(
                    b.subrange(LAST_ROUND_OFFSET as int, GravityContract::LEN as int),
                ),
            },
        )
    }
}

/// The model of a decoding result.
pub open spec fn result_view(r: Result<GravityContract, DecodeError>) -> Result<
    ContractModel,
    DecodeError,
> {
    match r {
        Ok(c) => Ok(c@),
        Err(e) => Err(e),
    }
}

/// Appends `src` to `out`.
fn append_bytes(out: &mut Vec<u8>, src: &[u8])
    ensures
        final(out)@ == old(out)@ + src@,
{
    let n = src.len();
    let mut i: usize = 0;
    while i < n
        invariant
            n == src@.len(),
            i <= n,
            out@ == old(out)@ + src@.subrange(0, i as int),
        decreases n - i,
    {
        out.push(src[i]);
        i = i + 1;
        assert(out@ =~= old(out)@ + src@.subrange(0, i as int));
    }
    assert(src@.subrange(0, n as int) =~= src@);
}

/// Reads the 32-byte identifier that starts at `at`.
fn read_pubkey(src: &[u8], at: usize) -> (r: Pubkey)
    requires
        at + PUBKEY_BYTES <= src@.len(),
    ensures
        r@ == src@.subrange(at as int, at + PUBKEY_BYTES),
{
    let n = src.len();
    let mut a: [u8; 32] = [0u8; 32];
    let mut i: usize = 0;
    while i < PUBKEY_BYTES
        invariant
            n == src@.len(),
            at + PUBKEY_BYTES <= src@.len(),
            i <= PUBKEY_BYTES,
            a@.len() == PUBKEY_BYTES,
            forall|j: int| 0 <= j < i ==> a@[j] == src@[at + j],
        decreases PUBKEY_BYTES - i,
    {
        a[i] = src[at + i];
        i = i + 1;
    }
    assert(a@ =~= src@.subrange(at as int, at + PUBKEY_BYTES));
    Pubkey::new_from_array(a)
}

impl GravityContract {
    /// Length in bytes of an encoded record.
    pub const LEN: usize = 138;

    /// Whether the record has been initialized.
    pub fn is_initialized(&self) -> (r: bool)
        ensures
            r == self.is_initialized,
    {
        self.is_initialized
    }

    /// Writes the fixed 138-byte encoding of the record into `dst`.
    pub fn pack_into_slice(&self, dst: &mut [u8])
        requires
            old(dst)@.len() == GravityContract::LEN,
            self.consuls@.len() == CONSUL_COUNT,
        ensures
            final(dst)@ == encode_model(self@),
    {
        let mut out: Vec<u8> = Vec::new();
        if self.is_initialized {
            out.push(1u8);
        } else {
            out.push(0u8);
        }
        let key = self.initializer_pubkey.to_bytes();
        append_bytes(&mut out, key.as_slice());
        out.push(self.bft);
        let c0 = self.consuls[0].to_bytes();
        append_bytes(&mut out, c0.as_slice());
        let c1 = self.consuls[1].to_bytes();
        append_bytes(&mut out, c1.as_slice());
        let c2 = self.consuls[2].to_bytes();
        append_bytes(&mut out, c2.as_slice());
        let round = u64_to_le_bytes(self.last_round);
        append_bytes(&mut out, round.as_slice());
        assert(out@ =~= encode_model(self@));

        let mut i: usize = 0;
        while i < GravityContract::LEN
            invariant
                out@.len() == GravityContract::LEN,
                dst@.len() == GravityContract::LEN,
                i <= GravityContract::LEN,
                forall|j: int| 0 <= j < i ==> dst@[j] == out@[j],
            decreases GravityContract::LEN - i,
        {
            dst[i] = out[i];
            i = i + 1;
        }
        assert(dst@ =~= out@);
    }

    /// Reads a record from `src`: fails with `SizeMismatch` unless `src` is exactly
    /// 138 bytes long, and with `InvalidInitFlag` unless its first byte is `0` or `1`.
    pub fn unpack_from_slice(src: &[u8]) -> (r: Result<GravityContract, DecodeError>)
        ensures
            result_view(r) == decode_model(src@),
    {
        if src.len() != GravityContract::LEN {
            return Err(DecodeError::SizeMismatch);
        }
        let is_initialized = if src[0] == 0 {
            false
        } else if src[0] == 1 {
            true
        } else {
            return Err(DecodeError::InvalidInitFlag);
        };
        let initializer_pubkey = read_pubkey(src, INITIALIZER_OFFSET);
        let bft = src[BFT_OFFSET];
        let mut consuls: Vec<Pubkey> = Vec::new();
        let mut i: usize = 0;
        while i < CONSUL_COUNT
            invariant
                src@.len() == GravityContract::LEN,
                i <= CONSUL_COUNT,
                consuls@.len() == i,
                forall|j: int| 0 <= j < i ==> #[trigger] consuls@[j]@ == consul_at(src@, j),
            decreases CONSUL_COUNT - i,
        {
            let k = read_pubkey(src, CONSULS_OFFSET + i * PUBKEY_BYTES);
            consuls.push(k);
            i = i + 1;
        }
        let last_round = u64_from_le_bytes(
            slice_subrange(src, LAST_ROUND_OFFSET, GravityContract::LEN),
        );
        let c = GravityContract { is_initialized, initializer_pubkey, bft, consuls, last_round };
        assert(c@.consuls =~= seq![consul_at(src@, 0), consul_at(src@, 1), consul_at(src@, 2)]);
        Ok(c)
    }
}

/// A record's model can be held by the fixed layout once it has exactly three consuls.
pub proof fn lemma_valid_model(c: GravityContract)
    requires
        c.consuls@.len() == CONSUL_COUNT,
    ensures
        valid_model(c@),
{
    c.initializer_pubkey.lemma_len();
    assert forall|i: int| 0 <= i < CONSUL_COUNT implies #[trigger] c@.consuls[i].len()
        == PUBKEY_BYTES by {
        c.consuls@[i].lemma_len();
    }
}

/// Decoding the encoding of a model that the layout can hold gives the model back.
pub proof fn lemma_model_round_trip(m: ContractModel)
    requires
        valid_model(m),
    ensures
        decode_model(encode_model(m)) == Ok::<ContractModel, DecodeError>(m),
{
    lemma_auto_spec_u64_to_from_le_bytes();
    let b = encode_model(m);
    assert(m.consuls[0].len() == PUBKEY_BYTES);
    assert(m.consuls[1].len() == PUBKEY_BYTES);
    assert(m.consuls[2].len() == PUBKEY_BYTES);
    assert(b.len() == GravityContract::LEN);
    assert(b.subrange(1, 33) =~= m.initializer_pubkey);
    assert(consul_at(b, 0) =~= m.consuls[0]);
    assert(consul_at(b, 1) =~= m.consuls[1]);
    assert(consul_at(b, 2) =~= m.consuls[2]);
    assert(m.consuls =~= seq![consul_at(b, 0), consul_at(b, 1), consul_at(b, 2)]);
    assert(b.subrange(130, 138) =~= spec_u64_to_le_bytes(m.last_round));
}

/// Two records with the same model hold equal values in every field.
pub proof fn lemma_view_injective(c: GravityContract, d: GravityContract)
    requires
        c@ == d@,
    ensures
        c.is_initialized == d.is_initialized,
        c.initializer_pubkey == d.initializer_pubkey,
        c.bft == d.bft,
        c.consuls@ == d.consuls@,
        c.last_round == d.last_round,
{
    c.initializer_pubkey.lemma_view_injective(d.initializer_pubkey);
    assert(c.consuls@.len() == c@.consuls.len());
    assert(d.consuls@.len() == d@.consuls.len());
    assert forall|i: int| 0 <= i < c.consuls@.len() implies c.consuls@[i] == d.consuls@[i] by {
        assert(c@.consuls[i] == d@.consuls[i]);
        c.consuls@[i].lemma_view_injective(d.consuls@[i]);
    }
    assert(c.consuls@ =~= d.consuls@);
}

/// Round trip: for every record `c` with exactly three consuls, decoding the bytes
/// that `pack_into_slice` writes for it succeeds, and the record `r` it gives is
/// equal to `c` field by field.
pub proof fn lemma_round_trip(c: GravityContract, r: Result<GravityContract, DecodeError>)
    requires
        c.consuls@.len() == CONSUL_COUNT,
        result_view(r) == decode_model(encode_model(c@)),
    ensures
        r is Ok,
        r->Ok_0.is_initialized == c.is_initialized,
        r->Ok_0.initializer_pubkey == c.initializer_pubkey,
        r->Ok_0.bft == c.bft,
        r->Ok_0.consuls@ == c.consuls@,
        r->Ok_0.last_round == c.last_round,
{
    lemma_valid_model(c);
    lemma_model_round_trip(c@);
    lemma_view_injective(r->Ok_0, c);
}

/// The encoding of every record with exactly three consuls is 138 bytes long.
pub proof fn lemma_encoded_len(c: GravityContract)
    requires
        c.consuls@.len() == CONSUL_COUNT,
    ensures
        encode_model(c@).len() == GravityContract::LEN,
{
    lemma_valid_model(c);
    lemma_auto_spec_u64_to_from_le_bytes();
}

/// A buffer of any length other than 138 bytes fails to decode with `SizeMismatch`.
pub proof fn lemma_size_mismatch(b: Seq<u8>)
    requires
        b.len() != GravityContract::LEN,
    ensures
        decode_model(b) == Err::<ContractModel, DecodeError>(DecodeError::SizeMismatch),
{
}

/// A 138-byte buffer whose first byte is neither `0` nor `1` fails to decode with
/// `InvalidInitFlag`.
pub proof fn lemma_invalid_flag(b: Seq<u8>)
    requires
        b.len() == GravityContract::LEN,
        b[0] != 0,
        b[0] != 1,
    ensures
        decode_model(b) == Err::<ContractModel, DecodeError>(DecodeError::InvalidInitFlag),
{
}

/// Decoding is a function of the buffer's bytes alone: two decodings of the same
/// bytes give equal results.
pub proof fn lemma_decode_repeatable(
    b: Seq<u8>,
    r1: Result<GravityContract, DecodeError>,
    r2: Result<GravityContract, DecodeError>,
)
    requires
        result_view(r1) == decode_model(b),
        result_view(r2) == decode_model(b),
    ensures
        result_view(r1) == result_view(r2),
{
}

} // verus!
