//! The transport form of a signed transaction: a count of signatures, the
//! signatures, the message, and the whole in base64.

use crate::client::BundleError;
use crate::ledger::{SignedTransaction, SignedTransactionView};
use base64::Engine;
use vstd::bytes::{
    lemma_auto_spec_u64_to_from_le_bytes, spec_u64_from_le_bytes, spec_u64_to_le_bytes,
    u64_from_le_bytes, u64_to_le_bytes,
};
use vstd::prelude::*;
use vstd::slice::slice_subrange;
use vstd::string::StringExecFns;

verus! {

/// The number of bytes of one signature.
pub const SIGNATURE_BYTES: usize = 64;

/// The number of bytes of the signature count that opens a frame.
pub const COUNT_BYTES: usize = 8;

/// The longest frame that is put into text: three bytes for every four
/// characters of the longest text that can be allocated.
pub const MAX_FRAME_BYTES: usize = usize::MAX / 8 * 3;

// ============== the frame ==============
/// The signatures one after the other.
pub open spec fn joined(signatures: Seq<Seq<u8>>) -> Seq<u8>
    decreases signatures.len(),
{
    if signatures.len() == 0 {
        Seq::empty()
    } else {
        joined(signatures.drop_last()) + signatures.last()
    }
}

/// The bytes of a transaction's frame: the number of signatures as eight
/// little-endian bytes, each signature verbatim, then the message verbatim.
pub open spec fn spec_frame(tx: SignedTransactionView) -> Seq<u8> {
    spec_u64_to_le_bytes(tx.signatures.len() as u64) + joined(tx.signatures) + tx.message
}

/// What a frame holds: its signatures and its message, if the bytes are a frame.
pub open spec fn spec_parse_frame(bytes: Seq<u8>) -> Option<(Seq<Seq<u8>>, Seq<u8>)> {
    if bytes.len() < COUNT_BYTES {
        None
    } else {
        let count = spec_u64_from_le_bytes(bytes.take(COUNT_BYTES as int)) as int;
        if SIGNATURE_BYTES * count > bytes.len() - COUNT_BYTES {
            None
        } else {
            Some(
                (
                    Seq::new(
                        count as nat,
                        |i: int|
                            bytes.subrange(
                                COUNT_BYTES + SIGNATURE_BYTES * i,
                                COUNT_BYTES + SIGNATURE_BYTES * (i + 1),
                            ),
                    ),
                    bytes.skip(COUNT_BYTES + SIGNATURE_BYTES * count),
                ),
            )
        }
    }
}

/// Whether every signature has the length of a signature.
pub open spec fn well_sized(signatures: Seq<Seq<u8>>) -> bool {
    forall|i: int| 0 <= i < signatures.len() ==> (#[trigger] signatures[i]).len() == SIGNATURE_BYTES
}

proof fn lemma_joined(signatures: Seq<Seq<u8>>)
    requires
        well_sized(signatures),
    ensures
        joined(signatures).len() == SIGNATURE_BYTES * signatures.len(),
        forall|i: int|
            0 <= i < signatures.len() ==> joined(signatures).subrange(
                SIGNATURE_BYTES * i,
                SIGNATURE_BYTES * (i + 1),
            ) == #[trigger] signatures[i],
    decreases signatures.len(),
{
    if signatures.len() > 0 {
        let front = signatures.drop_last();
        lemma_joined(front);
        assert forall|i: int| 0 <= i < signatures.len() implies joined(signatures).subrange(
            SIGNATURE_BYTES * i,
            SIGNATURE_BYTES * (i + 1),
        ) == #[trigger] signatures[i] by {
            if i < front.len() {
                assert(front[i] == signatures[i]);
                assert(joined(signatures).subrange(SIGNATURE_BYTES * i, SIGNATURE_BYTES * (i + 1))
                    =~= joined(front).subrange(SIGNATURE_BYTES * i, SIGNATURE_BYTES * (i + 1)));
            } else {
                assert(joined(signatures).subrange(SIGNATURE_BYTES * i, SIGNATURE_BYTES * (i + 1))
                    =~= signatures.last());
            }
        }
    }
}

/// Reading a frame gives back exactly the signatures and the message that
/// were framed.
pub proof fn lemma_frame_round_trip(tx: SignedTransactionView)
    requires
        well_sized(tx.signatures),
        tx.signatures.len() <= u64::MAX,
    ensures
        spec_parse_frame(spec_frame(tx)) == Some((tx.signatures, tx.message)),
{
    lemma_auto_spec_u64_to_from_le_bytes();
    lemma_joined(tx.signatures);
    let count = tx.signatures.len() as u64;
    let bytes = spec_frame(tx);
    assert(bytes.take(COUNT_BYTES as int) =~= spec_u64_to_le_bytes(count));
    let parsed = spec_parse_frame(bytes);
    assert(parsed is Some);
    let (signatures, message) = parsed->0;
    assert(message =~= tx.message);
    assert(signatures.len() == tx.signatures.len());
    assert forall|i: int| 0 <= i < signatures.len() implies signatures[i] == tx.signatures[i] by {
        assert(bytes.subrange(
            COUNT_BYTES + SIGNATURE_BYTES * i,
            COUNT_BYTES + SIGNATURE_BYTES * (i + 1),
        ) =~= joined(tx.signatures).subrange(SIGNATURE_BYTES * i, SIGNATURE_BYTES * (i + 1)));
    }
    assert(signatures =~= tx.signatures);
}

/// The view of a list of signatures.
pub open spec fn signature_views(signatures: Seq<[u8; 64]>) -> Seq<Seq<u8>> {
    signatures.map_values(|s: [u8; 64]| s@)
}

fn append_bytes(out: &mut Vec<u8>, bytes: &[u8])
    ensures
        final(out)@ == old(out)@ + bytes@,
{
    let mut k: usize = 0;
    while k < bytes.len()
        invariant
            k <= bytes@.len(),
            out@ == old(out)@ + bytes@.take(k as int),
        decreases bytes@.len() - k,
    {
        out.push(bytes[k]);
        assert(bytes@.take(k + 1) =~= bytes@.take(k as int).push(bytes@[k as int]));
        k += 1;
    }
    assert(bytes@.take(k as int) =~= bytes@);
}

/// Lays a transaction out as a frame.
pub fn frame(tx: &SignedTransaction) -> (out: Vec<u8>)
    ensures
        out@ == spec_frame(tx@),
{
    let ghost signatures = tx@.signatures;
    let count = tx.signatures.len();
    let mut out = u64_to_le_bytes(count as u64);
    let mut i: usize = 0;
    while i < count
        invariant
            i <= count,
            count == tx.signatures@.len(),
            signatures == tx@.signatures,
            out@ == spec_u64_to_le_bytes(count as u64) + joined(signatures.take(i as int)),
        decreases count - i,
    {
        append_bytes(&mut out, tx.signatures[i].as_slice());
        proof {
            assert(signatures.take(i + 1).drop_last() =~= signatures.take(i as int));
            assert(signatures.take(i + 1).last() == tx.signatures@[i as int]@);
        }
        i += 1;
    }
    proof {
        assert(signatures.take(i as int) =~= signatures);
    }
    append_bytes(&mut out, tx.message.as_slice());
    out
}

fn copy_signature(bytes: &Vec<u8>, from: usize) -> (signature: [u8; 64])
    requires
        from + SIGNATURE_BYTES <= bytes@.len(),
    ensures
        signature@ == bytes@.subrange(from as int, from + SIGNATURE_BYTES),
{
    let length = bytes.len();
    let mut signature = [0u8;64];
    let mut k: usize = 0;
    while k < SIGNATURE_BYTES
        invariant
            k <= SIGNATURE_BYTES,
            from + SIGNATURE_BYTES <= bytes@.len() == length,
            forall|j: int| 0 <= j < k ==> signature@[j] == bytes@[from + j],
        decreases SIGNATURE_BYTES - k,
    {
        signature[k] = bytes[from + k];
        k += 1;
    }
    assert(signature@ =~= bytes@.subrange(from as int, from + SIGNATURE_BYTES));
    signature
}

/// Reads a frame back into its signatures and its message.
pub fn parse_frame(bytes: &Vec<u8>) -> (r: Option<(Vec<[u8; 64]>, Vec<u8>)>)
    ensures
        match r {
            Some((signatures, message)) => spec_parse_frame(bytes@) == Some(
                (signature_views(signatures@), message@),
            ),
            None => spec_parse_frame(bytes@) is None,
        },
{
    if bytes.len() < COUNT_BYTES {
        return None;
    }
    let head = slice_subrange(bytes.as_slice(), 0, COUNT_BYTES);
    assert(head@ =~= bytes@.take(COUNT_BYTES as int));
    let count = u64_from_le_bytes(head);
    let room = (bytes.len() - COUNT_BYTES) / SIGNATURE_BYTES;
    if count > room as u64 {
        return None;
    }
    let count = count as usize;
    let ghost expected = spec_parse_frame(bytes@)->0;
    let mut signatures: Vec<[u8; 64]> = Vec::new();
    let mut i: usize = 0;
    while i < count
        invariant
            i <= count,
            COUNT_BYTES + SIGNATURE_BYTES * count <= bytes@.len() <= usize::MAX,
            signatures@.len() == i,
            forall|j: int|
                0 <= j < i ==> (#[trigger] signatures@[j])@ == bytes@.subrange(
                    COUNT_BYTES + SIGNATURE_BYTES * j,
                    COUNT_BYTES + SIGNATURE_BYTES * (j + 1),
                ),
        decreases count - i,
    {
        let signature = copy_signature(bytes, COUNT_BYTES + SIGNATURE_BYTES * i);
        signatures.push(signature);
        i += 1;
    }
    let start = COUNT_BYTES + SIGNATURE_BYTES * count;
    let mut message: Vec<u8> = Vec::new();
    append_bytes(&mut message, slice_subrange(bytes.as_slice(), start, bytes.len()));
    proof {
        assert(message@ =~= bytes@.skip(start as int));
        assert(signature_views(signatures@) =~= expected.0);
    }
    Some((signatures, message))
}

// ============== the text ==============
/// The text that the base64 engine with the standard alphabet and padding
/// gives for a sequence of bytes.
pub uninterp spec fn base64_text(bytes: Seq<u8>) -> Seq<char>;

/// The bytes that the same engine reads from a text, if it reads any.
pub uninterp spec fn base64_bytes(text: Seq<char>) -> Option<Seq<u8>>;

#[verifier::external_type_specification]
#[verifier::external_body]
pub struct ExDecodeError(base64::DecodeError);

/// `Engine::encode` of the standard engine. The text depends on the bytes
/// alone, and the engine's own decoding reads the same bytes back from it.
/// The text has four characters for every three bytes begun. The engine
/// fails where that length overflows, and the allocation of the text where
/// it exceeds `isize::MAX`; the bound on the input keeps both away.
#[verifier::external_body]
fn base64_encode(bytes: &Vec<u8>) -> (text: String)
    requires
        bytes@.len() <= MAX_FRAME_BYTES,
    ensures
        text@ == base64_text(bytes@),
        base64_bytes(text@) == Some(bytes@),
{
    base64::prelude::BASE64_STANDARD.encode(bytes)
}

/// `Engine::decode` of the standard engine. Whether a text is read, and as
/// which bytes, depends on the text alone.
#[verifier::external_body]
fn base64_decode(text: &str) -> (r: Result<Vec<u8>, base64::DecodeError>)
    ensures
        r matches Ok(bytes) ==> base64_bytes(text@) == Some(bytes@),
        r is Err ==> base64_bytes(text@) is None,
{
    base64::prelude::BASE64_STANDARD.decode(text)
}

/// The display rendering of the engine's decoding error.
#[verifier::external_body]
fn decode_error_text(e: &base64::DecodeError) -> (text: String) {
    e.to_string()
}

/// What a text holds: the frame that its base64 reading is, if it is one.
pub open spec fn spec_decode(text: Seq<char>) -> Option<(Seq<Seq<u8>>, Seq<u8>)> {
    match base64_bytes(text) {
        Some(bytes) => spec_parse_frame(bytes),
        None => None,
    }
}

/// The transport encoding of a transaction: its frame in base64. Decoding the
/// text gives back the transaction's signatures and message exactly. A
/// transaction whose frame is longer than `MAX_FRAME_BYTES` is refused.
pub fn encode(tx: &SignedTransaction) -> (r: Result<String, BundleError>)
    ensures
        spec_frame(tx@).len() <= MAX_FRAME_BYTES ==> (r matches Ok(text) && text@ == base64_text(
            spec_frame(tx@),
        ) && spec_decode(text@) == Some((tx@.signatures, tx@.message))),
        spec_frame(tx@).len() > MAX_FRAME_BYTES ==> r matches Err(
            BundleError::SerializationError(_),
        ),
{
    let bytes = frame(tx);
    if bytes.len() > MAX_FRAME_BYTES {
        return Err(
            BundleError::SerializationError(String::from_str("transaction too large to encode")),
        );
    }
    let count = tx.signatures.len();
    proof {
        assert(tx@.signatures.len() == count);
        assert(well_sized(tx@.signatures)) by {
            assert forall|i: int| 0 <= i < tx@.signatures.len() implies (
            #[trigger] tx@.signatures[i]).len() == SIGNATURE_BYTES by {
                assert(tx@.signatures[i] == tx.signatures@[i]@);
            }
        }
        lemma_frame_round_trip(tx@);
    }
    Ok(base64_encode(&bytes))
}

/// Reads a transaction's signatures and message back from its transport
/// encoding. Fails exactly when the text is not base64 or its bytes are no frame.
pub fn decode(text: &str) -> (r: Result<(Vec<[u8; 64]>, Vec<u8>), BundleError>)
    ensures
        match r {
            Ok((signatures, message)) => spec_decode(text@) == Some(
                (signature_views(signatures@), message@),
            ),
            Err(e) => spec_decode(text@) is None && e is SerializationError,
        },
{
    match base64_decode(text) {
        Ok(bytes) => match parse_frame(&bytes) {
            Some(parts) => Ok(parts),
            None => Err(
                BundleError::SerializationError(String::from_str("text does not hold a frame")),
            ),
        },
        Err(e) => Err(BundleError::SerializationError(decode_error_text(&e))),
    }
}

} // verus!
