use vstd::prelude::*;

verus! {

/// The four little-endian bytes of a number below 2^32.
pub open spec fn le_u32_bytes(x: nat) -> Seq<u8> {
    seq![
        (x % 256) as u8,
        ((x / 256) % 256) as u8,
        ((x / 65536) % 256) as u8,
        ((x / 16777216) % 256) as u8,
    ]
}

/// The number that four little-endian bytes denote.
pub open spec fn le_u32_value(b: Seq<u8>) -> nat {
    (b[0] as nat) + (b[1] as nat) * 256 + (b[2] as nat) * 65536 + (b[3] as nat) * 16777216
}

/// A proof file: the length of the encoded proof, taken modulo 2^32, as four
/// little-endian bytes, then the encoded proof, then the encoded public
/// inputs.
pub open spec fn proof_file(proof: Seq<u8>, pub_inputs: Seq<u8>) -> Seq<u8> {
    le_u32_bytes((proof.len() % 0x1_0000_0000) as nat) + proof + pub_inputs
}

/// The encoded proof and public inputs that a proof file holds: `None` where
/// the file has fewer than eight bytes, or fewer bytes after its length field
/// than the length it gives; else the bytes after the length field, cut at
/// that length.
pub open spec fn proof_file_parts(b: Seq<u8>) -> Option<(Seq<u8>, Seq<u8>)> {
    if b.len() < 8 {
        None
    } else {
        let n = le_u32_value(b.take(4));
        let rest = b.skip(4);
        if rest.len() < n {
            None
        } else {
            Some((rest.take(n as int), rest.skip(n as int)))
        }
    }
}

/// Lays out a proof file from the encoded proof and public inputs, as
/// `proof_file` says.
pub fn encode_proof_file(proof_bytes: &[u8], pub_inputs_bytes: &[u8]) -> (bytes: Vec<u8>)
    ensures
        bytes@ == proof_file(proof_bytes@, pub_inputs_bytes@),
{
    let len: u32 = ((proof_bytes.len() as u64) % 0x1_0000_0000) as u32;
    let mut bytes: Vec<u8> = Vec::new();
    bytes.push((len % 256) as u8);
    bytes.push(((len / 256) % 256) as u8);
    bytes.push(((len / 65536) % 256) as u8);
    bytes.push(((len / 16777216) % 256) as u8);
    assert(bytes@ =~= le_u32_bytes((proof_bytes@.len() % 0x1_0000_0000) as nat));
    bytes.extend_from_slice(proof_bytes);
    bytes.extend_from_slice(pub_inputs_bytes);
    assert(bytes@ =~= proof_file(proof_bytes@, pub_inputs_bytes@));
    bytes
}

/// Splits a proof file into the encoded proof and public inputs, as
/// `proof_file_parts` says.
pub fn decode_proof_file(bytes: &[u8]) -> (r: Option<(&[u8], &[u8])>)
    ensures
        match r {
            Some((p, q)) => proof_file_parts(bytes@) == Some((p@, q@)),
            None => proof_file_parts(bytes@) is None,
        },
{
    if bytes.len() < 8 {
        return None;
    }
    let n: u32 = (bytes[0] as u32) + (bytes[1] as u32) * 256 + (bytes[2] as u32) * 65536 + (
    bytes[3] as u32) * 16777216;
    assert(n == le_u32_value(bytes@.take(4)));
    let n = n as usize;
    let rest = &bytes[4..bytes.len()];
    assert(rest@ =~= bytes@.skip(4));
    if rest.len() < n {
        None
    } else {
        let p = &rest[0..n];
        let q = &rest[n..rest.len()];
        assert(p@ =~= rest@.take(n as int));
        assert(q@ =~= rest@.skip(n as int));
        Some((p, q))
    }
}

proof fn lemma_le_u32_bytes_value(x: nat)
    requires
        x < 0x1_0000_0000,
    ensures
        le_u32_bytes(x).len() == 4,
        le_u32_value(le_u32_bytes(x)) == x,
{
    assert((x % 256) + ((x / 256) % 256) * 256 + ((x / 65536) % 256) * 65536 + ((x / 16777216)
        % 256) * 16777216 == x) by (nonlinear_arith)
        requires
            x < 0x1_0000_0000,
    ;
}

proof fn lemma_le_u32_value_bytes(b: Seq<u8>)
    requires
        b.len() == 4,
    ensures
        le_u32_value(b) < 0x1_0000_0000,
        le_u32_bytes(le_u32_value(b)) =~= b,
{
    let (b0, b1, b2, b3) = (b[0] as int, b[1] as int, b[2] as int, b[3] as int);
    let x = b0 + b1 * 256 + b2 * 65536 + b3 * 16777216;
    assert(x % 256 == b0 && (x / 256) % 256 == b1 && (x / 65536) % 256 == b2 && (x / 16777216)
        % 256 == b3 && x < 0x1_0000_0000) by (nonlinear_arith)
        requires
            0 <= b0 < 256,
            0 <= b1 < 256,
            0 <= b2 < 256,
            0 <= b3 < 256,
            x == b0 + b1 * 256 + b2 * 65536 + b3 * 16777216,
    ;
}

/// Reading back a proof file gives the proof and public inputs it was laid
/// out from, where the proof is shorter than 4 GiB and the two together hold
/// at least four bytes.
pub proof fn proof_file_round_trip(proof: Seq<u8>, pub_inputs: Seq<u8>)
    requires
        proof.len() < 0x1_0000_0000,
        proof.len() + pub_inputs.len() >= 4,
    ensures
        proof_file_parts(proof_file(proof, pub_inputs)) == Some((proof, pub_inputs)),
{
    let n = proof.len();
    lemma_le_u32_bytes_value(n);
    let b = proof_file(proof, pub_inputs);
    assert(b.take(4) =~= le_u32_bytes(n));
    assert(b.skip(4) =~= proof + pub_inputs);
    assert((proof + pub_inputs).take(n as int) =~= proof);
    assert((proof + pub_inputs).skip(n as int) =~= pub_inputs);
}

/// A proof file that can be read is exactly the layout of what it holds.
pub proof fn proof_file_parts_determine_file(b: Seq<u8>)
    requires
        proof_file_parts(b) is Some,
    ensures
        proof_file(proof_file_parts(b).unwrap().0, proof_file_parts(b).unwrap().1) == b,
{
    let n = le_u32_value(b.take(4));
    lemma_le_u32_value_bytes(b.take(4));
    let p = b.skip(4).take(n as int);
    assert(p.len() == n);
    assert(b =~= b.take(4) + b.skip(4).take(n as int) + b.skip(4).skip(n as int));
}

} // verus!
