//! The one logical record the layer reads: the selected-chain tip, and the raw
//! record format it is stored in.

use vstd::prelude::*;

verus! {

/// The most recent block position accepted into the canonical ordering.
/// Produced and mutated only by the writer process; readers only copy it out.
#[derive(Clone, Copy, PartialEq, Eq, Structural, Debug)]
pub struct SelectedChainTip {
    pub index: u64,
}

/// The raw record the writer stores for a tip: its index in little-endian
/// byte order, eight bytes.
pub open spec fn tip_record(t: SelectedChainTip) -> Seq<u8> {
    seq![
        (t.index & 0xff) as u8,
        ((t.index >> 8) & 0xff) as u8,
        ((t.index >> 16) & 0xff) as u8,
        ((t.index >> 24) & 0xff) as u8,
        ((t.index >> 32) & 0xff) as u8,
        ((t.index >> 40) & 0xff) as u8,
        ((t.index >> 48) & 0xff) as u8,
        ((t.index >> 56) & 0xff) as u8,
    ]
}

/// How a raw record is interpreted: exactly eight little-endian bytes give a
/// tip; any other shape is malformed.
pub open spec fn tip_of_record(r: Seq<u8>) -> Option<SelectedChainTip> {
    if r.len() == 8 {
        Some(
            SelectedChainTip {
                index: (r[0] as u64) | ((r[1] as u64) << 8) | ((r[2] as u64) << 16) | ((r[3]
                    as u64) << 24) | ((r[4] as u64) << 32) | ((r[5] as u64) << 40) | ((r[6]
                    as u64) << 48) | ((r[7] as u64) << 56),
            },
        )
    } else {
        None
    }
}

/// Encode a tip as the raw record the writer would store for it.
pub fn encode_tip(t: SelectedChainTip) -> (out: Vec<u8>)
    ensures
        out@ == tip_record(t),
{
    proof {
        lemma_byte_masks_fit(t.index);
    }
    let mut out: Vec<u8> = Vec::new();
    out.push((t.index & 0xff) as u8);
    out.push(((t.index >> 8) & 0xff) as u8);
    out.push(((t.index >> 16) & 0xff) as u8);
    out.push(((t.index >> 24) & 0xff) as u8);
    out.push(((t.index >> 32) & 0xff) as u8);
    out.push(((t.index >> 40) & 0xff) as u8);
    out.push(((t.index >> 48) & 0xff) as u8);
    out.push(((t.index >> 56) & 0xff) as u8);
    proof {
        assert(out@ =~= tip_record(t));
    }
    out
}

/// Decode a raw record; `None` is the malformed case.
pub fn decode_tip(r: &Vec<u8>) -> (out: Option<SelectedChainTip>)
    ensures
        out == tip_of_record(r@),
{
    if r.len() != 8 {
        return None;
    }
    let index = (r[0] as u64) | ((r[1] as u64) << 8) | ((r[2] as u64) << 16) | ((r[3] as u64)
        << 24) | ((r[4] as u64) << 32) | ((r[5] as u64) << 40) | ((r[6] as u64) << 48) | ((r[7]
        as u64) << 56);
    Some(SelectedChainTip { index })
}

proof fn lemma_byte_masks_fit(x: u64)
    ensures
        x & 0xff < 256,
        (x >> 8) & 0xff < 256,
        (x >> 16) & 0xff < 256,
        (x >> 24) & 0xff < 256,
        (x >> 32) & 0xff < 256,
        (x >> 40) & 0xff < 256,
        (x >> 48) & 0xff < 256,
        (x >> 56) & 0xff < 256,
{
    assert(x & 0xff < 256 && (x >> 8) & 0xff < 256 && (x >> 16) & 0xff < 256 && (x >> 24) & 0xff
        < 256 && (x >> 32) & 0xff < 256 && (x >> 40) & 0xff < 256 && (x >> 48) & 0xff < 256 && (x
        >> 56) & 0xff < 256) by (bit_vector);
}

/// Law: decoding the record stored for a tip gives that tip back. This is what
/// lets a read through any snapshot return exactly the value the writer
/// committed.
pub proof fn lemma_tip_record_round_trip(t: SelectedChainTip)
    ensures
        tip_of_record(tip_record(t)) == Some(t),
{
    let r = tip_record(t);
    assert(r.len() == 8);
    let x = t.index;
    assert(((x & 0xff) as u8 as u64) | ((((x >> 8) & 0xff) as u8 as u64) << 8) | ((((x >> 16)
        & 0xff) as u8 as u64) << 16) | ((((x >> 24) & 0xff) as u8 as u64) << 24) | ((((x >> 32)
        & 0xff) as u8 as u64) << 32) | ((((x >> 40) & 0xff) as u8 as u64) << 40) | ((((x >> 48)
        & 0xff) as u8 as u64) << 48) | ((((x >> 56) & 0xff) as u8 as u64) << 56) == x)
        by (bit_vector);
}

} // verus!
