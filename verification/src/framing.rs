//! Correlation framing: every message on a shared connection starts with the
//! four bytes of its correlation id, least significant byte first.

use vstd::prelude::*;

verus! {

/// The length of the correlation prefix.
pub const ID_LEN: usize = 4;

/// The four bytes of `id`, least significant first.
pub open spec fn id_bytes(id: u32) -> Seq<u8> {
    seq![
        (id & 0xff) as u8,
        ((id >> 8) & 0xff) as u8,
        ((id >> 16) & 0xff) as u8,
        ((id >> 24) & 0xff) as u8,
    ]
}

/// The number that four bytes stand for, least significant first.
pub open spec fn id_of_bytes(b0: u8, b1: u8, b2: u8, b3: u8) -> u32 {
    (b0 as u32) | ((b1 as u32) << 8) | ((b2 as u32) << 16) | ((b3 as u32) << 24)
}

/// The frame that carries `payload` under `id`.
pub open spec fn frame_of(id: u32, payload: Seq<u8>) -> Seq<u8> {
    id_bytes(id) + payload
}

/// The id that a frame of at least four bytes carries.
pub open spec fn frame_id(frame: Seq<u8>) -> u32
    recommends
        frame.len() >= 4,
{
    id_of_bytes(frame[0], frame[1], frame[2], frame[3])
}

/// The payload that follows the id in a frame of at least four bytes.
pub open spec fn frame_payload(frame: Seq<u8>) -> Seq<u8>
    recommends
        frame.len() >= 4,
{
    frame.subrange(4, frame.len() as int)
}

/// Reading the bytes of an id back gives the id.
pub proof fn lemma_id_bytes_round_trip(id: u32)
    ensures
        id_bytes(id).len() == 4,
        id_of_bytes(id_bytes(id)[0], id_bytes(id)[1], id_bytes(id)[2], id_bytes(id)[3]) == id,
{
    assert((((id & 0xff) as u8) as u32) | ((((id >> 8) & 0xff) as u8) as u32) << 8 | ((((id >> 16)
        & 0xff) as u8) as u32) << 16 | ((((id >> 24) & 0xff) as u8) as u32) << 24 == id)
        by (bit_vector);
}

/// Writing the id of four bytes gives those bytes.
pub proof fn lemma_bytes_id_round_trip(b0: u8, b1: u8, b2: u8, b3: u8)
    ensures
        id_bytes(id_of_bytes(b0, b1, b2, b3)) == seq![b0, b1, b2, b3],
{
    let id = id_of_bytes(b0, b1, b2, b3);
    assert(id == (b0 as u32) | ((b1 as u32) << 8) | ((b2 as u32) << 16) | ((b3 as u32) << 24));
    assert(((b0 as u32) | ((b1 as u32) << 8) | ((b2 as u32) << 16) | ((b3 as u32) << 24)) & 0xff
        == b0 as u32) by (bit_vector);
    assert((((b0 as u32) | ((b1 as u32) << 8) | ((b2 as u32) << 16) | ((b3 as u32) << 24)) >> 8)
        & 0xff == b1 as u32) by (bit_vector);
    assert((((b0 as u32) | ((b1 as u32) << 8) | ((b2 as u32) << 16) | ((b3 as u32) << 24)) >> 16)
        & 0xff == b2 as u32) by (bit_vector);
    assert((((b0 as u32) | ((b1 as u32) << 8) | ((b2 as u32) << 16) | ((b3 as u32) << 24)) >> 24)
        & 0xff == b3 as u32) by (bit_vector);
    assert(id_bytes(id) =~= seq![b0, b1, b2, b3]);
}

/// A frame taken apart is the id and the payload it was built from.
pub proof fn lemma_frame_round_trip(id: u32, payload: Seq<u8>)
    ensures
        frame_of(id, payload).len() == payload.len() + 4,
        frame_id(frame_of(id, payload)) == id,
        frame_payload(frame_of(id, payload)) == payload,
{
    lemma_id_bytes_round_trip(id);
    let frame = frame_of(id, payload);
    assert(frame[0] == id_bytes(id)[0]);
    assert(frame[1] == id_bytes(id)[1]);
    assert(frame[2] == id_bytes(id)[2]);
    assert(frame[3] == id_bytes(id)[3]);
    assert(frame_payload(frame) =~= payload);
}

/// A frame of at least four bytes is the frame of its own id and payload.
pub proof fn lemma_frame_rebuild(frame: Seq<u8>)
    requires
        frame.len() >= 4,
    ensures
        frame_of(frame_id(frame), frame_payload(frame)) == frame,
{
    lemma_bytes_id_round_trip(frame[0], frame[1], frame[2], frame[3]);
    assert(frame_of(frame_id(frame), frame_payload(frame)) =~= frame);
}

/// Puts the correlation id in front of a payload.
pub fn prepend_id(id: u32, payload: Vec<u8>) -> (frame: Vec<u8>)
    ensures
        frame@ == frame_of(id, payload@),
{
    let mut frame: Vec<u8> = Vec::new();
    frame.push((id & 0xff) as u8);
    frame.push(((id >> 8) & 0xff) as u8);
    frame.push(((id >> 16) & 0xff) as u8);
    frame.push(((id >> 24) & 0xff) as u8);
    let mut payload = payload;
    let ghost body = payload@;
    frame.append(&mut payload);
    assert(frame@ =~= frame_of(id, body));
    frame
}

/// Takes a frame apart into its correlation id and its payload, or gives
/// `None` for a frame too short to hold an id.
pub fn split_frame(frame: &[u8]) -> (parts: Option<(u32, Vec<u8>)>)
    ensures
        frame@.len() < 4 <==> parts is None,
        parts matches Some((id, payload)) ==> id == frame_id(frame@) && payload@ == frame_payload(
            frame@,
        ),
{
    if frame.len() < ID_LEN {
        return None;
    }
    Some(get_request_id(frame))
}

/// Takes a frame apart into its correlation id and its payload.
pub fn get_request_id(frame: &[u8]) -> (parts: (u32, Vec<u8>))
    requires
        frame@.len() >= 4,
    ensures
        parts.0 == frame_id(frame@),
        parts.1@ == frame_payload(frame@),
{
    let id: u32 = (frame[0] as u32) | ((frame[1] as u32) << 8) | ((frame[2] as u32) << 16) | ((
    frame[3] as u32) << 24);
    let mut payload: Vec<u8> = Vec::new();
    let mut i: usize = 4;
    while i < frame.len()
        invariant
            4 <= i <= frame@.len(),
            payload@ == frame@.subrange(4, i as int),
        decreases frame@.len() - i,
    {
        payload.push(frame[i]);
        i += 1;
        assert(payload@ =~= frame@.subrange(4, i as int));
    }
    assert(payload@ =~= frame_payload(frame@));
    (id, payload)
}

} // verus!
