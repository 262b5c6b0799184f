//! The streaming-protocol frame encoder.
//!
//! A `Frame` is the ordered set of per-panel color assignments sent in one
//! streaming update. `Frame::get_buf` turns it into the exact wire bytes the
//! device's streaming endpoint expects: a reserved zero byte, a one-byte panel
//! count, then eight bytes per assignment (big-endian panel id, red, green,
//! blue, the fixed white channel, big-endian transition time).

use vstd::prelude::*;

use crate::error::NanoleafError;

verus! {

/// The white channel is not caller-settable in this protocol version: the
/// encoder writes the full value into every assignment.
pub const WHITE_CHANNEL: u8 = 255;

/// One per-frame decision for a single panel: its color and how fast to fade
/// to it, in the device's native time unit.
#[derive(Clone, Copy, Debug, PartialEq, Eq, Structural)]
pub struct PanelState {
    pub panel_id: u16,
    pub red: u8,
    pub green: u8,
    pub blue: u8,
    pub transition_time: u16,
}

/// High byte of a 16-bit field in big-endian order.
pub open spec fn be_hi(x: u16) -> u8 {
    (x / 256) as u8
}

/// Low byte of a 16-bit field in big-endian order.
pub open spec fn be_lo(x: u16) -> u8 {
    (x % 256) as u8
}

/// The eight wire bytes of one assignment.
pub open spec fn spec_encode_state(p: PanelState) -> Seq<u8> {
    seq![
        be_hi(p.panel_id),
        be_lo(p.panel_id),
        p.red,
        p.green,
        p.blue,
        WHITE_CHANNEL,
        be_hi(p.transition_time),
        be_lo(p.transition_time),
    ]
}

/// The concatenated wire bytes of a sequence of assignments, in order.
pub open spec fn spec_encode_states(s: Seq<PanelState>) -> Seq<u8>
    decreases s.len(),
{
    if s.len() == 0 {
        Seq::empty()
    } else {
        spec_encode_states(s.drop_last()) + spec_encode_state(s.last())
    }
}

/// The whole wire frame: reserved zero byte, panel count, then the
/// assignments' bytes.
pub open spec fn spec_encode(s: Seq<PanelState>) -> Seq<u8> {
    seq![0u8, s.len() as u8] + spec_encode_states(s)
}

impl PanelState {
    /// Fail-fast validation of an assignment whose fields arrive in a wider
    /// integer form: a panel id or transition time that does not fit its
    /// 16-bit wire field is rejected before it can reach the encoder.
    pub fn checked(panel_id: u32, red: u8, green: u8, blue: u8, transition_time: u32) -> (r: Result<
        PanelState,
        NanoleafError,
    >)
        ensures
            r is Ok <==> (panel_id <= u16::MAX && transition_time <= u16::MAX),
            r matches Ok(p) ==> p == (PanelState {
                panel_id: panel_id as u16,
                red,
                green,
                blue,
                transition_time: transition_time as u16,
            }),
            r matches Err(e) ==> e == NanoleafError::InvalidAssignment,
    {
        if panel_id > 0xFFFF || transition_time > 0xFFFF {
            Err(NanoleafError::InvalidAssignment)
        } else {
            Ok(PanelState {
                panel_id: panel_id as u16,
                red,
                green,
                blue,
                transition_time: transition_time as u16,
            })
        }
    }
}

/// The ordered assignments of one streaming update. The device reads the
/// count from the header, so a frame of more than 255 assignments cannot be
/// encoded and is rejected.
pub struct Frame {
    pub states: Vec<PanelState>,
}

impl Frame {
    /// Encode the frame into its exact wire bytes, or reject a frame whose
    /// panel count does not fit the one-byte header field.
    pub fn get_buf(&self) -> (r: Result<Vec<u8>, NanoleafError>)
        ensures
            self.states@.len() <= 255 ==> (r matches Ok(buf) && buf@ == spec_encode(
                self.states@,
            )),
            self.states@.len() > 255 ==> r == Err::<Vec<u8>, NanoleafError>(
                NanoleafError::FrameTooLarge,
            ),
    {
        let n = self.states.len();
        if n > 255 {
            return Err(NanoleafError::FrameTooLarge);
        }
        let mut out: Vec<u8> = Vec::with_capacity(2 + 8 * n);
        out.push(0u8);
        out.push(n as u8);
        let mut i: usize = 0;
        while i < n
            invariant
                n == self.states@.len(),
                n <= 255,
                i <= n,
                out@ == seq![0u8, n as u8] + spec_encode_states(self.states@.take(i as int)),
            decreases n - i,
        {
            let p = self.states[i];
            out.push((p.panel_id / 256) as u8);
            out.push((p.panel_id % 256) as u8);
            out.push(p.red);
            out.push(p.green);
            out.push(p.blue);
            out.push(WHITE_CHANNEL);
            out.push((p.transition_time / 256) as u8);
            out.push((p.transition_time % 256) as u8);
            proof {
                let s = self.states@;
                assert(s.take(i + 1).drop_last() =~= s.take(i as int));
                assert(s.take(i + 1).last() == s[i as int]);
                assert(out@ =~= seq![0u8, n as u8] + spec_encode_states(s.take(i + 1)));
            }
            i = i + 1;
        }
        proof {
            assert(self.states@.take(n as int) =~= self.states@);
        }
        Ok(out)
    }

    /// Append one solid-color assignment with the loop's fixed one-unit
    /// transition time.
    pub fn solid_frame(&mut self, panel_id: u16, red: u8, green: u8, blue: u8)
        ensures
            final(self).states@ == old(self).states@.push(
                PanelState { panel_id, red, green, blue, transition_time: 1u16 },
            ),
    {
        self.states.push(PanelState { panel_id, red, green, blue, transition_time: 1u16 });
    }
}

/// The assignments' bytes are eight per assignment.
pub proof fn lemma_encode_states_len(s: Seq<PanelState>)
    ensures
        spec_encode_states(s).len() == 8 * s.len(),
    decreases s.len(),
{
    if s.len() > 0 {
        lemma_encode_states_len(s.drop_last());
    }
}

/// Law: an encoded frame is exactly `2 + 8 * panel_count` bytes, its reserved
/// byte is zero, and re-reading the header byte recovers the panel count.
pub proof fn lemma_encoded_length(s: Seq<PanelState>)
    requires
        s.len() <= 255,
    ensures
        spec_encode(s).len() == 2 + 8 * s.len(),
        spec_encode(s)[0] == 0u8,
        spec_encode(s)[1] == s.len() as u8,
        spec_encode(s)[1] as int == s.len() as int,
{
    lemma_encode_states_len(s);
}

/// The eight bytes of assignment `i` within the assignments' concatenation.
proof fn lemma_states_panel_bytes(s: Seq<PanelState>, i: int)
    requires
        0 <= i < s.len(),
    ensures
        spec_encode_states(s).subrange(8 * i, 8 * i + 8) == spec_encode_state(s[i]),
    decreases s.len(),
{
    lemma_encode_states_len(s);
    lemma_encode_states_len(s.drop_last());
    if i == s.len() - 1 {
        assert(spec_encode_states(s).subrange(8 * i, 8 * i + 8) =~= spec_encode_state(s[i]));
    } else {
        lemma_states_panel_bytes(s.drop_last(), i);
        assert(s.drop_last()[i] == s[i]);
        assert(spec_encode_states(s).subrange(8 * i, 8 * i + 8) =~= spec_encode_states(
            s.drop_last(),
        ).subrange(8 * i, 8 * i + 8));
    }
}

/// Law: every byte of assignment `i` in an encoded frame is pinned down:
/// big-endian panel id, the caller's three color channels, the fixed white
/// channel, and the big-endian transition time, at offsets `2 + 8 * i`
/// through `9 + 8 * i`.
pub proof fn lemma_encoded_panel_bytes(s: Seq<PanelState>, i: int)
    requires
        0 <= i < s.len(),
    ensures
        spec_encode(s)[2 + 8 * i] == be_hi(s[i].panel_id),
        spec_encode(s)[3 + 8 * i] == be_lo(s[i].panel_id),
        spec_encode(s)[4 + 8 * i] == s[i].red,
        spec_encode(s)[5 + 8 * i] == s[i].green,
        spec_encode(s)[6 + 8 * i] == s[i].blue,
        spec_encode(s)[7 + 8 * i] == WHITE_CHANNEL,
        spec_encode(s)[8 + 8 * i] == be_hi(s[i].transition_time),
        spec_encode(s)[9 + 8 * i] == be_lo(s[i].transition_time),
{
    lemma_encode_states_len(s);
    lemma_states_panel_bytes(s, i);
    let sub = spec_encode_states(s).subrange(8 * i, 8 * i + 8);
    assert(spec_encode(s)[2 + 8 * i] == sub[0]);
    assert(spec_encode(s)[3 + 8 * i] == sub[1]);
    assert(spec_encode(s)[4 + 8 * i] == sub[2]);
    assert(spec_encode(s)[5 + 8 * i] == sub[3]);
    assert(spec_encode(s)[6 + 8 * i] == sub[4]);
    assert(spec_encode(s)[7 + 8 * i] == sub[5]);
    assert(spec_encode(s)[8 + 8 * i] == sub[6]);
    assert(spec_encode(s)[9 + 8 * i] == sub[7]);
}

/// Law: the white channel byte of every assignment in every encoded frame is
/// the full value, whatever colors the caller supplied.
pub proof fn lemma_white_channel_always_full(s: Seq<PanelState>, i: int)
    requires
        0 <= i < s.len(),
    ensures
        spec_encode(s)[7 + 8 * i] == 255u8,
{
    lemma_encoded_panel_bytes(s, i);
}

/// Law: encoding is a pure function of the assignment sequence — two frames
/// holding the same assignments encode to byte-identical output. Together
/// with `Frame::get_buf`'s postcondition, which pins its successful result to
/// `spec_encode`, this makes repeated encoding deterministic.
pub proof fn lemma_encode_deterministic(a: Frame, b: Frame)
    requires
        a.states@ == b.states@,
    ensures
        spec_encode(a.states@) == spec_encode(b.states@),
{
}

} // verus!
