//! The streaming loop's state machine and per-tick computation.
//!
//! A `StreamSession` starts `Idle`, is armed exactly once when the device has
//! accepted the external-control request, and then stays `Streaming` for the
//! rest of the session. Each tick selects the panels of one shape class,
//! assigns them a solid color, encodes the frame, and hands the bytes out for
//! a fire-and-forget datagram send; the send's outcome is recorded but never
//! steers the session, so a failed transmission costs one tick and nothing
//! more.

use vstd::prelude::*;

use crate::error::NanoleafError;
use crate::frame::Frame;
use crate::frame::PanelState;
use crate::frame::spec_encode;
use crate::layout::Layout;
use crate::layout::Position;
use crate::layout::spec_panels_of_shape;

verus! {

/// Whether the device has been armed for external control yet.
#[derive(Clone, Copy, Debug, PartialEq, Eq, Structural)]
pub enum StreamPhase {
    Idle,
    Streaming,
}

/// The streaming loop's whole mutable state: its phase and how many ticks
/// have completed since the session began.
#[derive(Clone, Copy, Debug, PartialEq, Eq, Structural)]
pub struct StreamSession {
    pub phase: StreamPhase,
    pub ticks_completed: u64,
}

/// The solid-color assignment the loop gives every selected panel, with the
/// fixed one-unit transition time.
pub open spec fn spec_solid_state(p: Position, red: u8, green: u8, blue: u8) -> PanelState {
    PanelState { panel_id: p.panel_id, red, green, blue, transition_time: 1u16 }
}

/// The assignments of one tick: the panels of the chosen shape class, in
/// layout order, each given the same solid color.
pub open spec fn spec_tick_states(
    panels: Seq<Position>,
    shape: u32,
    red: u8,
    green: u8,
    blue: u8,
) -> Seq<PanelState> {
    spec_panels_of_shape(panels, shape).map_values(
        |p: Position| spec_solid_state(p, red, green, blue),
    )
}

/// The session after one completed tick: the counter advances and the phase
/// is kept, whatever the transmission outcome was.
pub open spec fn spec_ticked(s: StreamSession) -> StreamSession {
    StreamSession { phase: s.phase, ticks_completed: (s.ticks_completed + 1) as u64 }
}

/// The session after `n` completed ticks.
pub open spec fn spec_after_ticks(s: StreamSession, n: nat) -> StreamSession
    decreases n,
{
    if n == 0 {
        s
    } else {
        spec_ticked(spec_after_ticks(s, (n - 1) as nat))
    }
}

/// Build the frame that lights every panel of one shape class in a solid
/// color.
pub fn frame_for_shape(layout: &Layout, shape: u32, red: u8, green: u8, blue: u8) -> (f: Frame)
    ensures
        f.states@ == spec_tick_states(layout.position_data@, shape, red, green, blue),
{
    let sel = layout.panels_of_shape(shape);
    let n = sel.len();
    let mut f = Frame { states: Vec::new() };
    let mut i: usize = 0;
    while i < n
        invariant
            n == sel@.len(),
            i <= n,
            f.states@ == sel@.take(i as int).map_values(
                |p: Position| spec_solid_state(p, red, green, blue),
            ),
        decreases n - i,
    {
        let p = sel[i];
        f.solid_frame(p.panel_id, red, green, blue);
        proof {
            assert(f.states@ =~= sel@.take(i + 1).map_values(
                |p: Position| spec_solid_state(p, red, green, blue),
            ));
        }
        i = i + 1;
    }
    proof {
        assert(sel@.take(n as int) =~= sel@);
    }
    f
}

impl StreamSession {
    /// A fresh session: not yet armed, no ticks completed.
    pub fn new() -> (s: Self)
        ensures
            s.phase is Idle,
            s.ticks_completed == 0,
    {
        StreamSession { phase: StreamPhase::Idle, ticks_completed: 0 }
    }

    /// Arm the session once the device has accepted the external-control
    /// request. Happens exactly once, before the first frame is sent; there
    /// is no way back to `Idle`.
    pub fn arm(&mut self)
        requires
            old(self).phase is Idle,
        ensures
            final(self).phase is Streaming,
            final(self).ticks_completed == old(self).ticks_completed,
    {
        self.phase = StreamPhase::Streaming;
    }

    /// Compute one tick's datagram payload: the encoded frame that lights
    /// every panel of the chosen shape class in the given solid color.
    pub fn tick_payload(&self, layout: &Layout, shape: u32, red: u8, green: u8, blue: u8) -> (r:
        Result<Vec<u8>, NanoleafError>)
        requires
            self.phase is Streaming,
        ensures
            ({
                let states = spec_tick_states(layout.position_data@, shape, red, green, blue);
                &&& states.len() <= 255 ==> (r matches Ok(buf) && buf@ == spec_encode(states))
                &&& states.len() > 255 ==> r == Err::<Vec<u8>, NanoleafError>(
                    NanoleafError::FrameTooLarge,
                )
            }),
    {
        let f = frame_for_shape(layout, shape, red, green, blue);
        f.get_buf()
    }

    /// Record the end of a tick. A failed transmission is reported back for
    /// logging, but the session advances exactly as it does on success: the
    /// next tick re-sends fresh state, which is the protocol's only recovery
    /// mechanism.
    pub fn complete_tick(&mut self, send_ok: bool) -> (r: Result<(), NanoleafError>)
        requires
            old(self).phase is Streaming,
            old(self).ticks_completed < u64::MAX,
        ensures
            *final(self) == spec_ticked(*old(self)),
            final(self).phase is Streaming,
            send_ok <==> r is Ok,
            !send_ok ==> r == Err::<(), NanoleafError>(NanoleafError::TransmissionFailure),
    {
        self.ticks_completed = self.ticks_completed + 1;
        if send_ok {
            Ok(())
        } else {
            Err(NanoleafError::TransmissionFailure)
        }
    }
}

/// Law: a streaming session completes any number of consecutive ticks and is
/// still streaming afterwards, whatever each transmission's outcome was — in
/// particular, a transmission function that always fails cannot stop the
/// loop, since `StreamSession::complete_tick` advances the session by
/// `spec_ticked` on failure exactly as on success.
pub proof fn lemma_streaming_survives_failed_sends(s: StreamSession, n: nat)
    requires
        s.phase is Streaming,
        s.ticks_completed + n <= u64::MAX,
    ensures
        spec_after_ticks(s, n).phase is Streaming,
        spec_after_ticks(s, n).ticks_completed == s.ticks_completed + n,
    decreases n,
{
    if n > 0 {
        lemma_streaming_survives_failed_sends(s, (n - 1) as nat);
    }
}

} // verus!
