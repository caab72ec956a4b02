//! The frame driver: the loop's two states and the fixed per-frame order.
//!
//! The loop runs while the driver is `Running` and stops for good once it
//! is `Closing`; the transition comes from a window-close flag, from an
//! Escape-key release seen while polling, or from a host request.  Every
//! frame executes the same step sequence in the same order.

use vstd::prelude::*;

verus! {

/// The GLFW code of the Escape key.
pub const KEY_ESCAPE: i32 = 256;

/// What happened to a key.
#[derive(Debug, Clone, Copy, PartialEq, Eq, Structural)]
pub enum KeyAction {
    Press,
    Release,
    Repeat,
}

/// A platform event, reduced to what the frame driver reads.
#[derive(Debug, Clone, Copy, PartialEq, Eq, Structural)]
pub enum PlatformEvent {
    Key { key_code: i32, action: KeyAction },
    Other,
}

/// Whether one event asks the loop to close: only the release of the
/// Escape key does.
pub open spec fn requests_close(e: PlatformEvent) -> bool {
    e matches PlatformEvent::Key { key_code, action } && key_code == 256 && action is Release
}

/// Whether any polled event asks the loop to close.
pub open spec fn any_close(events: Seq<PlatformEvent>) -> bool {
    exists|i: int| 0 <= i < events.len() && #[trigger] requests_close(events[i])
}

/// The loop's two states; `Closing` is terminal.
#[derive(Debug, Clone, Copy, PartialEq, Eq, Structural)]
pub enum EngineState {
    Running,
    Closing,
}

/// One step of the fixed per-frame sequence.
#[derive(Debug, Clone, Copy, PartialEq, Eq, Structural)]
pub enum FrameStep {
    /// Poll platform events; may flip the driver to `Closing`.
    PollEvents,
    /// Reload changed scripts in every dialect, in a fixed order.
    ReloadScripts,
    /// Clear the color and depth buffers.
    ClearBuffers,
    /// Recompute projection, view and model matrices.
    UpdateTransforms,
    /// Upload the matrices to the active shader's named uniforms.
    UploadUniforms,
    /// Bind resources and issue the draw calls.
    DrawScene,
    /// Swap the window's buffers.
    Present,
}

/// The fixed order of one frame.
pub open spec fn frame_order() -> Seq<FrameStep> {
    seq![
        FrameStep::PollEvents,
        FrameStep::ReloadScripts,
        FrameStep::ClearBuffers,
        FrameStep::UpdateTransforms,
        FrameStep::UploadUniforms,
        FrameStep::DrawScene,
        FrameStep::Present,
    ]
}

/// Decides one event: true exactly for an Escape-key release.
pub fn event_requests_close(e: &PlatformEvent) -> (r: bool)
    ensures
        r == requests_close(*e),
{
    match e {
        PlatformEvent::Key { key_code, action } => *key_code == KEY_ESCAPE && *action
            == KeyAction::Release,
        PlatformEvent::Other => false,
    }
}

/// Drives the loop: state, transitions and the per-frame plan.
#[derive(Debug)]
pub struct FrameDriver {
    pub state: EngineState,
}

impl FrameDriver {
    /// A driver starts running.
    pub fn new() -> (r: Self)
        ensures
            r.state == EngineState::Running,
    {
        FrameDriver { state: EngineState::Running }
    }

    /// Whether the loop must stop: exactly in the terminal state.
    pub fn should_close(&self) -> (r: bool)
        ensures
            r == (self.state == EngineState::Closing),
    {
        match self.state {
            EngineState::Closing => true,
            EngineState::Running => false,
        }
    }

    /// The host asks the loop to stop (window-close flag or its own
    /// shutdown); the state becomes terminal.
    pub fn request_close(&mut self)
        ensures
            final(self).state == EngineState::Closing,
    {
        self.state = EngineState::Closing;
    }

    /// Feeds one poll's events through the driver: the state flips to
    /// `Closing` exactly when it already was terminal or some event asks
    /// to close; it never returns to `Running`.
    pub fn handle_events(&mut self, events: &Vec<PlatformEvent>)
        ensures
            final(self).state == EngineState::Closing <==> (old(self).state == EngineState::Closing
                || any_close(events@)),
    {
        let n = events.len();
        let mut k: usize = 0;
        #[verifier::loop_isolation(false)]
        while k < n
            invariant
                0 <= k <= n,
                self.state == EngineState::Closing <==> (old(self).state == EngineState::Closing
                    || any_close(events@.take(k as int))),
            decreases n - k,
        {
            let ghost prefix = events@.take(k as int);
            if event_requests_close(&events[k]) {
                self.state = EngineState::Closing;
            }
            proof {
                assert(events@.take(k + 1) =~= prefix.push(events@[k as int]));
                if any_close(prefix) {
                    let i = choose|i: int| 0 <= i < prefix.len() && #[trigger] requests_close(prefix[i]);
                    assert(requests_close(events@.take(k + 1)[i]));
                }
                if requests_close(events@[k as int]) {
                    assert(requests_close(events@.take(k + 1)[k as int]));
                }
                if any_close(events@.take(k + 1)) && !any_close(prefix) && !requests_close(
                    events@[k as int],
                ) {
                    let i = choose|i: int|
                        0 <= i < events@.take(k + 1).len() && #[trigger] requests_close(
                            events@.take(k + 1)[i],
                        );
                    assert(requests_close(prefix[i]) || i == k);
                    assert(false);
                }
            }
            k = k + 1;
        }
        proof {
            assert(events@.take(n as int) =~= events@);
        }
    }

    /// The steps of the next frame, in their fixed order: the full
    /// sequence while running, nothing once the loop is closing.
    pub fn frame_plan(&self) -> (v: Vec<FrameStep>)
        ensures
            self.state == EngineState::Running ==> v@ == frame_order(),
            self.state == EngineState::Closing ==> v@ =~= Seq::<FrameStep>::empty(),
    {
        match self.state {
            EngineState::Running => {
                let mut v: Vec<FrameStep> = Vec::new();
                v.push(FrameStep::PollEvents);
                v.push(FrameStep::ReloadScripts);
                v.push(FrameStep::ClearBuffers);
                v.push(FrameStep::UpdateTransforms);
                v.push(FrameStep::UploadUniforms);
                v.push(FrameStep::DrawScene);
                v.push(FrameStep::Present);
                proof {
                    assert(v@ =~= frame_order());
                }
                v
            },
            EngineState::Closing => Vec::new(),
        }
    }
}

} // verus!
