//! The per-frame loop: clear, copy, draw, submit, present, poll.
//!
//! The driver is a two-state machine, `Running` and `Stopped`.  While
//! running, each iteration records the same fixed command sequence —
//! clear both targets, flush the instance staging buffer, issue the
//! bundle's draw, submit, present, clean up — and then drains the queued
//! window events.  A close request moves the machine to `Stopped` after
//! the current iteration has completed in full; a stopped machine records
//! no commands at all, so no draw follows the transition.

use vstd::prelude::*;

use crate::instances::flush_model;
use crate::pipeline::Bundle;

verus! {

/// The two states of the frame loop.
#[derive(Clone, Copy, Debug, PartialEq, Eq, Structural)]
pub enum LoopState {
    /// Frames are being rendered.
    Running,
    /// A close request was seen; no further frame is recorded.
    Stopped,
}

/// The window events the loop consumes.  Only a close request is acted
/// on; every other event is ignored.
#[derive(Clone, Copy, Debug, PartialEq, Eq, Structural)]
pub enum WindowEvent {
    /// The user asked to close the window.
    CloseRequested,
    /// Any other window or input event.
    Other,
}

/// One command recorded into the frame's batch, in program order.
#[derive(Clone, Copy, Debug, PartialEq, Eq, Structural)]
pub enum FrameCommand {
    /// Clear the colour target to the given RGBA value.
    ClearColour { red: u8, green: u8, blue: u8, alpha: u8 },
    /// Clear the depth target to the far plane.
    ClearDepthToFar,
    /// Copy `count` records from staging into the instance buffer.
    CopyInstances { count: usize },
    /// The bundle's one indexed, instanced draw call.
    Draw { index_count: usize, instance_count: usize },
    /// Submit the recorded batch to the device queue.
    Submit,
    /// Present the frame (buffer swap).
    Present,
    /// Reclaim transient per-frame resources already known complete.
    Cleanup,
}

/// The commands of one full frame, in order, for a store of the given
/// capacity: clear colour to opaque black, clear depth to the far plane,
/// copy all instance records, draw six indices for each of the capacity's
/// instances, submit, present, clean up.
pub open spec fn frame_commands_spec(capacity: usize) -> Seq<FrameCommand> {
    seq![
        FrameCommand::ClearColour { red: 0, green: 0, blue: 0, alpha: 255 },
        FrameCommand::ClearDepthToFar,
        FrameCommand::CopyInstances { count: capacity },
        FrameCommand::Draw { index_count: 6, instance_count: capacity },
        FrameCommand::Submit,
        FrameCommand::Present,
        FrameCommand::Cleanup,
    ]
}

/// What draining the queued events does to the loop state: a stopped
/// loop stays stopped, and a running loop stops exactly when a close
/// request is among the drained events.
pub open spec fn poll_model(state: LoopState, events: Seq<WindowEvent>) -> LoopState {
    if state is Stopped || events.contains(WindowEvent::CloseRequested) {
        LoopState::Stopped
    } else {
        LoopState::Running
    }
}

/// The commands one iteration records: a full frame while running,
/// nothing once stopped.
pub open spec fn iteration_commands_model(state: LoopState, capacity: usize) -> Seq<FrameCommand> {
    if state is Running {
        frame_commands_spec(capacity)
    } else {
        Seq::empty()
    }
}

/// The driver of the frame loop.
pub struct FrameRenderer {
    state: LoopState,
}

impl FrameRenderer {
    /// The machine's current state.
    pub closed spec fn state_spec(&self) -> LoopState {
        self.state
    }

    /// The loop starts running.
    pub fn new() -> (r: Self)
        ensures
            r.state_spec() is Running,
    {
        FrameRenderer { state: LoopState::Running }
    }

    /// Whether another iteration will render a frame.
    pub fn is_running(&self) -> (b: bool)
        ensures
            b == (self.state_spec() is Running),
    {
        matches!(self.state, LoopState::Running)
    }

    /// Record one frame: clear both targets, flush the bundle's instance
    /// staging buffer into the instance buffer, issue the draw, submit,
    /// present and clean up.  The bundle is left well formed with only
    /// its instance-buffer side changed, and the recorded batch is
    /// exactly the fixed frame sequence.
    pub fn render_frame(&self, bundle: &mut Bundle) -> (cmds: Vec<FrameCommand>)
        requires
            self.state_spec() is Running,
            old(bundle).wf(),
        ensures
            final(bundle).wf(),
            final(bundle).store_model() == flush_model(old(bundle).store_model()),
            final(bundle).geometry_spec() == old(bundle).geometry_spec(),
            final(bundle).properties_spec() == old(bundle).properties_spec(),
            final(bundle).texture_spec() == old(bundle).texture_spec(),
            final(bundle).depth_spec() == old(bundle).depth_spec(),
            final(bundle).blend_spec() == old(bundle).blend_spec(),
            cmds@ == frame_commands_spec(old(bundle).store_model().staging.len() as usize),
    {
        let capacity = bundle.instance_capacity();
        let mut cmds: Vec<FrameCommand> = Vec::new();
        cmds.push(FrameCommand::ClearColour { red: 0, green: 0, blue: 0, alpha: 255 });
        cmds.push(FrameCommand::ClearDepthToFar);
        bundle.flush_instances();
        cmds.push(FrameCommand::CopyInstances { count: capacity });
        let draw = bundle.encode();
        cmds.push(FrameCommand::Draw {
            index_count: draw.index_count,
            instance_count: draw.instance_count,
        });
        cmds.push(FrameCommand::Submit);
        cmds.push(FrameCommand::Present);
        cmds.push(FrameCommand::Cleanup);
        proof {
            assert(cmds@ =~= frame_commands_spec(old(bundle).store_model().staging.len() as usize));
        }
        cmds
    }

    /// Drain the events the window queued during the iteration.  A close
    /// request among them stops the loop; everything else is ignored.
    pub fn poll_events(&mut self, events: &Vec<WindowEvent>)
        ensures
            final(self).state_spec() == poll_model(old(self).state_spec(), events@),
    {
        let mut i: usize = 0;
        while i < events.len()
            invariant
                i <= events@.len(),
                old(self).state_spec() is Stopped ==> self.state_spec() is Stopped,
                old(self).state_spec() is Running ==> (self.state_spec() is Stopped <==> exists|j: int|
                    0 <= j < i && events@[j] is CloseRequested),
            decreases events@.len() - i,
        {
            match events[i] {
                WindowEvent::CloseRequested => {
                    self.state = LoopState::Stopped;
                    proof {
                        assert(events@[i as int] is CloseRequested);
                    }
                },
                WindowEvent::Other => {},
            }
            i = i + 1;
        }
    }

    /// One whole loop iteration: while running, record a full frame and
    /// then drain the events; once stopped, record nothing.
    pub fn run_iteration(&mut self, bundle: &mut Bundle, events: &Vec<WindowEvent>) -> (cmds: Vec<
        FrameCommand,
    >)
        requires
            old(bundle).wf(),
        ensures
            final(bundle).wf(),
            cmds@ == iteration_commands_model(
                old(self).state_spec(),
                old(bundle).store_model().staging.len() as usize,
            ),
            final(self).state_spec() == poll_model(old(self).state_spec(), events@),
            old(self).state_spec() is Running ==> final(bundle).store_model() == flush_model(
                old(bundle).store_model(),
            ),
            old(self).state_spec() is Stopped ==> final(bundle).store_model() == old(
                bundle,
            ).store_model(),
            final(bundle).geometry_spec() == old(bundle).geometry_spec(),
            final(bundle).properties_spec() == old(bundle).properties_spec(),
            final(bundle).texture_spec() == old(bundle).texture_spec(),
            final(bundle).depth_spec() == old(bundle).depth_spec(),
            final(bundle).blend_spec() == old(bundle).blend_spec(),
    {
        if self.is_running() {
            let cmds = self.render_frame(bundle);
            self.poll_events(events);
            cmds
        } else {
            Vec::new()
        }
    }
}

/// A close request that arrives mid-loop ends the loop cleanly: the
/// iteration that drains it still records its frame in full — including
/// the one draw and the present — the poll then moves the machine to
/// `Stopped`, and a stopped iteration records no commands at all, so no
/// draw follows the transition.
pub proof fn lemma_close_request_finishes_frame_then_stops(
    capacity: usize,
    events: Seq<WindowEvent>,
)
    requires
        events.contains(WindowEvent::CloseRequested),
    ensures
        iteration_commands_model(LoopState::Running, capacity) == frame_commands_spec(capacity),
        frame_commands_spec(capacity)[3] == (FrameCommand::Draw {
            index_count: 6,
            instance_count: capacity,
        }),
        frame_commands_spec(capacity).contains(FrameCommand::Present),
        poll_model(LoopState::Running, events) is Stopped,
        iteration_commands_model(LoopState::Stopped, capacity) == Seq::<FrameCommand>::empty(),
{
    assert(frame_commands_spec(capacity)[5] == FrameCommand::Present);
}

} // verus!
