//! The command-buffer frame bridge.
//!
//! Under this design a drawing call never touches a live frame resource:
//! it captures a [`DrawCommand`] by value and appends it to a queue.  Once
//! the draw phase has legitimate access to a real frame resource, it takes
//! the whole queue — exactly the commands of the current frame, in
//! insertion order — and replays them; the queue is then empty for the
//! next frame.  Drawing calls under this bridge always succeed, so it has
//! no `NotRendering` failure mode.

use vstd::prelude::*;
use crate::native::{clear_command, rectangle_command, spec_clear_command, spec_rectangle_command,
    DrawCommand};

verus! {

/// The ordered queue of drawing commands captured during the current
/// frame, awaiting replay against a real frame resource.
pub struct CommandQueue {
    commands: Vec<DrawCommand>,
}

impl CommandQueue {
    /// The pending commands, oldest first; insertion order is replay
    /// order.
    pub closed spec fn spec_pending(self) -> Seq<DrawCommand> {
        self.commands@
    }

    /// An empty queue, as each frame starts with.
    pub fn new() -> (q: CommandQueue)
        ensures
            q.spec_pending() == Seq::<DrawCommand>::empty(),
    {
        CommandQueue { commands: Vec::new() }
    }

    /// A script's `clear(r, g, b, a)` under this bridge: append the
    /// coerced clear command.  Nothing is drawn yet and nothing can fail.
    pub fn push_clear(&mut self, args: &Vec<Option<u64>>)
        ensures
            final(self).spec_pending() == old(self).spec_pending().push(
                spec_clear_command(args@),
            ),
    {
        let command = clear_command(args);
        self.commands.push(command);
    }

    /// A script's `rectangle(r, g, b, a, x, y, w, h)` under this bridge:
    /// append the coerced rectangle command.
    pub fn push_rectangle(&mut self, args: &Vec<Option<u64>>)
        ensures
            final(self).spec_pending() == old(self).spec_pending().push(
                spec_rectangle_command(args@),
            ),
    {
        let command = rectangle_command(args);
        self.commands.push(command);
    }

    /// Hand the draw phase everything queued this frame, in insertion
    /// order, and leave the queue empty for the next frame: no command is
    /// dropped and none carries over.
    pub fn take_pending(&mut self) -> (commands: Vec<DrawCommand>)
        ensures
            commands@ == old(self).spec_pending(),
            final(self).spec_pending() == Seq::<DrawCommand>::empty(),
    {
        let mut commands: Vec<DrawCommand> = Vec::new();
        core::mem::swap(&mut commands, &mut self.commands);
        commands
    }
}

} // verus!
