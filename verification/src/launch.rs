//! Launching a delegating mode: the resolved external command, the
//! configuration display, the order of launch steps, and the verified
//! consumer loop over the merged output events.

use vstd::prelude::*;
use vstd::string::StringExecFns;

use crate::mode::Run;
use crate::mux::{delivered, reported, LoopAction, MuxEvent, StreamMux};

verus! {

/// A fully resolved external command: program, arguments, and working
/// directory, as the project collaborator built it.
#[derive(Debug)]
pub struct ExternalCommand {
    /// The program to execute.
    pub program: String,
    /// Its arguments, in order.
    pub args: Vec<String>,
    /// The working directory to run in, if one is set.
    pub cwd: Option<String>,
}

impl ExternalCommand {
    /// Appends a mode's trailing pass-through arguments to the command,
    /// after the arguments the project already resolved.
    pub fn append_args(&mut self, tail: &Vec<String>)
        ensures
            final(self).program == old(self).program,
            final(self).cwd == old(self).cwd,
            final(self).args@ == old(self).args@ + tail@,
    {
        let mut j: usize = 0;
        while j < tail.len()
            invariant
                j <= tail@.len(),
                self.program == old(self).program,
                self.cwd == old(self).cwd,
                self.args@ == old(self).args@ + tail@.take(j as int),
            decreases tail@.len() - j,
        {
            let a = tail[j].clone();
            self.args.push(a);
            proof {
                assert(old(self).args@ + tail@.take(j + 1) =~= (old(self).args@ + tail@.take(
                    j as int,
                )).push(tail@[j as int]));
            }
            j = j + 1;
        }
        proof {
            assert(tail@.take(tail@.len() as int) =~= tail@);
        }
    }
}

/// The lines shown when a run is asked to display its resolved
/// configuration: the program, each argument on a line of its own, and the
/// working directory when one is set.
pub fn config_lines(cmd: &ExternalCommand) -> (lines: Vec<String>)
    ensures
        lines@.len() == 1 + cmd.args@.len() + (if cmd.cwd is Some {
            1int
        } else {
            0int
        }),
        lines@[0]@ == "> "@ + cmd.program@,
        forall|i: int|
            0 <= i < cmd.args@.len() ==> lines@[1 + i]@ == "    "@ + cmd.args@[i]@,
        (cmd.cwd matches Some(d) ==> lines@[lines@.len() - 1]@ == "| in `"@ + d@ + "`"@),
{
    let mut lines: Vec<String> = Vec::new();
    let mut head = String::from_str("> ");
    head.append(cmd.program.as_str());
    lines.push(head);
    let mut i: usize = 0;
    while i < cmd.args.len()
        invariant
            i <= cmd.args@.len(),
            lines@.len() == 1 + i,
            lines@[0]@ == "> "@ + cmd.program@,
            forall|k: int| 0 <= k < i ==> lines@[1 + k]@ == "    "@ + cmd.args@[k]@,
        decreases cmd.args@.len() - i,
    {
        let mut line = String::from_str("    ");
        line.append(cmd.args[i].as_str());
        lines.push(line);
        i = i + 1;
    }
    if let Some(d) = &cmd.cwd {
        let mut tail = String::from_str("| in `");
        tail.append(d.as_str());
        tail.append("`");
        lines.push(tail);
    }
    lines
}

/// One step of launching a delegating mode, in order.
#[derive(Clone, Copy, Debug, PartialEq, Eq, Structural)]
pub enum LaunchStep {
    /// Print the resolved program, arguments, and working directory.
    ShowConfig,
    /// Spawn the external process with both output streams captured.
    Spawn,
    /// Deliver output records in arrival order until the stream closes.
    Drain,
    /// Join the process and take its real exit status.
    Join,
}

/// The steps a run performs, in order: the configuration display comes
/// first and only when asked for, then spawn, drain, join.
pub fn launch_steps(run: &Run) -> (steps: Vec<LaunchStep>)
    ensures
        run.show_config ==> steps@ == seq![
            LaunchStep::ShowConfig,
            LaunchStep::Spawn,
            LaunchStep::Drain,
            LaunchStep::Join,
        ],
        !run.show_config ==> steps@ == seq![LaunchStep::Spawn, LaunchStep::Drain, LaunchStep::Join],
{
    let mut steps: Vec<LaunchStep> = Vec::new();
    if run.show_config {
        steps.push(LaunchStep::ShowConfig);
    }
    steps.push(LaunchStep::Spawn);
    steps.push(LaunchStep::Drain);
    steps.push(LaunchStep::Join);
    proof {
        if run.show_config {
            assert(steps@ =~= seq![
                LaunchStep::ShowConfig,
                LaunchStep::Spawn,
                LaunchStep::Drain,
                LaunchStep::Join,
            ]);
        } else {
            assert(steps@ =~= seq![LaunchStep::Spawn, LaunchStep::Drain, LaunchStep::Join]);
        }
    }
    steps
}

/// Replays a finished merge history through the consumer loop: every line
/// is delivered in arrival order, every decode failure is reported out of
/// band and skipped, and the closed sentinel, which can only come last,
/// ends the stream.
pub fn consume_events(events: &Vec<MuxEvent>) -> (mux: StreamMux)
    requires
        forall|j: int|
            0 <= j < events@.len() - 1 ==> !(#[trigger] events@[j] matches MuxEvent::Closed),
    ensures
        mux.records@ == delivered(events@),
        mux.failures@ == reported(events@),
        mux.closed == (events@.len() > 0 && events@.last() matches MuxEvent::Closed),
{
    let mut mux = StreamMux::new();
    let mut i: usize = 0;
    while i < events.len()
        invariant
            i <= events@.len(),
            forall|j: int|
                0 <= j < events@.len() - 1 ==> !(#[trigger] events@[j] matches MuxEvent::Closed),
            mux.records@ == delivered(events@.take(i as int)),
            mux.failures@ == reported(events@.take(i as int)),
            mux.closed == (i > 0 && events@[i - 1] matches MuxEvent::Closed),
        decreases events@.len() - i,
    {
        let ev: MuxEvent = match &events[i] {
            MuxEvent::Line(r) => MuxEvent::Line(
                crate::mux::OutputRecord { text: r.text.clone(), origin: r.origin },
            ),
            MuxEvent::DecodeFailure(o) => MuxEvent::DecodeFailure(*o),
            MuxEvent::Closed => MuxEvent::Closed,
        };
        proof {
            assert(ev == events@[i as int]);
            assert(events@.take(i + 1).drop_last() =~= events@.take(i as int));
            assert(events@.take(i + 1).last() == events@[i as int]);
        }
        let _ = mux.accept(ev);
        i = i + 1;
    }
    proof {
        assert(events@.take(events@.len() as int) =~= events@);
    }
    mux
}

} // verus!
