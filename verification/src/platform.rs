//! The one-time steps of the platform: the window adapter is built once from the
//! render backend, and the event loop runs once.
use vstd::prelude::*;

verus! {

/// What `create_window_adapter` does.
#[derive(Clone, Copy, Debug, PartialEq, Eq, Structural)]
pub enum AdapterStep {
    /// Build the adapter, consuming the render backend.
    Create,
    /// Hand out the adapter built before.
    Reuse,
}

/// Which of the platform's one-time resources are still there.
#[derive(Clone, Copy, Debug, PartialEq, Eq, Structural)]
pub struct PlatformLifecycle {
    /// The window adapter exists.
    pub adapter_created: bool,
    /// The event loop was taken to be run.
    pub loop_started: bool,
}

/// The error of a second `run_event_loop`.
pub open spec fn loop_started_message() -> Seq<char> {
    "run_event_loop() called more than once"@
}

impl PlatformLifecycle {
    /// What a request for the window adapter does in this state.
    pub open spec fn next_adapter_step(self) -> AdapterStep {
        if self.adapter_created {
            AdapterStep::Reuse
        } else {
            AdapterStep::Create
        }
    }

    /// The state after a request for the window adapter.
    pub open spec fn after_adapter_request(self) -> PlatformLifecycle {
        PlatformLifecycle { adapter_created: true, ..self }
    }

    /// The state after a request to run the event loop.
    pub open spec fn after_loop_request(self) -> PlatformLifecycle {
        PlatformLifecycle { loop_started: true, ..self }
    }

    /// A fresh platform: no adapter yet, event loop not run.
    pub fn new() -> (p: PlatformLifecycle)
        ensures
            p == (PlatformLifecycle { adapter_created: false, loop_started: false }),
    {
        PlatformLifecycle { adapter_created: false, loop_started: false }
    }

    /// A window adapter is asked for: it is built the first time and reused afterwards.
    pub fn adapter_step(&mut self) -> (step: AdapterStep)
        ensures
            step == old(self).next_adapter_step(),
            *final(self) == old(self).after_adapter_request(),
    {
        if self.adapter_created {
            AdapterStep::Reuse
        } else {
            self.adapter_created = true;
            AdapterStep::Create
        }
    }

    /// The event loop is asked to run: granted once, refused with an error afterwards.
    pub fn start_event_loop(&mut self) -> (r: Result<(), String>)
        ensures
            r is Ok <==> !old(self).loop_started,
            r matches Err(message) ==> message@ == loop_started_message(),
            *final(self) == old(self).after_loop_request(),
    {
        if self.loop_started {
            Err("run_event_loop() called more than once".to_owned())
        } else {
            self.loop_started = true;
            Ok(())
        }
    }
}

/// The render backend is consumed at most once: once a request has been made, every
/// further request reuses the adapter; and once the event loop was asked for, every
/// further request is refused. The two steps do not affect each other.
pub proof fn law_one_time_steps(p: PlatformLifecycle)
    ensures
        p.after_adapter_request().next_adapter_step() == AdapterStep::Reuse,
        p.after_adapter_request().after_adapter_request() == p.after_adapter_request(),
        p.after_loop_request().loop_started,
        p.after_loop_request().after_loop_request() == p.after_loop_request(),
        p.after_loop_request().next_adapter_step() == p.next_adapter_step(),
        p.after_adapter_request().loop_started == p.loop_started,
{
}

} // verus!
