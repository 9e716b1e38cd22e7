//! Running the program's main work while watching for an interrupt. The
//! caller starts the work on a thread of its own, installs the signal
//! handler, and asks here, at each tick, what to do next.
use vstd::prelude::*;

verus! {

/// What the watcher does after a tick.
#[derive(PartialEq, Eq, Structural)]
pub enum InterruptAction {
    /// An interrupt came: run the interrupt handler once and stop watching.
    Interrupt,
    /// The main work finished: stop watching.
    Finish,
    /// Neither: sleep and look again.
    Wait,
}

/// The main work and what to run on an interrupt.
pub struct InterruptHandler<F, G> where F: FnOnce() + Send + 'static, G: Fn() + Send + 'static {
    main: F,
    interrupt: G,
}

impl<F, G> InterruptHandler<F, G> where F: FnOnce() + Send + 'static, G: Fn() + Send + 'static {
    /// The main work.
    pub closed spec fn main_view(&self) -> F {
        self.main
    }

    /// What runs on an interrupt.
    pub closed spec fn interrupt_view(&self) -> G {
        self.interrupt
    }

    /// A handler for `main`, running `interrupt` on an interrupt.
    pub fn new(main: F, interrupt: G) -> (r: Self)
        ensures
            r.main_view() == main,
            r.interrupt_view() == interrupt,
    {
        Self { main, interrupt }
    }

    /// The main work and the interrupt handler, for the caller to run.
    pub fn into_parts(self) -> (r: (F, G))
        ensures
            r.0 == self.main_view(),
            r.1 == self.interrupt_view(),
    {
        (self.main, self.interrupt)
    }

    /// What to do after a tick: an interrupt wins over the end of the main
    /// work; with neither, wait.
    pub fn next_action(interrupted: bool, main_finished: bool) -> (r: InterruptAction)
        ensures
            interrupted ==> r == InterruptAction::Interrupt,
            !interrupted && main_finished ==> r == InterruptAction::Finish,
            !interrupted && !main_finished ==> r == InterruptAction::Wait,
    {
        if interrupted {
            InterruptAction::Interrupt
        } else if main_finished {
            InterruptAction::Finish
        } else {
            InterruptAction::Wait
        }
    }
}

} // verus!
