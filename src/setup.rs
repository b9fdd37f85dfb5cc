use vstd::prelude::*;

verus! {

/// Where a run of the construction protocol stands.
pub enum Stage<E> {
    /// No handle has been opened yet.
    Opening,
    /// Handles are open; some of them are not yet in non-blocking mode.
    Configuring,
    /// Every handle is open and non-blocking: ready to be handed out.
    Ready,
    /// A step failed with this error; every opened handle was released.
    Failed(E),
}

/// The outside step that the caller must perform next.
#[derive(Debug, PartialEq, Eq, Structural, Clone, Copy)]
pub enum Step {
    /// Open the handle(s): connect, create a pair, bind or accept.
    Open,
    /// Switch the handle at this index to non-blocking mode.
    SetNonblocking(usize),
    /// Nothing is left to do: call `finish`.
    Finish,
}

/// The mathematical state of a run.
pub struct SetupView<H, E> {
    pub stage: Stage<E>,
    /// The handles currently owned by the run, in the order they were opened.
    pub held: Seq<H>,
    /// How many of `held` (a prefix) are in non-blocking mode.
    pub configured: nat,
    /// Every handle the open step produced.
    pub opened: Seq<H>,
    /// Handles released because a later step failed.
    pub released: Seq<H>,
}

impl<H, E> SetupView<H, E> {
    /// The state before any step.
    pub open spec fn start() -> Self {
        SetupView {
            stage: Stage::Opening,
            held: Seq::empty(),
            configured: 0,
            opened: Seq::empty(),
            released: Seq::empty(),
        }
    }

    /// The invariant of each stage: what the run holds, what it opened and
    /// what it released.
    pub open spec fn wf(self) -> bool {
        match self.stage {
            Stage::Opening => {
                &&& self.held == Seq::<H>::empty()
                &&& self.configured == 0
                &&& self.opened == Seq::<H>::empty()
                &&& self.released == Seq::<H>::empty()
            },
            Stage::Configuring => {
                &&& self.opened == self.held
                &&& self.configured < self.held.len()
                &&& self.released == Seq::<H>::empty()
            },
            Stage::Ready => {
                &&& self.opened == self.held
                &&& self.configured == self.held.len()
                &&& self.released == Seq::<H>::empty()
            },
            Stage::Failed(_) => {
                &&& self.held == Seq::<H>::empty()
                &&& self.released == self.opened
                &&& self.configured == 0
            },
        }
    }

    /// Whether the held handle at index `i` has been put in non-blocking mode.
    pub open spec fn is_nonblocking(self, i: int) -> bool {
        0 <= i < self.configured
    }

    pub open spec fn is_finished(self) -> bool {
        self.stage is Ready || self.stage is Failed
    }

    /// The step the caller has to perform next.
    pub open spec fn next_step(self) -> Step {
        match self.stage {
            Stage::Opening => Step::Open,
            Stage::Configuring => Step::SetNonblocking(self.configured as usize),
            _ => Step::Finish,
        }
    }

    /// The state after the open step answered `r`.
    pub open spec fn on_open(self, r: Result<Seq<H>, E>) -> Self
        recommends
            self.stage is Opening,
    {
        match r {
            Ok(hs) => SetupView {
                stage: if hs.len() == 0 {
                    Stage::Ready
                } else {
                    Stage::Configuring
                },
                held: hs,
                configured: 0,
                opened: hs,
                released: Seq::empty(),
            },
            Err(e) => SetupView { stage: Stage::Failed(e), ..self },
        }
    }

    /// The state after switching the next handle to non-blocking mode answered `r`.
    pub open spec fn on_mode(self, r: Result<(), E>) -> Self
        recommends
            self.stage is Configuring,
    {
        match r {
            Ok(_) => SetupView {
                stage: if self.configured + 1 == self.held.len() {
                    Stage::Ready
                } else {
                    Stage::Configuring
                },
                configured: self.configured + 1,
                ..self
            },
            Err(e) => SetupView {
                stage: Stage::Failed(e),
                held: Seq::empty(),
                configured: 0,
                released: self.held,
                ..self
            },
        }
    }

    /// The state after feeding `modes`, the answers of successive mode switches,
    /// for as long as handles are being configured.
    pub open spec fn after_modes(self, modes: Seq<Result<(), E>>) -> Self
        decreases modes.len(),
    {
        if self.stage is Configuring && modes.len() > 0 {
            self.on_mode(modes[0]).after_modes(modes.drop_first())
        } else {
            self
        }
    }

    /// What a finished run hands back: every handle, or the error of the failed step.
    pub open spec fn outcome(self) -> Result<Seq<H>, E>
        recommends
            self.is_finished(),
    {
        match self.stage {
            Stage::Failed(e) => Err(e),
            _ => Ok(self.held),
        }
    }
}

/// A whole run: the open step answered `open`, then the mode switches answered
/// `modes`, one after another.
pub open spec fn run<H, E>(open: Result<Seq<H>, E>, modes: Seq<Result<(), E>>) -> SetupView<H, E> {
    SetupView::start().on_open(open).after_modes(modes)
}

/// The view of what the open step returned.
pub open spec fn opened_view<H, E>(r: Result<Vec<H>, E>) -> Result<Seq<H>, E> {
    match r {
        Ok(v) => Ok(v@),
        Err(e) => Err(e),
    }
}

/// One run of the construction protocol: it owns the handles from the moment
/// they are opened until they are handed out, or released on failure.
pub struct Setup<H, E> {
    stage: Stage<E>,
    held: Vec<H>,
    configured: usize,
    opened: Ghost<Seq<H>>,
    released: Ghost<Seq<H>>,
}

impl<H, E> View for Setup<H, E> {
    type V = SetupView<H, E>;

    closed spec fn view(&self) -> SetupView<H, E> {
        SetupView {
            stage: self.stage,
            held: self.held@,
            configured: self.configured as nat,
            opened: self.opened@,
            released: self.released@,
        }
    }
}

impl<H, E> Setup<H, E> {
    /// A run that has not opened anything yet.
    pub fn new() -> (r: Self)
        ensures
            r@ == SetupView::<H, E>::start(),
            r@.wf(),
    {
        Setup {
            stage: Stage::Opening,
            held: Vec::new(),
            configured: 0,
            opened: Ghost(Seq::empty()),
            released: Ghost(Seq::empty()),
        }
    }

    /// The step the caller has to perform next.
    pub fn next(&self) -> (r: Step)
        requires
            self@.wf(),
        ensures
            r == self@.next_step(),
    {
        match self.stage {
            Stage::Opening => Step::Open,
            Stage::Configuring => Step::SetNonblocking(self.configured),
            _ => Step::Finish,
        }
    }

    /// Borrows the held handle at index `i`, to switch its mode.
    pub fn handle(&self, i: usize) -> (r: &H)
        requires
            i < self@.held.len(),
        ensures
            *r == self@.held[i as int],
    {
        &self.held[i]
    }

    /// Records what the open step returned; on success the run takes ownership
    /// of the handles.
    pub fn opened(&mut self, r: Result<Vec<H>, E>)
        requires
            old(self)@.wf(),
            old(self)@.stage is Opening,
        ensures
            final(self)@ == old(self)@.on_open(opened_view(r)),
            final(self)@.wf(),
    {
        match r {
            Ok(hs) => {
                let n = hs.len();
                self.opened = Ghost(hs@);
                self.held = hs;
                self.stage = if n == 0 {
                    Stage::Ready
                } else {
                    Stage::Configuring
                };
            },
            Err(e) => {
                self.stage = Stage::Failed(e);
            },
        }
    }

    /// Records what switching the next handle to non-blocking mode returned.
    /// On failure every held handle is released.
    pub fn mode_set(&mut self, r: Result<(), E>)
        requires
            old(self)@.wf(),
            old(self)@.stage is Configuring,
        ensures
            final(self)@ == old(self)@.on_mode(r),
            final(self)@.wf(),
    {
        match r {
            Ok(_) => {
                let n = self.held.len();
                self.configured = self.configured + 1;
                if self.configured == n {
                    self.stage = Stage::Ready;
                }
            },
            Err(e) => {
                self.released = Ghost(self.held@);
                self.held = Vec::new();
                assert(self.held@ =~= Seq::<H>::empty());
                self.configured = 0;
                self.stage = Stage::Failed(e);
            },
        }
    }

    /// Ends a finished run: the non-blocking handles, or the error of the failed step.
    pub fn finish(self) -> (r: Result<Vec<H>, E>)
        requires
            self@.wf(),
            self@.is_finished(),
        ensures
            opened_view(r) == self@.outcome(),
            r is Ok ==> forall|i: int| 0 <= i < self@.held.len() ==> self@.is_nonblocking(i),
    {
        match self.stage {
            Stage::Failed(e) => Err(e),
            _ => Ok(self.held),
        }
    }
}

} // verus!
