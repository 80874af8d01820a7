use vstd::prelude::*;

use crate::error::PipelineError;
use crate::format::DeviceFormat;

verus! {

/// What the negotiator wants next.
#[derive(Debug, Clone, Copy, PartialEq, Eq, Structural)]
pub enum NegotiationStep {
    /// Ask the device for this format and report what it answers.
    Request(DeviceFormat),
    /// The device took this format as asked.
    Chosen(DeviceFormat),
    /// The device took none of the candidates.
    Exhausted,
}

/// The state of a negotiation: the candidates in order of preference, how
/// many were refused so far, and the one the device took, if any.
pub struct NegotiationView {
    pub candidates: Seq<DeviceFormat>,
    pub next: nat,
    pub chosen: Option<DeviceFormat>,
}

impl NegotiationView {
    /// A negotiation over these candidates that has asked nothing yet.
    pub open spec fn start(candidates: Seq<DeviceFormat>) -> NegotiationView {
        NegotiationView { candidates, next: 0, chosen: None }
    }

    pub open spec fn step(self) -> NegotiationStep {
        match self.chosen {
            Some(f) => NegotiationStep::Chosen(f),
            None => if self.next < self.candidates.len() {
                NegotiationStep::Request(self.candidates[self.next as int])
            } else {
                NegotiationStep::Exhausted
            },
        }
    }

    /// The device answered `returned` to the pending request: it is taken if
    /// it is the candidate asked for, else the next candidate is due.
    pub open spec fn after_reply(self, returned: DeviceFormat) -> NegotiationView {
        if self.chosen is None && self.next < self.candidates.len() {
            if returned == self.candidates[self.next as int] {
                NegotiationView { chosen: Some(returned), ..self }
            } else {
                NegotiationView { next: self.next + 1, ..self }
            }
        } else {
            self
        }
    }
}

/// A device that answers each request by the format it then holds; it took
/// the request where the two agree.
pub open spec fn accepts(answer: spec_fn(DeviceFormat) -> DeviceFormat, f: DeviceFormat) -> bool {
    answer(f) == f
}

/// The state after at most `fuel` requests, each answered by `answer`.
pub open spec fn run(
    s: NegotiationView,
    answer: spec_fn(DeviceFormat) -> DeviceFormat,
    fuel: nat,
) -> NegotiationView
    decreases fuel,
{
    if fuel == 0 {
        s
    } else {
        match s.step() {
            NegotiationStep::Request(f) => run(s.after_reply(answer(f)), answer, (fuel - 1) as nat),
            _ => s,
        }
    }
}

/// The formats requested from the device during `run`, in order.
pub open spec fn requests(
    s: NegotiationView,
    answer: spec_fn(DeviceFormat) -> DeviceFormat,
    fuel: nat,
) -> Seq<DeviceFormat>
    decreases fuel,
{
    if fuel == 0 {
        seq![]
    } else {
        match s.step() {
            NegotiationStep::Request(f) => seq![f] + requests(
                s.after_reply(answer(f)),
                answer,
                (fuel - 1) as nat,
            ),
            _ => seq![],
        }
    }
}

proof fn lemma_run_picks(
    s: NegotiationView,
    answer: spec_fn(DeviceFormat) -> DeviceFormat,
    i: nat,
    fuel: nat,
)
    requires
        s.chosen is None,
        s.next <= i < s.candidates.len(),
        accepts(answer, s.candidates[i as int]),
        forall|j: int| s.next <= j < i ==> !accepts(answer, #[trigger] s.candidates[j]),
        fuel > i - s.next,
    ensures
        run(s, answer, fuel).chosen == Some(s.candidates[i as int]),
        run(s, answer, fuel).next == i,
        run(s, answer, fuel).candidates == s.candidates,
        requests(s, answer, fuel) =~= s.candidates.subrange(s.next as int, i as int + 1),
    decreases i - s.next,
{
    let f = s.candidates[s.next as int];
    let t = s.after_reply(answer(f));
    if s.next == i {
        assert(run(t, answer, (fuel - 1) as nat) == t);
        assert(requests(t, answer, (fuel - 1) as nat) =~= seq![]);
    } else {
        assert(!accepts(answer, s.candidates[s.next as int]));
        lemma_run_picks(t, answer, i, (fuel - 1) as nat);
    }
}

proof fn lemma_run_exhausts(s: NegotiationView, answer: spec_fn(DeviceFormat) -> DeviceFormat, fuel: nat)
    requires
        s.chosen is None,
        s.next <= s.candidates.len(),
        forall|j: int| s.next <= j < s.candidates.len() ==> !accepts(answer, #[trigger] s.candidates[j]),
        fuel >= s.candidates.len() - s.next,
    ensures
        run(s, answer, fuel).step() == NegotiationStep::Exhausted,
        requests(s, answer, fuel) =~= s.candidates.subrange(s.next as int, s.candidates.len() as int),
    decreases s.candidates.len() - s.next,
{
    if s.next < s.candidates.len() {
        let f = s.candidates[s.next as int];
        assert(!accepts(answer, f));
        lemma_run_exhausts(s.after_reply(answer(f)), answer, (fuel - 1) as nat);
    } else if fuel > 0 {
        assert(requests(s, answer, fuel) =~= seq![]);
    }
}

/// Negotiation with a device that answers each request the same way every
/// time takes the first candidate the device accepts, after asking for exactly
/// the candidates up to it; asking again with the same list gives the same
/// choice, since the outcome depends only on the list and the answers.
pub proof fn lemma_negotiation_takes_first_accepted(
    candidates: Seq<DeviceFormat>,
    answer: spec_fn(DeviceFormat) -> DeviceFormat,
    i: nat,
)
    requires
        i < candidates.len(),
        accepts(answer, candidates[i as int]),
        forall|j: int| 0 <= j < i ==> !accepts(answer, #[trigger] candidates[j]),
    ensures
        run(NegotiationView::start(candidates), answer, candidates.len()).step()
            == NegotiationStep::Chosen(candidates[i as int]),
        requests(NegotiationView::start(candidates), answer, candidates.len()) =~= candidates.subrange(
            0,
            i as int + 1,
        ),
{
    lemma_run_picks(NegotiationView::start(candidates), answer, i, candidates.len());
}

/// Negotiation with a device that accepts none of the candidates asks for
/// each of them once, in order, and ends exhausted.
pub proof fn lemma_negotiation_exhausts(
    candidates: Seq<DeviceFormat>,
    answer: spec_fn(DeviceFormat) -> DeviceFormat,
)
    requires
        forall|j: int| 0 <= j < candidates.len() ==> !accepts(answer, #[trigger] candidates[j]),
    ensures
        run(NegotiationView::start(candidates), answer, candidates.len()).step()
            == NegotiationStep::Exhausted,
        requests(NegotiationView::start(candidates), answer, candidates.len()) =~= candidates,
{
    lemma_run_exhausts(NegotiationView::start(candidates), answer, candidates.len());
}

/// Picks a pixel format from candidates in order of preference, moving on
/// whenever the device answers with another format than the one asked for.
pub struct Negotiator {
    candidates: Vec<DeviceFormat>,
    next: usize,
    chosen: Option<DeviceFormat>,
}

impl View for Negotiator {
    type V = NegotiationView;

    closed spec fn view(&self) -> NegotiationView {
        NegotiationView { candidates: self.candidates@, next: self.next as nat, chosen: self.chosen }
    }
}

impl Negotiator {
    pub open spec fn wf(&self) -> bool {
        self@.next <= self@.candidates.len()
    }

    pub fn new(candidates: Vec<DeviceFormat>) -> (r: Negotiator)
        ensures
            r@ == NegotiationView::start(candidates@),
            r.wf(),
    {
        Negotiator { candidates, next: 0, chosen: None }
    }

    /// What is wanted now: a request, the chosen format, or nothing left.
    pub fn step(&self) -> (r: NegotiationStep)
        requires
            self.wf(),
        ensures
            r == self@.step(),
    {
        match self.chosen {
            Some(f) => NegotiationStep::Chosen(f),
            None => if self.next < self.candidates.len() {
                NegotiationStep::Request(self.candidates[self.next])
            } else {
                NegotiationStep::Exhausted
            },
        }
    }

    /// Records the device's answer to the pending request and says what is
    /// wanted next.
    pub fn on_reply(&mut self, returned: DeviceFormat) -> (r: NegotiationStep)
        requires
            old(self).wf(),
        ensures
            final(self)@ == old(self)@.after_reply(returned),
            final(self).wf(),
            r == final(self)@.step(),
    {
        if self.chosen.is_none() && self.next < self.candidates.len() {
            if returned == self.candidates[self.next] {
                self.chosen = Some(returned);
            } else {
                self.next = self.next + 1;
            }
        }
        self.step()
    }
}

impl NegotiationStep {
    /// The negotiation's outcome once it is over: the chosen format, or
    /// `UnsupportedFormat`; `None` while a request is pending.
    pub fn outcome(&self) -> (r: Option<Result<DeviceFormat, PipelineError>>)
        ensures
            match *self {
                NegotiationStep::Request(_) => r is None,
                NegotiationStep::Chosen(f) => r == Some(Ok::<DeviceFormat, PipelineError>(f)),
                NegotiationStep::Exhausted => r == Some(
                    Err::<DeviceFormat, PipelineError>(PipelineError::UnsupportedFormat),
                ),
            },
    {
        match self {
            NegotiationStep::Request(_) => None,
            NegotiationStep::Chosen(f) => Some(Ok(*f)),
            NegotiationStep::Exhausted => Some(Err(PipelineError::UnsupportedFormat)),
        }
    }
}

} // verus!
