use vstd::prelude::*;
use crate::sample::Sample;
use vstd::multiset::Multiset;

verus! {

/// Where a connection worker is in its life.
#[derive(Clone, Copy, Debug, PartialEq, Eq, Structural)]
pub enum Phase {
    /// Not yet connected.
    Connecting,
    /// Connected and issuing requests.
    Running,
    /// Its samples have been handed to the collector; it is done.
    Merged,
    /// The connection could not be opened; it is done and has no samples.
    Failed,
}

/// What the worker asks its driver to do next.
#[derive(Clone, Copy, Debug, PartialEq, Eq, Structural)]
pub enum Action {
    /// Open the one connection.
    Connect,
    /// Record the time, send the request in full, do one bounded read.
    Request,
    /// Hand the buffered samples to the collector, once.
    Merge,
    /// Stop.
    Exit,
}

/// What the driver reports back after carrying out an action.
#[derive(Clone, Copy, Debug, PartialEq, Eq, Structural)]
pub enum Event {
    Connected,
    ConnectFailed,
    /// Both the write and the read succeeded.
    RoundTrip(Sample),
    /// The write or the read failed; the loop goes on.
    IoFailed,
}

/// The decisions of one connection worker. The driver performs the I/O and
/// polls the shared stop flag; the worker decides what comes next and keeps
/// its samples in a private, chronological buffer until the single merge.
#[derive(Debug)]
pub struct Worker {
    pub phase: Phase,
    pub buffer: Vec<Sample>,
}

/// The action a worker in `phase` takes, given the stop flag read at the top
/// of the iteration.
pub open spec fn action_for(phase: Phase, stopped: bool) -> Action {
    match phase {
        Phase::Connecting => Action::Connect,
        Phase::Running => if stopped {
            Action::Merge
        } else {
            Action::Request
        },
        Phase::Merged => Action::Exit,
        Phase::Failed => Action::Exit,
    }
}

/// The phase after `event` in `phase`. Events that do not belong to the
/// phase leave it as it is.
pub open spec fn phase_after(phase: Phase, event: Event) -> Phase {
    match (phase, event) {
        (Phase::Connecting, Event::Connected) => Phase::Running,
        (Phase::Connecting, Event::ConnectFailed) => Phase::Failed,
        _ => phase,
    }
}

/// The buffer after `event`: only a round trip while running adds a sample.
pub open spec fn buffer_after(phase: Phase, buffer: Seq<Sample>, event: Event) -> Seq<Sample> {
    match (phase, event) {
        (Phase::Running, Event::RoundTrip(s)) => buffer.push(s),
        _ => buffer,
    }
}

impl Worker {
    pub fn new() -> (r: Worker)
        ensures
            r.phase == Phase::Connecting,
            r.buffer@.len() == 0,
    {
        Worker { phase: Phase::Connecting, buffer: Vec::new() }
    }

    /// Decides the next action from the stop flag's current value. Once the
    /// flag reads true a running worker never asks for another request.
    pub fn next_action(&self, stopped: bool) -> (r: Action)
        ensures
            r == action_for(self.phase, stopped),
    {
        match self.phase {
            Phase::Connecting => Action::Connect,
            Phase::Running => if stopped {
                Action::Merge
            } else {
                Action::Request
            },
            Phase::Merged => Action::Exit,
            Phase::Failed => Action::Exit,
        }
    }

    /// Takes in the outcome of the last action.
    pub fn on_event(&mut self, event: Event)
        ensures
            final(self).phase == phase_after(old(self).phase, event),
            final(self).buffer@ == buffer_after(old(self).phase, old(self).buffer@, event),
    {
        match (self.phase, event) {
            (Phase::Connecting, Event::Connected) => {
                self.phase = Phase::Running;
            },
            (Phase::Connecting, Event::ConnectFailed) => {
                self.phase = Phase::Failed;
            },
            (Phase::Running, Event::RoundTrip(s)) => {
                self.buffer.push(s);
            },
            _ => {},
        }
    }

    /// Hands over the whole buffer for the single merge; afterwards the worker
    /// only exits and holds nothing.
    pub fn take_samples(&mut self) -> (r: Vec<Sample>)
        requires
            old(self).phase == Phase::Running,
        ensures
            r@ == old(self).buffer@,
            final(self).phase == Phase::Merged,
            final(self).buffer@.len() == 0,
    {
        self.phase = Phase::Merged;
        let mut taken: Vec<Sample> = Vec::new();
        std::mem::swap(&mut taken, &mut self.buffer);
        taken
    }
}

/// The shared sink: append-only, one merge per worker.
#[derive(Debug)]
pub struct SampleCollector {
    pub samples: Vec<Sample>,
}

/// Total number of samples in a set of worker batches.
pub open spec fn batch_total(batches: Seq<Seq<Sample>>) -> int
    decreases batches.len(),
{
    if batches.len() == 0 {
        0
    } else {
        batch_total(batches.drop_last()) + batches.last().len()
    }
}

/// All samples of a set of worker batches, counted with multiplicity.
pub open spec fn batch_samples(batches: Seq<Seq<Sample>>) -> Multiset<Sample>
    decreases batches.len(),
{
    if batches.len() == 0 {
        Multiset::empty()
    } else {
        batch_samples(batches.drop_last()).add(batches.last().to_multiset())
    }
}

impl SampleCollector {
    pub fn new() -> (r: SampleCollector)
        ensures
            r.samples@.len() == 0,
    {
        SampleCollector { samples: Vec::new() }
    }

    /// Appends one worker's whole buffer in a single operation.
    pub fn merge(&mut self, batch: Vec<Sample>)
        ensures
            final(self).samples@ == old(self).samples@ + batch@,
    {
        let mut batch = batch;
        self.samples.append(&mut batch);
    }

    /// Gives up the merged samples once every worker has finished.
    pub fn into_samples(self) -> (r: Vec<Sample>)
        ensures
            r@ == self.samples@,
    {
        self.samples
    }
}

/// Merging the workers' batches one after another into an empty collector
/// yields exactly their concatenation, so the run holds as many samples as
/// the workers had successful round trips: none lost, none duplicated.
pub proof fn lemma_merge_keeps_every_sample(batches: Seq<Seq<Sample>>)
    ensures
        batches.flatten().len() == batch_total(batches),
        batches.flatten().to_multiset() == batch_samples(batches),
    decreases batches.len(),
{
    if batches.len() > 0 {
        let d = batches.drop_last();
        lemma_merge_keeps_every_sample(d);
        assert(batches == d.push(batches.last()));
        d.lemma_flatten_push(batches.last());
        vstd::seq_lib::lemma_multiset_commutative(d.flatten(), batches.last());
    } else {
        assert(batches.flatten().to_multiset() =~= Multiset::empty()) by {
            batches.flatten().to_multiset_ensures();
        }
    }
}

} // verus!
