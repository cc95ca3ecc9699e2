use vstd::prelude::*;

verus! {

/// One event observed on a running worker's output channel, in arrival order.
/// Stdout and stderr chunks are interleaved by arrival time; `Terminated`
/// carries the exit code when the operating system reported one; `Error`
/// carries the description of a channel failure.
#[derive(Debug)]
pub enum StreamEvent {
    Stdout(Vec<u8>),
    Stderr(Vec<u8>),
    Terminated(Option<i32>),
    Error(String),
}

/// The state of an aggregation: the two byte buffers accumulated so far, the
/// terminal channel error if one arrived, and whether the event sequence has
/// ended.
pub struct AggState {
    pub stdout: Seq<u8>,
    pub stderr: Seq<u8>,
    pub error: Option<Seq<char>>,
    pub done: bool,
}

pub open spec fn agg_init() -> AggState {
    AggState { stdout: Seq::empty(), stderr: Seq::empty(), error: None, done: false }
}

/// How one event changes the aggregation state: stdout and stderr bytes are
/// appended verbatim to their own buffers; `Terminated` ends the sequence;
/// `Error` ends it early, keeping the partial buffers and recording the
/// cause. Events after the end change nothing.
pub open spec fn agg_step(s: AggState, e: StreamEvent) -> AggState {
    if s.done {
        s
    } else {
        match e {
            StreamEvent::Stdout(b) => AggState { stdout: s.stdout + b@, ..s },
            StreamEvent::Stderr(b) => AggState { stderr: s.stderr + b@, ..s },
            StreamEvent::Terminated(_) => AggState { done: true, ..s },
            StreamEvent::Error(c) => AggState { error: Some(c@), done: true, ..s },
        }
    }
}

/// The aggregation state after consuming a whole event sequence in arrival
/// order.
pub open spec fn agg_run(events: Seq<StreamEvent>) -> AggState
    decreases events.len(),
{
    if events.len() == 0 {
        agg_init()
    } else {
        agg_step(agg_run(events.drop_last()), events.last())
    }
}

/// The Stream Aggregator: consumes the events of one worker invocation, in
/// arrival order, one at a time. Each invocation owns its own aggregator, so
/// concurrent invocations cannot disturb each other's buffers.
#[derive(Debug)]
pub struct Aggregator {
    pub stdout: Vec<u8>,
    pub stderr: Vec<u8>,
    pub error: Option<String>,
    pub done: bool,
}

impl View for Aggregator {
    type V = AggState;

    open spec fn view(&self) -> AggState {
        AggState {
            stdout: self.stdout@,
            stderr: self.stderr@,
            error: match self.error {
                Some(c) => Some(c@),
                None => None,
            },
            done: self.done,
        }
    }
}

impl Aggregator {
    pub fn new() -> (r: Aggregator)
        ensures
            r@ == agg_init(),
    {
        Aggregator { stdout: Vec::new(), stderr: Vec::new(), error: None, done: false }
    }

    /// Consume one event.
    pub fn absorb(&mut self, e: &StreamEvent)
        ensures
            final(self)@ == agg_step(old(self)@, *e),
    {
        if self.done {
            return ;
        }
        match e {
            StreamEvent::Stdout(b) => {
                self.stdout.extend_from_slice(b.as_slice());
                assert(self@.stdout =~= old(self)@.stdout + b@);
            },
            StreamEvent::Stderr(b) => {
                self.stderr.extend_from_slice(b.as_slice());
                assert(self@.stderr =~= old(self)@.stderr + b@);
            },
            StreamEvent::Terminated(_) => {
                self.done = true;
            },
            StreamEvent::Error(c) => {
                self.error = Some(c.clone());
                self.done = true;
            },
        }
    }

    /// Whether the event sequence has ended.
    pub fn is_done(&self) -> (r: bool)
        ensures
            r == self@.done,
    {
        self.done
    }

    /// The finished buffers: the accumulated stdout and stderr bytes and the
    /// terminal channel error, if any.
    pub fn into_output(self) -> (r: AggregatedOutput)
        ensures
            r.stdout@ == self@.stdout,
            r.stderr@ == self@.stderr,
            (match r.error {
                Some(c) => Some(c@),
                None => None,
            }) == self@.error,
    {
        AggregatedOutput { stdout: self.stdout, stderr: self.stderr, error: self.error }
    }
}

/// What one worker invocation wrote before it ended: the stdout bytes, the
/// stderr bytes, and the terminal channel error if the event channel failed.
#[derive(Debug)]
pub struct AggregatedOutput {
    pub stdout: Vec<u8>,
    pub stderr: Vec<u8>,
    pub error: Option<String>,
}

impl View for AggregatedOutput {
    type V = AggState;

    open spec fn view(&self) -> AggState {
        AggState {
            stdout: self.stdout@,
            stderr: self.stderr@,
            error: match self.error {
                Some(c) => Some(c@),
                None => None,
            },
            done: true,
        }
    }
}

/// Consume a whole event sequence: every stdout and stderr byte before the
/// end of the sequence is captured, verbatim and in arrival order.
pub fn aggregate(events: &Vec<StreamEvent>) -> (r: AggregatedOutput)
    ensures
        r.stdout@ == agg_run(events@).stdout,
        r.stderr@ == agg_run(events@).stderr,
        (match r.error {
            Some(c) => Some(c@),
            None => None,
        }) == agg_run(events@).error,
{
    let mut agg = Aggregator::new();
    let n = events.len();
    let mut i: usize = 0;
    while i < n
        invariant
            n == events@.len(),
            0 <= i <= n,
            agg@ == agg_run(events@.take(i as int)),
        decreases n - i,
    {
        agg.absorb(&events[i]);
        proof {
            assert(events@.take(i + 1).drop_last() =~= events@.take(i as int));
            assert(events@.take(i + 1).last() == events@[i as int]);
        }
        i = i + 1;
    }
    proof {
        assert(events@.take(n as int) =~= events@);
    }
    agg.into_output()
}

/// Stderr traffic never disturbs the stdout buffer: inserting a stderr chunk
/// anywhere into an event sequence leaves the aggregated stdout bytes, and
/// the terminal error, unchanged.
pub proof fn lemma_stderr_preserves_stdout(events: Seq<StreamEvent>, i: int, chunk: Vec<u8>)
    requires
        0 <= i <= events.len(),
    ensures
        agg_run(events.insert(i, StreamEvent::Stderr(chunk))).stdout == agg_run(events).stdout,
        agg_run(events.insert(i, StreamEvent::Stderr(chunk))).error == agg_run(events).error,
        agg_run(events.insert(i, StreamEvent::Stderr(chunk))).done == agg_run(events).done,
    decreases events.len(),
{
    let inserted = events.insert(i, StreamEvent::Stderr(chunk));
    if i == events.len() {
        assert(inserted.drop_last() =~= events);
        assert(inserted.last() == StreamEvent::Stderr(chunk));
    } else {
        assert(inserted.drop_last() =~= events.drop_last().insert(i, StreamEvent::Stderr(chunk)));
        assert(inserted.last() == events.last());
        lemma_stderr_preserves_stdout(events.drop_last(), i, chunk);
    }
}

} // verus!
