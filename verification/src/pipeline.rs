//! The bridge between the watcher and the processors, as a state machine.
//!
//! The machine decides; its caller performs. The caller receives from the
//! watcher's channel, reads files and runs processors, and tells the machine
//! what came of it; the machine answers with what is to be done next.
use crate::descriptor::{job_of, IOBuilder, JobView};
use crate::error::Error;
use crate::event::{CreateKind, DebouncedEvent, EventKind};
use crate::file_watcher::{filtered, passes, retain_passing};
use crate::json::json_document;
use crate::processor::{header_entries, request_of, verdict, Dispatch, IOView, Verdict};
use crate::registry::Processors;
use crate::request::HEADERS_SURE_TO_FIT;
use crate::whitelist::set_globs;
use globset::{Glob, GlobSet};
use vstd::prelude::*;

verus! {

/// Where the pipeline stands. It ends only by a failure of the watcher or of
/// its channel: there is no successful end.
#[derive(Clone, Copy, Debug, PartialEq, Eq, Structural)]
pub enum PipelineState {
    /// The watcher is not registered yet.
    Starting,
    /// Waiting for the next batch.
    Watching,
    /// The files of a batch are being handled.
    ProcessingBatch,
    /// The watcher or its channel failed.
    Terminated,
}

/// What the caller reports to the bridge.
#[derive(Debug)]
pub enum BridgeEvent {
    /// The watcher is registered and its channel is open.
    Started,
    /// The channel delivered a batch of events.
    Batch(Vec<DebouncedEvent>),
    /// The channel delivered errors of the watcher; this is their rendering.
    WatcherFailed(String),
    /// Receiving from the channel failed; this is the rendering of the
    /// failure.
    ChannelClosed(String),
    /// Every path handed out last has been handled.
    BatchDone,
}

/// What the bridge asks of the caller.
#[derive(Debug)]
pub enum BridgeAction {
    /// Wait for the channel to deliver, and report what it delivered.
    Receive,
    /// Read each of these files and handle its content, in this order; then
    /// report `BatchDone`.
    Process(Vec<String>),
    /// Stop the pipeline with this error.
    Stop(Error),
    /// The report does not fit the state: nothing changed, nothing to do.
    Ignore,
}

/// The kinds of events that announce a new file. Where the platform reports
/// the creation of a file without saying what was created, that generic kind
/// is the one to listen for.
pub fn allowed_kinds(generic_create: bool) -> (kinds: Vec<EventKind>)
    ensures
        kinds@ == seq![
            EventKind::Create(if generic_create { CreateKind::Any } else { CreateKind::File }),
        ],
{
    let mut kinds: Vec<EventKind> = Vec::new();
    if generic_create {
        kinds.push(EventKind::Create(CreateKind::Any));
    } else {
        kinds.push(EventKind::Create(CreateKind::File));
    }
    assert(kinds@ =~= seq![
        EventKind::Create(if generic_create { CreateKind::Any } else { CreateKind::File }),
    ]);
    kinds
}

/// The paths of the events, event by event, each event's paths in their
/// order.
pub open spec fn candidate_paths(events: Seq<DebouncedEvent>) -> Seq<String>
    decreases events.len(),
{
    if events.len() == 0 {
        Seq::empty()
    } else {
        candidate_paths(events.drop_last()) + events.last().paths@
    }
}

/// Collects the paths of the events.
pub fn collect_paths(events: Vec<DebouncedEvent>) -> (paths: Vec<String>)
    ensures
        paths@ == candidate_paths(events@),
{
    let ghost all = events@;
    let mut paths: Vec<String> = Vec::new();
    assert(all.take(0) =~= Seq::<DebouncedEvent>::empty());
    for event in it: events.into_iter()
        invariant
            it.seq() == all,
            paths@ == candidate_paths(all.take(it.index())),
    {
        let ghost k = it.index();
        assert(all.take(k + 1).drop_last() =~= all.take(k));
        assert(all.take(k + 1).last() == event);
        let mut more = event.paths;
        paths.append(&mut more);
    }
    assert(all.take(all.len() as int) =~= all);
    paths
}

/// The bridge: the state of the pipeline, and what the filter goes by.
pub struct Bridge {
    state: PipelineState,
    kinds: Vec<EventKind>,
    globset: GlobSet,
}

impl Bridge {
    /// Where the pipeline stands.
    pub closed spec fn state(&self) -> PipelineState {
        self.state
    }

    /// The kinds of events that the bridge lets pass.
    pub closed spec fn kinds(&self) -> Seq<EventKind> {
        self.kinds@
    }

    /// The globs of the whitelist that the bridge goes by.
    pub closed spec fn globs(&self) -> Seq<Glob> {
        set_globs(self.globset)
    }

    /// The paths to handle for a batch: all paths of the events that pass the
    /// filter.
    pub open spec fn paths_to_handle(&self, batch: Seq<DebouncedEvent>) -> Seq<String> {
        candidate_paths(filtered(batch, self.kinds(), self.globs()))
    }

    /// The state after a report.
    pub open spec fn next_state(&self, event: BridgeEvent) -> PipelineState {
        match (self.state(), event) {
            (PipelineState::Starting, BridgeEvent::Started) => PipelineState::Watching,
            (PipelineState::Watching, BridgeEvent::Batch(batch)) => if self.paths_to_handle(
                batch@,
            ).len() == 0 {
                PipelineState::Watching
            } else {
                PipelineState::ProcessingBatch
            },
            (PipelineState::Watching, BridgeEvent::WatcherFailed(_)) => PipelineState::Terminated,
            (PipelineState::Watching, BridgeEvent::ChannelClosed(_)) => PipelineState::Terminated,
            (PipelineState::ProcessingBatch, BridgeEvent::BatchDone) => PipelineState::Watching,
            (state, _) => state,
        }
    }

    /// A bridge that is about to start, with the whitelist and the allowed
    /// kinds that its filter goes by.
    pub fn new(globset: GlobSet, kinds: Vec<EventKind>) -> (bridge: Bridge)
        ensures
            bridge.state() == PipelineState::Starting,
            bridge.kinds() == kinds@,
            bridge.globs() == set_globs(globset),
    {
        Bridge { state: PipelineState::Starting, kinds, globset }
    }

    /// Where the pipeline stands.
    pub fn current_state(&self) -> (state: PipelineState)
        ensures
            state == self.state(),
    {
        self.state
    }

    /// Takes a report and says what is to be done next.
    ///
    /// Once started, the bridge waits for batches. Of a batch it lets the
    /// events pass whose kind is allowed and of which the whitelist matches a
    /// path, and hands out all paths of those events, in the order of the
    /// batch; a batch that leaves no path is passed over. When the paths are
    /// done it waits again. A failure of the watcher or of its channel, while
    /// the bridge waits, ends the pipeline with that error. Any other report
    /// changes nothing.
    pub fn listen(&mut self, event: BridgeEvent) -> (action: BridgeAction)
        ensures
            final(self).state() == old(self).next_state(event),
            final(self).kinds() == old(self).kinds(),
            final(self).globs() == old(self).globs(),
            match (old(self).state(), event) {
                (PipelineState::Starting, BridgeEvent::Started) => action is Receive,
                (PipelineState::Watching, BridgeEvent::Batch(batch)) => if old(
                    self,
                ).paths_to_handle(batch@).len() == 0 {
                    action is Receive
                } else {
                    action matches BridgeAction::Process(paths) && paths@ == old(
                        self,
                    ).paths_to_handle(batch@)
                },
                (PipelineState::Watching, BridgeEvent::WatcherFailed(text)) => action
                    == BridgeAction::Stop(Error::Notifies(text)),
                (PipelineState::Watching, BridgeEvent::ChannelClosed(text)) => action
                    == BridgeAction::Stop(Error::MpscRecv(text)),
                (PipelineState::ProcessingBatch, BridgeEvent::BatchDone) => action is Receive,
                (_, _) => action is Ignore,
            },
    {
        match self.state {
            PipelineState::Starting => match event {
                BridgeEvent::Started => {
                    self.state = PipelineState::Watching;
                    BridgeAction::Receive
                },
                _ => BridgeAction::Ignore,
            },
            PipelineState::Watching => match event {
                BridgeEvent::Batch(batch) => {
                    let kept = retain_passing(batch, &self.kinds, &self.globset);
                    let paths = collect_paths(kept);
                    if paths.len() == 0 {
                        BridgeAction::Receive
                    } else {
                        self.state = PipelineState::ProcessingBatch;
                        BridgeAction::Process(paths)
                    }
                },
                BridgeEvent::WatcherFailed(text) => {
                    self.state = PipelineState::Terminated;
                    BridgeAction::Stop(Error::Notifies(text))
                },
                BridgeEvent::ChannelClosed(text) => {
                    self.state = PipelineState::Terminated;
                    BridgeAction::Stop(Error::MpscRecv(text))
                },
                _ => BridgeAction::Ignore,
            },
            PipelineState::ProcessingBatch => match event {
                BridgeEvent::BatchDone => {
                    self.state = PipelineState::Watching;
                    BridgeAction::Receive
                },
                _ => BridgeAction::Ignore,
            },
            PipelineState::Terminated => BridgeAction::Ignore,
        }
    }
}

/// The order of the pipeline's states: once started it alternates between
/// waiting and handling a batch, it can end only while it waits, and once
/// ended it stays so.
pub proof fn lemma_transitions(bridge: Bridge, event: BridgeEvent)
    ensures
        match bridge.state() {
            PipelineState::Starting => bridge.next_state(event) is Starting || bridge.next_state(
                event,
            ) is Watching,
            PipelineState::Watching => !(bridge.next_state(event) is Starting),
            PipelineState::ProcessingBatch => bridge.next_state(event) is ProcessingBatch
                || bridge.next_state(event) is Watching,
            PipelineState::Terminated => bridge.next_state(event) is Terminated,
        },
        bridge.next_state(event) is Terminated && !(bridge.state() is Terminated) ==> {
            &&& bridge.state() is Watching
            &&& event is WatcherFailed || event is ChannelClosed
        },
{
}

/// One dropped file makes one unit of work. A bridge that waits, told of a
/// batch of one event, hands out the paths of that event and nothing else if
/// the event passes the filter, and goes on waiting if it does not.
pub proof fn lemma_single_event_batch(bridge: Bridge, batch: Vec<DebouncedEvent>)
    requires
        bridge.state() is Watching,
        batch@.len() == 1,
    ensures
        passes(batch@[0], bridge.kinds(), bridge.globs()) ==> bridge.paths_to_handle(batch@)
            == batch@[0].paths@,
        passes(batch@[0], bridge.kinds(), bridge.globs()) && batch@[0].paths@.len() > 0
            ==> bridge.next_state(BridgeEvent::Batch(batch)) is ProcessingBatch,
        !passes(batch@[0], bridge.kinds(), bridge.globs()) ==> {
            &&& bridge.paths_to_handle(batch@).len() == 0
            &&& bridge.next_state(BridgeEvent::Batch(batch)) is Watching
        },
{
    let event = batch@[0];
    let pred = |event: DebouncedEvent| passes(event, bridge.kinds(), bridge.globs());
    let kept = filtered(batch@, bridge.kinds(), bridge.globs());
    assert(batch@.drop_last() =~= Seq::<DebouncedEvent>::empty());
    assert(batch@.last() == event);
    assert(kept == batch@.filter(pred));
    reveal_with_fuel(Seq::filter, 2);
    if passes(event, bridge.kinds(), bridge.globs()) {
        assert(kept =~= seq![event]);
        assert(kept.drop_last() =~= Seq::<DebouncedEvent>::empty());
        assert(candidate_paths(kept.drop_last()) =~= Seq::<String>::empty());
        assert(candidate_paths(kept) =~= event.paths@);
    } else {
        assert(kept =~= Seq::<DebouncedEvent>::empty());
    }
}

/// What is to be done with one file of a batch.
pub enum FileAction<'a, P> {
    /// Pass the file over, for this reason. The pipeline goes on.
    Skip(Error),
    /// The file holds a valid job: do this with it.
    Dispatch(Dispatch<'a, P>),
}

/// The job that the bytes of a file describe, if they describe one.
pub open spec fn job_in(bytes: Seq<u8>) -> Option<JobView> {
    match json_document(bytes) {
        Some(doc) => job_of(doc),
        None => None,
    }
}

/// Decides what is to be done with one file, given what reading it gave: its
/// bytes, or the rendering of the failure to read it.
///
/// A file that could not be read, that holds no job, or whose job has a
/// fault, is passed over. A valid job goes to dispatch: see
/// [`Processors::process`].
pub fn accept<'a, P>(processors: &'a Processors<P>, content: Result<Vec<u8>, String>) -> (action:
    FileAction<'a, P>)
    ensures
        match content {
            Err(text) => action matches FileAction::Skip(Error::DirDoesNotExist(cause)) && cause
                == text,
            Ok(bytes) => match job_in(bytes@) {
                None => action matches FileAction::Skip(Error::SerdeJson(_)),
                Some(JobView::NetworkIO(job)) => match action {
                    FileAction::Skip(Error::InvalidMethod(_)) => verdict(job) is InvalidMethod,
                    FileAction::Skip(Error::UrlParse(_)) => verdict(job) is UrlParse,
                    FileAction::Skip(Error::InvalidHeaderName(_)) => verdict(
                        job,
                    ) is InvalidHeaderName,
                    FileAction::Skip(Error::InvalidHeaderValue(_)) => verdict(
                        job,
                    ) is InvalidHeaderValue,
                    FileAction::Skip(Error::HeaderMapFull(_)) => {
                        &&& verdict(job) is Valid
                        &&& job.headers.len() > HEADERS_SURE_TO_FIT
                        &&& header_entries(job.headers).dom().len() >= HEADERS_SURE_TO_FIT
                    },
                    FileAction::Skip(_) => false,
                    FileAction::Dispatch(Dispatch::Run { processor, io, result_path }) => {
                        &&& verdict(job) is Valid
                        &&& io@ == IOView::NetworkIO(request_of(job))
                        &&& processors@.contains_key(io@.processor_id())
                        &&& *processor == processors@[io@.processor_id()]
                        &&& result_path@ == job.result_path
                    },
                    FileAction::Dispatch(Dispatch::Capture(artifact)) => {
                        &&& verdict(job) is Valid
                        &&& !processors@.contains_key(
                            IOView::NetworkIO(request_of(job)).processor_id(),
                        )
                        &&& artifact.path@ == job.result_path
                        &&& artifact.message@ == "processor not found: "@ + IOView::NetworkIO(
                            request_of(job),
                        ).processor_id()
                    },
                },
            },
        },
{
    let bytes = match content {
        Ok(bytes) => bytes,
        Err(text) => {
            return FileAction::Skip(Error::DirDoesNotExist(text));
        },
    };
    let builder = match IOBuilder::new(bytes.as_slice()) {
        Ok(builder) => builder,
        Err(e) => {
            return FileAction::Skip(e);
        },
    };
    let io = match builder.build() {
        Ok(io) => io,
        Err(e) => {
            return FileAction::Skip(e);
        },
    };
    FileAction::Dispatch(processors.process(io))
}

} // verus!
