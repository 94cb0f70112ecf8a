//! Network orchestration: one instance of each protocol client, polled in a
//! fixed order over the one shared stack, with an aggregate change signal
//! for the device's main loop and a one-shot handoff of the raw-sample
//! stream generator to the application.
use vstd::prelude::*;

verus! {

/// A two-valued signal summarizing whether a poll cycle produced an
/// application-visible state change. Recomputed every cycle, never persisted.
#[derive(Copy, Clone, Debug, PartialEq, Eq, Structural)]
pub enum UpdateState {
    NoChange,
    Updated,
}

/// Destination endpoint for raw sample streaming, supplied at runtime.
#[derive(Copy, Clone, Debug)]
pub struct StreamTarget {
    pub ip: [u8; 4],
    pub port: u16,
}

/// Invalid streaming handoff: the generator was requested again after it had
/// already been transferred to the application.
#[derive(Copy, Clone, Debug, PartialEq, Eq, Structural)]
pub enum StreamError {
    AlreadyTransferred,
}

/// Link-level network processor: drives the receive path and reports whether
/// any application-visible state changed; `egress` drains pending outbound
/// frames without blocking.
pub trait NetworkProcessor {
    fn update(&mut self) -> UpdateState;

    fn egress(&mut self);
}

/// Settings client: polls the configuration channel and reports `Updated`
/// exactly when new configuration was received and applied.
pub trait MiniconfClient {
    fn update(&mut self) -> UpdateState;
}

/// Telemetry client: publishes buffered telemetry records. Its report never
/// feeds the aggregate signal: telemetry publication is not a configuration
/// change.
pub trait TelemetryClient {
    fn update(&mut self) -> UpdateState;
}

/// Raw sample stream: `process` sends one more outgoing chunk and reports
/// whether more work remains this cycle; `set_remote` addresses the stream.
///
/// A stream must make forward progress: while `process` reports more work,
/// each call shrinks the outgoing backlog. The orchestrator's drain loop is
/// bounded by exactly this backlog and by nothing else, so a caller that
/// needs bounded polling latency must cap the backlog in its stream.
pub trait DataStream {
    /// The outgoing backlog still to be sent: the bound on the drain loop.
    spec fn backlog(&self) -> nat;

    /// Where the stream is addressed, once it has been addressed.
    spec fn spec_remote(&self) -> Option<StreamTarget>;

    fn set_remote(&mut self, remote: StreamTarget)
        ensures
            final(self).spec_remote() == Some(remote),
            final(self).backlog() == old(self).backlog(),
    ;

    fn process(&mut self) -> (more: bool)
        ensures
            more ==> final(self).backlog() < old(self).backlog(),
            !more ==> final(self).backlog() == 0,
    ;
}

/// An in-memory data stream: a fixed backlog of pending chunks, drained one
/// chunk per `process` call, counting how often it was processed. The
/// reference implementation of `DataStream`, showing that the progress
/// contract is satisfiable; a network-backed stream replaces it on the
/// device.
#[derive(Copy, Clone, Debug)]
pub struct CountedStream {
    /// Chunks still waiting to be sent.
    pub pending: usize,
    /// How many times `process` was invoked.
    pub polls: u64,
    /// Where the stream is addressed, once it has been addressed.
    pub remote: Option<StreamTarget>,
}

impl DataStream for CountedStream {
    open spec fn backlog(&self) -> nat {
        self.pending as nat
    }

    open spec fn spec_remote(&self) -> Option<StreamTarget> {
        self.remote
    }

    fn set_remote(&mut self, remote: StreamTarget)
        ensures
            final(self).remote == Some(remote),
            final(self).pending == old(self).pending,
            final(self).polls == old(self).polls,
    {
        self.remote = Some(remote);
    }

    fn process(&mut self) -> (more: bool)
        ensures
            more == (old(self).pending > 0),
            final(self).pending == if old(self).pending > 0 {
                (old(self).pending - 1) as usize
            } else {
                0usize
            },
            final(self).remote == old(self).remote,
            final(self).polls == if old(self).polls < u64::MAX {
                (old(self).polls + 1) as u64
            } else {
                u64::MAX
            },
    {
        if self.polls < u64::MAX {
            self.polls = self.polls + 1;
        }
        if self.pending > 0 {
            self.pending = self.pending - 1;
            true
        } else {
            false
        }
    }
}

/// The aggregate poll signal: a settings update always wins; otherwise the
/// link-level processor's result passes through.
pub open spec fn aggregate_spec(poll: UpdateState, settings: UpdateState) -> UpdateState {
    if settings == UpdateState::Updated {
        UpdateState::Updated
    } else {
        poll
    }
}

/// Combines the three client reports of one poll cycle into the aggregate
/// signal. The telemetry report is accepted and deliberately discarded:
/// whatever it is, it never changes the aggregate.
pub fn aggregate_update(
    poll: UpdateState,
    telemetry: UpdateState,
    settings: UpdateState,
) -> (r: UpdateState)
    ensures
        r == aggregate_spec(poll, settings),
{
    match settings {
        UpdateState::Updated => UpdateState::Updated,
        UpdateState::NoChange => poll,
    }
}

/// The aggregate signal obeys the fixed precedence: a settings update always
/// yields `Updated`; without one, the processor's result passes through
/// unchanged, so two `NoChange` reports aggregate to `NoChange`.
pub proof fn lemma_aggregate_precedence(poll: UpdateState, settings: UpdateState)
    ensures
        settings == UpdateState::Updated ==> aggregate_spec(poll, settings)
            == UpdateState::Updated,
        settings == UpdateState::NoChange ==> aggregate_spec(poll, settings) == poll,
{
}

/// The device's default network users: one settings client, one link-level
/// processor, one telemetry client, and the raw data stream with its
/// one-shot block generator.
///
/// The generator is present exactly until streaming is handed off to the
/// application; once transferred it is permanently absent for the life of
/// the orchestrator.
pub struct NetworkUsers<P, C, T, D, G> {
    pub miniconf: C,
    processor: P,
    stream: D,
    generator: Option<G>,
    pub telemetry: T,
}

impl<P, C, T, D, G> NetworkUsers<P, C, T, D, G> where
    P: NetworkProcessor,
    C: MiniconfClient,
    T: TelemetryClient,
    D: DataStream,
 {
    /// The settings client composed into the orchestrator.
    pub closed spec fn spec_miniconf(self) -> C {
        self.miniconf
    }

    /// The telemetry client composed into the orchestrator.
    pub closed spec fn spec_telemetry(self) -> T {
        self.telemetry
    }

    /// The link-level processor composed into the orchestrator.
    pub closed spec fn spec_processor(self) -> P {
        self.processor
    }

    /// The raw data stream composed into the orchestrator.
    pub closed spec fn spec_stream(self) -> D {
        self.stream
    }

    /// The block generator, present until transferred to the application.
    pub closed spec fn spec_generator(self) -> Option<G> {
        self.generator
    }

    /// The streaming handoff state: internal while the generator is still
    /// held by the orchestrator, external once it has been transferred.
    pub open spec fn streaming_internal(self) -> bool {
        self.spec_generator() is Some
    }

    /// Borrows the composed data stream.
    pub fn stream(&self) -> (s: &D)
        ensures
            *s == self.spec_stream(),
    {
        &self.stream
    }

    /// Borrows the composed link-level processor.
    pub fn processor(&self) -> (p: &P)
        ensures
            *p == self.spec_processor(),
    {
        &self.processor
    }

    /// Composes the orchestrator from one instance of each protocol client
    /// and the stream generator. The streaming handoff state machine starts
    /// in its internal state: the generator is held by the orchestrator.
    pub fn new(processor: P, miniconf: C, telemetry: T, stream: D, generator: G) -> (users: Self)
        ensures
            users.spec_processor() == processor,
            users.spec_miniconf() == miniconf,
            users.spec_telemetry() == telemetry,
            users.spec_stream() == stream,
            users.spec_generator() == Some(generator),
            users.streaming_internal(),
    {
        NetworkUsers {
            miniconf,
            processor,
            stream,
            generator: Some(generator),
            telemetry,
        }
    }

    /// Enables live data streaming: addresses the stream at `remote` and
    /// transfers ownership of the block generator to the caller.
    ///
    /// The handoff is one-shot. The first call succeeds and moves the
    /// orchestrator permanently into the external streaming state; any later
    /// call fails with `AlreadyTransferred` and changes nothing. The failure
    /// is a checked result, never a panic and never a silent no-op.
    pub fn enable_streaming(&mut self, remote: StreamTarget) -> (r: Result<G, StreamError>)
        ensures
            old(self).spec_generator() matches Some(generator) ==> r == Ok::<G, StreamError>(
                generator,
            ),
            old(self).streaming_internal() ==> final(self).spec_stream().spec_remote() == Some(
                remote,
            ) && final(self).spec_stream().backlog() == old(self).spec_stream().backlog(),
            old(self).streaming_internal() ==> final(self).spec_miniconf() == old(self).spec_miniconf()
                && final(self).spec_telemetry() == old(self).spec_telemetry() && final(self).spec_processor()
                == old(self).spec_processor(),
            !old(self).streaming_internal() ==> r == Err::<G, StreamError>(
                StreamError::AlreadyTransferred,
            ) && *final(self) == *old(self),
            !final(self).streaming_internal(),
    {
        match self.generator.take() {
            Some(generator) => {
                self.stream.set_remote(remote);
                Ok(generator)
            },
            None => Err(StreamError::AlreadyTransferred),
        }
    }

    /// Addresses the stream at `remote`, but only while streaming is still
    /// orchestrator-managed (the generator has not been taken). Once the
    /// application owns the generator it is responsible for addressing, so
    /// after the handoff this call is a no-op.
    pub fn direct_stream(&mut self, remote: StreamTarget)
        ensures
            final(self).spec_generator() == old(self).spec_generator(),
            final(self).spec_miniconf() == old(self).spec_miniconf(),
            final(self).spec_telemetry() == old(self).spec_telemetry(),
            final(self).spec_processor() == old(self).spec_processor(),
            old(self).streaming_internal() ==> final(self).spec_stream().spec_remote() == Some(
                remote,
            ) && final(self).spec_stream().backlog() == old(self).spec_stream().backlog(),
            !old(self).streaming_internal() ==> *final(self) == *old(self),
    {
        if self.generator.is_some() {
            self.stream.set_remote(remote);
        }
    }

    /// Drains the stream's outgoing backlog, but only in the external
    /// streaming state. While the handoff state is internal the drain step
    /// is skipped entirely and nothing at all is touched — in particular the
    /// stream's `process` is never invoked. In the external state the
    /// processor's egress queue is driven and the stream asked to process
    /// one more chunk, repeatedly, until the stream reports no more work:
    /// the backlog is drained within this one poll rather than deferred, so
    /// the iteration count is bounded only by the stream's own backlog.
    pub fn update_stream(&mut self)
        ensures
            final(self).spec_generator() == old(self).spec_generator(),
            final(self).spec_miniconf() == old(self).spec_miniconf(),
            final(self).spec_telemetry() == old(self).spec_telemetry(),
            old(self).streaming_internal() ==> *final(self) == *old(self),
            !old(self).streaming_internal() ==> final(self).spec_stream().backlog() == 0,
    {
        if self.generator.is_some() {
            return ;
        }
        loop
            invariant
                !old(self).streaming_internal(),
                self.generator == old(self).spec_generator(),
                self.miniconf == old(self).spec_miniconf(),
                self.telemetry == old(self).spec_telemetry(),
            decreases self.stream.backlog(),
        {
            self.processor.egress();
            if !self.stream.process() {
                return ;
            }
        }
    }

    /// One poll cycle, in the fixed order the aggregate signal depends on:
    /// the link-level processor first, then the telemetry client, then the
    /// stream-egress drain, then the settings client. Returns the aggregate
    /// signal of the cycle; the streaming handoff state is never changed by
    /// polling.
    pub fn update(&mut self) -> (r: UpdateState)
        ensures
            final(self).spec_generator() == old(self).spec_generator(),
            old(self).streaming_internal() ==> final(self).spec_stream() == old(
                self,
            ).spec_stream(),
            !old(self).streaming_internal() ==> final(self).spec_stream().backlog() == 0,
    {
        // Poll for incoming data.
        let poll_result = self.processor.update();

        // Publish any buffered telemetry. The report is read and discarded:
        // it must never count as a configuration change.
        let telemetry_result = self.telemetry.update();

        // Drain the data stream backlog.
        self.update_stream();

        // Apply any newly received settings last; their report takes
        // precedence in the aggregate.
        let settings_result = self.miniconf.update();

        aggregate_update(poll_result, telemetry_result, settings_result)
    }
}

} // verus!
