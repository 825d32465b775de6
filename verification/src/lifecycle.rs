//! The submission and confirmation state machine.
//!
//! A submitted transaction is followed through an ordered stream of status
//! notifications. The first decisive notification wins: seeing the transaction
//! in a block resolves to the included state, a drop notification resolves to
//! the dropped state, and everything else is ignored. A stream that ends with
//! no decisive notification is a fatal monitoring anomaly, distinct from a
//! chain-level drop. An included transaction is then judged by its execution
//! result, and the first emitted event matching a requested pallet and event
//! name, if any, is extracted.

use vstd::prelude::*;
use vstd::string::StringExecFns;

verus! {

/// One notification from the status stream of a submitted transaction.
/// `B` is the reference to the block a transaction was seen in.
#[derive(Clone, Debug, PartialEq, Eq)]
pub enum StatusEvent<B> {
    /// The transaction was observed in a block.
    InBlock(B),
    /// The network dropped the transaction.
    Dropped,
    /// Any status with no bearing on inclusion; consumption continues past it.
    Other,
}

/// Where a transaction stands once its status stream has said whether it
/// reached a block: included in the referenced block, or dropped.
#[derive(Clone, Debug, PartialEq, Eq)]
pub enum TxState<B> {
    Included(B),
    Dropped,
}

/// The runtime's report that an included transaction failed to execute.
#[derive(Clone, Debug, PartialEq, Eq)]
pub struct ExecError {
    pub message: String,
}

/// A failure of the confirmation lifecycle. A stream that ends without a
/// decisive notification is a monitoring anomaly, kept apart from both a drop
/// and an execution failure; a drop is the chain's own rejection.
#[derive(Clone, Debug, PartialEq, Eq)]
pub enum TxError {
    /// The status subscription ended before any decisive notification.
    StreamEnded,
    /// The transaction reached a block and the runtime reported failure.
    Execution(ExecError),
    /// The network dropped the transaction before it reached a block.
    Dropped,
}

impl TxError {
    /// A human-readable description of the failure.
    pub fn message(&self) -> (r: String)
        ensures
            self is StreamEnded ==> r@ == "tx status subscription ended"@,
            self matches TxError::Execution(e) ==> r@ == e.message@,
            self is Dropped ==> r@ == "transaction dropped by the network"@,
    {
        match self {
            TxError::StreamEnded => String::from_str("tx status subscription ended"),
            TxError::Execution(e) => e.message.clone(),
            TxError::Dropped => String::from_str("transaction dropped by the network"),
        }
    }
}

/// What a finished status stream resolves to: the state named by its first
/// decisive notification, or the fatal stream-ended error when no
/// notification was decisive.
pub open spec fn resolve_spec<B>(s: Seq<StatusEvent<B>>) -> Result<TxState<B>, TxError>
    decreases s.len(),
{
    if s.len() == 0 {
        Err(TxError::StreamEnded)
    } else {
        match s[0] {
            StatusEvent::InBlock(b) => Ok(TxState::Included(b)),
            StatusEvent::Dropped => Ok(TxState::Dropped),
            StatusEvent::Other => resolve_spec(s.skip(1)),
        }
    }
}

/// Consume status notifications strictly in arrival order until the first
/// decisive one, and resolve to the state it names. Exhausting the stream
/// with no decisive notification is the fatal stream-ended error.
#[verifier::loop_isolation(false)]
pub fn wait_for_in_block<B>(events: Vec<StatusEvent<B>>) -> (r: Result<TxState<B>, TxError>)
    ensures
        r == resolve_spec(events@),
{
    let ghost s = events@;
    let mut queue = events;
    loop
        invariant
            resolve_spec(s) == resolve_spec(queue@),
        decreases queue@.len(),
    {
        if queue.len() == 0 {
            return Err(TxError::StreamEnded);
        }
        let ghost before = queue@;
        let ev = queue.remove(0);
        proof {
            assert(before.remove(0) =~= before.skip(1));
        }
        match ev {
            StatusEvent::InBlock(b) => {
                return Ok(TxState::Included(b));
            },
            StatusEvent::Dropped => {
                return Ok(TxState::Dropped);
            },
            StatusEvent::Other => {},
        }
    }
}

/// What one status notification decides on its own: settle the transaction's
/// state, or keep reading the stream.
#[derive(Clone, Debug, PartialEq, Eq)]
pub enum StepVerdict<B> {
    Settled(TxState<B>),
    KeepReading,
}

/// The decision [`in_block_step`] makes for one notification.
pub open spec fn step_spec<B>(ev: StatusEvent<B>) -> StepVerdict<B> {
    match ev {
        StatusEvent::InBlock(b) => StepVerdict::Settled(TxState::Included(b)),
        StatusEvent::Dropped => StepVerdict::Settled(TxState::Dropped),
        StatusEvent::Other => StepVerdict::KeepReading,
    }
}

/// Judge a single status notification as it arrives: a caller reading a live
/// stream feeds each notification here and stops at the first settled
/// verdict, which short-circuits the rest of the stream.
pub fn in_block_step<B>(ev: StatusEvent<B>) -> (r: StepVerdict<B>)
    ensures
        r == step_spec(ev),
{
    match ev {
        StatusEvent::InBlock(b) => StepVerdict::Settled(TxState::Included(b)),
        StatusEvent::Dropped => StepVerdict::Settled(TxState::Dropped),
        StatusEvent::Other => StepVerdict::KeepReading,
    }
}

/// Stepping through a stream one notification at a time reaches the same
/// resolution as [`resolve_spec`]: a settled verdict on the head is the
/// resolution of the whole stream, and a keep-reading verdict defers to the
/// rest.
pub proof fn lemma_step_resolves<B>(s: Seq<StatusEvent<B>>)
    requires
        s.len() > 0,
    ensures
        step_spec(s[0]) matches StepVerdict::Settled(t) ==> resolve_spec(s) == Ok::<
            TxState<B>,
            TxError,
        >(t),
        step_spec(s[0]) is KeepReading ==> resolve_spec(s) == resolve_spec(s.skip(1)),
{
}

/// One event emitted by an extrinsic, as the monitoring layer decodes it:
/// identified by the pallet that emitted it and the event's variant name.
#[derive(Clone, Debug, PartialEq, Eq)]
pub struct EventRecord {
    pub pallet: String,
    pub variant: String,
}

/// The identity of the event a caller wants extracted, by pallet and event
/// name.
#[derive(Clone, Debug, PartialEq, Eq)]
pub struct EventFilter {
    pub pallet: String,
    pub variant: String,
}

/// A record matches a requested identity when both the pallet name and the
/// event name agree.
pub open spec fn event_matches(e: EventRecord, pallet: Seq<char>, variant: Seq<char>) -> bool {
    e.pallet@ == pallet && e.variant@ == variant
}

/// The first record matching the requested identity, in emission order, if
/// any.
pub open spec fn find_first_spec(
    events: Seq<EventRecord>,
    pallet: Seq<char>,
    variant: Seq<char>,
) -> Option<EventRecord>
    decreases events.len(),
{
    if events.len() == 0 {
        None
    } else if event_matches(events[0], pallet, variant) {
        Some(events[0])
    } else {
        find_first_spec(events.skip(1), pallet, variant)
    }
}

/// Scan an extrinsic's emitted events in order and extract the first one
/// matching the filter, if any.
#[verifier::loop_isolation(false)]
pub fn find_first_event(events: Vec<EventRecord>, filter: &EventFilter) -> (r: Option<EventRecord>)
    ensures
        r == find_first_spec(events@, filter.pallet@, filter.variant@),
{
    let ghost s = events@;
    let mut queue = events;
    loop
        invariant
            find_first_spec(s, filter.pallet@, filter.variant@) == find_first_spec(
                queue@,
                filter.pallet@,
                filter.variant@,
            ),
        decreases queue@.len(),
    {
        if queue.len() == 0 {
            return None;
        }
        let ghost before = queue@;
        let e = queue.remove(0);
        proof {
            assert(before.remove(0) =~= before.skip(1));
        }
        if e.pallet == filter.pallet && e.variant == filter.variant {
            return Some(e);
        }
    }
}

/// The placeholder event type for callers not interested in any specific
/// event: its filter names a pallet and event that no runtime defines, so the
/// extraction comes back empty on every successful transaction.
#[derive(Clone, Copy, Debug, PartialEq, Eq, Structural)]
pub struct DontCare;

impl DontCare {
    /// The filter that stands for "no event of interest".
    pub fn filter() -> (r: EventFilter)
        ensures
            r.pallet@ == "NONE"@,
            r.variant@ == "NONE"@,
    {
        EventFilter { pallet: String::from_str("NONE"), variant: String::from_str("NONE") }
    }
}

/// The final resolution of one transaction: executed successfully (carrying
/// the extracted event of type `E`, if one matched), or dropped by the
/// network.
#[derive(Clone, Debug, PartialEq, Eq)]
pub enum TxOutcome<E> {
    Success(Option<E>),
    Dropped,
}

/// An execution result as handed in by the caller: the events the extrinsic
/// emitted, or the runtime's failure report.
pub open spec fn exec_view(r: Result<Vec<EventRecord>, ExecError>) -> Result<
    Seq<EventRecord>,
    ExecError,
> {
    match r {
        Ok(v) => Ok(v@),
        Err(e) => Err(e),
    }
}

/// The outcome owed for a finished status stream, an execution result, and an
/// event filter: the stream's resolution decides first, and only an included
/// transaction consults the execution result at all.
pub open spec fn wait_for_success_spec<B>(
    s: Seq<StatusEvent<B>>,
    exec: Result<Seq<EventRecord>, ExecError>,
    pallet: Seq<char>,
    variant: Seq<char>,
) -> Result<TxOutcome<EventRecord>, TxError> {
    match resolve_spec(s) {
        Err(e) => Err(e),
        Ok(TxState::Dropped) => Ok(TxOutcome::Dropped),
        Ok(TxState::Included(_)) => match exec {
            Err(e) => Err(TxError::Execution(e)),
            Ok(events) => Ok(TxOutcome::Success(find_first_spec(events, pallet, variant))),
        },
    }
}

/// Resolve a transaction all the way to its outcome: follow the status stream
/// to the first decisive notification, report a drop as the dropped outcome,
/// and judge an included transaction by its execution result, extracting the
/// first event matching `filter` on success.
///
/// `exec_result` is the execution report the caller obtained for the block in
/// question; when the stream resolves to a drop, it is not consulted.
pub fn wait_for_success<B>(
    status_events: Vec<StatusEvent<B>>,
    exec_result: Result<Vec<EventRecord>, ExecError>,
    filter: &EventFilter,
) -> (r: Result<TxOutcome<EventRecord>, TxError>)
    ensures
        r == wait_for_success_spec(
            status_events@,
            exec_view(exec_result),
            filter.pallet@,
            filter.variant@,
        ),
{
    let state = match wait_for_in_block(status_events) {
        Ok(state) => state,
        Err(e) => {
            return Err(e);
        },
    };
    match state {
        TxState::Included(_) => {},
        TxState::Dropped => {
            return Ok(TxOutcome::Dropped);
        },
    }
    match exec_result {
        Ok(events) => Ok(TxOutcome::Success(find_first_event(events, filter))),
        Err(e) => Err(TxError::Execution(e)),
    }
}

/// What [`send_extrinsic`] owes: plain success exactly when the transaction
/// landed in a block and executed; every other resolution is an error of its
/// own kind, a dropped transaction among them.
pub open spec fn send_extrinsic_spec<B>(
    s: Seq<StatusEvent<B>>,
    exec: Result<Seq<EventRecord>, ExecError>,
) -> Result<(), TxError> {
    match wait_for_success_spec(s, exec, "NONE"@, "NONE"@) {
        Ok(TxOutcome::Success(_)) => Ok(()),
        Ok(TxOutcome::Dropped) => Err(TxError::Dropped),
        Err(e) => Err(e),
    }
}

/// Submit-and-forget: resolve the transaction with the [`DontCare`] filter and
/// discard the extracted event, reporting only whether the transaction landed
/// and succeeded. A dropped transaction is not success: it comes back as its
/// own error, distinct from the fatal stream-ended anomaly.
pub fn send_extrinsic<B>(
    status_events: Vec<StatusEvent<B>>,
    exec_result: Result<Vec<EventRecord>, ExecError>,
) -> (r: Result<(), TxError>)
    ensures
        r == send_extrinsic_spec(status_events@, exec_view(exec_result)),
{
    let filter = DontCare::filter();
    match wait_for_success(status_events, exec_result, &filter) {
        Ok(TxOutcome::Success(_)) => Ok(()),
        Ok(TxOutcome::Dropped) => Err(TxError::Dropped),
        Err(e) => Err(e),
    }
}

/// Law: a stream whose first decisive notification is a drop resolves to the
/// dropped state, and the outcome is the dropped outcome for every execution
/// result and every filter — the execution result is never consulted. The
/// submit-and-forget path reports that drop as its own error, never as plain
/// success.
pub proof fn lemma_dropped_stream_yields_dropped<B>(
    s: Seq<StatusEvent<B>>,
    i: int,
    exec: Result<Seq<EventRecord>, ExecError>,
    pallet: Seq<char>,
    variant: Seq<char>,
)
    requires
        0 <= i < s.len(),
        s[i] is Dropped,
        forall|j: int| 0 <= j < i ==> s[j] is Other,
    ensures
        resolve_spec(s) == Ok::<TxState<B>, TxError>(TxState::Dropped),
        wait_for_success_spec(s, exec, pallet, variant) == Ok::<
            TxOutcome<EventRecord>,
            TxError,
        >(TxOutcome::Dropped),
        send_extrinsic_spec(s, exec) == Err::<(), TxError>(TxError::Dropped),
    decreases i,
{
    if i > 0 {
        lemma_dropped_stream_yields_dropped(s.skip(1), i - 1, exec, pallet, variant);
    }
}

/// Law: a stream whose first decisive notification sees the transaction in
/// block `b` resolves to inclusion in `b`; a successful execution then yields
/// the success outcome, carrying no event when none of the emitted events
/// matches, and the first matching event when one does.
pub proof fn lemma_in_block_stream_yields_success<B>(
    s: Seq<StatusEvent<B>>,
    i: int,
    b: B,
    events: Seq<EventRecord>,
    pallet: Seq<char>,
    variant: Seq<char>,
)
    requires
        0 <= i < s.len(),
        s[i] == StatusEvent::InBlock(b),
        forall|j: int| 0 <= j < i ==> s[j] is Other,
    ensures
        resolve_spec(s) == Ok::<TxState<B>, TxError>(TxState::Included(b)),
        wait_for_success_spec(s, Ok(events), pallet, variant) == Ok::<
            TxOutcome<EventRecord>,
            TxError,
        >(TxOutcome::Success(find_first_spec(events, pallet, variant))),
        (forall|j: int| 0 <= j < events.len() ==> !event_matches(events[j], pallet, variant))
            ==> find_first_spec(events, pallet, variant) is None,
        forall|j: int|
            0 <= j < events.len() && event_matches(events[j], pallet, variant) && (forall|k: int|
                0 <= k < j ==> !event_matches(events[k], pallet, variant))
                ==> find_first_spec(events, pallet, variant) == Some(events[j]),
    decreases i,
{
    if i > 0 {
        lemma_in_block_stream_yields_success(s.skip(1), i - 1, b, events, pallet, variant);
    } else {
        assert forall|j: int|
            0 <= j < events.len() && event_matches(events[j], pallet, variant) && (forall|k: int|
                0 <= k < j ==> !event_matches(events[k], pallet, variant))
                implies find_first_spec(events, pallet, variant) == Some(events[j]) by {
            lemma_find_first_at(events, j, pallet, variant);
        }
        if forall|j: int| 0 <= j < events.len() ==> !event_matches(events[j], pallet, variant) {
            lemma_find_first_none(events, pallet, variant);
        }
    }
}

/// The first match at position `j` is what [`find_first_spec`] returns.
pub proof fn lemma_find_first_at(
    events: Seq<EventRecord>,
    j: int,
    pallet: Seq<char>,
    variant: Seq<char>,
)
    requires
        0 <= j < events.len(),
        event_matches(events[j], pallet, variant),
        forall|k: int| 0 <= k < j ==> !event_matches(events[k], pallet, variant),
    ensures
        find_first_spec(events, pallet, variant) == Some(events[j]),
    decreases j,
{
    if j > 0 {
        lemma_find_first_at(events.skip(1), j - 1, pallet, variant);
    }
}

/// With no matching event at all, [`find_first_spec`] comes back empty.
pub proof fn lemma_find_first_none(events: Seq<EventRecord>, pallet: Seq<char>, variant: Seq<char>)
    requires
        forall|j: int| 0 <= j < events.len() ==> !event_matches(events[j], pallet, variant),
    ensures
        find_first_spec(events, pallet, variant) is None,
    decreases events.len(),
{
    if events.len() > 0 {
        lemma_find_first_none(events.skip(1), pallet, variant);
    }
}

/// Law: a stream that ends after only non-decisive notifications is the fatal
/// stream-ended error, for every execution result and every filter — an
/// anomaly of the monitoring channel, never conflated with the dropped
/// outcome.
pub proof fn lemma_undecided_stream_is_fatal<B>(
    s: Seq<StatusEvent<B>>,
    exec: Result<Seq<EventRecord>, ExecError>,
    pallet: Seq<char>,
    variant: Seq<char>,
)
    requires
        forall|j: int| 0 <= j < s.len() ==> s[j] is Other,
    ensures
        resolve_spec(s) == Err::<TxState<B>, TxError>(TxError::StreamEnded),
        wait_for_success_spec(s, exec, pallet, variant) == Err::<
            TxOutcome<EventRecord>,
            TxError,
        >(TxError::StreamEnded),
        forall|o: TxOutcome<EventRecord>|
            wait_for_success_spec(s, exec, pallet, variant) != Ok::<
                TxOutcome<EventRecord>,
                TxError,
            >(o),
        send_extrinsic_spec(s, exec) == Err::<(), TxError>(TxError::StreamEnded),
    decreases s.len(),
{
    if s.len() > 0 {
        lemma_undecided_stream_is_fatal(s.skip(1), exec, pallet, variant);
    }
}

} // verus!
