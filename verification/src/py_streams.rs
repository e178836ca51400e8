//! The decisions of the Python binding's calls that run Python code or
//! consume streams: how a response stream is reported to Python callbacks,
//! how a Python generator is pumped into a stream, how a stream is gathered
//! into a list, and what a Python handler's reply means. The Python calls,
//! the waiting and the network are the caller's; it hands each outcome in
//! and does what comes back.

use vstd::prelude::*;
use vstd::string::*;
use crate::payload::Payload;
use crate::text::joined;

verus! {

/// Which call a consumer serves; it decides how its errors are worded.
#[derive(PartialEq, Eq, Structural, Clone, Copy)]
pub enum StreamKind {
    /// A request-stream call.
    Stream,
    /// A request-channel call.
    Channel,
}

/// How an error read from the stream is reported.
pub open spec fn item_error_prefix(kind: StreamKind) -> Seq<char> {
    match kind {
        StreamKind::Stream => "Stream error: "@,
        StreamKind::Channel => "Channel error: "@,
    }
}

/// How a failure of the per-item callback is reported.
pub open spec fn callback_error_prefix(kind: StreamKind) -> Seq<char> {
    match kind {
        StreamKind::Stream => "Callback error: "@,
        StreamKind::Channel => "Response callback error: "@,
    }
}

/// The outcome of a consumer that delivered `count` items and stopped with
/// `error` (if any), when its completion callback failed with
/// `completion_error` (if it did): a failing completion callback wins, then
/// the stream's own error, else the count.
pub open spec fn consumer_result(
    count: int,
    error: Option<Seq<char>>,
    completion_error: Option<Seq<char>>,
) -> Result<int, Seq<char>> {
    match completion_error {
        Some(e) => Err("Completion callback error: "@ + e),
        None => match error {
            Some(e) => Err(e),
            None => Ok(count),
        },
    }
}

/// A consumer's outcome is a success exactly when the stream ended without
/// error and the completion callback, if any, succeeded; the success then
/// carries the number of items delivered.
pub proof fn law_consumer_succeeds_only_cleanly(
    count: int,
    error: Option<Seq<char>>,
    completion_error: Option<Seq<char>>,
)
    ensures
        consumer_result(count, error, completion_error) is Ok <==> error is None
            && completion_error is None,
        consumer_result(count, error, completion_error) matches Ok(n) ==> n == count,
{
}

/// Delivers a response stream to a Python callback item by item and then
/// reports the end to an optional completion callback.
pub struct StreamConsumer {
    kind: StreamKind,
    count: i32,
    error: Option<String>,
    finished: bool,
}

/// What the completion callback is called with: the number of items
/// delivered and, when the stream stopped on an error, that error (Python
/// then sees `None` in place of `True` as the success flag).
pub struct CompletionReport {
    pub count: i32,
    pub error: Option<String>,
}

impl StreamConsumer {
    /// The call served.
    pub closed spec fn kind(&self) -> StreamKind {
        self.kind
    }

    /// Items delivered so far.
    pub closed spec fn count(&self) -> i32 {
        self.count
    }

    /// The error the stream stopped on, if any.
    pub closed spec fn error(&self) -> Option<Seq<char>> {
        match self.error {
            Some(e) => Some(e@),
            None => None,
        }
    }

    /// Whether the stream is over.
    pub closed spec fn finished(&self) -> bool {
        self.finished
    }

    /// An error is only recorded when the stream is over.
    pub closed spec fn wf(&self) -> bool {
        self.error is Some ==> self.finished
    }

    /// A consumer that has delivered nothing.
    pub fn new(kind: StreamKind) -> (c: StreamConsumer)
        ensures
            c.wf(),
            c.kind() == kind,
            c.count() == 0,
            c.error() is None,
            !c.finished(),
    {
        StreamConsumer { kind, count: 0, error: None, finished: false }
    }

    /// An item arrived: returns its position, counting from 1, which the
    /// per-item callback receives with it. The count must fit an `i32`.
    pub fn on_item(&mut self) -> (n: i32)
        requires
            old(self).wf(),
            !old(self).finished(),
            old(self).count() < i32::MAX,
        ensures
            final(self).wf(),
            final(self).count() == old(self).count() + 1,
            n == final(self).count(),
            final(self).kind() == old(self).kind(),
            final(self).error() == old(self).error(),
            !final(self).finished(),
    {
        self.count = self.count + 1;
        self.count
    }

    /// The per-item callback raised `message`: the stream is abandoned.
    pub fn on_callback_error(&mut self, message: &str)
        requires
            old(self).wf(),
            !old(self).finished(),
        ensures
            final(self).wf(),
            final(self).finished(),
            final(self).error() == Some(callback_error_prefix(old(self).kind()) + message@),
            final(self).count() == old(self).count(),
            final(self).kind() == old(self).kind(),
    {
        let prefix = match self.kind {
            StreamKind::Stream => "Callback error: ",
            StreamKind::Channel => "Response callback error: ",
        };
        self.error = Some(joined(prefix, message));
        self.finished = true;
    }

    /// The stream yielded the error `message`: it is over.
    pub fn on_stream_error(&mut self, message: &str)
        requires
            old(self).wf(),
            !old(self).finished(),
        ensures
            final(self).wf(),
            final(self).finished(),
            final(self).error() == Some(item_error_prefix(old(self).kind()) + message@),
            final(self).count() == old(self).count(),
            final(self).kind() == old(self).kind(),
    {
        let prefix = match self.kind {
            StreamKind::Stream => "Stream error: ",
            StreamKind::Channel => "Channel error: ",
        };
        self.error = Some(joined(prefix, message));
        self.finished = true;
    }

    /// The stream ended normally.
    pub fn on_end(&mut self)
        requires
            old(self).wf(),
            !old(self).finished(),
        ensures
            final(self).wf(),
            final(self).finished(),
            final(self).error() is None,
            final(self).count() == old(self).count(),
            final(self).kind() == old(self).kind(),
    {
        self.finished = true;
    }

    /// What the completion callback receives once the stream is over.
    pub fn completion(&self) -> (r: CompletionReport)
        requires
            self.wf(),
            self.finished(),
        ensures
            r.count == self.count(),
            match r.error {
                Some(e) => self.error() == Some(e@),
                None => self.error() is None,
            },
    {
        CompletionReport {
            count: self.count,
            error: match &self.error {
                Some(e) => Some(String::from_str(e.as_str())),
                None => None,
            },
        }
    }

    /// The call's result once the stream is over and the completion
    /// callback, if there was one, ran and failed with `completion_error` or
    /// not: see `consumer_result`.
    pub fn finish(self, completion_error: Option<&str>) -> (res: Result<i32, String>)
        requires
            self.wf(),
            self.finished(),
        ensures
            match res {
                Ok(n) => consumer_result(
                    self.count() as int,
                    self.error(),
                    match completion_error {
                        Some(e) => Some(e@),
                        None => None,
                    },
                ) == Ok::<int, Seq<char>>(n as int),
                Err(e) => consumer_result(
                    self.count() as int,
                    self.error(),
                    match completion_error {
                        Some(e) => Some(e@),
                        None => None,
                    },
                ) == Err::<int, Seq<char>>(e@),
            },
    {
        match completion_error {
            Some(e) => Err(joined("Completion callback error: ", e)),
            None => match self.error {
                Some(e) => Err(e),
                None => Ok(self.count),
            },
        }
    }
}

/// How many items a handler's generator may yield before the stream is cut
/// off.
pub const STREAM_ITERATION_LIMIT: i32 = 10000;

/// What asking a Python generator for its next item came to.
pub enum GeneratorEvent {
    /// It yielded a payload.
    Item(Payload),
    /// It raised `StopIteration`.
    Exhausted,
    /// It yielded something that is not a payload.
    NotAPayload,
    /// It raised this error.
    Failed(String),
    /// The task that asked it could not be joined, with this error.
    JoinFailed(String),
}

/// What the pump passes on for one event: a payload to yield, then
/// possibly an error to yield, and whether the stream is over.
pub struct PumpOutput {
    pub item: Option<Payload>,
    pub error: Option<String>,
    pub done: bool,
}

/// Turns the items of a Python generator into a stream, optionally cut off
/// after `STREAM_ITERATION_LIMIT` items.
pub struct GeneratorPump {
    limited: bool,
    counted: i32,
    done: bool,
}

impl GeneratorPump {
    /// Whether the pump cuts the stream off.
    pub closed spec fn limited(&self) -> bool {
        self.limited
    }

    /// Items yielded so far by a limited pump (0 for an unlimited one).
    pub closed spec fn counted(&self) -> i32 {
        self.counted
    }

    /// Whether the stream is over.
    pub closed spec fn done(&self) -> bool {
        self.done
    }

    /// A limited pump never counts past one item over the limit, and is
    /// over once past the limit; an unlimited one counts nothing.
    pub closed spec fn wf(&self) -> bool {
        &&& 0 <= self.counted <= STREAM_ITERATION_LIMIT + 1
        &&& self.counted > STREAM_ITERATION_LIMIT ==> self.done
        &&& !self.limited ==> self.counted == 0
    }

    /// A pump that has yielded nothing.
    pub fn new(limited: bool) -> (p: GeneratorPump)
        ensures
            p.wf(),
            p.limited() == limited,
            p.counted() == 0,
            !p.done(),
    {
        GeneratorPump { limited, counted: 0, done: false }
    }

    /// Handles what the generator produced: a payload is yielded (and, when
    /// it is one past the limit of a limited pump, followed by the error
    /// "Stream iteration limit exceeded", which ends the stream); the end of
    /// the generator ends the stream; anything else yields an error and
    /// ends it.
    pub fn step(&mut self, event: GeneratorEvent) -> (out: PumpOutput)
        requires
            old(self).wf(),
            !old(self).done(),
        ensures
            final(self).wf(),
            final(self).limited() == old(self).limited(),
            final(self).done() == out.done,
            match event {
                GeneratorEvent::Item(p) => {
                    &&& out.item matches Some(q) && q@ == p@
                    &&& final(self).counted() == if old(self).limited() {
                        old(self).counted() + 1
                    } else {
                        0
                    }
                    &&& out.done == (final(self).counted() > STREAM_ITERATION_LIMIT)
                    &&& match out.error {
                        Some(e) => out.done && e@ == "Stream iteration limit exceeded"@,
                        None => !out.done,
                    }
                },
                GeneratorEvent::Exhausted => out.item is None && out.error is None && out.done
                    && final(self).counted() == old(self).counted(),
                GeneratorEvent::NotAPayload => {
                    &&& out.item is None && out.done
                    &&& out.error matches Some(e) && e@ == "Generator item must be Payload"@
                    &&& final(self).counted() == old(self).counted()
                },
                GeneratorEvent::Failed(m) => {
                    &&& out.item is None && out.done
                    &&& out.error matches Some(e) && e@ == "Generator error: "@ + m@
                    &&& final(self).counted() == old(self).counted()
                },
                GeneratorEvent::JoinFailed(m) => {
                    &&& out.item is None && out.done
                    &&& out.error matches Some(e) && e@ == "Task join error: "@ + m@
                    &&& final(self).counted() == old(self).counted()
                },
            },
    {
        match event {
            GeneratorEvent::Item(p) => {
                if self.limited {
                    self.counted = self.counted + 1;
                }
                if self.counted > STREAM_ITERATION_LIMIT {
                    self.done = true;
                    PumpOutput {
                        item: Some(p),
                        error: Some(String::from_str("Stream iteration limit exceeded")),
                        done: true,
                    }
                } else {
                    PumpOutput { item: Some(p), error: None, done: false }
                }
            },
            GeneratorEvent::Exhausted => {
                self.done = true;
                PumpOutput { item: None, error: None, done: true }
            },
            GeneratorEvent::NotAPayload => {
                self.done = true;
                PumpOutput {
                    item: None,
                    error: Some(String::from_str("Generator item must be Payload")),
                    done: true,
                }
            },
            GeneratorEvent::Failed(m) => {
                self.done = true;
                PumpOutput {
                    item: None,
                    error: Some(joined("Generator error: ", m.as_str())),
                    done: true,
                }
            },
            GeneratorEvent::JoinFailed(m) => {
                self.done = true;
                PumpOutput {
                    item: None,
                    error: Some(joined("Task join error: ", m.as_str())),
                    done: true,
                }
            },
        }
    }
}

/// A limited pump never passes on more than one item beyond the limit:
/// each item it yields is counted, and it stops once past the limit.
pub proof fn law_limited_pump_bounded(p: GeneratorPump)
    requires
        p.wf(),
    ensures
        p.counted() <= STREAM_ITERATION_LIMIT + 1,
        p.counted() > STREAM_ITERATION_LIMIT ==> p.done(),
{
}

/// The payloads of a stream read up to its first error: all of them, in
/// order, when there was no error, else the first error after `prefix`.
/// The caller stops reading at the first error.
#[verifier::loop_isolation(false)]
pub fn collect_until_error(items: Vec<Result<Payload, String>>, prefix: &str) -> (res: Result<
    Vec<Payload>,
    String,
>)
    ensures
        res is Ok <==> forall|i: int| 0 <= i < items@.len() ==> #[trigger] items@[i] is Ok,
        res matches Ok(ps) ==> ps@.len() == items@.len() && forall|i: int|
            0 <= i < items@.len() ==> (#[trigger] items@[i] matches Ok(p) && ps@[i]@ == p@),
        res matches Err(e) ==> exists|i: int|
            0 <= i < items@.len() && (forall|j: int| 0 <= j < i ==> #[trigger] items@[j] is Ok)
                && (#[trigger] items@[i] matches Err(m) && e@ == prefix@ + m@),
{
    let ghost orig = items@;
    let n = items.len();
    let mut rest = items;
    let mut out: Vec<Payload> = Vec::new();
    let mut i: usize = 0;
    while rest.len() > 0
        invariant
            orig.len() == n,
            i + rest@.len() == n,
            out@.len() == i,
            rest@ =~= orig.skip(i as int),
            forall|j: int| 0 <= j < i ==> #[trigger] orig[j] is Ok,
            forall|j: int| 0 <= j < i ==> (#[trigger] orig[j] matches Ok(p) && out@[j]@ == p@),
        decreases rest@.len(),
    {
        let ghost before = rest@;
        let item = rest.remove(0);
        assert(item == orig[i as int]);
        assert(rest@ =~= orig.skip(i as int + 1));
        match item {
            Ok(p) => {
                out.push(p);
                i = i + 1;
            },
            Err(m) => {
                let e = joined(prefix, m.as_str());
                proof {
                    let k = i as int;
                    assert(!(orig[k] is Ok));
                    assert(0 <= k < orig.len() && (forall|j: int| 0 <= j < k ==> #[trigger] orig[j] is Ok)
                        && (orig[k] matches Err(mm) && e@ == prefix@ + mm@));
                }
                return Err(e);
            },
        }
    }
    Ok(out)
}

/// What a Python handler's call came to.
pub enum HandlerReply {
    /// It returned `None`.
    NoPayload,
    /// It returned a payload.
    Payload(Payload),
    /// It returned something that is not a payload; the extraction error.
    NotAPayload(String),
    /// It raised this error.
    Raised(String),
    /// The task that called it could not be joined, with this error.
    JoinFailed(String),
}

/// The answer of a server's request-response handler: without a handler the
/// request comes back; a handler's payload or `None` is the answer; a reply
/// that is no payload, an exception and a failed task are errors.
pub fn request_response_reply(reply: Option<HandlerReply>, request: Payload) -> (res: Result<
    Option<Payload>,
    String,
>)
    ensures
        match reply {
            None => res matches Ok(Some(p)) && p@ == request@,
            Some(HandlerReply::NoPayload) => res matches Ok(None),
            Some(HandlerReply::Payload(q)) => res matches Ok(Some(p)) && p@ == q@,
            Some(HandlerReply::NotAPayload(m)) => res matches Err(e) && e@
                == "Failed to extract payload: "@ + m@,
            Some(HandlerReply::Raised(m)) => res matches Err(e) && e@ == "Python handler error: "@
                + m@,
            Some(HandlerReply::JoinFailed(m)) => res matches Err(e) && e@ == "Task join error: "@
                + m@,
        },
{
    match reply {
        None => Ok(Some(request)),
        Some(HandlerReply::NoPayload) => Ok(None),
        Some(HandlerReply::Payload(q)) => Ok(Some(q)),
        Some(HandlerReply::NotAPayload(m)) => Err(joined("Failed to extract payload: ", m.as_str())),
        Some(HandlerReply::Raised(m)) => Err(joined("Python handler error: ", m.as_str())),
        Some(HandlerReply::JoinFailed(m)) => Err(joined("Task join error: ", m.as_str())),
    }
}

/// The outcome of a server's metadata-push or fire-and-forget handler:
/// whatever the handler returns is accepted; an exception or a failed task
/// is an error; without a handler the call succeeds.
pub fn one_way_reply(reply: Option<HandlerReply>) -> (res: Result<(), String>)
    ensures
        match reply {
            Some(HandlerReply::Raised(m)) => res matches Err(e) && e@ == "Python handler error: "@
                + m@,
            Some(HandlerReply::JoinFailed(m)) => res matches Err(e) && e@ == "Task join error: "@
                + m@,
            _ => res is Ok,
        },
{
    match reply {
        Some(HandlerReply::Raised(m)) => Err(joined("Python handler error: ", m.as_str())),
        Some(HandlerReply::JoinFailed(m)) => Err(joined("Task join error: ", m.as_str())),
        _ => Ok(()),
    }
}

/// What a server's request-stream handler returned on its first call.
pub enum StreamHandlerResult {
    /// A generator (it has `__next__` and `__iter__`).
    Generator,
    /// A list of payloads.
    PayloadList,
    /// Something else.
    Other,
    /// It raised this error.
    Raised(String),
    /// The task that called it could not be joined, with this error.
    JoinFailed(String),
}

/// How a request-stream call proceeds after the handler's first call.
pub enum StreamPlan {
    /// Pump the generator, cut off after `STREAM_ITERATION_LIMIT` items.
    Pump,
    /// Call the handler again and yield the payloads of the list it returns.
    CallAgainForList,
    /// Yield this error and end the stream.
    Fail(String),
}

/// The plan for a request-stream call from the handler's first result.
pub fn stream_plan(first: StreamHandlerResult) -> (plan: StreamPlan)
    ensures
        match first {
            StreamHandlerResult::Generator => plan is Pump,
            StreamHandlerResult::PayloadList => plan is CallAgainForList,
            StreamHandlerResult::Other => plan matches StreamPlan::Fail(e) && e@
                == "Handler must return generator or list of payloads"@,
            StreamHandlerResult::Raised(m) => plan matches StreamPlan::Fail(e) && e@
                == "Python handler error: "@ + m@,
            StreamHandlerResult::JoinFailed(m) => plan matches StreamPlan::Fail(e) && e@
                == "Task join error: "@ + m@,
        },
{
    match first {
        StreamHandlerResult::Generator => StreamPlan::Pump,
        StreamHandlerResult::PayloadList => StreamPlan::CallAgainForList,
        StreamHandlerResult::Other => StreamPlan::Fail(
            String::from_str("Handler must return generator or list of payloads"),
        ),
        StreamHandlerResult::Raised(m) => StreamPlan::Fail(joined("Python handler error: ", m.as_str())),
        StreamHandlerResult::JoinFailed(m) => StreamPlan::Fail(joined("Task join error: ", m.as_str())),
    }
}

/// What a handler that should return a list of payloads came to.
pub enum ListReply {
    /// The payloads of the list.
    Payloads(Vec<Payload>),
    /// The reply is not a list of payloads; the extraction error.
    NotPayloads(String),
    /// It raised this error.
    Raised(String),
    /// The task that called it could not be joined, with this error.
    JoinFailed(String),
}

/// The payloads to yield from a handler's list reply, or the error to yield.
pub fn list_reply(reply: ListReply) -> (res: Result<Vec<Payload>, String>)
    ensures
        match reply {
            ListReply::Payloads(v) => res matches Ok(w) && w@ == v@,
            ListReply::NotPayloads(m) => res matches Err(e) && e@ == "Failed to extract payloads: "@
                + m@,
            ListReply::Raised(m) => res matches Err(e) && e@ == "Python handler error: "@ + m@,
            ListReply::JoinFailed(m) => res matches Err(e) && e@ == "Task join error: "@ + m@,
        },
{
    match reply {
        ListReply::Payloads(v) => Ok(v),
        ListReply::NotPayloads(m) => Err(joined("Failed to extract payloads: ", m.as_str())),
        ListReply::Raised(m) => Err(joined("Python handler error: ", m.as_str())),
        ListReply::JoinFailed(m) => Err(joined("Task join error: ", m.as_str())),
    }
}

} // verus!
