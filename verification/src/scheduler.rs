//! The scheduler: which step comes next.
//!
//! The scheduler does no work of its own. It says which action is pending,
//! takes the event that answers the action, and moves on. Whoever drives it
//! performs the actions: sends the request, reads the quote as a number,
//! measures and extends the sink, prints, sleeps.
//!
//! One tick takes each source in registry order. A fetch that fails is
//! complained about and the tick goes on with the next source. A sink that
//! cannot be measured or extended halts the scheduler for good. After the
//! last source the scheduler sleeps, and then the next tick begins.

use crate::price::{is_decimal_text, Price};
use crate::sink::{pending_text, row_text};
use crate::source::{
    message_of, quote_in_reply, request_of, AssetSource, FetchError, FetchErrorView, Reply,
    ReplyView, Request, RequestView, SourceView,
};
use crate::timestamp::{has_date_time_form, is_stamp_text, Timestamp};
use vstd::prelude::*;

verus! {

/// The seconds of sleep between two ticks.
pub const TICK_SECONDS: u64 = 10;

/// What the driver is asked to do.
#[derive(Debug, PartialEq, Eq)]
pub enum Action {
    /// Send the request and report what came back: the reply that
    /// `reply_of_response` makes of the response, or that none came.
    Get(Request),
    /// Read the text as a double-precision number, and report the number
    /// as a price: as the decimal text that prints it.
    Convert(String),
    /// Open the file at the path for appending, create it if it is not
    /// there, and report its length in bytes.
    Measure(String),
    /// Append the text to the file at the path.
    Append { path: String, text: String },
    /// Print the line to standard output.
    Print(String),
    /// Print the line to standard error.
    Complain(String),
    /// Sleep for the seconds.
    Sleep(u64),
    /// Stop: a sink has failed. The reason is in words.
    Halt(String),
}

/// An [`Action`], with each text as the sequence of its characters.
pub enum ActionView {
    Get(RequestView),
    Convert(Seq<char>),
    Measure(Seq<char>),
    Append { path: Seq<char>, text: Seq<char> },
    Print(Seq<char>),
    Complain(Seq<char>),
    Sleep(u64),
    Halt(Seq<char>),
}

impl View for Action {
    type V = ActionView;

    open spec fn view(&self) -> ActionView {
        match self {
            Action::Get(request) => ActionView::Get(request@),
            Action::Convert(text) => ActionView::Convert(text@),
            Action::Measure(path) => ActionView::Measure(path@),
            Action::Append { path, text } => ActionView::Append { path: path@, text: text@ },
            Action::Print(line) => ActionView::Print(line@),
            Action::Complain(line) => ActionView::Complain(line@),
            Action::Sleep(seconds) => ActionView::Sleep(*seconds),
            Action::Halt(reason) => ActionView::Halt(reason@),
        }
    }
}

/// What the driver reports of an action.
#[derive(Debug)]
pub enum Event {
    /// Answers `Get`.
    Replied(Reply),
    /// Answers `Convert`: the price, or `None` where the text is no number.
    Converted(Option<Price>),
    /// Answers `Measure`: the length, or why the file could not be opened
    /// or measured.
    Measured(Result<u64, String>),
    /// Answers `Append`: done, or why the file could not be written.
    Appended(Result<(), String>),
    /// Answers `Print`, `Complain` and `Sleep`.
    Done,
}

/// An [`Event`], with each text as the sequence of its characters.
pub enum EventView {
    Replied(ReplyView),
    Converted(Option<Seq<char>>),
    Measured(Result<u64, Seq<char>>),
    Appended(Result<(), Seq<char>>),
    Done,
}

impl View for Event {
    type V = EventView;

    open spec fn view(&self) -> EventView {
        match self {
            Event::Replied(reply) => EventView::Replied(reply@),
            Event::Converted(Some(price)) => EventView::Converted(Some(price@)),
            Event::Converted(None) => EventView::Converted(None),
            Event::Measured(Ok(length)) => EventView::Measured(Ok(*length)),
            Event::Measured(Err(reason)) => EventView::Measured(Err(reason@)),
            Event::Appended(Ok(_)) => EventView::Appended(Ok(())),
            Event::Appended(Err(reason)) => EventView::Appended(Err(reason@)),
            Event::Done => EventView::Done,
        }
    }
}

/// The phase, as the scheduler holds it.
#[derive(Debug)]
enum Phase {
    Fetching { index: usize },
    Converting { index: usize, text: String },
    Measuring { index: usize },
    Appending { index: usize, fresh: bool },
    Echoing { index: usize },
    Announcing { index: usize },
    Complaining { index: usize, error: FetchError },
    Sleeping,
    Halted { reason: String },
}

/// Where in a tick a scheduler stands. `index` is that of the source in
/// the registry that the phase is about.
pub enum PhaseView {
    /// The request is out.
    Fetching { index: int },
    /// The quote `text` is being read as a number.
    Converting { index: int, text: Seq<char> },
    /// The fetch has succeeded and the sink is being measured.
    Measuring { index: int },
    /// The sink is being extended; `fresh` says whether it was empty.
    Appending { index: int, fresh: bool },
    /// The row is being printed.
    Echoing { index: int },
    /// The success is being announced.
    Announcing { index: int },
    /// The failed fetch is being complained about.
    Complaining { index: int, error: FetchErrorView },
    /// All sources are done and the scheduler sleeps.
    Sleeping,
    /// A sink has failed.
    Halted { reason: Seq<char> },
}

impl View for Phase {
    type V = PhaseView;

    closed spec fn view(&self) -> PhaseView {
        match self {
            Phase::Fetching { index } => PhaseView::Fetching { index: *index as int },
            Phase::Converting { index, text } => PhaseView::Converting {
                index: *index as int,
                text: text@,
            },
            Phase::Measuring { index } => PhaseView::Measuring { index: *index as int },
            Phase::Appending { index, fresh } => PhaseView::Appending {
                index: *index as int,
                fresh: *fresh,
            },
            Phase::Echoing { index } => PhaseView::Echoing { index: *index as int },
            Phase::Announcing { index } => PhaseView::Announcing { index: *index as int },
            Phase::Complaining { index, error } => PhaseView::Complaining {
                index: *index as int,
                error: error@,
            },
            Phase::Sleeping => PhaseView::Sleeping,
            Phase::Halted { reason } => PhaseView::Halted { reason: reason@ },
        }
    }
}

impl PhaseView {
    /// The index of the source that the phase is about, if it is about one.
    pub open spec fn index(self) -> Option<int> {
        match self {
            PhaseView::Fetching { index } => Some(index),
            PhaseView::Converting { index, text } => Some(index),
            PhaseView::Measuring { index } => Some(index),
            PhaseView::Appending { index, fresh } => Some(index),
            PhaseView::Echoing { index } => Some(index),
            PhaseView::Announcing { index } => Some(index),
            PhaseView::Complaining { index, error } => Some(index),
            PhaseView::Sleeping => None,
            PhaseView::Halted { reason } => None,
        }
    }
}

/// No two of `sources` write to the same file.
pub open spec fn distinct_sinks(sources: Seq<SourceView>) -> bool {
    forall|i: int, j: int|
        0 <= i < j < sources.len() ==> (#[trigger] sources[i]).sink_path != (
        #[trigger] sources[j]).sink_path
}

/// The phase in which a tick over `count` sources begins.
pub open spec fn first_phase(count: int) -> PhaseView {
    if count == 0 {
        PhaseView::Sleeping
    } else {
        PhaseView::Fetching { index: 0 }
    }
}

/// The phase that follows the work on the source at `index`, of `count`.
pub open spec fn phase_after(index: int, count: int) -> PhaseView {
    if index + 1 < count {
        PhaseView::Fetching { index: index + 1 }
    } else {
        PhaseView::Sleeping
    }
}

/// The line that complains about a failed fetch.
pub open spec fn complaint_text(source: SourceView, error: FetchErrorView) -> Seq<char> {
    "Error fetching price for "@ + source.endpoint.instrument() + ": "@ + message_of(error)
}

/// The line that announces a persisted observation.
pub open spec fn announcement_text() -> Seq<char> {
    "Successfully updated price"@
}

/// A [`Scheduler`]: the sources in registry order, and the phase.
pub struct SchedulerView {
    pub sources: Seq<SourceView>,
    pub phase: PhaseView,
}

impl SchedulerView {
    /// What holds of every scheduler: each observation is a timestamp and a
    /// price, no two sources share a sink, and the phase is about a source
    /// of the registry.
    pub open spec fn is_valid(self) -> bool {
        &&& forall|i: int|
            0 <= i < self.sources.len() ==> is_stamp_text((#[trigger] self.sources[i]).timestamp)
                && is_decimal_text(self.sources[i].value)
        &&& distinct_sinks(self.sources)
        &&& self.phase.index() matches Some(index) ==> 0 <= index < self.sources.len()
    }

    /// The source that the phase is about.
    pub open spec fn current(self) -> SourceView
        recommends
            self.phase.index() is Some,
    {
        self.sources[self.phase.index().unwrap()]
    }

    /// The action that is pending.
    pub open spec fn action(self) -> ActionView {
        match self.phase {
            PhaseView::Fetching { index } => ActionView::Get(request_of(self.current().endpoint)),
            PhaseView::Converting { index, text } => ActionView::Convert(text),
            PhaseView::Measuring { index } => ActionView::Measure(self.current().sink_path),
            PhaseView::Appending { index, fresh } => ActionView::Append {
                path: self.current().sink_path,
                text: pending_text(fresh, row_text(self.current().timestamp, self.current().value)),
            },
            PhaseView::Echoing { index } => ActionView::Print(
                row_text(self.current().timestamp, self.current().value),
            ),
            PhaseView::Announcing { index } => ActionView::Print(announcement_text()),
            PhaseView::Complaining { index, error } => ActionView::Complain(
                complaint_text(self.current(), error),
            ),
            PhaseView::Sleeping => ActionView::Sleep(TICK_SECONDS),
            PhaseView::Halted { reason } => ActionView::Halt(reason),
        }
    }

    /// Whether `event` makes an observation, which takes a timestamp: it
    /// brings the price that the scheduler has asked for.
    pub open spec fn stamps(self, event: EventView) -> bool {
        self.phase is Converting && event matches EventView::Converted(Some(_))
    }

    /// The scheduler in the phase `phase`, with the sources as they are.
    pub open spec fn turn_to(self, phase: PhaseView) -> SchedulerView {
        SchedulerView { sources: self.sources, phase }
    }

    /// The scheduler after `event`, where the clock shows `now`.
    ///
    /// An event that does not answer the pending action changes nothing,
    /// and nothing changes a scheduler that has halted. Only a price that
    /// answers `Convert` changes a source: it becomes the value of the
    /// source's observation and `now` its timestamp, both at once.
    pub open spec fn next(self, event: EventView, now: Seq<char>) -> SchedulerView {
        let count = self.sources.len() as int;
        match (self.phase, event) {
            (PhaseView::Fetching { index }, EventView::Replied(reply)) => match quote_in_reply(
                self.current().endpoint,
                reply,
            ) {
                Ok(text) => self.turn_to(PhaseView::Converting { index, text }),
                Err(error) => self.turn_to(PhaseView::Complaining { index, error }),
            },
            (PhaseView::Converting { index, text }, EventView::Converted(Some(price))) => {
                SchedulerView {
                    sources: self.sources.update(
                        index,
                        SourceView { timestamp: now, value: price, ..self.current() },
                    ),
                    phase: PhaseView::Measuring { index },
                }
            },
            (PhaseView::Converting { index, text }, EventView::Converted(None)) => self.turn_to(
                PhaseView::Complaining { index, error: FetchErrorView::Conversion },
            ),
            (PhaseView::Measuring { index }, EventView::Measured(Ok(length))) => self.turn_to(
                PhaseView::Appending { index, fresh: length == 0 },
            ),
            (PhaseView::Measuring { index }, EventView::Measured(Err(reason))) => self.turn_to(
                PhaseView::Halted { reason },
            ),
            (PhaseView::Appending { index, fresh }, EventView::Appended(Ok(_))) => self.turn_to(
                PhaseView::Echoing { index },
            ),
            (PhaseView::Appending { index, fresh }, EventView::Appended(Err(reason))) => self.turn_to(
                PhaseView::Halted { reason },
            ),
            (PhaseView::Echoing { index }, EventView::Done) => self.turn_to(
                PhaseView::Announcing { index },
            ),
            (PhaseView::Announcing { index }, EventView::Done) => self.turn_to(
                phase_after(index, count),
            ),
            (PhaseView::Complaining { index, error }, EventView::Done) => self.turn_to(
                phase_after(index, count),
            ),
            (PhaseView::Sleeping, EventView::Done) => self.turn_to(first_phase(count)),
            _ => self,
        }
    }
}

/// The views of `sources`, in order.
pub open spec fn source_views(sources: Seq<AssetSource>) -> Seq<SourceView> {
    sources.map_values(|source: AssetSource| source@)
}

/// Makes `price` and `now` the observation of the source at `index`.
fn record_in(sources: &mut Vec<AssetSource>, index: usize, price: Price, now: Timestamp)
    requires
        index < old(sources)@.len(),
    ensures
        source_views(final(sources)@) == source_views(old(sources)@).update(
            index as int,
            SourceView { timestamp: now@, value: price@, ..old(sources)@[index as int]@ },
        ),
    no_unwind
{
    let _ = sources[index].record_at(Some(price), now);
}

/// The registry of sources and the phase of the tick.
#[derive(Debug)]
pub struct Scheduler {
    sources: Vec<AssetSource>,
    phase: Phase,
}

impl View for Scheduler {
    type V = SchedulerView;

    closed spec fn view(&self) -> SchedulerView {
        SchedulerView { sources: source_views(self.sources@), phase: self.phase@ }
    }
}

impl Scheduler {
    /// Every scheduler is valid.
    #[verifier::type_invariant]
    pub open spec fn well_formed(&self) -> bool {
        self@.is_valid()
    }

    /// A scheduler at the start of its first tick over `sources`, which it
    /// takes in this order in every tick. It is refused where two of the
    /// sources write to the same file.
    pub fn new(sources: Vec<AssetSource>) -> (r: Option<Scheduler>)
        ensures
            r is Some <==> distinct_sinks(source_views(sources@)),
            r matches Some(scheduler) ==> scheduler@ == (SchedulerView {
                sources: source_views(sources@),
                phase: first_phase(sources@.len() as int),
            }),
    {
        let ghost views = source_views(sources@);
        let count = sources.len();
        let mut j: usize = 0;
        while j < count
            invariant
                j <= count,
                count == sources@.len(),
                views == source_views(sources@),
                forall|a: int, b: int|
                    0 <= a < b < j ==> (#[trigger] views[a]).sink_path != (
                    #[trigger] views[b]).sink_path,
                forall|a: int|
                    0 <= a < j ==> is_stamp_text((#[trigger] views[a]).timestamp)
                        && is_decimal_text(views[a].value),
            decreases count - j,
        {
            let mut i: usize = 0;
            while i < j
                invariant
                    i <= j < count,
                    count == sources@.len(),
                    views == source_views(sources@),
                    forall|a: int|
                        0 <= a < i ==> (#[trigger] views[a]).sink_path != views[j as int].sink_path,
                decreases j - i,
            {
                if sources[i].shares_sink_with(&sources[j]) {
                    assert(views[i as int].sink_path == views[j as int].sink_path);
                    return None;
                }
                i += 1;
            }
            let source = &sources[j];
            proof {
                use_type_invariant(source);
            }
            j += 1;
        }
        let phase = if count == 0 {
            Phase::Sleeping
        } else {
            Phase::Fetching { index: 0 }
        };
        Some(Scheduler { sources, phase })
    }

    /// The sources, in registry order.
    pub fn sources(&self) -> (r: &Vec<AssetSource>)
        ensures
            source_views(r@) == self@.sources,
    {
        &self.sources
    }

    /// The action that is pending: what the driver is to do next.
    pub fn pending(&self) -> (r: Action)
        ensures
            r@ == self@.action(),
    {
        proof {
            use_type_invariant(self);
        }
        match &self.phase {
            Phase::Fetching { index } => Action::Get(self.sources[*index].endpoint().request()),
            Phase::Converting { index: _, text } => Action::Convert(text.clone()),
            Phase::Measuring { index } => Action::Measure(
                String::from_str(self.sources[*index].sink_path()),
            ),
            Phase::Appending { index, fresh } => Action::Append {
                path: String::from_str(self.sources[*index].sink_path()),
                text: self.sources[*index].persist_text(*fresh),
            },
            Phase::Echoing { index } => Action::Print(self.sources[*index].row()),
            Phase::Announcing { index: _ } => Action::Print(
                String::from_str("Successfully updated price"),
            ),
            Phase::Complaining { index, error } => {
                let mut line = String::from_str("Error fetching price for ");
                line.append(self.sources[*index].endpoint().instrument());
                line.append(": ");
                line.append(error.message().as_str());
                Action::Complain(line)
            },
            Phase::Sleeping => Action::Sleep(TICK_SECONDS),
            Phase::Halted { reason } => Action::Halt(reason.clone()),
        }
    }

    /// The phase that follows the work on the source at `index`.
    fn phase_past(&self, index: usize) -> (r: Phase)
        requires
            index < self@.sources.len(),
        ensures
            r@ == phase_after(index as int, self@.sources.len() as int),
    {
        let count = self.sources.len();
        if index + 1 < count {
            Phase::Fetching { index: index + 1 }
        } else {
            Phase::Sleeping
        }
    }

    /// Takes the event that answers the pending action, at a moment when
    /// the clock shows `now`, and moves on.
    pub fn handle_at(&mut self, event: Event, now: Timestamp)
        ensures
            final(self)@ == old(self)@.next(event@, now@),
    {
        proof {
            use_type_invariant(&*self);
            use_type_invariant(&now);
        }
        match event {
            Event::Replied(reply) => {
                if let Phase::Fetching { index } = &self.phase {
                    let index = *index;
                    match self.sources[index].endpoint().read_reply(reply) {
                        Ok(text) => {
                            self.phase = Phase::Converting { index, text };
                        },
                        Err(error) => {
                            self.phase = Phase::Complaining { index, error };
                        },
                    }
                }
            },
            Event::Converted(converted) => {
                if let Phase::Converting { index, text: _ } = &self.phase {
                    let index = *index;
                    match converted {
                        Some(price) => {
                            proof {
                                use_type_invariant(&price);
                            }
                            record_in(&mut self.sources, index, price, now);
                            self.phase = Phase::Measuring { index };
                        },
                        None => {
                            self.phase = Phase::Complaining { index, error: FetchError::Conversion };
                        },
                    }
                }
            },
            Event::Measured(measured) => {
                if let Phase::Measuring { index } = &self.phase {
                    let index = *index;
                    match measured {
                        Ok(length) => {
                            self.phase = Phase::Appending { index, fresh: length == 0 };
                        },
                        Err(reason) => {
                            self.phase = Phase::Halted { reason };
                        },
                    }
                }
            },
            Event::Appended(appended) => {
                if let Phase::Appending { index, fresh: _ } = &self.phase {
                    let index = *index;
                    match appended {
                        Ok(_) => {
                            self.phase = Phase::Echoing { index };
                        },
                        Err(reason) => {
                            self.phase = Phase::Halted { reason };
                        },
                    }
                }
            },
            Event::Done => {
                match &self.phase {
                    Phase::Echoing { index } => {
                        self.phase = Phase::Announcing { index: *index };
                    },
                    Phase::Announcing { index } => {
                        self.phase = self.phase_past(*index);
                    },
                    Phase::Complaining { index, error: _ } => {
                        self.phase = self.phase_past(*index);
                    },
                    Phase::Sleeping => {
                        if self.sources.len() > 0 {
                            self.phase = Phase::Fetching { index: 0 };
                        }
                    },
                    _ => {},
                }
            },
        }
    }

    /// Takes the event that answers the pending action and moves on. The
    /// clock is read where a price has come that was asked for, and only
    /// there: what it shows becomes the timestamp of the observation.
    pub fn handle(&mut self, event: Event)
        ensures
            old(self)@.stamps(event@) ==> exists|now: Seq<char>|
                #[trigger] has_date_time_form(now) && final(self)@ == old(self)@.next(event@, now),
            !old(self)@.stamps(event@) ==> final(self)@ == old(self)@.next(
                event@,
                Seq::<char>::empty(),
            ),
    {
        let stamps = match (&self.phase, &event) {
            (Phase::Converting { index: _, text: _ }, Event::Converted(Some(_))) => true,
            _ => false,
        };
        if stamps {
            self.handle_at(event, Timestamp::now());
        } else {
            self.handle_at(event, Timestamp::unset());
        }
    }

    /// Whether a sink has failed, so that the scheduler has halted.
    pub fn is_halted(&self) -> (r: bool)
        ensures
            r == (self@.phase is Halted),
    {
        match &self.phase {
            Phase::Halted { reason: _ } => true,
            _ => false,
        }
    }
}

/// Every step keeps a scheduler valid, whatever the event, as long as the
/// clock shows a timestamp and a price that comes is decimal text.
pub proof fn lemma_next_is_valid(s: SchedulerView, event: EventView, now: Seq<char>)
    requires
        s.is_valid(),
        is_stamp_text(now),
        event matches EventView::Converted(Some(price)) ==> is_decimal_text(price),
    ensures
        s.next(event, now).is_valid(),
{
}

/// A fetch that succeeds sets the timestamp and the value of its source
/// together, to what the clock shows and to the price that came, and
/// changes nothing else: not the rest of that source, and no other source.
pub proof fn lemma_fetch_success_sets_observation(
    s: SchedulerView,
    price: Seq<char>,
    now: Seq<char>,
)
    requires
        s.is_valid(),
        s.phase is Converting,
    ensures
        ({
            let index = s.phase.index().unwrap();
            let t = s.next(EventView::Converted(Some(price)), now);
            &&& t.phase == PhaseView::Measuring { index }
            &&& t.sources.len() == s.sources.len()
            &&& t.sources[index].timestamp == now
            &&& t.sources[index].value == price
            &&& t.sources[index].endpoint == s.sources[index].endpoint
            &&& t.sources[index].sink_path == s.sources[index].sink_path
            &&& forall|j: int|
                0 <= j < s.sources.len() && j != index ==> t.sources[j] == s.sources[j]
        }),
{
}

/// A fetch that fails leaves every observation as it was. Whatever the
/// failure (no response, a bad status, a body without the quote, a quote
/// that is no number), the scheduler turns to complaining about it.
pub proof fn lemma_fetch_failure_changes_no_source(
    s: SchedulerView,
    event: EventView,
    now: Seq<char>,
)
    requires
        s.is_valid(),
        s.phase is Fetching || s.phase is Converting,
        s.next(event, now).phase is Complaining,
    ensures
        s.next(event, now).sources == s.sources,
{
}

/// A step changes the sources only where a price answers `Convert`, and
/// no other step depends on what the clock shows.
pub proof fn lemma_only_a_price_changes_a_source(s: SchedulerView, event: EventView, now: Seq<char>)
    requires
        s.is_valid(),
        !s.stamps(event),
    ensures
        s.next(event, now).sources == s.sources,
        s.next(event, now) == s.next(event, Seq::<char>::empty()),
{
}

/// The turn of a source whose fetch fails, from the request to the end of
/// the complaint: no source has changed, and the scheduler stands at the
/// next source, or sleeps after the last. This is so whether no response
/// came, the status was bad, or the body held no quote.
pub proof fn lemma_turn_of_a_failed_reply(s: SchedulerView, reply: ReplyView, now: Seq<char>)
    requires
        s.is_valid(),
        s.phase is Fetching,
        quote_in_reply(s.current().endpoint, reply) is Err,
    ensures
        ({
            let index = s.phase.index().unwrap();
            let error = quote_in_reply(s.current().endpoint, reply)->Err_0;
            let told = s.next(EventView::Replied(reply), now);
            &&& told.action() == ActionView::Complain(complaint_text(s.current(), error))
            &&& told.next(EventView::Done, now) == s.turn_to(
                phase_after(index, s.sources.len() as int),
            )
        }),
{
}

/// The turn of a source whose quote is no number: the same, with a
/// conversion error.
pub proof fn lemma_turn_of_a_bad_quote(s: SchedulerView, reply: ReplyView, now: Seq<char>)
    requires
        s.is_valid(),
        s.phase is Fetching,
        quote_in_reply(s.current().endpoint, reply) is Ok,
    ensures
        ({
            let index = s.phase.index().unwrap();
            let quote = quote_in_reply(s.current().endpoint, reply)->Ok_0;
            let asked = s.next(EventView::Replied(reply), now);
            let told = asked.next(EventView::Converted(None), now);
            &&& asked.action() == ActionView::Convert(quote)
            &&& told.action() == ActionView::Complain(
                complaint_text(s.current(), FetchErrorView::Conversion),
            )
            &&& told.next(EventView::Done, now) == s.turn_to(
                phase_after(index, s.sources.len() as int),
            )
        }),
{
}

/// The turn of a source whose fetch succeeds, from the request to the end
/// of the announcement. The price and what the clock showed become the
/// observation of that source, and of no other. What is appended to the
/// sink of the source is the row of that observation, under the heading
/// where the sink was empty. Then the scheduler stands at the next source,
/// or sleeps after the last.
pub proof fn lemma_turn_of_a_price(
    s: SchedulerView,
    reply: ReplyView,
    price: Seq<char>,
    now: Seq<char>,
    length: u64,
)
    requires
        s.is_valid(),
        s.phase is Fetching,
        quote_in_reply(s.current().endpoint, reply) is Ok,
    ensures
        ({
            let index = s.phase.index().unwrap();
            let observed = SourceView { timestamp: now, value: price, ..s.current() };
            let sources = s.sources.update(index, observed);
            let priced = s.next(EventView::Replied(reply), now).next(
                EventView::Converted(Some(price)),
                now,
            );
            let measured = priced.next(EventView::Measured(Ok(length)), now);
            let written = measured.next(EventView::Appended(Ok(())), now);
            let shown = written.next(EventView::Done, now);
            &&& priced.sources == sources
            &&& priced.action() == ActionView::Measure(s.current().sink_path)
            &&& measured.action() == (ActionView::Append {
                path: s.current().sink_path,
                text: pending_text(length == 0, row_text(now, price)),
            })
            &&& written.action() == ActionView::Print(row_text(now, price))
            &&& shown.action() == ActionView::Print(announcement_text())
            &&& shown.next(EventView::Done, now) == (SchedulerView {
                sources,
                phase: phase_after(index, s.sources.len() as int),
            })
        }),
{
}

/// How the turn of one source goes, as its driver sees it.
pub enum Turn {
    /// What came back holds no quote: no response came, or one with a bad
    /// status, or a body without the quote.
    NoQuote { reply: ReplyView },
    /// What came back holds a quote, and the quote is no number.
    NoNumber { reply: ReplyView },
    /// What came back holds a quote, which reads as `price`, while the
    /// clock shows `now`. The sink is `length` bytes long and takes the row.
    Priced { reply: ReplyView, price: Seq<char>, now: Seq<char>, length: u64 },
}

impl Turn {
    /// What came back for the request.
    pub open spec fn reply(self) -> ReplyView {
        match self {
            Turn::NoQuote { reply } => reply,
            Turn::NoNumber { reply } => reply,
            Turn::Priced { reply, price, now, length } => reply,
        }
    }

    /// Whether the turn can be that of `source`: what came back holds a
    /// quote for the source unless the turn says that it holds none.
    pub open spec fn fits(self, source: SourceView) -> bool {
        (self is NoQuote) == (quote_in_reply(source.endpoint, self.reply()) is Err)
    }

    /// What the turn leaves of `source`: the source with its new
    /// observation where the turn has brought a price, and else the source.
    pub open spec fn leaves(self, source: SourceView) -> SourceView {
        match self {
            Turn::Priced { reply, price, now, length } => SourceView {
                timestamp: now,
                value: price,
                ..source
            },
            _ => source,
        }
    }
}

impl SchedulerView {
    /// The scheduler after the events of `turn`, one after the other.
    pub open spec fn play(self, turn: Turn) -> SchedulerView {
        let never = Seq::<char>::empty();
        let told = self.next(EventView::Replied(turn.reply()), never);
        match turn {
            Turn::NoQuote { reply } => told.next(EventView::Done, never),
            Turn::NoNumber { reply } => told.next(EventView::Converted(None), never).next(
                EventView::Done,
                never,
            ),
            Turn::Priced { reply, price, now, length } => told.next(
                EventView::Converted(Some(price)),
                now,
            ).next(EventView::Measured(Ok(length)), now).next(
                EventView::Appended(Ok(())),
                now,
            ).next(EventView::Done, now).next(EventView::Done, now),
        }
    }

    /// The scheduler after the turns `turns[from]`, `turns[from + 1]` and
    /// so on to the last.
    pub open spec fn play_from(self, turns: Seq<Turn>, from: int) -> SchedulerView
        decreases turns.len() - from,
    {
        if 0 <= from < turns.len() {
            self.play(turns[from]).play_from(turns, from + 1)
        } else {
            self
        }
    }
}

/// The rest of a tick, from the turn of the source at `from` on.
proof fn lemma_rest_of_a_tick(s: SchedulerView, turns: Seq<Turn>, from: int)
    requires
        0 <= from <= s.sources.len() == turns.len(),
        s.phase == if from < s.sources.len() {
            PhaseView::Fetching { index: from }
        } else {
            PhaseView::Sleeping
        },
        forall|i: int| from <= i < turns.len() ==> (#[trigger] turns[i]).fits(s.sources[i]),
    ensures
        s.play_from(turns, from).phase is Sleeping,
        s.play_from(turns, from).sources.len() == s.sources.len(),
        forall|i: int|
            0 <= i < from ==> (#[trigger] s.play_from(turns, from).sources[i]) == s.sources[i],
        forall|i: int|
            from <= i < turns.len() ==> (#[trigger] s.play_from(turns, from).sources[i])
                == turns[i].leaves(s.sources[i]),
    decreases turns.len() - from,
{
    if from < turns.len() {
        let turn = turns[from];
        let t = s.play(turn);
        lemma_rest_of_a_tick(t, turns, from + 1);
    }
}

/// A tick takes every source, in registry order, whatever becomes of each.
///
/// Let the scheduler stand at the start of a tick, and let `turns` say for
/// each source how its turn goes. Once the events of all the turns have
/// come, the scheduler sleeps. Each source whose turn brought a price has
/// that price and its time as its observation, and every other source is
/// as it was: a fetch that fails costs no other source its turn.
pub proof fn lemma_tick_takes_every_source(s: SchedulerView, turns: Seq<Turn>)
    requires
        s.phase == first_phase(s.sources.len() as int),
        turns.len() == s.sources.len(),
        forall|i: int| 0 <= i < turns.len() ==> (#[trigger] turns[i]).fits(s.sources[i]),
    ensures
        s.play_from(turns, 0).phase is Sleeping,
        s.play_from(turns, 0).sources.len() == s.sources.len(),
        forall|i: int|
            0 <= i < turns.len() ==> (#[trigger] s.play_from(turns, 0).sources[i])
                == turns[i].leaves(s.sources[i]),
{
    lemma_rest_of_a_tick(s, turns, 0);
}

/// After the last source the scheduler sleeps for ten seconds. Then the
/// next tick begins with the first source, and nothing has changed.
pub proof fn lemma_sleep_ends_a_tick(s: SchedulerView, now: Seq<char>)
    requires
        s.is_valid(),
        s.phase is Sleeping,
    ensures
        s.action() == ActionView::Sleep(10),
        s.next(EventView::Done, now) == s.turn_to(first_phase(s.sources.len() as int)),
{
}

/// Only a sink that fails halts the scheduler, and nothing restarts it.
pub proof fn lemma_only_a_sink_failure_halts(s: SchedulerView, event: EventView, now: Seq<char>)
    requires
        s.is_valid(),
    ensures
        s.phase is Halted ==> s.next(event, now) == s,
        !(s.phase is Halted) && s.next(event, now).phase is Halted ==> {
            ||| s.phase is Measuring && event matches EventView::Measured(Err(_))
            ||| s.phase is Appending && event matches EventView::Appended(Err(_))
        },
{
}

} // verus!
