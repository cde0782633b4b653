use vstd::prelude::*;
use crate::clock::{Duration, Instant, WasiMonotonicClock};
use crate::error::Error;
use crate::table::{FileCaps, FileEntry, Table};

verus! {

/// The flag bit reported when the peer side of a stream has closed.
pub const HANGUP_BIT: u32 = 0b1;

/// The event flags a readiness completion carries beside its size hint: a bit
/// field, so that future conditions can combine with present ones.
#[derive(Clone, Copy, Debug, PartialEq, Eq, Structural)]
pub struct RwEventFlags {
    pub bits: u32,
}

impl RwEventFlags {
    pub open spec fn spec_empty() -> RwEventFlags {
        (RwEventFlags { bits: 0 })
    }

    pub fn empty() -> (r: RwEventFlags)
        ensures
            r == RwEventFlags::spec_empty(),
    {
        RwEventFlags { bits: 0 }
    }

    pub open spec fn spec_hangup() -> RwEventFlags {
        (RwEventFlags { bits: HANGUP_BIT })
    }

    pub fn hangup() -> (r: RwEventFlags)
        ensures
            r == RwEventFlags::spec_hangup(),
    {
        RwEventFlags { bits: HANGUP_BIT }
    }

    /// Whether every bit of `other` is set in this value.
    pub open spec fn spec_contains(self, other: RwEventFlags) -> bool {
        self.bits & other.bits == other.bits
    }

    pub fn contains(&self, other: RwEventFlags) -> (r: bool)
        ensures
            r == self.spec_contains(other),
    {
        self.bits & other.bits == other.bits
    }

    pub fn union(&self, other: RwEventFlags) -> (r: RwEventFlags)
        ensures
            r.bits == self.bits | other.bits,
    {
        RwEventFlags { bits: self.bits | other.bits }
    }
}

/// Whether `fd` resolves in `t` to an entry carrying the poll capability:
/// the permission both directions of readiness subscription require.
pub open spec fn can_poll(t: Table, fd: u32) -> bool {
    t.spec_get(fd) matches Some(e) && e.caps.spec_contains(FileCaps::spec_poll_readwrite())
}

/// An interest in read- or write-readiness of one handle. Holds only the
/// identifier and a reference to the table — never a live borrow of the file,
/// which is re-resolved transiently at probe time — plus a single-assignment
/// completion slot, written once by the backend and moved out once by the
/// owner.
pub struct RwSubscription<'a> {
    table: &'a Table,
    fd: u32,
    status: Option<Result<(u64, RwEventFlags), Error>>,
}

impl<'a> RwSubscription<'a> {
    pub closed spec fn spec_table(self) -> Table {
        *self.table
    }

    pub closed spec fn spec_fd(self) -> u32 {
        self.fd
    }

    /// The completion slot: `None` while pending this round.
    pub closed spec fn spec_status(self) -> Option<Result<(u64, RwEventFlags), Error>> {
        self.status
    }

    /// Checks eagerly that `fd` resolves to an entry carrying the poll
    /// capability, so that an unpollable handle fails fast, before any wait
    /// begins; stores only the identifier, never the resolved access. The
    /// fresh subscription's slot is unset.
    pub fn new(table: &'a Table, fd: u32) -> (r: Result<Self, Error>)
        ensures
            r is Ok <==> can_poll(*table, fd),
            r matches Ok(s) ==> s.spec_table() == *table && s.spec_fd() == fd
                && s.spec_status() is None,
            table.spec_get(fd) is None ==> (r matches Err(e) && e == Error::Badf),
            (table.spec_get(fd) is Some && !can_poll(*table, fd)) ==> (r matches Err(e)
                && e == Error::NotCapable),
    {
        let entry = match table.get_file(fd) {
            Ok(e) => e,
            Err(e) => {
                return Err(e);
            },
        };
        match entry.get_cap(FileCaps::poll_readwrite()) {
            Ok(_) => Ok(RwSubscription { table, fd, status: None }),
            Err(e) => Err(e),
        }
    }

    /// Re-resolves transient access for the backend at probe time, under the
    /// same capability gate as construction.
    pub fn file(&self) -> (r: Result<FileEntry, Error>)
        ensures
            can_poll(self.spec_table(), self.spec_fd()) ==> r == Ok::<FileEntry, Error>(
                self.spec_table().spec_get(self.spec_fd())->Some_0),
            self.spec_table().spec_get(self.spec_fd()) is None ==> (r matches Err(e)
                && e == Error::Badf),
            (self.spec_table().spec_get(self.spec_fd()) is Some && !can_poll(
                self.spec_table(), self.spec_fd())) ==> (r matches Err(e)
                && e == Error::NotCapable),
    {
        let entry = match self.table.get_file(self.fd) {
            Ok(e) => e,
            Err(e) => {
                return Err(e);
            },
        };
        entry.get_cap(FileCaps::poll_readwrite())
    }

    /// Records readiness: a size hint and the event flags seen beside it.
    /// Writes the slot, which must still be unset: a second completion is an
    /// invariant violation, not a recoverable error.
    pub fn complete(&mut self, size: u64, flags: RwEventFlags)
        requires
            old(self).spec_status() is None,
        ensures
            final(self).spec_status() == Some(Ok::<(u64, RwEventFlags), Error>((size, flags))),
            final(self).spec_table() == old(self).spec_table(),
            final(self).spec_fd() == old(self).spec_fd(),
    {
        self.status = Some(Ok((size, flags)));
    }

    /// Records a per-interest probe failure, under the same once-only
    /// contract as `complete`.
    pub fn error(&mut self, error: Error)
        requires
            old(self).spec_status() is None,
        ensures
            final(self).spec_status() == Some(Err::<(u64, RwEventFlags), Error>(error)),
            final(self).spec_table() == old(self).spec_table(),
            final(self).spec_fd() == old(self).spec_fd(),
    {
        self.status = Some(Err(error));
    }

    /// Consumes the subscription and moves the slot out: `None` while still
    /// pending, else exactly what `complete` or `error` recorded. Consumption
    /// makes a second read impossible.
    pub fn result(self) -> (r: Option<Result<(u64, RwEventFlags), Error>>)
        ensures
            r == self.spec_status(),
    {
        self.status
    }
}

/// An interest in a monotonic-clock deadline, sampled at a required
/// precision. Stateless beyond its parameters: whether it is due is
/// recomputed from the clock at every check, so it can be queried repeatedly
/// without consumption.
pub struct MonotonicClockSubscription<'a, C: WasiMonotonicClock> {
    pub clock: &'a C,
    pub deadline: Instant,
    pub precision: Duration,
}

impl<'a, C: WasiMonotonicClock> MonotonicClockSubscription<'a, C> {
    /// The reading this interest's clock gives at this interest's precision.
    pub open spec fn spec_now(self) -> Instant {
        self.clock.spec_now(self.precision)
    }

    /// Samples the clock at the precision supplied at construction — that
    /// precision, unchanged, on every sampling call.
    pub fn now(&self) -> (t: Instant)
        ensures
            t == self.spec_now(),
    {
        self.clock.now(self.precision)
    }

    /// The duration `duration_until` reports: `Some` of the strictly
    /// positive time left before the deadline, `None` once due.
    pub open spec fn spec_duration_until(self) -> Option<Duration> {
        if self.spec_now().nanos < self.deadline.nanos {
            Some(Duration { nanos: (self.deadline.nanos - self.spec_now().nanos) as u64 })
        } else {
            None
        }
    }

    /// How long the backend may still block on this interest: the time left
    /// strictly before the deadline, or `None` once the deadline is reached.
    pub fn duration_until(&self) -> (r: Option<Duration>)
        ensures
            r == self.spec_duration_until(),
    {
        let n = self.now();
        if n.nanos < self.deadline.nanos {
            Some(Duration { nanos: self.deadline.nanos - n.nanos })
        } else {
            None
        }
    }

    /// The outcome `result` reports at the current reading.
    pub open spec fn spec_result(self) -> Option<Result<(), Error>> {
        if self.deadline.nanos <= self.spec_now().nanos {
            Some(Ok(()))
        } else {
            None
        }
    }

    /// `None` while the clock reads short of the deadline; `Some(Ok(()))`
    /// from the deadline on. There is no error arm: a monotonic clock never
    /// regresses, so a deadline interest cannot fail.
    pub fn result(&self) -> (r: Option<Result<(), Error>>)
        ensures
            r == self.spec_result(),
    {
        match self.now().checked_duration_since(self.deadline) {
            Some(_) => Some(Ok(())),
            None => None,
        }
    }
}

/// A wait interest: readiness of one handle in one direction, or a clock
/// deadline. The Read and Write tags label an identical readiness structure,
/// because the backend probes the two directions differently while the
/// capability gate is shared. Closed: every consumer handles all three kinds.
pub enum Subscription<'a, C: WasiMonotonicClock> {
    Read(RwSubscription<'a>),
    Write(RwSubscription<'a>),
    MonotonicClock(MonotonicClockSubscription<'a, C>),
}

/// The resolved outcome of one wait interest, under the tag of the interest
/// it came from.
#[derive(Debug)]
pub enum SubscriptionResult {
    Read(Result<(u64, RwEventFlags), Error>),
    Write(Result<(u64, RwEventFlags), Error>),
    MonotonicClock(Result<(), Error>),
}

impl SubscriptionResult {
    /// The conversion `from_subscription` performs: the wrapped kind's
    /// outcome, rewrapped under the matching tag, `None` while pending.
    pub open spec fn spec_from_subscription<'a, C: WasiMonotonicClock>(
        s: Subscription<'a, C>,
    ) -> Option<SubscriptionResult> {
        match s {
            Subscription::Read(rw) => match rw.spec_status() {
                Some(v) => Some(SubscriptionResult::Read(v)),
                None => None,
            },
            Subscription::Write(rw) => match rw.spec_status() {
                Some(v) => Some(SubscriptionResult::Write(v)),
                None => None,
            },
            Subscription::MonotonicClock(c) => match c.spec_result() {
                Some(v) => Some(SubscriptionResult::MonotonicClock(v)),
                None => None,
            },
        }
    }

    /// Consumes a subscription and extracts its outcome — the sole way to
    /// read one out, so a slot cannot be re-read after it is taken. `None`
    /// when still pending; otherwise the result under the tag the interest
    /// was constructed with.
    pub fn from_subscription<'a, C: WasiMonotonicClock>(s: Subscription<'a, C>) -> (r: Option<
        SubscriptionResult,
    >)
        ensures
            r == SubscriptionResult::spec_from_subscription(s),
    {
        match s {
            Subscription::Read(rw) => match rw.result() {
                Some(v) => Some(SubscriptionResult::Read(v)),
                None => None,
            },
            Subscription::Write(rw) => match rw.result() {
                Some(v) => Some(SubscriptionResult::Write(v)),
                None => None,
            },
            Subscription::MonotonicClock(c) => match c.result() {
                Some(v) => Some(SubscriptionResult::MonotonicClock(v)),
                None => None,
            },
        }
    }
}

/// Before any completion, `result` yields `None` on both kinds: a readiness
/// interest whose slot is still unset, and a deadline interest whose clock
/// still reads short of the deadline, are both pending, and converting
/// either discards it as unsatisfied.
pub proof fn lemma_result_none_while_pending<'a, C: WasiMonotonicClock>(
    rw: RwSubscription<'a>,
    clk: MonotonicClockSubscription<'a, C>,
)
    requires
        rw.spec_status() is None,
        clk.spec_now().nanos < clk.deadline.nanos,
    ensures
        clk.spec_result() is None,
        clk.spec_duration_until() is Some,
        SubscriptionResult::spec_from_subscription(Subscription::<'a, C>::Read(rw)) is None,
        SubscriptionResult::spec_from_subscription(Subscription::<'a, C>::Write(rw)) is None,
        SubscriptionResult::spec_from_subscription(
            Subscription::<'a, C>::MonotonicClock(clk),
        ) is None,
{
}

/// At every clock reading exactly one side of the deadline holds: strictly
/// before it, `result` is `None` and `duration_until` is `Some` of the
/// positive time left; from the deadline on, `result` is `Some(Ok(()))` and
/// `duration_until` is `None`. The two views flip at the same boundary.
pub proof fn lemma_deadline_boundary<'a, C: WasiMonotonicClock>(
    clk: MonotonicClockSubscription<'a, C>,
)
    ensures
        clk.spec_now().nanos < clk.deadline.nanos ==> (clk.spec_result() is None
            && (clk.spec_duration_until() matches Some(d) && d.nanos > 0 && d.nanos
            == clk.deadline.nanos - clk.spec_now().nanos)),
        clk.spec_now().nanos >= clk.deadline.nanos ==> (clk.spec_result() == Some(
            Ok::<(), Error>(()),
        ) && clk.spec_duration_until() is None),
{
}

/// Conversion preserves the originating tag: a Read interest's outcome only
/// ever surfaces as the Read variant, a Write interest's as Write, a clock
/// interest's as MonotonicClock — and the wrapped value is untouched.
pub proof fn lemma_from_subscription_preserves_tag<'a, C: WasiMonotonicClock>(
    s: Subscription<'a, C>,
)
    ensures
        match SubscriptionResult::spec_from_subscription(s) {
            Some(r) => match s {
                Subscription::Read(rw) => r matches SubscriptionResult::Read(v)
                    && rw.spec_status() == Some(v),
                Subscription::Write(rw) => r matches SubscriptionResult::Write(v)
                    && rw.spec_status() == Some(v),
                Subscription::MonotonicClock(c) => r matches SubscriptionResult::MonotonicClock(v)
                    && c.spec_result() == Some(v),
            },
            None => true,
        },
{
}

} // verus!
