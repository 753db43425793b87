//! The outcome of one test run and the clock readings that bound it.
use vstd::prelude::*;

verus! {

/// A reading of the system clock: its distance from the UNIX epoch, kept as
/// whole seconds and the nanoseconds past the last whole second, and
/// whether the reading lies before the epoch or not.
#[derive(Clone, Copy, Debug)]
pub struct Timestamp {
    secs: u64,
    nanos: u32,
    before_epoch: bool,
}

/// Nanoseconds in one second.
pub const NANOS_PER_SEC: u32 = 1_000_000_000;

impl Timestamp {
    #[verifier::type_invariant]
    spec fn nanos_below_one_second(self) -> bool {
        self.nanos < NANOS_PER_SEC
    }

    /// Whole seconds between the epoch and the reading.
    pub closed spec fn spec_secs(self) -> u64 {
        self.secs
    }

    /// Nanoseconds past the last whole second.
    pub closed spec fn spec_nanos(self) -> u32 {
        self.nanos
    }

    /// Whether the reading lies before the epoch.
    pub closed spec fn spec_before_epoch(self) -> bool {
        self.before_epoch
    }
}

/// Nanoseconds from the epoch to a reading `secs` seconds and `nanos`
/// nanoseconds away from it, negative for a reading before it.
pub open spec fn signed_nanos(secs: u64, nanos: u32, before_epoch: bool) -> int {
    if before_epoch {
        -(secs * 1_000_000_000 + nanos)
    } else {
        secs * 1_000_000_000 + nanos
    }
}

impl View for Timestamp {
    /// Nanoseconds since the UNIX epoch; negative before it.
    type V = int;

    closed spec fn view(&self) -> int {
        signed_nanos(self.secs, self.nanos, self.before_epoch)
    }
}

/// The system clock, read by `std::time::SystemTime::now`.
#[verifier::external_type_specification]
#[verifier::external_body]
pub struct ExSystemTime(std::time::SystemTime);

/// The error `SystemTime::duration_since` gives for a reading before the
/// time it is measured from.
#[verifier::external_type_specification]
#[verifier::external_body]
pub struct ExSystemTimeError(std::time::SystemTimeError);

/// Wraps `std::time::SystemTime::now`. What it returns depends on the clock;
/// nothing is stated of it.
#[verifier::external_body]
fn system_now() -> std::time::SystemTime {
    std::time::SystemTime::now()
}

/// Wraps `SystemTime::duration_since(UNIX_EPOCH)`: the distance after the
/// epoch, or an error that holds the distance before it. Nothing more is
/// stated: the reading is opaque.
#[verifier::external_body]
fn since_unix_epoch(t: &std::time::SystemTime) -> core::result::Result<
    core::time::Duration,
    std::time::SystemTimeError,
> {
    t.duration_since(std::time::UNIX_EPOCH)
}

/// `SystemTimeError::duration`: how far before the other time the reading lies.
pub assume_specification[ std::time::SystemTimeError::duration ](
    e: &std::time::SystemTimeError,
) -> core::time::Duration;

/// `Duration::as_secs`: the whole seconds of a duration.
pub assume_specification[ core::time::Duration::as_secs ](d: &core::time::Duration) -> u64;

/// `Duration::subsec_nanos`: the nanoseconds past the whole seconds, which
/// the standard library documents as always below one second.
pub assume_specification[ core::time::Duration::subsec_nanos ](d: &core::time::Duration) -> (n:
    u32)
    ensures
        n < 1_000_000_000,
;

/// Rust's integer division, which rounds towards zero.
pub open spec fn div_toward_zero(a: int, b: int) -> int {
    if a >= 0 {
        a / b
    } else {
        -((-a) / b)
    }
}

/// Whole seconds from `start` to `end` as `get_time_usage` counts them: zero
/// when `end` is earlier, otherwise the elapsed milliseconds taken as an
/// `i64` and divided by a thousand.
pub open spec fn time_usage(start: int, end: int) -> i64 {
    if end < start {
        0
    } else {
        div_toward_zero((((end - start) / 1_000_000) as i64) as int, 1000) as i64
    }
}

impl Timestamp {
    /// The epoch itself.
    pub fn unix_epoch() -> (t: Timestamp)
        ensures
            t@ == 0,
    {
        Timestamp { secs: 0, nanos: 0, before_epoch: false }
    }

    /// The reading `secs` seconds and `nanos` nanoseconds after the epoch;
    /// `None` when `nanos` is not below one second.
    pub fn from_unix(secs: u64, nanos: u32) -> (t: Option<Timestamp>)
        ensures
            t is Some <==> nanos < NANOS_PER_SEC,
            t matches Some(t) ==> t@ == secs * 1_000_000_000 + nanos && t.spec_secs() == secs
                && t.spec_nanos() == nanos && !t.spec_before_epoch(),
    {
        if nanos < NANOS_PER_SEC {
            Some(Timestamp { secs, nanos, before_epoch: false })
        } else {
            None
        }
    }

    /// The reading `secs` seconds and `nanos` nanoseconds before the epoch;
    /// `None` when `nanos` is not below one second.
    pub fn before_unix(secs: u64, nanos: u32) -> (t: Option<Timestamp>)
        ensures
            t is Some <==> nanos < NANOS_PER_SEC,
            t matches Some(t) ==> t@ == -(secs * 1_000_000_000 + nanos) && t.spec_secs() == secs
                && t.spec_nanos() == nanos && t.spec_before_epoch(),
    {
        if nanos < NANOS_PER_SEC {
            Some(Timestamp { secs, nanos, before_epoch: true })
        } else {
            None
        }
    }

    /// Whole seconds between the epoch and the reading.
    pub fn secs(&self) -> (s: u64)
        ensures
            s == self.spec_secs(),
    {
        self.secs
    }

    /// Nanoseconds past the last whole second.
    pub fn subsec_nanos(&self) -> (n: u32)
        ensures
            n == self.spec_nanos(),
            n < NANOS_PER_SEC,
    {
        proof {
            use_type_invariant(self);
        }
        self.nanos
    }

    /// Whether the reading lies before the epoch.
    pub fn is_before_epoch(&self) -> (b: bool)
        ensures
            b == self.spec_before_epoch(),
    {
        self.before_epoch
    }

    /// The system clock now, whichever side of the epoch it reads.
    pub fn now() -> (t: Timestamp) {
        let reading = system_now();
        match since_unix_epoch(&reading) {
            Ok(d) => Timestamp { secs: d.as_secs(), nanos: d.subsec_nanos(), before_epoch: false },
            Err(e) => {
                let d = e.duration();
                Timestamp { secs: d.as_secs(), nanos: d.subsec_nanos(), before_epoch: true }
            },
        }
    }

    /// Nanoseconds since the epoch; negative before it.
    fn nanos_since_epoch(&self) -> (n: i128)
        ensures
            n == self@,
    {
        let magnitude: i128 = (self.secs as i128) * 1_000_000_000 + (self.nanos as i128);
        if self.before_epoch {
            -magnitude
        } else {
            magnitude
        }
    }
}

/// Whole seconds from `start` to `end`, as `get_time_usage` counts them.
pub fn elapsed_secs(start: &Timestamp, end: &Timestamp) -> (r: i64)
    ensures
        r == time_usage(start@, end@),
{
    let s = start.nanos_since_epoch();
    let e = end.nanos_since_epoch();
    if e < s {
        return 0;
    }
    let millis: i128 = (e - s) / 1_000_000;
    let wrapped: i64 = millis as i64;
    wrapped / 1000
}

/// The outcome of one test: its name, when it started and ended, its
/// status (`PASSED` or `FAILED`) and the output that explains a failure.
#[derive(Debug)]
pub struct Result {
    pub test: String,
    pub start_time: Timestamp,
    pub end_time: Timestamp,
    pub status: String,
    pub error: String,
}

/// Plain-value view of a `Result`; times in nanoseconds since the epoch.
pub struct ResultView {
    pub test: Seq<char>,
    pub start_time: int,
    pub end_time: int,
    pub status: Seq<char>,
    pub error: Seq<char>,
}

impl View for Result {
    type V = ResultView;

    open spec fn view(&self) -> ResultView {
        ResultView {
            test: self.test@,
            start_time: self.start_time@,
            end_time: self.end_time@,
            status: self.status@,
            error: self.error@,
        }
    }
}

impl DeepView for Result {
    type V = ResultView;

    open spec fn deep_view(&self) -> ResultView {
        self@
    }
}

impl Result {
    /// An outcome with no name, status or error, started and ended now.
    pub fn new() -> (r: Result)
        ensures
            r.test@ == Seq::<char>::empty(),
            r.status@ == Seq::<char>::empty(),
            r.error@ == Seq::<char>::empty(),
    {
        let start_time = Timestamp::now();
        let end_time = Timestamp::now();
        Result {
            test: String::new(),
            start_time,
            end_time,
            status: String::new(),
            error: String::new(),
        }
    }

    /// Whole seconds the test took; zero if the clock ran backwards.
    pub fn get_time_usage(&self) -> (secs: i64)
        ensures
            secs == time_usage(self.start_time@, self.end_time@),
    {
        elapsed_secs(&self.start_time, &self.end_time)
    }
}

/// A test never takes a negative time: when the clock ran backwards it took
/// zero seconds, and otherwise it took the whole seconds elapsed, as long
/// as the elapsed milliseconds fit an `i64`.
pub proof fn lemma_time_usage_nonnegative(start: int, end: int)
    requires
        (end - start) / 1_000_000 <= i64::MAX,
    ensures
        time_usage(start, end) >= 0,
        end < start ==> time_usage(start, end) == 0,
        end >= start ==> time_usage(start, end) == (end - start) / 1_000_000_000,
{
    if end >= start {
        let millis = (end - start) / 1_000_000;
        assert((millis as i64) as int == millis);
        assert(millis / 1000 == (end - start) / 1_000_000_000) by (nonlinear_arith)
            requires
                millis == (end - start) / 1_000_000,
                end - start >= 0,
        ;
    }
}

} // verus!
