use vstd::prelude::*;
use vstd::string::StringExecFns;

verus! {

/// The health of a service instance.
#[derive(Clone, Copy, Debug, PartialEq, Eq, Structural)]
pub enum ServiceStatus {
    Critical,
    Passing,
    Warning,
}

impl Default for ServiceStatus {
    fn default() -> (r: Self)
        ensures
            r == ServiceStatus::Critical,
    {
        ServiceStatus::Critical
    }
}

/// The name of a status.
pub open spec fn status_text(s: ServiceStatus) -> Seq<char> {
    match s {
        ServiceStatus::Critical => "critical"@,
        ServiceStatus::Passing => "passing"@,
        ServiceStatus::Warning => "warning"@,
    }
}

/// The status that a name reads as: `warning` and `passing` read as
/// themselves, every other text as critical.
pub open spec fn status_of_text(t: Seq<char>) -> ServiceStatus {
    if t == "warning"@ {
        ServiceStatus::Warning
    } else if t == "passing"@ {
        ServiceStatus::Passing
    } else {
        ServiceStatus::Critical
    }
}

impl ServiceStatus {
    /// The name of the status.
    pub fn to_string(&self) -> (r: String)
        ensures
            r@ == status_text(*self),
    {
        match self {
            ServiceStatus::Critical => String::from_str("critical"),
            ServiceStatus::Passing => String::from_str("passing"),
            ServiceStatus::Warning => String::from_str("warning"),
        }
    }

    /// The status that `v` names (see `status_of_text`).
    pub fn from_text(v: &str) -> (r: ServiceStatus)
        ensures
            r == status_of_text(v@),
    {
        let v = v.to_owned();
        let warning = String::from_str("warning");
        let passing = String::from_str("passing");
        proof {
            reveal_strlit("warning");
            reveal_strlit("passing");
        }
        if v == warning {
            ServiceStatus::Warning
        } else if v == passing {
            ServiceStatus::Passing
        } else {
            ServiceStatus::Critical
        }
    }
}

impl From<String> for ServiceStatus {
    fn from(v: String) -> (r: ServiceStatus) {
        ServiceStatus::from_text(v.as_str())
    }
}

impl vstd::std_specs::convert::FromSpecImpl<String> for ServiceStatus {
    open spec fn obeys_from_spec() -> bool {
        true
    }

    open spec fn from_spec(v: String) -> ServiceStatus {
        status_of_text(v@)
    }
}

/// Integer division rounding toward zero, for a positive divisor.
pub open spec fn trunc_div(a: int, b: int) -> int {
    if a >= 0 {
        a / b
    } else {
        -((-a) / b)
    }
}

/// Relies on chrono's `Local::now`: the current time in milliseconds since
/// the epoch.  Nothing is known of its value.
#[verifier::external_body]
fn now_millis() -> (r: i64) {
    chrono::Local::now().timestamp_millis()
}

/// The load and health figures that a client keeps about one instance.
#[derive(Clone, Debug)]
pub struct ServiceInstanceState {
    status: ServiceStatus,
    total_requests: i64,
    active_requests_count: i64,
    weight: i64,
    response_time_avg: i64,
    response_time_max: i64,
    active_requests_count_timeout: i16,
    last_active_requests_count_change_timestamp: i64,
    first_connection_timestamp: i64,
    last_connection_failed_timestamp: Option<i64>,
    last_connection_failed_message: String,
    failure_counts: i64,
    fixed_weight: bool,
}

impl ServiceInstanceState {
    pub closed spec fn status(&self) -> ServiceStatus {
        self.status
    }

    pub closed spec fn total_requests(&self) -> int {
        self.total_requests as int
    }

    pub closed spec fn active_requests(&self) -> int {
        self.active_requests_count as int
    }

    pub closed spec fn weight(&self) -> int {
        self.weight as int
    }

    pub closed spec fn response_time_avg(&self) -> int {
        self.response_time_avg as int
    }

    pub closed spec fn response_time_max(&self) -> int {
        self.response_time_max as int
    }

    pub closed spec fn active_timeout(&self) -> int {
        self.active_requests_count_timeout as int
    }

    pub closed spec fn last_active_change(&self) -> int {
        self.last_active_requests_count_change_timestamp as int
    }

    pub closed spec fn first_connection(&self) -> int {
        self.first_connection_timestamp as int
    }

    pub closed spec fn last_failure(&self) -> Option<i64> {
        self.last_connection_failed_timestamp
    }

    pub closed spec fn last_failure_message(&self) -> Seq<char> {
        self.last_connection_failed_message@
    }

    pub closed spec fn failure_message_string(&self) -> String {
        self.last_connection_failed_message
    }

    pub closed spec fn failure_counts(&self) -> int {
        self.failure_counts as int
    }

    pub closed spec fn fixed_weight(&self) -> bool {
        self.fixed_weight
    }

    /// This state with the failure count `n`.
    pub closed spec fn with_failures(&self, n: i64) -> Self {
        ServiceInstanceState { failure_counts: n, ..*self }
    }

    /// This state with the request count `n`.
    pub closed spec fn with_total(&self, n: i64) -> Self {
        ServiceInstanceState { total_requests: n, ..*self }
    }

    /// This state with `n` active requests.
    pub closed spec fn with_active(&self, n: i64) -> Self {
        ServiceInstanceState { active_requests_count: n, ..*self }
    }

    /// This state with `n` active requests, counted at time `at`.
    pub closed spec fn with_active_at(&self, n: i64, at: i64) -> Self {
        ServiceInstanceState {
            active_requests_count: n,
            last_active_requests_count_change_timestamp: at,
            ..*self
        }
    }

    /// This state with a connection failure at time `at`, with message `m`.
    pub closed spec fn with_failure_at(&self, at: i64, m: String) -> Self {
        ServiceInstanceState {
            last_connection_failed_timestamp: Some(at),
            last_connection_failed_message: m,
            status: ServiceStatus::Critical,
            ..*self
        }
    }

    /// This state with its first connection at time `at`.
    pub closed spec fn with_first_connection(&self, at: i64) -> Self {
        ServiceInstanceState { first_connection_timestamp: at, ..*self }
    }

    /// This state with the given weight, average and maximum response time.
    pub closed spec fn with_response(&self, weight: i64, avg: i64, max: i64) -> Self {
        ServiceInstanceState {
            weight: weight,
            response_time_avg: avg,
            response_time_max: max,
            ..*self
        }
    }

    /// Whether the active count is reset when read at time `now`: it is not
    /// zero, and it is negative or older than the timeout.
    pub open spec fn resets_at(&self, now: int) -> bool {
        self.active_requests() != 0 && (now - self.last_active_change() > self.active_timeout()
            * 1000 || self.active_requests() < 0)
    }

    /// Everything zero, no failure recorded, and the status critical.
    pub open spec fn is_fresh(&self) -> bool {
        &&& self.status() == ServiceStatus::Critical
        &&& self.total_requests() == 0
        &&& self.active_requests() == 0
        &&& self.weight() == 0
        &&& self.response_time_avg() == 0
        &&& self.response_time_max() == 0
        &&& self.active_timeout() == 0
        &&& self.last_active_change() == 0
        &&& self.first_connection() == 0
        &&& self.last_failure() is None
        &&& self.last_failure_message().len() == 0
        &&& self.failure_counts() == 0
    }

    /// A fresh state; the weight is fixed only where `fixed_weight` says so.
    pub fn new(fixed_weight: Option<bool>) -> (r: Self)
        ensures
            r.is_fresh(),
            r.fixed_weight() == (fixed_weight == Some(true)),
    {
        ServiceInstanceState {
            status: ServiceStatus::Critical,
            total_requests: 0,
            active_requests_count: 0,
            weight: 0,
            response_time_avg: 0,
            response_time_max: 0,
            active_requests_count_timeout: 0,
            last_active_requests_count_change_timestamp: 0,
            first_connection_timestamp: 0,
            last_connection_failed_timestamp: None,
            last_connection_failed_message: String::new(),
            failure_counts: 0,
            fixed_weight: match fixed_weight {
                Some(b) => b,
                None => false,
            },
        }
    }

    /// The number of active requests at time `now` (milliseconds).  A count
    /// that is negative, or older than the timeout, is reset to zero.
    pub fn active_requests_count_at(&mut self, now: i64) -> (r: i64)
        ensures
            old(self).resets_at(now as int) ==> r == 0 && *final(self) == old(self).with_active(0),
            !old(self).resets_at(now as int) ==> r == old(self).active_requests() && *final(self)
                == *old(self),
    {
        let count = self.active_requests_count;
        if count == 0 {
            0
        } else if (now as i128) - (self.last_active_requests_count_change_timestamp as i128) > (
        self.active_requests_count_timeout as i128) * 1000 || count < 0 {
            self.active_requests_count = 0;
            self.active_requests_count
        } else {
            count
        }
    }

    /// The number of active requests at `current_time` where given, else now
    /// (see `active_requests_count_at`).
    pub fn get_active_requests_count(&mut self, current_time: Option<i64>) -> (r: i64)
        ensures
            current_time matches Some(t) && old(self).resets_at(t as int) ==> r == 0
                && *final(self) == old(self).with_active(0),
            current_time matches Some(t) && !old(self).resets_at(t as int) ==> r == old(self).active_requests()
                && *final(self) == *old(self),
            (r == 0 && *final(self) == old(self).with_active(0)) || (r == old(self).active_requests()
                && *final(self) == *old(self)),
    {
        let now = match current_time {
            Some(t) => t,
            None => now_millis(),
        };
        self.active_requests_count_at(now)
    }

    /// A copy of the state, field for field.
    pub fn duplicate(&self) -> (r: Self)
        ensures
            r == *self,
    {
        ServiceInstanceState {
            status: self.status,
            total_requests: self.total_requests,
            active_requests_count: self.active_requests_count,
            weight: self.weight,
            response_time_avg: self.response_time_avg,
            response_time_max: self.response_time_max,
            active_requests_count_timeout: self.active_requests_count_timeout,
            last_active_requests_count_change_timestamp:
                self.last_active_requests_count_change_timestamp,
            first_connection_timestamp: self.first_connection_timestamp,
            last_connection_failed_timestamp: self.last_connection_failed_timestamp,
            last_connection_failed_message: self.last_connection_failed_message.clone(),
            failure_counts: self.failure_counts,
            fixed_weight: self.fixed_weight,
        }
    }

    /// Whether the instance is not in critical state.
    pub fn is_healthy(&self) -> (r: bool)
        ensures
            r == (self.status() != ServiceStatus::Critical),
    {
        !matches!(self.status, ServiceStatus::Critical)
    }

    /// Counts one more failure and returns the new count.
    pub fn increment_failure_counts(&mut self) -> (r: i64)
        requires
            old(self).failure_counts() < i64::MAX,
        ensures
            r == final(self).failure_counts(),
            final(self).failure_counts() == old(self).failure_counts() + 1,
            *final(self) == old(self).with_failures(r),
    {
        self.failure_counts = self.failure_counts + 1;
        self.failure_counts
    }

    /// Counts one more request and returns the new count.
    pub fn increment_request_counts(&mut self) -> (r: i64)
        requires
            old(self).total_requests() < i64::MAX,
        ensures
            r == final(self).total_requests(),
            final(self).total_requests() == old(self).total_requests() + 1,
            *final(self) == old(self).with_total(r),
    {
        self.total_requests = self.total_requests + 1;
        self.total_requests
    }

    /// Counts one more active request at time `now` and returns the count.
    pub fn increment_active_requests_at(&mut self, now: i64) -> (r: i64)
        requires
            old(self).active_requests() < i64::MAX,
        ensures
            r == final(self).active_requests(),
            final(self).active_requests() == old(self).active_requests() + 1,
            *final(self) == old(self).with_active_at(r, now),
    {
        self.last_active_requests_count_change_timestamp = now;
        self.active_requests_count = self.active_requests_count + 1;
        self.active_requests_count
    }

    /// Counts one more active request now.
    pub fn increment_active_requests(&mut self) -> (r: i64)
        requires
            old(self).active_requests() < i64::MAX,
        ensures
            r == final(self).active_requests(),
            final(self).active_requests() == old(self).active_requests() + 1,
            exists|at: i64| *final(self) == old(self).with_active_at(r, at),
    {
        let now = now_millis();
        self.increment_active_requests_at(now)
    }

    /// Counts one active request less at time `now`; below one nothing changes
    /// and the result is zero.
    pub fn decrement_active_requests_at(&mut self, now: i64) -> (r: i64)
        ensures
            old(self).active_requests() < 1 ==> r == 0 && *final(self) == *old(self),
            old(self).active_requests() >= 1 ==> r == final(self).active_requests()
                && final(self).active_requests() == old(self).active_requests() - 1
                && *final(self) == old(self).with_active_at(r, now),
    {
        if self.active_requests_count < 1 {
            return 0;
        }
        self.last_active_requests_count_change_timestamp = now;
        self.active_requests_count = self.active_requests_count - 1;
        self.active_requests_count
    }

    /// Counts one active request less now.
    pub fn decrement_active_requests(&mut self) -> (r: i64)
        ensures
            old(self).active_requests() < 1 ==> r == 0 && *final(self) == *old(self),
            old(self).active_requests() >= 1 ==> final(self).active_requests() == old(self).active_requests() - 1
                && exists|at: i64| *final(self) == old(self).with_active_at(r, at),
    {
        let now = now_millis();
        self.decrement_active_requests_at(now)
    }

    /// Records a connection failure at time `now`: the instance turns critical.
    pub fn set_connection_failed_time_at(&mut self, message: Option<String>, now: i64)
        ensures
            final(self).last_failure() == Some(now),
            final(self).last_failure_message() == match message {
                Some(m) => m@,
                None => Seq::<char>::empty(),
            },
            final(self).status() == ServiceStatus::Critical,
            *final(self) == old(self).with_failure_at(
                now,
                match message {
                    Some(m) => m,
                    None => final(self).failure_message_string(),
                },
            ),
    {
        self.last_connection_failed_timestamp = Some(now);
        self.last_connection_failed_message = match message {
            Some(m) => m,
            None => String::new(),
        };
        self.status = ServiceStatus::Critical;
    }

    /// Records a connection failure now: the instance turns critical.
    pub fn set_connection_failed_time(&mut self, message: Option<String>)
        ensures
            final(self).last_failure() is Some,
            final(self).status() == ServiceStatus::Critical,
            final(self).last_failure_message() == match message {
                Some(m) => m@,
                None => Seq::<char>::empty(),
            },
            exists|at: i64, m: String| *final(self) == old(self).with_failure_at(at, m),
    {
        let now = now_millis();
        self.set_connection_failed_time_at(message, now);
    }

    /// Records the time of the first connection.
    pub fn set_first_connection_time(&mut self)
        ensures
            exists|at: i64| *final(self) == old(self).with_first_connection(at),
    {
        let now = now_millis();
        self.first_connection_timestamp = now;
        assert(*self == old(self).with_first_connection(now));
    }

    /// Takes a response time into the running average and the maximum; unless
    /// the weight is fixed, the weight becomes the distance from the old
    /// average.
    pub fn set_response_time(&mut self, time: i64)
        requires
            old(self).total_requests() > 0,
            i64::MIN <= time - old(self).response_time_avg() <= i64::MAX,
            i64::MIN <= old(self).response_time_avg() * (old(self).total_requests() - 1) + time
                <= i64::MAX,
        ensures
            final(self).weight() == if old(self).fixed_weight() {
                old(self).weight()
            } else {
                time - old(self).response_time_avg()
            },
            final(self).response_time_avg() == trunc_div(
                old(self).response_time_avg() * (old(self).total_requests() - 1) + time,
                old(self).total_requests(),
            ),
            final(self).response_time_max() == if time > old(self).response_time_max() {
                time as int
            } else {
                old(self).response_time_max()
            },
            *final(self) == old(self).with_response(
                final(self).weight() as i64,
                final(self).response_time_avg() as i64,
                final(self).response_time_max() as i64,
            ),
    {
        if !self.fixed_weight {
            self.weight = time - self.response_time_avg;
        }
        let sum = (self.response_time_avg as i128) * ((self.total_requests - 1) as i128) + (
        time as i128);
        let total = self.total_requests as i128;
        let avg = if sum >= 0 {
            sum / total
        } else {
            -((-sum) / total)
        };
        self.response_time_avg = avg as i64;
        if time > self.response_time_max {
            self.response_time_max = time;
        }
    }
}

impl Default for ServiceInstanceState {
    fn default() -> (r: Self)
        ensures
            r.is_fresh(),
            !r.fixed_weight(),
    {
        ServiceInstanceState::new(None)
    }
}

} // verus!
