//! Per-request metrics bookkeeping: the names, label sets and recorder
//! constants, and the single observation every inbound request produces.
//!
//! The middleware in the surrounding application measures the elapsed time,
//! asks `observe_request` what to record, and performs exactly that update
//! against the installed recorder.

use vstd::prelude::*;
use vstd::string::StringExecFns;

verus! {

/// The decimal digit character for `d` < 10.
pub open spec fn spec_digit_char(d: nat) -> char {
    if d == 0 {
        '0'
    } else if d == 1 {
        '1'
    } else if d == 2 {
        '2'
    } else if d == 3 {
        '3'
    } else if d == 4 {
        '4'
    } else if d == 5 {
        '5'
    } else if d == 6 {
        '6'
    } else if d == 7 {
        '7'
    } else if d == 8 {
        '8'
    } else {
        '9'
    }
}

/// The decimal rendering of `n`, most significant digit first, with no
/// leading zeroes (a single `'0'` for zero).
pub open spec fn spec_decimal(n: nat) -> Seq<char>
    decreases n,
{
    if n < 10 {
        seq![spec_digit_char(n)]
    } else {
        spec_decimal(n / 10) + seq![spec_digit_char(n % 10)]
    }
}

fn digit_str(d: u16) -> (r: &'static str)
    requires
        d < 10,
    ensures
        r@ == seq![spec_digit_char(d as nat)],
{
    proof {
        reveal_strlit("0");
        reveal_strlit("1");
        reveal_strlit("2");
        reveal_strlit("3");
        reveal_strlit("4");
        reveal_strlit("5");
        reveal_strlit("6");
        reveal_strlit("7");
        reveal_strlit("8");
        reveal_strlit("9");
    }
    if d == 0 {
        proof {
            assert("0"@ =~= seq![spec_digit_char(d as nat)]);
        }
        "0"
    } else if d == 1 {
        proof {
            assert("1"@ =~= seq![spec_digit_char(d as nat)]);
        }
        "1"
    } else if d == 2 {
        proof {
            assert("2"@ =~= seq![spec_digit_char(d as nat)]);
        }
        "2"
    } else if d == 3 {
        proof {
            assert("3"@ =~= seq![spec_digit_char(d as nat)]);
        }
        "3"
    } else if d == 4 {
        proof {
            assert("4"@ =~= seq![spec_digit_char(d as nat)]);
        }
        "4"
    } else if d == 5 {
        proof {
            assert("5"@ =~= seq![spec_digit_char(d as nat)]);
        }
        "5"
    } else if d == 6 {
        proof {
            assert("6"@ =~= seq![spec_digit_char(d as nat)]);
        }
        "6"
    } else if d == 7 {
        proof {
            assert("7"@ =~= seq![spec_digit_char(d as nat)]);
        }
        "7"
    } else if d == 8 {
        proof {
            assert("8"@ =~= seq![spec_digit_char(d as nat)]);
        }
        "8"
    } else {
        proof {
            assert("9"@ =~= seq![spec_digit_char(d as nat)]);
        }
        "9"
    }
}

/// The decimal rendering of a status code (or any 16-bit value) as a
/// string, used as the `status` label value.
pub fn u16_to_decimal_string(n: u16) -> (r: String)
    ensures
        r@ == spec_decimal(n as nat),
    decreases n,
{
    if n < 10 {
        digit_str(n).to_string()
    } else {
        let mut s = u16_to_decimal_string(n / 10);
        s.append(digit_str(n % 10));
        proof {
            assert(s@ =~= spec_decimal(n as nat));
        }
        s
    }
}

/// The ephemeral per-request label tuple: method, path, and the resulting
/// status code.
pub struct MetricLabels {
    pub method: String,
    pub path: String,
    pub status: u16,
}

impl MetricLabels {
    pub fn new(method: String, path: String, status: u16) -> (r: Self)
        ensures
            r.method == method,
            r.path == path,
            r.status == status,
    {
        MetricLabels { method, path, status }
    }

    /// The key/value pairs the recorder is tagged with: exactly `method`,
    /// `path` and `status`, in this order, with the status rendered in
    /// decimal.
    pub fn label_pairs(&self) -> (r: Vec<(String, String)>)
        ensures
            r@.len() == 3,
            r@[0].0@ == "method"@,
            r@[0].1@ == self.method@,
            r@[1].0@ == "path"@,
            r@[1].1@ == self.path@,
            r@[2].0@ == "status"@,
            r@[2].1@ == spec_decimal(self.status as nat),
    {
        let mut v: Vec<(String, String)> = Vec::new();
        v.push(("method".to_string(), self.method.clone()));
        v.push(("path".to_string(), self.path.clone()));
        v.push(("status".to_string(), u16_to_decimal_string(self.status)));
        v
    }
}

/// Name of the request counter.
pub fn requests_counter_name() -> (r: &'static str)
    ensures
        r@ == "http_requests_total"@,
{
    "http_requests_total"
}

/// Name of the request-latency histogram.
pub fn duration_histogram_name() -> (r: &'static str)
    ensures
        r@ == "http_requests_duration_seconds"@,
{
    "http_requests_duration_seconds"
}

/// Idle timeout of the recorder in seconds: counter and gauge series with
/// no update for this long are dropped from the next render.
pub fn idle_timeout_seconds() -> (r: u64)
    ensures
        r == 10,
{
    10
}

/// The fixed exponential bucket boundaries of the latency histogram, in
/// microseconds: 0.005 s up to 10 s.
pub open spec fn spec_bucket_bounds_micros() -> Seq<u64> {
    seq![
        5000u64,
        10000u64,
        25000u64,
        50000u64,
        100000u64,
        250000u64,
        500000u64,
        1000000u64,
        2500000u64,
        5000000u64,
        10000000u64,
    ]
}

/// The histogram bucket boundaries in microseconds, smallest first.
pub fn histogram_bucket_bounds_micros() -> (r: Vec<u64>)
    ensures
        r@ == spec_bucket_bounds_micros(),
{
    let mut v: Vec<u64> = Vec::new();
    v.push(5000);
    v.push(10000);
    v.push(25000);
    v.push(50000);
    v.push(100000);
    v.push(250000);
    v.push(500000);
    v.push(1000000);
    v.push(2500000);
    v.push(5000000);
    v.push(10000000);
    proof {
        assert(v@ =~= spec_bucket_bounds_micros());
    }
    v
}

/// What the middleware records for one finished request: a single increment
/// of the request counter and a single histogram sample of the elapsed
/// time, both tagged with the request's labels.
pub struct MetricsUpdate {
    pub counter_name: String,
    pub counter_increment: u64,
    pub histogram_name: String,
    pub elapsed_micros: u64,
    pub labels: MetricLabels,
}

/// The one observation a finished request produces: the counter named
/// `http_requests_total` goes up by exactly one, the histogram named
/// `http_requests_duration_seconds` takes exactly one sample of the elapsed
/// time, and both carry the request's method, path and status.
pub fn observe_request(method: String, path: String, status: u16, elapsed_micros: u64) -> (r:
    MetricsUpdate)
    ensures
        r.counter_name@ == "http_requests_total"@,
        r.counter_increment == 1,
        r.histogram_name@ == "http_requests_duration_seconds"@,
        r.elapsed_micros == elapsed_micros,
        r.labels.method == method,
        r.labels.path == path,
        r.labels.status == status,
{
    let counter_name = requests_counter_name().to_string();
    let histogram_name = duration_histogram_name().to_string();
    let labels = MetricLabels::new(method, path, status);
    MetricsUpdate { counter_name, counter_increment: 1, histogram_name, elapsed_micros, labels }
}

} // verus!
