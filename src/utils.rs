//! Utility functions: identifiers, time, duration formatting, throttling.

use crate::text::{concat, decimal, decimal_string, digit_char, owned};
use vstd::prelude::*;
use vstd::string::StrSliceExecFns;

verus! {

/// A lowercase hexadecimal digit.
pub open spec fn is_lower_hex(c: char) -> bool {
    ('0' <= c && c <= '9') || ('a' <= c && c <= 'f')
}

/// The hyphenated form of a UUID: 32 lowercase hexadecimal digits in groups
/// of 8, 4, 4, 4 and 12, separated by hyphens.
pub open spec fn is_hyphenated_uuid(s: Seq<char>) -> bool {
    &&& s.len() == 36
    &&& forall|i: int|
        0 <= i < 36 ==> if i == 8 || i == 13 || i == 18 || i == 23 {
            #[trigger] s[i] == '-'
        } else {
            is_lower_hex(s[i])
        }
}

/// Relies on `uuid::Uuid::new_v4` and the hyphenated form that `Uuid`'s
/// `Display` writes: a fresh random identifier.
#[verifier::external_body]
pub fn generate_uuid() -> (r: String)
    ensures
        is_hyphenated_uuid(r@),
{
    uuid::Uuid::new_v4().to_string()
}

/// Create a random string of lowercase hexadecimal digits of the given
/// length, from the digits of fresh UUIDs.
pub fn create_random_string(length: usize) -> (r: String)
    requires
        length < usize::MAX - 36,
    ensures
        r@.len() == length,
        forall|i: int| 0 <= i < length ==> is_lower_hex(#[trigger] r@[i]),
{
    let mut result = String::new();
    let mut n: usize = 0;
    while n < length
        invariant
            n == result@.len(),
            n < length + 36,
            length < usize::MAX - 36,
            forall|i: int| 0 <= i < n ==> is_lower_hex(#[trigger] result@[i]),
        decreases length + 36 - n,
    {
        let id = generate_uuid();
        let mut k: usize = 0;
        let n0 = n;
        while k < 36
            invariant
                n0 < length,
                length < usize::MAX - 36,
                is_hyphenated_uuid(id@),
                k <= 36,
                n == result@.len(),
                n0 <= n <= n0 + k,
                k > 0 ==> n > n0,
                forall|i: int| 0 <= i < n ==> is_lower_hex(#[trigger] result@[i]),
            decreases 36 - k,
        {
            let c = id.as_str().get_char(k);
            if c != '-' {
                let piece = id.as_str().substring_char(k, k + 1);
                let ghost before = result@;
                result.append(piece);
                proof {
                    assert(piece@ =~= seq![c]);
                    assert(is_lower_hex(id@[k as int]));
                    assert forall|i: int| 0 <= i < n + 1 implies is_lower_hex(
                        #[trigger] result@[i],
                    ) by {
                        if i < n {
                            assert(result@[i] == before[i]);
                        }
                    }
                }
                n = n + 1;
            } else {
                proof {
                    assert(k != 0);
                }
            }
            k += 1;
        }
    }
    let r = owned(result.as_str().substring_char(0, length));
    r
}

/// The text of a duration of `ms` milliseconds: whole milliseconds below a
/// second, else seconds, with one decimal (rounded to the nearest tenth,
/// halves up) unless the duration is a whole number of seconds.
pub open spec fn duration_text(ms: nat) -> Seq<char> {
    if ms < 1000 {
        decimal(ms) + "ms"@
    } else if ms % 1000 == 0 {
        decimal(ms / 1000) + "s"@
    } else {
        let tenths = (ms + 50) / 100;
        decimal(tenths / 10) + "."@ + seq![digit_char(tenths % 10)] + "s"@
    }
}

/// Format duration in milliseconds to human readable string
pub fn format_duration(duration_ms: u64) -> (r: String)
    ensures
        r@ == duration_text(duration_ms as nat),
{
    if duration_ms < 1000 {
        let digits = decimal_string(duration_ms);
        concat(digits.as_str(), "ms")
    } else if duration_ms % 1000 == 0 {
        let digits = decimal_string(duration_ms / 1000);
        concat(digits.as_str(), "s")
    } else {
        let tenths: u64 = duration_ms / 100 + if duration_ms % 100 >= 50 {
            1
        } else {
            0
        };
        assert(tenths == (duration_ms + 50) / 100);
        let whole = decimal_string(tenths / 10);
        let last = decimal_string(tenths % 10);
        proof {
            reveal_with_fuel(decimal, 1);
        }
        let mut r = concat(whole.as_str(), ".");
        r.append(last.as_str());
        r.append("s");
        r
    }
}

/// Relies on `std::time::SystemTime::now`: milliseconds since the Unix epoch
/// on the system clock (zero for a clock set before the epoch).
#[verifier::external_body]
pub fn current_time_millis() -> (r: u64) {
    std::time::SystemTime::now().duration_since(std::time::UNIX_EPOCH).unwrap_or_default().as_millis() as u64
}

/// Throttle function execution: a call runs only when at least `limit`
/// milliseconds have passed since the last call that ran.
#[derive(Debug, Clone, Copy, PartialEq, Eq)]
pub struct Throttle {
    last_called: Option<u64>,
    limit_ms: u64,
}

/// The mathematical value of a [`Throttle`].
pub struct ThrottleView {
    pub last_called: Option<u64>,
    pub limit_ms: u64,
}

impl View for Throttle {
    type V = ThrottleView;

    closed spec fn view(&self) -> ThrottleView {
        ThrottleView { last_called: self.last_called, limit_ms: self.limit_ms }
    }
}

/// Whether a call at time `now` is held back: the last call that ran was
/// less than the limit ago (a clock that went back counts as no time).
pub open spec fn throttled(t: ThrottleView, now: u64) -> bool {
    match t.last_called {
        Some(last) => (if now >= last {
            now - last
        } else {
            0
        }) < t.limit_ms,
        None => false,
    }
}

impl Throttle {
    /// Create a new throttle with the specified limit in milliseconds
    pub fn new(limit_ms: u64) -> (r: Self)
        ensures
            r@ == (ThrottleView { last_called: None, limit_ms }),
    {
        Throttle { last_called: None, limit_ms }
    }

    /// Run `f` if a call at time `now_ms` is not throttled, and remember the
    /// time; otherwise return `None`.
    pub fn execute_at<F: FnOnce() -> R, R>(&mut self, now_ms: u64, f: F) -> (r: Option<R>)
        requires
            f.requires(()),
        ensures
            throttled(old(self)@, now_ms) ==> r is None && final(self)@ == old(self)@,
            !throttled(old(self)@, now_ms) ==> (r matches Some(v) && f.ensures((), v)),
            !throttled(old(self)@, now_ms) ==> final(self)@ == (ThrottleView {
                last_called: Some(now_ms),
                limit_ms: old(self)@.limit_ms,
            }),
    {
        let held = match self.last_called {
            Some(last) => (if now_ms >= last {
                now_ms - last
            } else {
                0
            }) < self.limit_ms,
            None => false,
        };
        if held {
            None
        } else {
            self.last_called = Some(now_ms);
            Some(f())
        }
    }

    /// Execute function if enough time has passed since last call, by the
    /// system clock.
    pub fn execute<F: FnOnce() -> R, R>(&mut self, f: F) -> (r: Option<R>)
        requires
            f.requires(()),
        ensures
            r matches Some(v) ==> f.ensures((), v),
            r is None ==> final(self)@ == old(self)@,
            final(self)@.limit_ms == old(self)@.limit_ms,
    {
        let now = current_time_millis();
        self.execute_at(now, f)
    }
}

} // verus!
