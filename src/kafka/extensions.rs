use vstd::prelude::*;

verus! {

/// When a received message was stamped, in milliseconds since the epoch:
/// by its producer, by the broker on append, or not at all.
#[derive(Debug, Clone, Copy, PartialEq, Eq, Structural)]
pub enum MessageTimestamp {
    CreateTime(i64),
    LogAppendTime(i64),
    NotAvailable,
}

/// `x` held to the range of an `i64`.
pub open spec fn clamp_i64(x: int) -> int {
    if x < i64::MIN {
        i64::MIN as int
    } else if x > i64::MAX {
        i64::MAX as int
    } else {
        x
    }
}

/// The latency of a message received at `now_ms`: the time since its stamp,
/// 0 where it has none.
pub open spec fn latency_spec(now_ms: i64, stamp: MessageTimestamp) -> int {
    match stamp {
        MessageTimestamp::CreateTime(ts) => clamp_i64(now_ms - ts),
        MessageTimestamp::LogAppendTime(ts) => clamp_i64(now_ms - ts),
        MessageTimestamp::NotAvailable => 0,
    }
}

/// A latency counts as expired past `timeout_secs` seconds, and only when positive.
pub open spec fn expired_spec(latency_ms: int, timeout_secs: int) -> bool {
    latency_ms > 0 && latency_ms > timeout_secs * 1000
}

/// Milliseconds from `ts` to `now_ms`, held to the range of an `i64`.
pub fn elapsed_ms(now_ms: i64, ts: i64) -> (r: i64)
    ensures
        r == clamp_i64(now_ms - ts),
{
    let d: i128 = now_ms as i128 - ts as i128;
    if d < i64::MIN as i128 {
        i64::MIN
    } else if d > i64::MAX as i128 {
        i64::MAX
    } else {
        d as i64
    }
}

/// The latency of a message stamped `stamp` and received at `now_ms`.
pub fn latency_ms(now_ms: i64, stamp: MessageTimestamp) -> (r: i64)
    ensures
        r == latency_spec(now_ms, stamp),
{
    match stamp {
        MessageTimestamp::CreateTime(ts) => elapsed_ms(now_ms, ts),
        MessageTimestamp::LogAppendTime(ts) => elapsed_ms(now_ms, ts),
        MessageTimestamp::NotAvailable => 0,
    }
}

/// Whether a message this late should be dropped as stale.
pub fn latency_expired(latency_ms: i64, timeout_secs: i64) -> (r: bool)
    ensures
        r == expired_spec(latency_ms as int, timeout_secs as int),
{
    let limit: i128 = timeout_secs as i128 * 1000;
    latency_ms > 0 && (latency_ms as i128) > limit
}

/// A received message's stamp together with the time it was read.
#[derive(Debug, Clone, Copy)]
pub struct MessageTiming {
    pub now_ms: i64,
    pub stamp: MessageTimestamp,
}

/// Access to how long a message spent between its stamp and its receipt.
pub trait MessageLatency {
    fn get_latency(&self) -> i64;

    fn is_expired(&self, timeout_secs: i64) -> bool;
}

impl MessageLatency for MessageTiming {
    fn get_latency(&self) -> (r: i64)
        ensures
            r == latency_spec(self.now_ms, self.stamp),
    {
        latency_ms(self.now_ms, self.stamp)
    }

    fn is_expired(&self, timeout_secs: i64) -> (r: bool)
        ensures
            r == expired_spec(latency_spec(self.now_ms, self.stamp), timeout_secs as int),
    {
        latency_expired(self.get_latency(), timeout_secs)
    }
}

} // verus!
