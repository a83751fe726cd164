//! Network throughput from two readings of cumulative byte counters.
//!
//! The caller reads the counters, waits `SAMPLE_INTERVAL_MS`, reads them
//! again and hands both readings over. The wait blocks the caller for the
//! whole interval.

use vstd::prelude::*;

verus! {

/// The time between the two readings, in milliseconds.
pub const SAMPLE_INTERVAL_MS: u64 = 500;

/// By how much a difference between two readings is multiplied to give bytes
/// per second.
pub const RATE_FACTOR: u64 = 1000 / SAMPLE_INTERVAL_MS;

/// The cumulative counters of one interface at one moment.
#[derive(Debug)]
pub struct InterfaceCounters {
    pub name: String,
    pub received: u64,
    pub transmitted: u64,
}

/// The counters of one interface at the second reading, with its rates in
/// bytes per second.
#[derive(Debug)]
pub struct InterfaceRate {
    pub name: String,
    pub received: u64,
    pub transmitted: u64,
    pub received_rate: u64,
    pub transmitted_rate: u64,
}

/// The rates of all interfaces and the sums of their counters.
#[derive(Debug)]
pub struct NetworkRates {
    pub interfaces: Vec<InterfaceRate>,
    pub total_received: u128,
    pub total_transmitted: u128,
}

/// The rate that two readings of one counter give: the growth times
/// `RATE_FACTOR`, zero where the counter fell, and `u64::MAX` where the
/// product does not fit.
pub open spec fn rate_of(first: u64, second: u64) -> int {
    if second <= first {
        0
    } else if (second - first) * RATE_FACTOR > u64::MAX {
        u64::MAX as int
    } else {
        (second - first) * RATE_FACTOR
    }
}

/// The rate in bytes per second between two readings of one counter.
pub fn rate(first: u64, second: u64) -> (per_second: u64)
    ensures
        per_second == rate_of(first, second),
{
    let grown = second.saturating_sub(first);
    match grown.checked_mul(RATE_FACTOR) {
        Some(product) => product,
        None => u64::MAX,
    }
}

/// The counters that the first reading holds for an interface: those of its
/// last entry with that name, and zeros where it has none.
pub open spec fn earlier_counters(first: Seq<InterfaceCounters>, name: Seq<char>) -> (u64, u64)
    decreases first.len(),
{
    if first.len() == 0 {
        (0, 0)
    } else if first.last().name@ == name {
        (first.last().received, first.last().transmitted)
    } else {
        earlier_counters(first.drop_last(), name)
    }
}

/// Looks an interface up in the first reading.
pub fn find_earlier(first: &Vec<InterfaceCounters>, name: &String) -> (counters: (u64, u64))
    ensures
        counters == earlier_counters(first@, name@),
{
    let mut i: usize = first.len();
    assert(first@.take(i as int) =~= first@);
    while i > 0
        invariant
            i <= first.len(),
            earlier_counters(first@, name@) == earlier_counters(first@.take(i as int), name@),
        decreases i,
    {
        let entry = &first[i - 1];
        proof {
            let head = first@.take(i as int);
            assert(head.last() == first@[i - 1]);
            assert(head.drop_last() =~= first@.take(i - 1));
        }
        if entry.name == *name {
            return (entry.received, entry.transmitted);
        }
        i -= 1;
    }
    assert(first@.take(0).len() == 0);
    (0, 0)
}

/// The entry that one interface of the second reading gets.
pub open spec fn rate_entry(first: Seq<InterfaceCounters>, now: InterfaceCounters) -> InterfaceRate {
    InterfaceRate {
        name: now.name,
        received: now.received,
        transmitted: now.transmitted,
        received_rate: rate_of(earlier_counters(first, now.name@).0, now.received) as u64,
        transmitted_rate: rate_of(earlier_counters(first, now.name@).1, now.transmitted) as u64,
    }
}

/// The sum of the received counters of a reading.
pub open spec fn sum_received(reading: Seq<InterfaceCounters>) -> nat
    decreases reading.len(),
{
    if reading.len() == 0 {
        0
    } else {
        sum_received(reading.drop_last()) + reading.last().received as nat
    }
}

/// The sum of the transmitted counters of a reading.
pub open spec fn sum_transmitted(reading: Seq<InterfaceCounters>) -> nat
    decreases reading.len(),
{
    if reading.len() == 0 {
        0
    } else {
        sum_transmitted(reading.drop_last()) + reading.last().transmitted as nat
    }
}

/// The rates between two readings. The result has one entry for each
/// interface of the second reading, in its order; an interface that the first
/// reading does not name counts from zero. The totals are those of the second
/// reading.
pub fn sample(first: &Vec<InterfaceCounters>, second: &Vec<InterfaceCounters>) -> (rates:
    NetworkRates)
    ensures
        rates.interfaces.len() == second.len(),
        forall|i: int|
            0 <= i < second.len() ==> (#[trigger] rates.interfaces[i]) == rate_entry(
                first@,
                second[i],
            ),
        rates.total_received == sum_received(second@),
        rates.total_transmitted == sum_transmitted(second@),
{
    let mut interfaces: Vec<InterfaceRate> = Vec::new();
    let mut total_received: u128 = 0;
    let mut total_transmitted: u128 = 0;
    let mut i: usize = 0;
    while i < second.len()
        invariant
            i <= second.len(),
            interfaces.len() == i,
            forall|k: int|
                0 <= k < i ==> (#[trigger] interfaces[k]) == rate_entry(first@, second[k]),
            total_received == sum_received(second@.take(i as int)),
            total_transmitted == sum_transmitted(second@.take(i as int)),
            total_received <= i * u64::MAX,
            total_transmitted <= i * u64::MAX,
        decreases second.len() - i,
    {
        let now = &second[i];
        let (received_before, transmitted_before) = find_earlier(first, &now.name);
        proof {
            let head = second@.take(i + 1);
            assert(head.last() == second@[i as int]);
            assert(head.drop_last() =~= second@.take(i as int));
        }
        total_received = total_received + now.received as u128;
        total_transmitted = total_transmitted + now.transmitted as u128;
        interfaces.push(
            InterfaceRate {
                name: now.name.clone(),
                received: now.received,
                transmitted: now.transmitted,
                received_rate: rate(received_before, now.received),
                transmitted_rate: rate(transmitted_before, now.transmitted),
            },
        );
        i += 1;
    }
    assert(second@.take(second.len() as int) =~= second@);
    NetworkRates { interfaces, total_received, total_transmitted }
}

/// Counters that did not change give a rate of zero.
pub proof fn law_unchanged_counter_has_no_rate(value: u64)
    ensures
        rate_of(value, value) == 0,
{
}

/// A counter that fell between the readings gives a rate of zero.
pub proof fn law_fallen_counter_has_no_rate(first: u64, second: u64)
    requires
        second < first,
    ensures
        rate_of(first, second) == 0,
{
}

/// A rate is never negative and always fits the counter's type.
pub proof fn law_rate_in_range(first: u64, second: u64)
    ensures
        0 <= rate_of(first, second) <= u64::MAX,
{
}

} // verus!
