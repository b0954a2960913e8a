//! The per-address counters of suspicious events over a sliding window.

use dashmap::DashMap;
use vstd::prelude::*;
use vstd::string::StringExecFns;

verus! {

/// The counter of one address: how many suspicious events fell into the
/// current window, and the second at which that window began.
#[derive(Clone, Copy, Debug, PartialEq, Eq, Structural)]
pub struct IpState {
    pub count: u32,
    pub window_start: u64,
}

/// The seconds from `start` to `now`; none where `now` lies before `start`.
pub open spec fn elapsed(now: u64, start: u64) -> int {
    if now >= start {
        now - start
    } else {
        0
    }
}

/// The window of `state` has run out at `now`.
pub open spec fn expired(state: IpState, now: u64, window_seconds: u64) -> bool {
    elapsed(now, state.window_start) > window_seconds
}

/// The counter that an event at `now` adds to: the stored one while its
/// window runs, else a fresh one that starts at `now` with no events.
pub open spec fn carried(prior: Option<IpState>, now: u64, window_seconds: u64) -> IpState {
    match prior {
        Some(state) => if expired(state, now, window_seconds) {
            IpState { count: 0, window_start: now }
        } else {
            state
        },
        None => IpState { count: 0, window_start: now },
    }
}

/// The counter of an address after one more event at `now`.
pub open spec fn after_record(prior: Option<IpState>, now: u64, window_seconds: u64) -> IpState {
    let base = carried(prior, now, window_seconds);
    IpState { count: (base.count + 1) as u32, window_start: base.window_start }
}

/// The entry of `address` in a table, if it has one.
pub open spec fn entry_of(table: Map<Seq<char>, IpState>, address: Seq<char>) -> Option<IpState> {
    if table.dom().contains(address) {
        Some(table[address])
    } else {
        None
    }
}

/// The count that an event of `address` at `now` adds to can still go up.
pub open spec fn room_for(
    table: Map<Seq<char>, IpState>,
    address: Seq<char>,
    now: u64,
    window_seconds: u64,
) -> bool {
    carried(entry_of(table, address), now, window_seconds).count < u32::MAX
}

/// Computes the counter after one more event.
pub fn advance(prior: Option<IpState>, now: u64, window_seconds: u64) -> (next: IpState)
    requires
        carried(prior, now, window_seconds).count < u32::MAX,
    ensures
        next == after_record(prior, now, window_seconds),
        next.count == carried(prior, now, window_seconds).count + 1,
{
    let base = match prior {
        Some(state) => {
            if now >= state.window_start && now - state.window_start > window_seconds {
                IpState { count: 0, window_start: now }
            } else {
                state
            }
        },
        None => IpState { count: 0, window_start: now },
    };
    IpState { count: base.count + 1, window_start: base.window_start }
}

/// The concurrent hash map of the `dashmap` crate, taken as it is: nothing
/// of its inside is known here.
#[verifier::external_type_specification]
#[verifier::external_body]
#[verifier::reject_recursive_types(K)]
#[verifier::reject_recursive_types(V)]
#[verifier::reject_recursive_types(S)]
pub struct ExDashMap<K, V, S>(DashMap<K, V, S>);

/// What a concurrent map of counters holds: for each address text its
/// count and the start of its window.
pub uninterp spec fn stored(table: DashMap<String, (u32, u64)>) -> Map<Seq<char>, (u32, u64)>;

/// Calls `DashMap::new`. Trusted: that the new map holds nothing.
#[verifier::external_body]
fn map_new() -> (fresh: DashMap<String, (u32, u64)>)
    ensures
        stored(fresh).dom() =~= Set::empty(),
{
    DashMap::new()
}

/// Calls `DashMap::get` and copies the value out. Trusted: that it finds
/// the value stored under the key, or nothing where the key is absent.
#[verifier::external_body]
fn map_get(table: &DashMap<String, (u32, u64)>, key: &str) -> (value: Option<(u32, u64)>)
    ensures
        value == (if stored(*table).dom().contains(key@) {
            Some(stored(*table)[key@])
        } else {
            None
        }),
{
    table.get(key).map(|entry| *entry.value())
}

/// Calls `DashMap::insert`. Trusted: that afterwards the key holds the
/// value and every other key holds what it held.
#[verifier::external_body]
fn map_insert(table: &mut DashMap<String, (u32, u64)>, key: String, value: (u32, u64))
    ensures
        stored(*final(table)) == stored(*old(table)).insert(key@, value),
{
    table.insert(key, value);
}

/// Calls `DashMap::remove`. Trusted: that afterwards the key is absent
/// and every other key holds what it held.
#[verifier::external_body]
fn map_remove(table: &mut DashMap<String, (u32, u64)>, key: &str)
    ensures
        stored(*final(table)) == stored(*old(table)).remove(key@),
{
    table.remove(key);
}

/// The table of counters, keyed by address.
pub struct BanTable {
    entries: DashMap<String, (u32, u64)>,
}

impl View for BanTable {
    type V = Map<Seq<char>, IpState>;

    closed spec fn view(&self) -> Map<Seq<char>, IpState> {
        stored(self.entries).map_values(
            |pair: (u32, u64)| IpState { count: pair.0, window_start: pair.1 },
        )
    }
}

impl BanTable {
    /// No stored count is at the largest number a count can hold, so that
    /// every address has room for one more event.
    pub open spec fn has_room(&self) -> bool {
        forall|address: Seq<char>| #[trigger]
            self@.dom().contains(address) ==> self@[address].count < u32::MAX
    }

    /// A table without entries.
    pub fn new() -> (table: Self)
        ensures
            table@.dom() =~= Set::empty(),
            table.has_room(),
    {
        let table = BanTable { entries: map_new() };
        assert(table@.dom() =~= Set::empty());
        table
    }

    /// The counter of `address`, if it has one.
    pub fn lookup(&self, address: &str) -> (state: Option<IpState>)
        ensures
            state == entry_of(self@, address@),
    {
        match map_get(&self.entries, address) {
            Some(pair) => Some(IpState { count: pair.0, window_start: pair.1 }),
            None => None,
        }
    }

    /// Whether one more event of `address` at `now` can be counted: it
    /// cannot where the count that it adds to is the largest there is.
    pub fn has_room_for(&self, address: &str, now: u64, window_seconds: u64) -> (room: bool)
        ensures
            room == room_for(self@, address@, now, window_seconds),
    {
        match self.lookup(address) {
            Some(state) => {
                (now >= state.window_start && now - state.window_start > window_seconds)
                    || state.count < u32::MAX
            },
            None => true,
        }
    }

    /// Counts one suspicious event of `address` at second `now`: the entry
    /// is made if there is none, starts afresh if its window has run out,
    /// and its count goes up by one. Returns the entry as it then stands.
    /// No other entry changes.
    pub fn record(&mut self, address: &str, now: u64, window_seconds: u64) -> (state: IpState)
        requires
            room_for(old(self)@, address@, now, window_seconds),
        ensures
            state == after_record(entry_of(old(self)@, address@), now, window_seconds),
            state.count == carried(entry_of(old(self)@, address@), now, window_seconds).count + 1,
            final(self)@ == old(self)@.insert(address@, state),
    {
        let prior = self.lookup(address);
        let next = advance(prior, now, window_seconds);
        map_insert(&mut self.entries, String::from_str(address), (next.count, next.window_start));
        assert(self@ =~= old(self)@.insert(address@, next));
        next
    }

    /// Counts one suspicious event as `record` does, where the count has
    /// room for it; else the table stays as it is and nothing is returned.
    pub fn try_record(&mut self, address: &str, now: u64, window_seconds: u64) -> (state: Option<
        IpState,
    >)
        ensures
            room_for(old(self)@, address@, now, window_seconds) ==> state == Some(
                after_record(entry_of(old(self)@, address@), now, window_seconds),
            ) && final(self)@ == old(self)@.insert(address@, state->0),
            !room_for(old(self)@, address@, now, window_seconds) ==> state is None && final(self)@
                == old(self)@,
    {
        if self.has_room_for(address, now, window_seconds) {
            Some(self.record(address, now, window_seconds))
        } else {
            None
        }
    }

    /// Forgets `address`, so that it starts from nothing when it shows
    /// again. No other entry changes.
    pub fn clear(&mut self, address: &str)
        ensures
            final(self)@ == old(self)@.remove(address@),
    {
        map_remove(&mut self.entries, address);
        assert(self@ =~= old(self)@.remove(address@));
    }
}

/// Window reset: an event that comes more than `window_seconds` after
/// another event of the same address counts as the first of a new window.
/// Time is taken not to run backwards: the stored window did not start
/// after the first of the two events.
pub proof fn record_after_window_counts_one(
    prior: Option<IpState>,
    first: u64,
    second: u64,
    window_seconds: u64,
)
    requires
        prior is Some ==> prior->0.window_start <= first,
        carried(prior, first, window_seconds).count < u32::MAX,
        second - first > window_seconds,
    ensures
        after_record(Some(after_record(prior, first, window_seconds)), second, window_seconds)
            == (IpState { count: 1, window_start: second }),
{
}

/// Within the window an event adds one to the count and leaves the start
/// of the window where it was.
pub proof fn record_within_window_adds_one(state: IpState, now: u64, window_seconds: u64)
    requires
        elapsed(now, state.window_start) <= window_seconds,
        state.count < u32::MAX,
    ensures
        after_record(Some(state), now, window_seconds) == (IpState {
            count: (state.count + 1) as u32,
            window_start: state.window_start,
        }),
{
}

/// The counter of an address that had none, after one event at each of
/// `times` in turn; `None` where there was no event.
pub open spec fn after_events(times: Seq<u64>, window_seconds: u64) -> Option<IpState>
    decreases times.len(),
{
    if times.len() == 0 {
        None
    } else {
        Some(after_record(after_events(times.drop_last(), window_seconds), times.last(), window_seconds))
    }
}

/// Events that all fall within `window_seconds` of the first of them add
/// up: the count is their number, and the window starts at the first.
pub proof fn events_within_window_add_up(times: Seq<u64>, window_seconds: u64)
    requires
        0 < times.len() <= u32::MAX,
        forall|i: int|
            0 <= i < times.len() ==> times[0] <= #[trigger] times[i] && times[i] - times[0]
                <= window_seconds,
    ensures
        after_events(times, window_seconds) == Some(
            IpState { count: times.len() as u32, window_start: times[0] },
        ),
    decreases times.len(),
{
    let front = times.drop_last();
    if times.len() == 1 {
        assert(after_events(front, window_seconds) is None);
    } else {
        assert(front[0] == times[0]);
        assert forall|i: int| 0 <= i < front.len() implies front[0] <= #[trigger] front[i]
            && front[i] - front[0] <= window_seconds by {
            assert(front[i] == times[i]);
        }
        events_within_window_add_up(front, window_seconds);
        assert(times[0] <= times[times.len() - 1]);
    }
}

} // verus!
