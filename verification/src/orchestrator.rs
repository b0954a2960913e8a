//! What is to be done about a classified line: nothing, a count, or a ban.

use crate::config::{texts, ConfigModel, SecurityConfig};
use crate::parser::{LogStatus, Verdict};
use crate::tracker::{
    after_events, after_record, entry_of, events_within_window_add_up, room_for, BanTable, IpState,
};
use vstd::prelude::*;
use vstd::string::StringExecFns;

verus! {

/// What the caller is to do after a line has been handled. The table of
/// counters has been brought up to date already; a ban is the caller's to
/// carry out.
#[derive(Debug, Clone, PartialEq, Eq)]
pub enum Action {
    /// The line was clean.
    Nothing,
    /// The address is whitelisted: nothing was counted and nothing is banned.
    Exempt { address: String },
    /// The event was counted and the threshold is not reached.
    Count { address: String, reason: String, count: u32, max_retries: u32 },
    /// Ban the address for `duration` seconds: its line matched an instant-ban pattern.
    InstantBan { address: String, reason: String, duration: usize },
    /// Ban the address for `duration` seconds: its count reached the threshold.
    ThresholdBan { address: String, reason: String, count: u32, max_retries: u32, duration: usize },
}

/// An `Action` over plain texts.
pub ghost enum ActionModel {
    Nothing,
    Exempt { address: Seq<char> },
    Count { address: Seq<char>, reason: Seq<char>, count: u32, max_retries: u32 },
    InstantBan { address: Seq<char>, reason: Seq<char>, duration: usize },
    ThresholdBan {
        address: Seq<char>,
        reason: Seq<char>,
        count: u32,
        max_retries: u32,
        duration: usize,
    },
}

impl View for Action {
    type V = ActionModel;

    open spec fn view(&self) -> ActionModel {
        match self {
            Action::Nothing => ActionModel::Nothing,
            Action::Exempt { address } => ActionModel::Exempt { address: address@ },
            Action::Count { address, reason, count, max_retries } => ActionModel::Count {
                address: address@,
                reason: reason@,
                count: *count,
                max_retries: *max_retries,
            },
            Action::InstantBan { address, reason, duration } => ActionModel::InstantBan {
                address: address@,
                reason: reason@,
                duration: *duration,
            },
            Action::ThresholdBan {
                address,
                reason,
                count,
                max_retries,
                duration,
            } => ActionModel::ThresholdBan {
                address: address@,
                reason: reason@,
                count: *count,
                max_retries: *max_retries,
                duration: *duration,
            },
        }
    }
}

/// The address is exempt from counting and banning.
pub open spec fn whitelisted(config: ConfigModel, address: Seq<char>) -> bool {
    config.whitelist.contains(address)
}

/// The action on a suspicious event of an address that is not
/// whitelisted: the event is counted, and where the count then reaches
/// `max_retries` the address is to be banned.
pub open spec fn attack_action(
    address: Seq<char>,
    reason: Seq<char>,
    config: ConfigModel,
    table: Map<Seq<char>, IpState>,
    now: u64,
) -> ActionModel {
    let state = after_record(entry_of(table, address), now, config.window_seconds);
    if state.count >= config.max_retries {
        ActionModel::ThresholdBan {
            address,
            reason,
            count: state.count,
            max_retries: config.max_retries,
            duration: config.ban_time_seconds,
        }
    } else {
        ActionModel::Count { address, reason, count: state.count, max_retries: config.max_retries }
    }
}

/// The table after a suspicious event of an address that is not
/// whitelisted: the entry holds the new count, or is gone where the
/// address is to be banned.
pub open spec fn attack_table(
    address: Seq<char>,
    config: ConfigModel,
    table: Map<Seq<char>, IpState>,
    now: u64,
) -> Map<Seq<char>, IpState> {
    let state = after_record(entry_of(table, address), now, config.window_seconds);
    if state.count >= config.max_retries {
        table.remove(address)
    } else {
        table.insert(address, state)
    }
}

/// The action that a verdict calls for.
pub open spec fn step_action(
    verdict: Verdict,
    config: ConfigModel,
    table: Map<Seq<char>, IpState>,
    now: u64,
) -> ActionModel {
    match verdict {
        Verdict::Clean => ActionModel::Nothing,
        Verdict::Suspicious(address, reason) => if whitelisted(config, address) {
            ActionModel::Exempt { address }
        } else {
            attack_action(address, reason, config, table, now)
        },
        Verdict::InstantBan(address, reason) => if whitelisted(config, address) {
            ActionModel::Exempt { address }
        } else {
            ActionModel::InstantBan { address, reason, duration: config.ban_time_seconds }
        },
    }
}

/// The table after a verdict has been handled. Only a suspicious event of
/// an address that is not whitelisted changes it.
pub open spec fn step_table(
    verdict: Verdict,
    config: ConfigModel,
    table: Map<Seq<char>, IpState>,
    now: u64,
) -> Map<Seq<char>, IpState> {
    match verdict {
        Verdict::Suspicious(address, reason) => if whitelisted(config, address) {
            table
        } else {
            attack_table(address, config, table, now)
        },
        _ => table,
    }
}

/// The verdict can be handled: where it leads to a count, the count has
/// room for one more event.
pub open spec fn can_handle(
    verdict: Verdict,
    config: ConfigModel,
    table: Map<Seq<char>, IpState>,
    now: u64,
) -> bool {
    match verdict {
        Verdict::Suspicious(address, reason) => whitelisted(config, address) || room_for(
            table,
            address,
            now,
            config.window_seconds,
        ),
        _ => true,
    }
}

/// Tells whether `address` is on the whitelist of `config`.
pub fn is_whitelisted(config: &SecurityConfig, address: &String) -> (listed: bool)
    ensures
        listed == whitelisted(config@, address@),
{
    let mut i: usize = 0;
    while i < config.whitelist.len()
        invariant
            i <= config.whitelist.len(),
            forall|j: int| 0 <= j < i ==> texts(config.whitelist@)[j] != address@,
        decreases config.whitelist.len() - i,
    {
        if config.whitelist[i] == *address {
            assert(texts(config.whitelist@)[i as int] == address@);
            return true;
        }
        i += 1;
    }
    false
}

/// Counts one suspicious event of `ip` at second `now` and says whether
/// the address is now to be banned. An address that is to be banned
/// leaves the table.
pub fn process_attack(
    ip: &str,
    reason: &str,
    state: &mut BanTable,
    config: &SecurityConfig,
    now: u64,
) -> (action: Action)
    requires
        room_for(old(state)@, ip@, now, config@.window_seconds),
    ensures
        action@ == attack_action(ip@, reason@, config@, old(state)@, now),
        final(state)@ == attack_table(ip@, config@, old(state)@, now),
        old(state).has_room() ==> final(state).has_room(),
{
    let entry = state.record(ip, now, config.window_seconds);
    if entry.count >= config.max_retries {
        state.clear(ip);
        assert(state@ =~= old(state)@.remove(ip@));
        Action::ThresholdBan {
            address: String::from_str(ip),
            reason: String::from_str(reason),
            count: entry.count,
            max_retries: config.max_retries,
            duration: config.ban_time_seconds,
        }
    } else {
        Action::Count {
            address: String::from_str(ip),
            reason: String::from_str(reason),
            count: entry.count,
            max_retries: config.max_retries,
        }
    }
}

/// Handles one classified line against one snapshot of the rules: a clean
/// line asks for nothing, a whitelisted address is let through untouched,
/// an instant ban goes out without counting, and a suspicious event is
/// counted and leads to a ban once the threshold is reached.
pub fn handle(status: LogStatus, state: &mut BanTable, config: &SecurityConfig, now: u64) -> (action:
    Action)
    requires
        can_handle(status@, config@, old(state)@, now),
    ensures
        action@ == step_action(status@, config@, old(state)@, now),
        final(state)@ == step_table(status@, config@, old(state)@, now),
        old(state).has_room() ==> final(state).has_room(),
{
    match status {
        LogStatus::Clean => Action::Nothing,
        LogStatus::Suspicious(address, reason) => {
            if is_whitelisted(config, &address) {
                Action::Exempt { address }
            } else {
                process_attack(address.as_str(), reason.as_str(), state, config, now)
            }
        },
        LogStatus::InstantBan(address, reason) => {
            if is_whitelisted(config, &address) {
                Action::Exempt { address }
            } else {
                Action::InstantBan { address, reason, duration: config.ban_time_seconds }
            }
        },
    }
}

/// Handles one classified line as `handle` does, where it can be handled;
/// else the table stays as it is and nothing is returned.
pub fn try_handle(status: LogStatus, state: &mut BanTable, config: &SecurityConfig, now: u64) -> (action:
    Option<Action>)
    ensures
        can_handle(status@, config@, old(state)@, now) ==> action is Some && action->0@
            == step_action(status@, config@, old(state)@, now) && final(state)@ == step_table(
            status@,
            config@,
            old(state)@,
            now,
        ),
        !can_handle(status@, config@, old(state)@, now) ==> action is None && final(state)@ == old(
            state,
        )@,
        old(state).has_room() ==> action is Some && final(state).has_room(),
{
    let ready = match &status {
        LogStatus::Suspicious(address, _) => is_whitelisted(config, address) || state.has_room_for(
            address.as_str(),
            now,
            config.window_seconds,
        ),
        _ => true,
    };
    if ready {
        Some(handle(status, state, config, now))
    } else {
        None
    }
}

/// A table in which every count has room can take every verdict.
pub proof fn roomy_table_takes_every_verdict(
    verdict: Verdict,
    config: ConfigModel,
    table: BanTable,
    now: u64,
)
    requires
        table.has_room(),
    ensures
        can_handle(verdict, config, table@, now),
{
}

/// Whitelist short-circuit: whatever a line of a whitelisted address was
/// classified as, the table stays as it was and no ban is asked for.
pub proof fn whitelisted_address_is_untouched(
    verdict: Verdict,
    address: Seq<char>,
    reason: Seq<char>,
    config: ConfigModel,
    table: Map<Seq<char>, IpState>,
    now: u64,
)
    requires
        whitelisted(config, address),
        verdict == Verdict::Suspicious(address, reason) || verdict == Verdict::InstantBan(
            address,
            reason,
        ),
    ensures
        step_table(verdict, config, table, now) == table,
        step_action(verdict, config, table, now) == (ActionModel::Exempt { address }),
{
}

/// Threshold firing: the suspicious event that brings the count of an
/// address that is not whitelisted to `max_retries` asks for one ban of
/// `ban_time_seconds`, and the address leaves the table. Below the
/// threshold the event is only counted and stays in the table.
pub proof fn threshold_decides_ban(
    address: Seq<char>,
    reason: Seq<char>,
    config: ConfigModel,
    table: Map<Seq<char>, IpState>,
    now: u64,
)
    requires
        !whitelisted(config, address),
    ensures
        ({
            let verdict = Verdict::Suspicious(address, reason);
            let count = after_record(entry_of(table, address), now, config.window_seconds).count;
            let action = step_action(verdict, config, table, now);
            let after = step_table(verdict, config, table, now);
            &&& count >= config.max_retries ==> action == (ActionModel::ThresholdBan {
                address,
                reason,
                count,
                max_retries: config.max_retries,
                duration: config.ban_time_seconds,
            }) && !after.dom().contains(address)
            &&& count < config.max_retries ==> action is Count && after.dom().contains(address)
                && after[address].count == count
            &&& forall|other: Seq<char>|
                other != address ==> entry_of(after, other) == entry_of(table, other)
        }),
{
}

/// An instant ban goes past the table: it stays as it was, and the ban
/// asked for lasts `ban_time_seconds`.
pub proof fn instant_ban_skips_table(
    address: Seq<char>,
    reason: Seq<char>,
    config: ConfigModel,
    table: Map<Seq<char>, IpState>,
    now: u64,
)
    requires
        !whitelisted(config, address),
    ensures
        step_table(Verdict::InstantBan(address, reason), config, table, now) == table,
        step_action(Verdict::InstantBan(address, reason), config, table, now) == (
        ActionModel::InstantBan { address, reason, duration: config.ban_time_seconds }),
{
}

/// The strike that fills the threshold: where an address that is not
/// whitelisted has had `max_retries - 1` suspicious events since it had no
/// entry, and one more comes, all within `window_seconds` of the first,
/// that one asks for a ban of `ban_time_seconds` and the address leaves
/// the table.
pub proof fn strike_at_threshold_bans(
    address: Seq<char>,
    reason: Seq<char>,
    config: ConfigModel,
    table: Map<Seq<char>, IpState>,
    earlier: Seq<u64>,
    now: u64,
)
    requires
        !whitelisted(config, address),
        earlier.len() + 1 == config.max_retries,
        entry_of(table, address) == after_events(earlier, config.window_seconds),
        forall|i: int|
            0 <= i < earlier.len() ==> earlier[0] <= #[trigger] earlier[i] && earlier[i]
                - earlier[0] <= config.window_seconds,
        earlier.len() > 0 ==> earlier[0] <= now && now - earlier[0] <= config.window_seconds,
    ensures
        step_action(Verdict::Suspicious(address, reason), config, table, now) == (
        ActionModel::ThresholdBan {
            address,
            reason,
            count: config.max_retries,
            max_retries: config.max_retries,
            duration: config.ban_time_seconds,
        }),
        !step_table(Verdict::Suspicious(address, reason), config, table, now).dom().contains(
            address,
        ),
{
    let times = earlier.push(now);
    assert(times.drop_last() =~= earlier);
    assert(times.last() == now);
    assert forall|i: int| 0 <= i < times.len() implies times[0] <= #[trigger] times[i] && times[i]
        - times[0] <= config.window_seconds by {
        if i < earlier.len() {
            assert(times[i] == earlier[i]);
        }
    }
    events_within_window_add_up(times, config.window_seconds);
}

} // verus!
