//! Classification of access-log lines against the current rule set.

use crate::config::{texts, ConfigError, ConfigModel, ConfigStore, SecurityConfig};
use vstd::prelude::*;
use vstd::string::StringExecFns;

verus! {

/// The shape of a combined access-log record. Its capture groups are, in
/// order: the address, the method, the request path, the status code and
/// the user agent.
pub const LOG_PATTERN: &'static str =
    r#"^(\S+) .*? "(GET|POST|HEAD|PUT|DELETE|PATCH) (.*?) .*?" (\d+) .*? ".*?" "(.*?)""#;

/// The file that holds the configuration when the environment names none.
pub const DEFAULT_CONFIG_PATH: &'static str = "sentinel_config.yaml";

/// What the classifier says of one line: nothing, a suspicious event to be
/// counted, or an event that calls for a ban at once. The two strings are
/// the address and the reason.
#[derive(Debug, Clone, PartialEq, Eq)]
pub enum LogStatus {
    Clean,
    Suspicious(String, String),
    InstantBan(String, String),
}

/// A `LogStatus` over plain texts.
pub ghost enum Verdict {
    Clean,
    Suspicious(Seq<char>, Seq<char>),
    InstantBan(Seq<char>, Seq<char>),
}

impl View for LogStatus {
    type V = Verdict;

    open spec fn view(&self) -> Verdict {
        match self {
            LogStatus::Clean => Verdict::Clean,
            LogStatus::Suspicious(address, reason) => Verdict::Suspicious(address@, reason@),
            LogStatus::InstantBan(address, reason) => Verdict::InstantBan(address@, reason@),
        }
    }
}

/// `needle` stands in `hay` from position `at` on.
pub open spec fn occurs_at(hay: Seq<char>, needle: Seq<char>, at: int) -> bool {
    0 <= at && at + needle.len() <= hay.len() && hay.subrange(at, at + needle.len()) == needle
}

/// `needle` is a contiguous part of `hay`. The empty text is part of every text.
pub open spec fn contains_text(hay: Seq<char>, needle: Seq<char>) -> bool {
    exists|at: int| occurs_at(hay, needle, at)
}

/// The first of `patterns`, from index `from` on, that is part of `hay`.
pub open spec fn first_hit(hay: Seq<char>, patterns: Seq<Seq<char>>, from: int) -> Option<
    Seq<char>,
>
    decreases patterns.len() - from,
{
    if from < 0 || from >= patterns.len() {
        None
    } else if contains_text(hay, patterns[from]) {
        Some(patterns[from])
    } else {
        first_hit(hay, patterns, from + 1)
    }
}

/// Status codes on which a sensitive-file match counts as probing.
pub open spec fn probe_status(status: u16) -> bool {
    status == 404 || status == 403
}

/// Status codes on which a CMS or login path counts as an attack.
pub open spec fn attack_status(status: u16) -> bool {
    status == 401 || status == 400 || status == 404
}

/// The path carries one of the fixed injection markers.
pub open spec fn injection_marked(path: Seq<char>) -> bool {
    contains_text(path, "union+select"@) || contains_text(path, "eval("@) || contains_text(
        path,
        "<script>"@,
    )
}

/// The verdict on one request. `path` is the lower-cased request path. The
/// rules are tried in this order and the first that applies decides: instant
/// ban, sensitive-file probe, CMS or login attack, injection marker, bad
/// user agent. The reason of a bad user agent names the request's own agent.
pub open spec fn request_verdict(
    address: Seq<char>,
    path: Seq<char>,
    status: u16,
    user_agent: Seq<char>,
    config: ConfigModel,
) -> Verdict {
    if let Some(pattern) = first_hit(path, config.instant_ban, 0) {
        Verdict::InstantBan(address, "Instant Ban: "@ + pattern)
    } else if probe_status(status) && first_hit(path, config.sensitive_files, 0) is Some {
        Verdict::Suspicious(address, "Probe: "@ + first_hit(path, config.sensitive_files, 0)->0)
    } else if attack_status(status) && first_hit(path, config.cms_attacks, 0) is Some {
        Verdict::Suspicious(
            address,
            "CMS/Auth Attack: "@ + first_hit(path, config.cms_attacks, 0)->0,
        )
    } else if injection_marked(path) {
        Verdict::Suspicious(address, "Injection Attempt"@)
    } else if first_hit(user_agent, config.bad_user_agents, 0) is Some {
        Verdict::Suspicious(address, "Bad User Agent: "@ + user_agent)
    } else {
        Verdict::Clean
    }
}

/// The capture groups that the regular expression `pattern` finds in
/// `line`, group 0 first, a group that took no part as `None`; `None` where
/// the line does not match or `pattern` is no regular expression.
pub uninterp spec fn regex_groups(pattern: Seq<char>, line: Seq<char>) -> Option<
    Seq<Option<Seq<char>>>,
>;

/// The lower-case form of a text, as the standard library gives it.
pub uninterp spec fn lowercase_of(text: Seq<char>) -> Seq<char>;

/// The value of a decimal digit; `None` for any other character.
pub open spec fn digit_value(c: char) -> Option<nat> {
    if c == '0' {
        Some(0)
    } else if c == '1' {
        Some(1)
    } else if c == '2' {
        Some(2)
    } else if c == '3' {
        Some(3)
    } else if c == '4' {
        Some(4)
    } else if c == '5' {
        Some(5)
    } else if c == '6' {
        Some(6)
    } else if c == '7' {
        Some(7)
    } else if c == '8' {
        Some(8)
    } else if c == '9' {
        Some(9)
    } else {
        None
    }
}

/// Every character of the text is one of the digits `0` to `9`.
pub open spec fn all_digits(text: Seq<char>) -> bool {
    forall|i: int| 0 <= i < text.len() ==> digit_value(#[trigger] text[i]) is Some
}

/// The number that a run of decimal digits spells, the first digit
/// weighing most. A character that is no digit counts as zero.
pub open spec fn decimal_value(text: Seq<char>) -> nat
    decreases text.len(),
{
    if text.len() == 0 {
        0
    } else {
        10 * decimal_value(text.drop_last()) + (match digit_value(text.last()) {
            Some(d) => d,
            None => 0,
        })
    }
}

/// The text without the `+` that may stand before a number.
pub open spec fn unsigned_part(text: Seq<char>) -> Seq<char> {
    if text.len() > 0 && text[0] == '+' {
        text.drop_first()
    } else {
        text
    }
}

/// The number that a text denotes as a `u16`: one or more decimal digits,
/// with or without a `+` before them, that spell a number of at most
/// 65535. `None` for every other text.
pub open spec fn parsed_u16(text: Seq<char>) -> Option<u16> {
    let digits = unsigned_part(text);
    if digits.len() > 0 && all_digits(digits) && decimal_value(digits) <= u16::MAX {
        Some(decimal_value(digits) as u16)
    } else {
        None
    }
}

/// The texts of a list of capture groups, in order.
pub open spec fn group_texts(groups: Seq<Option<String>>) -> Seq<Option<Seq<char>>> {
    Seq::new(
        groups.len(),
        |i: int|
            match groups[i] {
                Some(s) => Some(s@),
                None => None,
            },
    )
}

/// The text of group `i`, or `fallback` where there is no such group or
/// it took no part in the match.
pub open spec fn group_or(groups: Seq<Option<Seq<char>>>, i: int, fallback: Seq<char>) -> Seq<
    char,
> {
    if 0 <= i < groups.len() && groups[i] is Some {
        groups[i]->0
    } else {
        fallback
    }
}

/// The status code that a captured text stands for: its number, or 200
/// where it is none.
pub open spec fn status_of(text: Seq<char>) -> u16 {
    match parsed_u16(text) {
        Some(code) => code,
        None => 200,
    }
}

/// The verdict on the capture groups of a line that has the shape of a record.
pub open spec fn groups_verdict(groups: Seq<Option<Seq<char>>>, config: ConfigModel) -> Verdict {
    request_verdict(
        group_or(groups, 1, ""@),
        lowercase_of(group_or(groups, 3, ""@)),
        status_of(group_or(groups, 4, "200"@)),
        group_or(groups, 5, ""@),
        config,
    )
}

/// The verdict on a line: `Clean` for every line that has not the shape of a
/// record, else the verdict on its fields.
pub open spec fn line_verdict(line: Seq<char>, config: ConfigModel) -> Verdict {
    match regex_groups(LOG_PATTERN@, line) {
        None => Verdict::Clean,
        Some(groups) => groups_verdict(groups, config),
    }
}

/// Calls `Regex::new` on `pattern` and `Regex::captures` on `line`, and
/// copies each capture group out as a string. Trusted: that the outcome is
/// the same whenever pattern and line are, which is what `regex_groups`
/// names.
#[verifier::external_body]
fn match_groups(pattern: &str, line: &str) -> (found: Option<Vec<Option<String>>>)
    ensures
        match found {
            Some(groups) => regex_groups(pattern@, line@) == Some(group_texts(groups@)),
            None => regex_groups(pattern@, line@) is None,
        },
{
    let expression = regex::Regex::new(pattern).ok()?;
    let captures = expression.captures(line)?;
    Some(captures.iter().map(|group| group.map(|m| m.as_str().to_string())).collect())
}

/// Calls `str::contains` with a string as the pattern. Trusted: that it
/// tells whether the pattern is a contiguous part of the text.
#[verifier::external_body]
fn text_contains(hay: &str, needle: &str) -> (found: bool)
    ensures
        found == contains_text(hay@, needle@),
{
    hay.contains(needle)
}

/// Calls `str::to_lowercase`. Trusted: that the outcome depends on the
/// text alone, which is what `lowercase_of` names.
#[verifier::external_body]
fn lowercase(text: &str) -> (lower: String)
    ensures
        lower@ == lowercase_of(text@),
{
    text.to_lowercase()
}

fn digit_of(c: char) -> (digit: Option<u32>)
    ensures
        digit is Some <==> digit_value(c) is Some,
        digit is Some ==> digit->0 == digit_value(c)->0,
{
    if c == '0' {
        Some(0)
    } else if c == '1' {
        Some(1)
    } else if c == '2' {
        Some(2)
    } else if c == '3' {
        Some(3)
    } else if c == '4' {
        Some(4)
    } else if c == '5' {
        Some(5)
    } else if c == '6' {
        Some(6)
    } else if c == '7' {
        Some(7)
    } else if c == '8' {
        Some(8)
    } else if c == '9' {
        Some(9)
    } else {
        None
    }
}

/// Reads a text as a `u16` in decimal digits.
pub fn parse_u16(text: &str) -> (number: Option<u16>)
    ensures
        number == parsed_u16(text@),
{
    let len = text.unicode_len();
    let start: usize = if len > 0 && text.get_char(0) == '+' {
        1
    } else {
        0
    };
    let ghost digits = text@.subrange(start as int, len as int);
    assert(digits =~= unsigned_part(text@));
    if start >= len {
        return None;
    }
    let mut i: usize = start;
    let mut value: u32 = 0;
    let mut over = false;
    while i < len
        invariant
            start <= i <= len,
            len == text@.len(),
            digits == unsigned_part(text@),
            digits.len() == len - start,
            forall|j: int| start <= j < len ==> digits[j - start] == text@[j],
            all_digits(digits.subrange(0, i - start)),
            !over ==> value == decimal_value(digits.subrange(0, i - start)) && value <= u16::MAX,
            over ==> decimal_value(digits.subrange(0, i - start)) > u16::MAX,
        decreases len - i,
    {
        let c = text.get_char(i);
        assert(digits[i - start] == c);
        let ghost seen = digits.subrange(0, i - start);
        let ghost more = digits.subrange(0, i + 1 - start);
        assert(more.drop_last() =~= seen);
        assert(more.last() == c);
        match digit_of(c) {
            None => {
                assert(digit_value(digits[i - start]) is None);
                return None;
            },
            Some(digit) => {
                assert forall|j: int| 0 <= j < more.len() implies digit_value(
                    #[trigger] more[j],
                ) is Some by {
                    if j < seen.len() {
                        assert(more[j] == seen[j]);
                    }
                }
                if !over {
                    let next = value * 10 + digit;
                    if next > 65535 {
                        over = true;
                    } else {
                        value = next;
                    }
                }
            },
        }
        i += 1;
    }
    assert(digits.subrange(0, len - start) =~= digits);
    if over {
        None
    } else {
        Some(value as u16)
    }
}

fn first_match<'a>(hay: &str, patterns: &'a Vec<String>) -> (hit: Option<&'a String>)
    ensures
        match hit {
            Some(pattern) => first_hit(hay@, texts(patterns@), 0) == Some(pattern@),
            None => first_hit(hay@, texts(patterns@), 0) is None,
        },
{
    let mut i: usize = 0;
    while i < patterns.len()
        invariant
            i <= patterns.len(),
            first_hit(hay@, texts(patterns@), 0) == first_hit(hay@, texts(patterns@), i as int),
        decreases patterns.len() - i,
    {
        if text_contains(hay, patterns[i].as_str()) {
            return Some(&patterns[i]);
        }
        i += 1;
    }
    None
}

fn captured<'a>(groups: &'a Vec<Option<String>>, i: usize, fallback: &'a str) -> (text: &'a str)
    ensures
        text@ == group_or(group_texts(groups@), i as int, fallback@),
{
    if i < groups.len() {
        match &groups[i] {
            Some(s) => s.as_str(),
            None => fallback,
        }
    } else {
        fallback
    }
}

/// Classifies one request by the rules of `config`. `path` is the request
/// path in lower case.
pub fn classify_request(
    address: &str,
    path: &str,
    status: u16,
    user_agent: &str,
    config: &SecurityConfig,
) -> (verdict: LogStatus)
    ensures
        verdict@ == request_verdict(address@, path@, status, user_agent@, config@),
{
    if let Some(pattern) = first_match(path, &config.instant_ban) {
        return LogStatus::InstantBan(
            String::from_str(address),
            String::from_str("Instant Ban: ").concat(pattern.as_str()),
        );
    }
    if status == 404 || status == 403 {
        if let Some(file) = first_match(path, &config.sensitive_files) {
            return LogStatus::Suspicious(
                String::from_str(address),
                String::from_str("Probe: ").concat(file.as_str()),
            );
        }
    }
    if status == 401 || status == 400 || status == 404 {
        if let Some(attack) = first_match(path, &config.cms_attacks) {
            return LogStatus::Suspicious(
                String::from_str(address),
                String::from_str("CMS/Auth Attack: ").concat(attack.as_str()),
            );
        }
    }
    if text_contains(path, "union+select") || text_contains(path, "eval(") || text_contains(
        path,
        "<script>",
    ) {
        return LogStatus::Suspicious(
            String::from_str(address),
            String::from_str("Injection Attempt"),
        );
    }
    if first_match(user_agent, &config.bad_user_agents).is_some() {
        return LogStatus::Suspicious(
            String::from_str(address),
            String::from_str("Bad User Agent: ").concat(user_agent),
        );
    }
    LogStatus::Clean
}

/// Classifies a line from the capture groups that the record shape found
/// in it: the path is lower-cased, and a status code that cannot be read
/// counts as 200.
pub fn classify_groups(groups: &Vec<Option<String>>, config: &SecurityConfig) -> (verdict:
    LogStatus)
    ensures
        verdict@ == groups_verdict(group_texts(groups@), config@),
{
    let address = captured(groups, 1, "");
    let path = lowercase(captured(groups, 3, ""));
    let status = match parse_u16(captured(groups, 4, "200")) {
        Some(code) => code,
        None => 200,
    };
    let user_agent = captured(groups, 5, "");
    classify_request(address, path.as_str(), status, user_agent, config)
}

/// Classifies one line against one snapshot of the rules.
pub fn classify(line: &str, config: &SecurityConfig) -> (verdict: LogStatus)
    ensures
        verdict@ == line_verdict(line@, config@),
        regex_groups(LOG_PATTERN@, line@) is None ==> verdict@ == Verdict::Clean,
{
    match match_groups(LOG_PATTERN, line) {
        Some(groups) => classify_groups(&groups, config),
        None => LogStatus::Clean,
    }
}

/// The classifier together with the rule set it consults.
pub struct Parser {
    store: ConfigStore,
}

impl Parser {
    /// The rules that lines are classified against at present.
    pub closed spec fn rules(&self) -> ConfigModel {
        self.store@
    }

    /// A parser over the built-in defaults: no signatures are configured,
    /// so that only the fixed injection markers are found.
    pub fn new() -> (parser: Self)
        ensures
            parser.rules() == crate::config::default_model(),
    {
        Parser { store: ConfigStore::new() }
    }

    /// Publishes a freshly loaded configuration, or keeps the rules in
    /// force where loading failed.
    pub fn load_config(&mut self, loaded: Result<SecurityConfig, ConfigError>) -> (outcome:
        Result<(), ConfigError>)
        ensures
            match loaded {
                Ok(config) => outcome is Ok && final(self).rules() == config@,
                Err(e) => outcome is Err && outcome->Err_0 == e && final(self).rules() == old(
                    self,
                ).rules(),
            },
    {
        self.store.reload(loaded)
    }

    /// Classifies one line against the rules in force.
    pub fn parse_line(&self, line: &str) -> (verdict: LogStatus)
        ensures
            verdict@ == line_verdict(line@, self.rules()),
            regex_groups(LOG_PATTERN@, line@) is None ==> verdict@ == Verdict::Clean,
    {
        classify(line, self.store.current())
    }

    /// The snapshot of the rules in force.
    pub fn get_config(&self) -> (config: &SecurityConfig)
        ensures
            config@ == self.rules(),
    {
        self.store.current()
    }
}

/// The path of the configuration file: what the environment names, or the
/// default name where it names none.
pub fn config_path(named: Option<String>) -> (path: String)
    ensures
        path@ == (match named {
            Some(p) => p@,
            None => DEFAULT_CONFIG_PATH@,
        }),
{
    match named {
        Some(p) => p,
        None => String::from_str(DEFAULT_CONFIG_PATH),
    }
}

/// Where `first_hit` finds nothing from `from` on, none of those patterns
/// is part of `hay`; where it finds one, that one is part of `hay` and no
/// earlier one is.
pub proof fn first_hit_is_first(hay: Seq<char>, patterns: Seq<Seq<char>>, from: int)
    requires
        0 <= from,
    ensures
        first_hit(hay, patterns, from) is None <==> forall|k: int|
            from <= k < patterns.len() ==> !contains_text(hay, #[trigger] patterns[k]),
        first_hit(hay, patterns, from) is Some ==> exists|k: int|
            from <= k < patterns.len() && first_hit(hay, patterns, from) == Some(
                #[trigger] patterns[k],
            ) && contains_text(hay, patterns[k]) && forall|j: int|
                from <= j < k ==> !contains_text(hay, #[trigger] patterns[j]),
    decreases patterns.len() - from,
{
    if from < patterns.len() {
        first_hit_is_first(hay, patterns, from + 1);
        if contains_text(hay, patterns[from]) {
            assert(first_hit(hay, patterns, from) == Some(patterns[from]));
        } else {
            assert(first_hit(hay, patterns, from) == first_hit(hay, patterns, from + 1));
            if first_hit(hay, patterns, from) is Some {
                let k = choose|k: int|
                    from + 1 <= k < patterns.len() && first_hit(hay, patterns, from + 1) == Some(
                        #[trigger] patterns[k],
                    ) && contains_text(hay, patterns[k]) && forall|j: int|
                        from + 1 <= j < k ==> !contains_text(hay, #[trigger] patterns[j]);
                assert forall|j: int| from <= j < k implies !contains_text(
                    hay,
                    #[trigger] patterns[j],
                ) by {
                    if j == from {
                    }
                }
                assert(from <= k < patterns.len() && first_hit(hay, patterns, from) == Some(
                    patterns[k],
                ));
            }
        }
    }
}

/// A line that has not the shape of a record is clean under every rule set.
pub proof fn unshaped_line_is_clean(line: Seq<char>, config: ConfigModel)
    requires
        regex_groups(LOG_PATTERN@, line) is None,
    ensures
        line_verdict(line, config) == Verdict::Clean,
{
}

/// Instant ban comes first: a path that holds an instant-ban pattern gives
/// `InstantBan`, whatever the status code is and whatever else the path,
/// the user agent and the other rule sets would give.
pub proof fn instant_ban_comes_first(
    address: Seq<char>,
    path: Seq<char>,
    status: u16,
    user_agent: Seq<char>,
    config: ConfigModel,
)
    requires
        exists|k: int|
            0 <= k < config.instant_ban.len() && contains_text(
                path,
                #[trigger] config.instant_ban[k],
            ),
    ensures
        request_verdict(address, path, status, user_agent, config) is InstantBan,
        request_verdict(address, path, status, user_agent, config) == Verdict::InstantBan(
            address,
            "Instant Ban: "@ + first_hit(path, config.instant_ban, 0)->0,
        ),
{
    first_hit_is_first(path, config.instant_ban, 0);
}

/// The sensitive-file rule is gated by the status code: on any status but
/// 403 and 404 the verdict is what it would be with no sensitive files
/// configured at all.
pub proof fn sensitive_files_need_refusal(
    address: Seq<char>,
    path: Seq<char>,
    status: u16,
    user_agent: Seq<char>,
    config: ConfigModel,
)
    requires
        !probe_status(status),
    ensures
        request_verdict(address, path, status, user_agent, config) == request_verdict(
            address,
            path,
            status,
            user_agent,
            (ConfigModel { sensitive_files: Seq::empty(), ..config }),
        ),
{
}

/// On a status code that gates both counted rules off (any but 400, 401,
/// 403 and 404, so 200 among them), a request is clean whatever sensitive
/// files and CMS paths it touches, unless it holds an instant-ban pattern
/// or an injection marker or comes from a bad user agent.
pub proof fn served_request_is_clean(
    address: Seq<char>,
    path: Seq<char>,
    status: u16,
    user_agent: Seq<char>,
    config: ConfigModel,
)
    requires
        !probe_status(status),
        !attack_status(status),
        forall|k: int|
            0 <= k < config.instant_ban.len() ==> !contains_text(
                path,
                #[trigger] config.instant_ban[k],
            ),
        !injection_marked(path),
        forall|k: int|
            0 <= k < config.bad_user_agents.len() ==> !contains_text(
                user_agent,
                #[trigger] config.bad_user_agents[k],
            ),
    ensures
        request_verdict(address, path, status, user_agent, config) == Verdict::Clean,
{
    first_hit_is_first(path, config.instant_ban, 0);
    first_hit_is_first(user_agent, config.bad_user_agents, 0);
}

} // verus!
