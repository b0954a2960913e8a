//! The commands by which an address set of the packet filter is made,
//! hooked into the input chain and filled. Running them is the caller's part.

use crate::config::texts;
use vstd::prelude::*;
use vstd::string::StringExecFns;

verus! {

/// The name of the address set that holds the banned addresses.
pub const SET_NAME: &'static str = "siest_sentinel";

/// The arguments of `ipset` that make the set `name`, with timeouts, and
/// succeed where it exists already.
pub open spec fn create_set_line(name: Seq<char>) -> Seq<Seq<char>> {
    seq!["create"@, name, "hash:ip"@, "timeout"@, "0"@, "-exist"@]
}

/// The arguments of `iptables` that ask whether the rule that drops what
/// comes from an address of the set `name` is in the input chain.
pub open spec fn check_rule_line(name: Seq<char>) -> Seq<Seq<char>> {
    seq!["-C"@, "INPUT"@, "-m"@, "set"@, "--match-set"@, name, "src"@, "-j"@, "DROP"@]
}

/// The arguments of `iptables` that put that rule first in the input chain.
pub open spec fn insert_rule_line(name: Seq<char>) -> Seq<Seq<char>> {
    seq!["-I"@, "INPUT"@, "1"@, "-m"@, "set"@, "--match-set"@, name, "src"@, "-j"@, "DROP"@]
}

/// The arguments of `ipset` that add `ip` to the set `name` for the
/// seconds that `timeout` spells, and renew the entry where the address
/// is in the set already.
pub open spec fn ban_line(name: Seq<char>, ip: Seq<char>, timeout: Seq<char>) -> Seq<Seq<char>> {
    seq!["add"@, name, ip, "timeout"@, timeout, "-exist"@]
}

/// The character that spells a digit below ten.
pub open spec fn digit_char(d: nat) -> char {
    if d == 0 {
        '0'
    } else if d == 1 {
        '1'
    } else if d == 2 {
        '2'
    } else if d == 3 {
        '3'
    } else if d == 4 {
        '4'
    } else if d == 5 {
        '5'
    } else if d == 6 {
        '6'
    } else if d == 7 {
        '7'
    } else if d == 8 {
        '8'
    } else {
        '9'
    }
}

/// A number in decimal digits, without leading zeros.
pub open spec fn decimal_text(n: nat) -> Seq<char>
    decreases n,
{
    if n < 10 {
        seq![digit_char(n)]
    } else {
        decimal_text(n / 10).push(digit_char(n % 10))
    }
}

fn digit_text(d: usize) -> (text: &'static str)
    requires
        d < 10,
    ensures
        text@ == seq![digit_char(d as nat)],
{
    if d == 0 {
        proof {
            reveal_strlit("0");
        }
        assert("0"@ =~= seq![digit_char(0)]);
        "0"
    } else if d == 1 {
        proof {
            reveal_strlit("1");
        }
        assert("1"@ =~= seq![digit_char(1)]);
        "1"
    } else if d == 2 {
        proof {
            reveal_strlit("2");
        }
        assert("2"@ =~= seq![digit_char(2)]);
        "2"
    } else if d == 3 {
        proof {
            reveal_strlit("3");
        }
        assert("3"@ =~= seq![digit_char(3)]);
        "3"
    } else if d == 4 {
        proof {
            reveal_strlit("4");
        }
        assert("4"@ =~= seq![digit_char(4)]);
        "4"
    } else if d == 5 {
        proof {
            reveal_strlit("5");
        }
        assert("5"@ =~= seq![digit_char(5)]);
        "5"
    } else if d == 6 {
        proof {
            reveal_strlit("6");
        }
        assert("6"@ =~= seq![digit_char(6)]);
        "6"
    } else if d == 7 {
        proof {
            reveal_strlit("7");
        }
        assert("7"@ =~= seq![digit_char(7)]);
        "7"
    } else if d == 8 {
        proof {
            reveal_strlit("8");
        }
        assert("8"@ =~= seq![digit_char(8)]);
        "8"
    } else {
        proof {
            reveal_strlit("9");
        }
        assert("9"@ =~= seq![digit_char(9)]);
        "9"
    }
}

/// Spells a number in decimal digits.
pub fn decimal(n: usize) -> (text: String)
    ensures
        text@ == decimal_text(n as nat),
{
    let mut rest: usize = n / 10;
    let mut text = String::from_str(digit_text(n % 10));
    assert(decimal_text(n as nat) =~= (if rest == 0 {
        Seq::<char>::empty()
    } else {
        decimal_text(rest as nat)
    }) + text@);
    while rest > 0
        invariant
            decimal_text(n as nat) == (if rest == 0 {
                Seq::<char>::empty()
            } else {
                decimal_text(rest as nat)
            }) + text@,
        decreases rest,
    {
        let ghost before = text@;
        let ghost digit = digit_char((rest % 10) as nat);
        text = String::from_str(digit_text(rest % 10)).concat(text.as_str());
        assert(text@ =~= seq![digit] + before);
        assert(decimal_text(rest as nat) + before =~= (if rest / 10 == 0 {
            Seq::<char>::empty()
        } else {
            decimal_text((rest / 10) as nat)
        }) + (seq![digit] + before));
        rest = rest / 10;
    }
    text
}

/// The packet filter's address set, by its name.
pub struct IpSetFirewall {
    set_name: String,
}

impl IpSetFirewall {
    /// The name of the set.
    pub closed spec fn name(&self) -> Seq<char> {
        self.set_name@
    }

    /// The firewall over the set named `SET_NAME`. Nothing is run yet.
    pub fn new() -> (firewall: Self)
        ensures
            firewall.name() == SET_NAME@,
    {
        IpSetFirewall { set_name: String::from_str(SET_NAME) }
    }

    /// The name of the set, as the commands spell it.
    pub fn set_name(&self) -> (name: &str)
        ensures
            name@ == self.name(),
    {
        self.set_name.as_str()
    }

    /// The arguments for `ipset` that make the set.
    pub fn create_set_args(&self) -> (args: Vec<String>)
        ensures
            texts(args@) == create_set_line(self.name()),
    {
        let mut args: Vec<String> = Vec::new();
        args.push(String::from_str("create"));
        args.push(self.set_name.clone());
        args.push(String::from_str("hash:ip"));
        args.push(String::from_str("timeout"));
        args.push(String::from_str("0"));
        args.push(String::from_str("-exist"));
        assert(texts(args@) =~= create_set_line(self.name()));
        args
    }

    /// The arguments for `iptables` that ask whether the drop rule is installed.
    pub fn check_rule_args(&self) -> (args: Vec<String>)
        ensures
            texts(args@) == check_rule_line(self.name()),
    {
        let mut args: Vec<String> = Vec::new();
        args.push(String::from_str("-C"));
        args.push(String::from_str("INPUT"));
        args.push(String::from_str("-m"));
        args.push(String::from_str("set"));
        args.push(String::from_str("--match-set"));
        args.push(self.set_name.clone());
        args.push(String::from_str("src"));
        args.push(String::from_str("-j"));
        args.push(String::from_str("DROP"));
        assert(texts(args@) =~= check_rule_line(self.name()));
        args
    }

    /// The arguments for `iptables` that install the drop rule.
    pub fn insert_rule_args(&self) -> (args: Vec<String>)
        ensures
            texts(args@) == insert_rule_line(self.name()),
    {
        let mut args: Vec<String> = Vec::new();
        args.push(String::from_str("-I"));
        args.push(String::from_str("INPUT"));
        args.push(String::from_str("1"));
        args.push(String::from_str("-m"));
        args.push(String::from_str("set"));
        args.push(String::from_str("--match-set"));
        args.push(self.set_name.clone());
        args.push(String::from_str("src"));
        args.push(String::from_str("-j"));
        args.push(String::from_str("DROP"));
        assert(texts(args@) =~= insert_rule_line(self.name()));
        args
    }

    /// Whether the drop rule has to be installed, given how the query for
    /// it went: `None` where the query could not be run, else whether it
    /// found the rule.
    pub fn rule_missing(check: Option<bool>) -> (missing: bool)
        ensures
            missing == (check != Some(true)),
    {
        match check {
            Some(found) => !found,
            None => true,
        }
    }

    /// The arguments for `ipset` that ban `ip` for `duration` seconds.
    pub fn ban_ip_args(&self, ip: &str, duration: usize) -> (args: Vec<String>)
        ensures
            texts(args@) == ban_line(self.name(), ip@, decimal_text(duration as nat)),
    {
        let mut args: Vec<String> = Vec::new();
        args.push(String::from_str("add"));
        args.push(self.set_name.clone());
        args.push(String::from_str(ip));
        args.push(String::from_str("timeout"));
        args.push(decimal(duration));
        args.push(String::from_str("-exist"));
        assert(texts(args@) =~= ban_line(self.name(), ip@, decimal_text(duration as nat)));
        args
    }

    /// What a run of a command comes to: success, or the failure under
    /// `what` with the command's error output.
    pub fn command_outcome(success: bool, what: &str, stderr: &str) -> (outcome: Result<
        (),
        String,
    >)
        ensures
            success ==> outcome is Ok,
            !success ==> outcome is Err && outcome->Err_0@ == what@ + ": "@ + stderr@,
    {
        if success {
            Ok(())
        } else {
            Err(String::from_str(what).concat(": ").concat(stderr))
        }
    }
}

} // verus!
