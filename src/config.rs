//! Decisions taken at startup: which mode the arguments select, the settings
//! with their defaults, the block range to index, and whether the schema must
//! be (re)created.
use vstd::prelude::*;

verus! {

/// The value of a run of decimal digits.
pub open spec fn digits_value(s: Seq<char>) -> int
    decreases s.len(),
{
    if s.len() == 0 {
        0
    } else {
        digits_value(s.drop_last()) * 10 + ((s.last() as u32) - ('0' as u32))
    }
}

pub open spec fn all_digits(s: Seq<char>) -> bool {
    forall|i: int| 0 <= i < s.len() ==> '0' <= #[trigger] s[i] && s[i] <= '9'
}

/// What `u64`'s `from_str` gives: an optional `+` followed by at least one
/// decimal digit, with a value that fits.
pub open spec fn decimal_u64(s: Seq<char>) -> Option<u64> {
    let d = if s.len() > 0 && s[0] == '+' {
        s.drop_first()
    } else {
        s
    };
    if d.len() > 0 && all_digits(d) && digits_value(d) <= u64::MAX {
        Some(digits_value(d) as u64)
    } else {
        None
    }
}

/// Relies on `u64`'s `FromStr`: an optional `+` sign and decimal digits, no
/// other character, and a value below 2^64.
#[verifier::external_body]
fn parse_u64(s: &str) -> (r: Option<u64>)
    ensures
        r == decimal_u64(s@),
{
    s.parse::<u64>().ok()
}

/// The mode selected by the command-line arguments.
#[derive(PartialEq, Eq, Structural, Clone, Copy, Debug)]
pub enum Command {
    Help,
    IndexAll,
    IndexLive,
    /// Index this many blocks up to the chain tip.
    IndexLast(u64),
    /// The arguments name no mode, or its count is not a number.
    Unknown,
    TooManyArguments,
}

/// Blocks produced per hour, at one block every six seconds.
pub const BLOCKS_PER_HOUR: u64 = 600;

pub open spec fn is_help_word(a: Seq<char>) -> bool {
    a == "help"@ || a == "--help"@ || a == "-h"@ || a == "-v"@ || a == "--version"@
}

/// `n` scaled by `factor`, when the product fits.
pub open spec fn scaled(n: Option<u64>, factor: int) -> Command {
    match n {
        Some(v) => if v * factor <= u64::MAX {
            Command::IndexLast((v * factor) as u64)
        } else {
            Command::Unknown
        },
        None => Command::Unknown,
    }
}

/// The mode for the arguments that follow the program name.
pub open spec fn command_of(args: Seq<Seq<char>>) -> Command {
    if args.len() == 0 {
        Command::Help
    } else if args.len() == 1 {
        if args[0] == "index_all"@ {
            Command::IndexAll
        } else if args[0] == "index_live"@ {
            Command::IndexLive
        } else if is_help_word(args[0]) {
            Command::Help
        } else {
            Command::Unknown
        }
    } else if args.len() == 2 {
        if args[0] == "index_last"@ {
            scaled(decimal_u64(args[1]), 1)
        } else if args[0] == "index_last_hours"@ {
            scaled(decimal_u64(args[1]), 600)
        } else if args[0] == "index_last_days"@ {
            scaled(decimal_u64(args[1]), 14400)
        } else {
            Command::Unknown
        }
    } else {
        Command::TooManyArguments
    }
}

fn is_word(s: &String, w: &str) -> (r: bool)
    ensures
        r == (s@ == w@),
{
    *s == String::from_str(w)
}

fn scale(n: Option<u64>, factor: u64) -> (r: Command)
    ensures
        r == scaled(n, factor as int),
{
    match n {
        Some(v) => match v.checked_mul(factor) {
            Some(p) => Command::IndexLast(p),
            None => Command::Unknown,
        },
        None => Command::Unknown,
    }
}

/// Reads the mode from the arguments that follow the program name.
pub fn parse_command(args: &Vec<String>) -> (r: Command)
    ensures
        r == command_of(args@.map_values(|s: String| s@)),
{
    let ghost view = args@.map_values(|s: String| s@);
    if args.len() == 0 {
        Command::Help
    } else if args.len() == 1 {
        let a = &args[0];
        assert(view[0] == a@);
        if is_word(a, "index_all") {
            Command::IndexAll
        } else if is_word(a, "index_live") {
            Command::IndexLive
        } else if is_word(a, "help") || is_word(a, "--help") || is_word(a, "-h") || is_word(a, "-v")
            || is_word(a, "--version") {
            Command::Help
        } else {
            Command::Unknown
        }
    } else if args.len() == 2 {
        let a = &args[0];
        let n = parse_u64(args[1].as_str());
        assert(view[0] == a@);
        assert(view[1] == args@[1]@);
        if is_word(a, "index_last") {
            scale(n, 1)
        } else if is_word(a, "index_last_hours") {
            scale(n, BLOCKS_PER_HOUR)
        } else if is_word(a, "index_last_days") {
            scale(n, 24 * BLOCKS_PER_HOUR)
        } else {
            Command::Unknown
        }
    } else {
        Command::TooManyArguments
    }
}

/// A numeric setting: its value when it is set and reads as a number, the
/// default otherwise.
pub fn setting_or(raw: Option<String>, default: u64) -> (r: u64)
    ensures
        r == match raw {
            Some(s) => match decimal_u64(s@) {
                Some(v) => v,
                None => default,
            },
            None => default,
        },
{
    match raw {
        Some(s) => match parse_u64(s.as_str()) {
            Some(v) => v,
            None => default,
        },
        None => default,
    }
}

/// A setting that must be positive (a pool size, a concurrency bound): its
/// value when it is set and reads as a positive number, the default otherwise.
pub fn positive_setting_or(raw: Option<String>, default: u64) -> (r: u64)
    requires
        default > 0,
    ensures
        r > 0,
        r == match raw {
            Some(s) => match decimal_u64(s@) {
                Some(v) => if v > 0 {
                    v
                } else {
                    default
                },
                None => default,
            },
            None => default,
        },
{
    let v = setting_or(raw, default);
    if v > 0 {
        v
    } else {
        default
    }
}

/// The range of the last `n` blocks up to `latest` (from block 0 when the
/// chain is shorter); none for zero blocks.
pub fn last_blocks_range(latest: u64, n: u64) -> (r: Option<(u64, u64)>)
    ensures
        n == 0 ==> r is None,
        n > 0 ==> r == Some((if n - 1 <= latest { (latest - (n - 1)) as u64 } else { 0u64 }, latest)),
{
    if n == 0 {
        None
    } else if n - 1 <= latest {
        Some((latest - (n - 1), latest))
    } else {
        Some((0, latest))
    }
}

/// Whether the schema must be created: no version is recorded, or another one.
pub fn needs_schema_init(stored: Option<String>, current: &String) -> (r: bool)
    ensures
        r == match stored {
            Some(v) => v@ != current@,
            None => true,
        },
{
    match stored {
        Some(v) => v != *current,
        None => true,
    }
}

} // verus!
