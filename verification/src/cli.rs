//! The plain-value half of command-line handling.
//!
//! The host program matches flags and hands the raw values here: this module
//! splits the invoking argument list at the `--` separator, turns the raw
//! option values into a [`MonitorOptions`], and validates the target. All
//! decisions are made here; the host only reads flags and prints errors.

use vstd::prelude::*;

use crate::options::LaunchOptions;
use crate::options::MonitorOptions;
use crate::options::UsageError;
use crate::parse::parse_i32;
use crate::parse::parsed_i32;

verus! {

/// The argument that separates the supervisor's own options from the
/// arguments passed through to the target.
pub open spec fn separator() -> Seq<char> {
    "--"@
}

/// The sequence with every separator argument dropped, other elements kept
/// in order.
pub open spec fn strip_separators(s: Seq<String>) -> Seq<String>
    decreases s.len(),
{
    if s.len() == 0 {
        s
    } else if s.last()@ == separator() {
        strip_separators(s.drop_last())
    } else {
        strip_separators(s.drop_last()).push(s.last())
    }
}

/// Split the invoking arguments at the first `--`: the first part is
/// everything before it (the supervisor's own arguments), the second is
/// everything after it, handed to the target verbatim except that any
/// further `--` is dropped too.
pub fn split_passthrough(args: &Vec<String>) -> (r: (Vec<String>, Vec<String>))
    ensures
        r.0@.len() <= args@.len(),
        forall|j: int| 0 <= j < r.0@.len() ==> r.0@[j] == args@[j] && args@[j]@ != separator(),
        r.0@.len() < args@.len() ==> args@[r.0@.len() as int]@ == separator() && r.1@
            == strip_separators(args@.subrange(r.0@.len() as int + 1, args@.len() as int)),
        r.0@.len() == args@.len() ==> r.1@.len() == 0,
{
    let sep: String = "--".to_owned();
    let mut head: Vec<String> = Vec::new();
    let mut tail: Vec<String> = Vec::new();
    let mut separator_found = false;
    let mut i: usize = 0;
    while i < args.len()
        invariant
            i <= args@.len(),
            sep@ == separator(),
            !separator_found ==> {
                &&& head@.len() == i
                &&& forall|j: int| 0 <= j < i ==> head@[j] == args@[j] && args@[j]@ != separator()
                &&& tail@.len() == 0
            },
            separator_found ==> {
                &&& head@.len() < i
                &&& forall|j: int|
                    0 <= j < head@.len() ==> head@[j] == args@[j] && args@[j]@ != separator()
                &&& args@[head@.len() as int]@ == separator()
                &&& tail@ == strip_separators(args@.subrange(head@.len() as int + 1, i as int))
            },
        decreases args@.len() - i,
    {
        let is_sep = args[i] == sep;
        if is_sep {
            if separator_found {
                proof {
                    let pre = args@.subrange(head@.len() as int + 1, i as int);
                    let post = args@.subrange(head@.len() as int + 1, i as int + 1);
                    assert(post.drop_last() =~= pre);
                    assert(post.last() == args@[i as int]);
                }
            } else {
                separator_found = true;
                proof {
                    assert(args@.subrange(head@.len() as int + 1, i as int + 1) =~= Seq::<
                        String,
                    >::empty());
                }
            }
        } else {
            if separator_found {
                proof {
                    let pre = args@.subrange(head@.len() as int + 1, i as int);
                    let post = args@.subrange(head@.len() as int + 1, i as int + 1);
                    assert(post.drop_last() =~= pre);
                    assert(post.last() == args@[i as int]);
                }
                tail.push(args[i].clone());
            } else {
                head.push(args[i].clone());
            }
        }
        i = i + 1;
    }
    (head, tail)
}

/// The raw value of a numeric option is present but does not parse as a
/// decimal `i32`.
pub open spec fn numeric_arg_bad(arg: Option<Vec<u8>>) -> bool {
    arg matches Some(s) && parsed_i32(s@) is None
}

/// Build the policy from the matched command-line values: the flag for
/// always-restart, the raw bytes of the two numeric options, and the three
/// optional paths. A numeric option that does not parse is a usage error;
/// the maximum-restarts value is checked first.
pub fn configure_monitor(
    restart_always: bool,
    max_restarts_arg: Option<Vec<u8>>,
    restart_interval_arg: Option<Vec<u8>>,
    stdout_path: Option<String>,
    stderr_path: Option<String>,
    log_path: Option<String>,
) -> (r: Result<MonitorOptions, UsageError>)
    ensures
        r is Err <==> numeric_arg_bad(max_restarts_arg) || numeric_arg_bad(restart_interval_arg),
        numeric_arg_bad(max_restarts_arg) ==> r == Result::<MonitorOptions, UsageError>::Err(
            UsageError::InvalidMaxRestarts,
        ),
        !numeric_arg_bad(max_restarts_arg) && numeric_arg_bad(restart_interval_arg) ==> r
            == Result::<MonitorOptions, UsageError>::Err(UsageError::InvalidRestartInterval),
        r matches Ok(opts) ==> {
            &&& opts.restart_always == restart_always
            &&& (match max_restarts_arg {
                Some(s) => parsed_i32(s@) matches Some(v) && opts.max_restarts == Some(v as i32),
                None => opts.max_restarts is None,
            })
            &&& (match restart_interval_arg {
                Some(s) => parsed_i32(s@) matches Some(v) && opts.restart_interval == Some(
                    v as i32,
                ),
                None => opts.restart_interval is None,
            })
            &&& opts.stdout == stdout_path
            &&& opts.stderr == stderr_path
            &&& opts.log == log_path
        },
{
    let mut opts = MonitorOptions::new();
    opts.restart_always = restart_always;
    match &max_restarts_arg {
        Option::Some(s) => {
            match parse_i32(s) {
                Option::Some(v) => {
                    opts.max_restarts = Option::Some(v);
                },
                Option::None => {
                    return Result::Err(UsageError::InvalidMaxRestarts);
                },
            }
        },
        Option::None => {},
    }
    match &restart_interval_arg {
        Option::Some(s) => {
            match parse_i32(s) {
                Option::Some(v) => {
                    opts.restart_interval = Option::Some(v);
                },
                Option::None => {
                    return Result::Err(UsageError::InvalidRestartInterval);
                },
            }
        },
        Option::None => {},
    }
    opts.stdout = stdout_path;
    opts.stderr = stderr_path;
    opts.log = log_path;
    Result::Ok(opts)
}

/// Validate the target: exactly one must be named. On success, pair it with
/// the pass-through arguments for the launch.
pub fn make_launch_options(targets: Vec<String>, passthrough: Vec<String>) -> (r: Result<
    LaunchOptions,
    UsageError,
>)
    ensures
        r is Ok <==> targets@.len() == 1,
        r matches Ok(l) ==> l.exe == targets@[0] && l.args == passthrough,
        r is Err ==> r == Result::<LaunchOptions, UsageError>::Err(UsageError::InvalidTarget),
{
    if targets.len() != 1 {
        return Result::Err(UsageError::InvalidTarget);
    }
    let mut targets = targets;
    let exe = targets.remove(0);
    Result::Ok(LaunchOptions { exe, args: passthrough })
}

} // verus!
