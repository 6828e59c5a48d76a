//! When the user interface writes to its trace.
use crate::text::same_text;
use vstd::prelude::*;

verus! {

/// How long a step may take before it is traced, in nanoseconds.
pub const SLOW_NANOS: u128 = 75_000_000;

/// Whether the trace is written: where the variable `WTA_UI_TRACE` does not
/// say, it is in debug builds and where `WTA_DEBUG_LOG` is 1.
pub fn ui_trace_enabled(trace: Option<&str>, debug_build: bool, debug_log: Option<&str>) -> (yes:
    bool)
    ensures
        yes == match trace {
            Some(trace) => if trace@ == "0"@ {
                false
            } else if trace@ == "1"@ {
                true
            } else {
                debug_build || (debug_log matches Some(log) && log@ == "1"@)
            },
            None => debug_build || (debug_log matches Some(log) && log@ == "1"@),
        },
{
    if let Some(trace) = trace {
        if same_text(trace, "0") {
            proof {
                reveal_strlit("0");
                reveal_strlit("1");
            }
            return false;
        }
        if same_text(trace, "1") {
            return true;
        }
    }
    debug_build || match debug_log {
        Some(log) => same_text(log, "1"),
        None => false,
    }
}

/// The line that a step leaves in the trace: none where it was quick. `millis`
/// is its time in milliseconds as it is printed. The details are asked for only
/// where there is a line.
pub fn log_slow<F: FnOnce() -> String>(
    scope: &str,
    elapsed_nanos: u128,
    millis: &str,
    details: F,
) -> (line: Option<String>)
    requires
        call_requires(details, ()),
    ensures
        match line {
            None => elapsed_nanos < SLOW_NANOS,
            Some(line) => elapsed_nanos >= SLOW_NANOS && exists|more: String|
                #[trigger] call_ensures(details, (), more) && line@ == "slow "@ + scope@ + " "@
                    + millis@ + "ms "@ + more@,
        },
{
    if elapsed_nanos < SLOW_NANOS {
        return None;
    }
    let more = details();
    let mut line = "slow ".to_owned();
    line.append(scope);
    line.append(" ");
    line.append(millis);
    line.append("ms ");
    line.append(more.as_str());
    Some(line)
}

} // verus!
