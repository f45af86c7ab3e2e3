use vstd::prelude::*;

use crate::error::Error;
use crate::text::str_eq;

verus! {

/// Where log messages go.
#[derive(Debug, Clone, Copy, PartialEq, Eq, Structural)]
pub enum LogSystem {
    SysLog,
    StdErr,
}

/// The most verbose level of messages that are kept.
#[derive(Debug, Clone, Copy, PartialEq, Eq, Structural)]
pub enum LevelFilter {
    Off,
    Error,
    Warn,
    Info,
    Debug,
    Trace,
}

/// The level that a level name stands for, if it is a known one.
pub open spec fn level_named(name: Seq<char>) -> Option<LevelFilter> {
    if name == "error"@ {
        Some(LevelFilter::Error)
    } else if name == "warn"@ {
        Some(LevelFilter::Warn)
    } else if name == "info"@ {
        Some(LevelFilter::Info)
    } else if name == "debug"@ {
        Some(LevelFilter::Debug)
    } else if name == "trace"@ {
        Some(LevelFilter::Trace)
    } else {
        None
    }
}

/// The sink chosen from the two switches: syslog wins over stderr, and
/// neither leaves the default.
pub open spec fn chosen_system(has_syslog: bool, has_stderr: bool) -> LogSystem {
    if has_syslog {
        LogSystem::SysLog
    } else if has_stderr {
        LogSystem::StdErr
    } else {
        crate::DEFAULT_LOG_SYSTEM
    }
}

fn get_loglevel(log_level: Option<&str>) -> (r: Result<LevelFilter, Error>)
    ensures
        log_level is None ==> r == Ok::<LevelFilter, Error>(crate::DEFAULT_LOG_LEVEL),
        log_level matches Some(v) ==> match level_named(v@) {
            Some(l) => r == Ok::<LevelFilter, Error>(l),
            None => r matches Err(Error::InvalidLogLevel(s)) && s@ == v@,
        },
{
    match log_level {
        Some(v) => {
            if str_eq(v, "error") {
                Ok(LevelFilter::Error)
            } else if str_eq(v, "warn") {
                Ok(LevelFilter::Warn)
            } else if str_eq(v, "info") {
                Ok(LevelFilter::Info)
            } else if str_eq(v, "debug") {
                Ok(LevelFilter::Debug)
            } else if str_eq(v, "trace") {
                Ok(LevelFilter::Trace)
            } else {
                Err(Error::InvalidLogLevel(v.to_owned()))
            }
        },
        None => Ok(crate::DEFAULT_LOG_LEVEL),
    }
}

/// Chooses the log sink and the level. Starting the sink is left to the
/// caller, which does so with the pair returned.
pub fn set_log_system(log_level: Option<&str>, has_syslog: bool, has_stderr: bool) -> (r: Result<
    (LogSystem, LevelFilter),
    Error,
>)
    ensures
        log_level is None ==> r == Ok::<(LogSystem, LevelFilter), Error>(
            (chosen_system(has_syslog, has_stderr), crate::DEFAULT_LOG_LEVEL),
        ),
        log_level matches Some(v) ==> match level_named(v@) {
            Some(l) => r == Ok::<(LogSystem, LevelFilter), Error>(
                (chosen_system(has_syslog, has_stderr), l),
            ),
            None => r matches Err(Error::InvalidLogLevel(s)) && s@ == v@,
        },
{
    let level = match get_loglevel(log_level) {
        Ok(l) => l,
        Err(e) => {
            return Err(e);
        },
    };
    let mut logtype = crate::DEFAULT_LOG_SYSTEM;
    if has_stderr {
        logtype = LogSystem::StdErr;
    }
    if has_syslog {
        logtype = LogSystem::SysLog;
    }
    Ok((logtype, level))
}

} // verus!
