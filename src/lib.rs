use vstd::prelude::*;

pub mod error;
pub mod logs;
pub mod nonce;
pub mod storage;
pub mod text;
pub mod transport;
pub mod acme_error;

verus! {

/// Name under which the client identifies itself.
pub const APP_NAME: &'static str = "ACMEd";

/// Version under which the client identifies itself.
pub const APP_VERSION: &'static str = "0.1.0";

/// How many times a signed request is attempted before giving up.
pub const DEFAULT_HTTP_FAIL_NB_RETRY: usize = 10;

/// Seconds to wait after a recoverable server error before trying again.
pub const DEFAULT_HTTP_FAIL_WAIT_SEC: u64 = 1;

/// Access mode of the account key files.
pub const DEFAULT_ACCOUNT_FILE_MODE: u32 = 0o600;

/// Default access mode of certificate files.
pub const DEFAULT_CERT_FILE_MODE: u32 = 0o644;

/// Default access mode of certificate private-key files.
pub const DEFAULT_PK_FILE_MODE: u32 = 0o600;

/// Log sink used when none is asked for.
pub const DEFAULT_LOG_SYSTEM: logs::LogSystem = logs::LogSystem::SysLog;

/// Log level used when none is asked for.
pub const DEFAULT_LOG_LEVEL: logs::LevelFilter = logs::LevelFilter::Warn;

} // verus!
