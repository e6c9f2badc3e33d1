//! Default filesystem paths used by CapeOS services, and the release version.
use vstd::prelude::*;

verus! {

/// Default configuration directory path.
pub const DEFAULT_CONFIG_PATH: &'static str = "/etc/capeos";

/// Default data directory path.
pub const DEFAULT_DATA_PATH: &'static str = "/var/lib/capeos";

/// Default file storage directory path.
pub const DEFAULT_FILE_PATH: &'static str = "/var/lib/capeos/files";

/// Default log directory path.
pub const DEFAULT_LOG_PATH: &'static str = "/var/log/capeos";

/// Default runtime directory path (PID files, sockets, etc.).
pub const DEFAULT_RUNTIME_PATH: &'static str = "/var/run/capeos";

/// Default database directory path.
pub const DEFAULT_DB_PATH: &'static str = "/var/lib/capeos/db";

/// The release version of CapeOS.
pub const VERSION: &'static str = "0.1.0";

} // verus!
