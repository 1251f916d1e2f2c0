//! A geolocation access layer: the error model and the decoding of the host's
//! failure payloads, the configuration of position requests, the decision of
//! how to serve a request or a watch, and the lifecycle of a watch, which is
//! cleared on the host at most once.

pub mod error;
pub mod options;
pub mod plan;
pub mod watch;

pub use error::{
    decode_error, map_code, PositionError, PositionErrorCode, RawField, RawPositionError,
};
pub use options::{effective_options, PositionOptions, NO_TIMEOUT};
pub use plan::{plan_host_call, HostCall};
pub use watch::{watch_started, WatchPositionTask};
