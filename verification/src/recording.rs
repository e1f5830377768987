//! The recording session coordinator: starting and stopping the one
//! recording in progress, across short-lived processes that share nothing but
//! the session store, the session lock and the process table.

pub mod laws;
pub mod session;
pub mod start;
pub mod status;
pub mod stop;
pub mod world;

pub use session::{store_path, Key, Reply, ReplyView, Request, RequestView, Step, StepView};
pub use status::{
    begin_status, check_recording, is_recording, record_target, RecordProbe, StatusPhase,
    StatusState,
};
pub use start::{
    capture_invocation, start_recording, started_notice, StartOutcome, StartOutcomeView,
    StartPhase, StartState,
};
pub use stop::{stop_recording, StopOutcome, StopOutcomeView, StopPhase, StopState};
