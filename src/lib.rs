//! Screen-watching agent core: blank-frame filtering, fingerprint-based change
//! detection, event construction, the control-line protocol and the timer
//! decisions of the scheduling loop.

mod agent;
mod blank;
mod command;
mod config;
mod detect;
mod frame;
mod laws;
mod outside;

pub use agent::{
    make_image_id, SameScreenEvent, ScreenAgent, ScreenEvent, ScreenOutput, Screenshot, TaskError,
    TimerState,
};
pub use blank::{is_blank, lemma_blank_depends_on_samples_only, SAMPLE_STRIDE};
pub use command::{parse_line, process_line, split_command, LineAction};
pub use config::{AgentConfig, Args, ConfigError, ConfigField, ConfigFields};
pub use detect::{
    fast_downsample, get_difference_ratio2, ratio_below, DiffRatio, Fingerprint, SCALE, SENSITIVITY,
};
pub use frame::{Frame, FrameError};
pub use laws::{
    lemma_all_pixels_changed_is_different, lemma_first_frame_is_different,
    lemma_identical_frames_are_same, lemma_size_change_is_different,
};
