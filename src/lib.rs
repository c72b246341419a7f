//! Core of a sensor plausibility node: framing of serial readings, the
//! per-tick decision, calibration rows, and the configuration values it reads.

pub mod calibration;
pub mod config;
pub mod frame;
pub mod outputs;
pub mod readings;
pub mod tick;

pub use calibration::{calibration_fields, CalibrationError, CalibrationText};
pub use config::{parse_baud, ConfigError};
pub use frame::{frame_text, PayloadError, TERMINATOR_LEN};
pub use outputs::{
    outputs, parameter_key, Output, Quantity, FILTERED_CHANNEL, MEAN_ENTRY, NODE_NAME,
    SCORE_CHANNEL, VARIANCE_ENTRY,
};
pub use readings::reading_sum;
pub use tick::{plan_tick, ReadOutcome, TickAction};
