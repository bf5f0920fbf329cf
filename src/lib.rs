//! Export of camera frames, camera poses and debug lines through named
//! shared-memory regions, with the recording logic that decides when frames
//! are written.
//!
//! The library works on the bytes of a region as a slice: mapping a region
//! into the process is left to the host, and every access here is checked
//! against the region's length before it happens. Coordinates travel as the
//! bit patterns of 32-bit floats, so that what is stored is exactly what was
//! handed in.
pub mod camera;
pub mod channel;
pub mod frame;
pub mod line;
pub mod pose;
pub mod record;
pub mod session;

pub use camera::{assign_camera_indices, cameras_before, has_prefix, is_camera_name, starts_with};
pub use channel::{
    check_attached, holds_words, prepare_region, lemma_words_round_trip, read_words, same_outside,
    step_after_create, word_at, words_at, write_bytes_at, write_words, zero_fill, CreateOutcome,
    OpenStep, SegmentError,
};
pub use frame::{rgba8_of, EncodeError, MyCustomEncoder, CHANNELS};
pub use line::{
    lemma_line_round_trip, line_in, line_offset, line_stored, LineBuffer, LINE_RECORD_BYTES,
};
pub use pose::{
    lemma_pose_round_trip, lemma_pose_write_keeps_other_records, pose_in, pose_offset,
    pose_stored, PoseBuffer, POSE_RECORD_BYTES,
};
pub use record::{LineRecord, PoseRecord, Vec3Bits};
pub use session::{
    capture_after, lemma_recorded_then_paused, lemma_single_shot_stops_after_one_more_tick,
    tick_result, CaptureState, Recording, TickAction,
};
