//! Timers that track units of work through a lifecycle, the store that
//! persists them, and the read-only views that report on them.

pub mod actions;
pub mod clock;
pub mod collection;
pub mod dates;
pub mod duration;
pub mod row;
pub mod status;
pub mod storage;
pub mod timer;

pub use actions::{
    complete_timer, current_info, delete_timer, export, new_timer, show_last_n, show_list,
    show_stat, start_timer, stop_timer, ActionError, LogicError,
};
pub use collection::{ExportRecord, Stat, TimerCollection};
pub use duration::{split_seconds, TimeSpan};
pub use row::SQLTimerRow;
pub use status::TimerStatus;
pub use storage::{Storage, StorageError};
pub use timer::{Timer, TimerError};
