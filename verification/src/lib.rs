//! The state-and-timing core of an alarm clock that starts music at set times:
//! the registry of alarms, the rule that decides which alarm is due at a given
//! moment, and the time utilities around them.
//!
//! The library reads no file and plays no sound. It decides, and says in its
//! contracts what it decides; the caller reads, writes and plays.

pub mod alarm;
pub mod audio;
pub mod clock;
pub mod entry;
pub mod error;
pub mod playback;
pub mod registry;
pub mod spotify;
pub mod storage;
pub mod text;

pub use crate::clock::{Moment, TimeOfDay, Weekday};
pub use crate::entry::AlarmEntry;
pub use crate::error::ErrorKind;
pub use crate::registry::AppState;
pub use crate::storage::AppConfig;
