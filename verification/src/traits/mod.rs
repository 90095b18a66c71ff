pub mod cdn;
pub mod dbi;
pub mod login;
pub mod ringing;
pub mod substitution;
pub mod timeline;
pub mod timetable;

pub use dbi::DBI;
pub use login::{Handshake, LoginAction, LoginCredentials, LoginEvent};
pub use ringing::{NextDayPart, Ringing};
pub use timeline::Timeline;
pub use timetable::{LessonQuery, Timetable, TimetableIntoIterator};
