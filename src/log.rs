use crate::strings::{foreign_bytes_of, has_no_nul, string_to_c_char, ForeignString};
use vstd::prelude::*;
use vstd::string::StringExecFns;

verus! {

/// The tag under which debug messages go to the OS log.
pub const LOG_TAG: &'static str = "RustyToodle";

/// The OS log's priority for debug messages.
pub const LOG_PRIORITY_DEBUG: i32 = 3;

/// Where debug messages go. The build picks one for the life of the process.
#[derive(Clone, Copy, Debug, PartialEq, Eq, Structural)]
pub enum LogSink {
    /// Messages are dropped.
    Disabled,
    /// Each message is written to standard error as a line.
    StandardError,
    /// Each message is handed to the OS log, tagged and at debug priority.
    OsLog,
}

/// What is to be done with one debug message.
#[derive(Debug)]
pub enum LogAction {
    Nothing,
    /// Write this text, newline included, to standard error.
    WriteStandardError(String),
    /// Hand this tag and message to the OS log's write call at this priority.
    WriteOsLog { priority: i32, tag: ForeignString, message: ForeignString },
}

/// Writes a debug message where the build sends such messages; in the default
/// configuration nowhere.
pub fn d(_message: &str) {
}

/// Decides what becomes of `message` under `sink`. Each call stands alone:
/// nothing is kept between calls.
pub fn log_action(sink: LogSink, message: &str) -> (r: LogAction)
    requires
        sink is OsLog ==> has_no_nul(message@),
    ensures
        sink is Disabled ==> r is Nothing,
        sink is StandardError ==> (r matches LogAction::WriteStandardError(line) && line@
            == message@.push('\n')),
        sink is OsLog ==> (r matches LogAction::WriteOsLog { priority, tag, message: m }
            && priority == LOG_PRIORITY_DEBUG && tag@ == foreign_bytes_of(LOG_TAG@) && m@
            == foreign_bytes_of(message@)),
{
    match sink {
        LogSink::Disabled => LogAction::Nothing,
        LogSink::StandardError => {
            proof {
                reveal_strlit("\n");
            }
            let line = message.to_string().concat("\n");
            assert(line@ =~= message@.push('\n'));
            LogAction::WriteStandardError(line)
        },
        LogSink::OsLog => {
            proof {
                reveal_strlit("RustyToodle");
            }
            let tag = string_to_c_char(LOG_TAG.to_string());
            let message = string_to_c_char(message.to_string());
            LogAction::WriteOsLog { priority: LOG_PRIORITY_DEBUG, tag, message }
        },
    }
}

} // verus!
