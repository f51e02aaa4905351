use vstd::prelude::*;
use vstd::string::*;

verus! {

/// A message for the log sink.
#[derive(Debug)]
pub enum LogMessage {
    Info(String),
    Warning(String),
    Error(String),
}

/// Whether a message reports an error.
pub open spec fn is_error(m: LogMessage) -> bool {
    m is Error
}

/// The line that the sink prints for a message.
pub open spec fn line_of(m: LogMessage) -> Seq<char> {
    match m {
        LogMessage::Info(s) => seq!['I', 'N', 'F', 'O', ':', ' '] + s@,
        LogMessage::Warning(s) => seq!['W', 'A', 'R', 'N', 'I', 'N', 'G', ':', ' '] + s@,
        LogMessage::Error(s) => seq!['E', 'R', 'R', 'O', 'R', ':', ' '] + s@,
    }
}

impl LogMessage {
    /// The text line for this message: a severity label followed by the text.
    pub fn line(&self) -> (r: String)
        ensures
            r@ == line_of(*self),
    {
        let mut out = String::new();
        match self {
            LogMessage::Info(s) => {
                out.append("INFO: ");
                out.append(s.as_str());
                proof {
                    reveal_strlit("INFO: ");
                    assert(out@ =~= line_of(*self));
                }
            },
            LogMessage::Warning(s) => {
                out.append("WARNING: ");
                out.append(s.as_str());
                proof {
                    reveal_strlit("WARNING: ");
                    assert(out@ =~= line_of(*self));
                }
            },
            LogMessage::Error(s) => {
                out.append("ERROR: ");
                out.append(s.as_str());
                proof {
                    reveal_strlit("ERROR: ");
                    assert(out@ =~= line_of(*self));
                }
            },
        }
        out
    }
}

} // verus!
