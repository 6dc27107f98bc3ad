//! Log events that a script emits through its console.

use vstd::prelude::*;
use vstd::string::*;
use crate::text::{ascii_lower, ascii_lower_is};

verus! {

/// Log level for console output
#[derive(Debug, Clone, Copy, PartialEq, Eq, Structural)]
pub enum LogLevel {
    Error,
    Warn,
    Info,
    Log,
    Debug,
    Trace,
}

/// Log event from the script's console
#[derive(Debug, Clone)]
pub struct LogEvent {
    pub level: LogLevel,
    pub message: String,
}

impl LogLevel {
    /// The lowercase name by which a level is recognised.
    pub open spec fn keyword(self) -> Seq<char> {
        match self {
            LogLevel::Error => "error"@,
            LogLevel::Warn => "warn"@,
            LogLevel::Info => "info"@,
            LogLevel::Log => "log"@,
            LogLevel::Debug => "debug"@,
            LogLevel::Trace => "trace"@,
        }
    }

    /// The uppercase label under which a level prints.
    pub open spec fn label(self) -> Seq<char> {
        match self {
            LogLevel::Error => "ERROR"@,
            LogLevel::Warn => "WARN"@,
            LogLevel::Info => "INFO"@,
            LogLevel::Log => "LOG"@,
            LogLevel::Debug => "DEBUG"@,
            LogLevel::Trace => "TRACE"@,
        }
    }

    /// The variant's own name, as it stands in a log line.
    pub open spec fn variant_name(self) -> Seq<char> {
        match self {
            LogLevel::Error => "Error"@,
            LogLevel::Warn => "Warn"@,
            LogLevel::Info => "Info"@,
            LogLevel::Log => "Log"@,
            LogLevel::Debug => "Debug"@,
            LogLevel::Trace => "Trace"@,
        }
    }

    /// The level whose keyword is exactly `lower`, and `Info` for every other
    /// string.
    pub open spec fn of_keyword(lower: Seq<char>) -> LogLevel {
        if lower == "error"@ {
            LogLevel::Error
        } else if lower == "warn"@ {
            LogLevel::Warn
        } else if lower == "info"@ {
            LogLevel::Info
        } else if lower == "log"@ {
            LogLevel::Log
        } else if lower == "debug"@ {
            LogLevel::Debug
        } else if lower == "trace"@ {
            LogLevel::Trace
        } else {
            LogLevel::Info
        }
    }

    /// The level that a string stands for, whatever the case of its
    /// letters: the level whose keyword is the string's ASCII lowercase form,
    /// and `Info` where that form is no keyword.
    pub open spec fn parse(s: Seq<char>) -> LogLevel {
        Self::of_keyword(ascii_lower(s))
    }

    /// Parse log level from string. The case of its letters is ignored, and
    /// a string that names no level reads as `Info`.
    pub fn from_str(s: &str) -> (level: LogLevel)
        ensures
            level == Self::parse(s@),
    {
        if ascii_lower_is(s, "error") {
            LogLevel::Error
        } else if ascii_lower_is(s, "warn") {
            LogLevel::Warn
        } else if ascii_lower_is(s, "info") {
            LogLevel::Info
        } else if ascii_lower_is(s, "log") {
            LogLevel::Log
        } else if ascii_lower_is(s, "debug") {
            LogLevel::Debug
        } else if ascii_lower_is(s, "trace") {
            LogLevel::Trace
        } else {
            LogLevel::Info
        }
    }

    /// The uppercase label of the level.
    pub fn as_str(&self) -> (text: &'static str)
        ensures
            text@ == self.label(),
    {
        match self {
            LogLevel::Error => "ERROR",
            LogLevel::Warn => "WARN",
            LogLevel::Info => "INFO",
            LogLevel::Log => "LOG",
            LogLevel::Debug => "DEBUG",
            LogLevel::Trace => "TRACE",
        }
    }

    /// The uppercase label as an owned string, as the level prints.
    pub fn to_string(&self) -> (text: String)
        ensures
            text@ == self.label(),
    {
        String::from_str(self.as_str())
    }

    /// The variant's own name.
    pub fn name(&self) -> (text: &'static str)
        ensures
            text@ == self.variant_name(),
    {
        match self {
            LogLevel::Error => "Error",
            LogLevel::Warn => "Warn",
            LogLevel::Info => "Info",
            LogLevel::Log => "Log",
            LogLevel::Debug => "Debug",
            LogLevel::Trace => "Trace",
        }
    }

    /// The six keywords are pairwise different, so each one reads back as its
    /// own level.
    pub proof fn lemma_keyword_reads_back(self)
        ensures
            Self::of_keyword(self.keyword()) == self,
    {
        reveal_strlit("error");
        reveal_strlit("warn");
        reveal_strlit("info");
        reveal_strlit("log");
        reveal_strlit("debug");
        reveal_strlit("trace");
        assert("error"@.len() == 5 && "warn"@.len() == 4 && "info"@.len() == 4 && "log"@.len() == 3
            && "debug"@.len() == 5 && "trace"@.len() == 5);
        assert("warn"@[0] == 'w' && "info"@[0] == 'i');
        assert("error"@[0] == 'e' && "debug"@[0] == 'd' && "trace"@[0] == 't');
    }

    /// A keyword is its own ASCII lowercase form, so it reads as its own
    /// level.
    pub proof fn lemma_keyword_parses(self)
        ensures
            ascii_lower(self.keyword()) == self.keyword(),
            Self::parse(self.keyword()) == self,
    {
        reveal_strlit("error");
        reveal_strlit("warn");
        reveal_strlit("info");
        reveal_strlit("log");
        reveal_strlit("debug");
        reveal_strlit("trace");
        assert(ascii_lower(self.keyword()) =~= self.keyword());
        self.lemma_keyword_reads_back();
    }

    /// A string that is a keyword but for the case of its letters reads as
    /// that keyword's level; a string that is no keyword in any case reads as
    /// `Info`.
    pub proof fn lemma_parse(s: Seq<char>, level: LogLevel)
        ensures
            ascii_lower(s) == ascii_lower(level.keyword()) ==> Self::parse(s) == level,
            (forall|l: LogLevel| ascii_lower(s) != ascii_lower(#[trigger] l.keyword()))
                ==> Self::parse(s) == LogLevel::Info,
    {
        level.lemma_keyword_reads_back();
        level.lemma_keyword_parses();
        if forall|l: LogLevel| ascii_lower(s) != ascii_lower(#[trigger] l.keyword()) {
            let lower = ascii_lower(s);
            LogLevel::Error.lemma_keyword_parses();
            LogLevel::Warn.lemma_keyword_parses();
            LogLevel::Log.lemma_keyword_parses();
            LogLevel::Debug.lemma_keyword_parses();
            LogLevel::Trace.lemma_keyword_parses();
            assert(lower != LogLevel::Error.keyword());
            assert(lower != LogLevel::Warn.keyword());
            assert(lower != LogLevel::Log.keyword());
            assert(lower != LogLevel::Debug.keyword());
            assert(lower != LogLevel::Trace.keyword());
        }
    }
}

impl LogEvent {
    /// The line under which an event is written to the diagnostic stream:
    /// the level's name in square brackets, a space, and the message.
    pub open spec fn line(level: LogLevel, message: Seq<char>) -> Seq<char> {
        "["@ + level.variant_name() + "] "@ + message
    }

    /// Renders the event for the diagnostic stream.
    pub fn render(&self) -> (text: String)
        ensures
            text@ == Self::line(self.level, self.message@),
    {
        let mut text = String::from_str("[");
        text.append(self.level.name());
        text.append("] ");
        text.append(self.message.as_str());
        text
    }
}

} // verus!
