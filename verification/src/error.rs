//! The closed error taxonomy: five kinds of failure, each carrying a fixed
//! process exit code, and the one-line form every error takes on standard
//! error before the process terminates.

use vstd::prelude::*;

verus! {

/// What went wrong: connecting to the bus, a bus call, local I/O, an
/// unclassified failure, or the favorites service.
#[derive(Clone, Copy, Debug, PartialEq, Eq, Structural)]
pub enum ErrorKind {
    BusInit,
    Bus,
    IO,
    Generic,
    Favorites,
}

/// The fixed exit code of each error kind.
pub open spec fn spec_exit_code(k: ErrorKind) -> int {
    match k {
        ErrorKind::BusInit => 8,
        ErrorKind::Bus => 2,
        ErrorKind::IO => 3,
        ErrorKind::Generic => 4,
        ErrorKind::Favorites => 5,
    }
}

impl ErrorKind {
    /// The kind's display name, as it appears in the error line.
    pub open spec fn name_spec(self) -> Seq<char> {
        match self {
            ErrorKind::BusInit => "BusInit"@,
            ErrorKind::Bus => "Bus"@,
            ErrorKind::IO => "IO"@,
            ErrorKind::Generic => "Generic"@,
            ErrorKind::Favorites => "Favorites"@,
        }
    }

    pub fn name(&self) -> (r: &'static str)
        ensures
            r@ == self.name_spec(),
    {
        match self {
            ErrorKind::BusInit => "BusInit",
            ErrorKind::Bus => "Bus",
            ErrorKind::IO => "IO",
            ErrorKind::Generic => "Generic",
            ErrorKind::Favorites => "Favorites",
        }
    }

    pub fn exit_code(&self) -> (c: i32)
        ensures
            c as int == spec_exit_code(*self),
    {
        match self {
            ErrorKind::BusInit => 8,
            ErrorKind::Bus => 2,
            ErrorKind::IO => 3,
            ErrorKind::Generic => 4,
            ErrorKind::Favorites => 5,
        }
    }
}

/// A failure on its way to process termination: its kind and the message of
/// the underlying cause. Never recovered from; always rendered and exited.
pub struct PlayingError {
    pub kind: ErrorKind,
    pub message: String,
}

/// The line an error prints to standard error before the process exits.
pub open spec fn error_line(kind: ErrorKind, message: Seq<char>) -> Seq<char> {
    "error: "@ + kind.name_spec() + ": "@ + message
}

impl PlayingError {
    /// A bus connection could not be established.
    pub fn from_bus_init(message: String) -> (e: PlayingError)
        ensures
            e.kind == ErrorKind::BusInit,
            e.message@ == message@,
    {
        PlayingError { kind: ErrorKind::BusInit, message }
    }

    /// A call over an established bus connection failed.
    pub fn from_bus(message: String) -> (e: PlayingError)
        ensures
            e.kind == ErrorKind::Bus,
            e.message@ == message@,
    {
        PlayingError { kind: ErrorKind::Bus, message }
    }

    /// A local I/O operation failed.
    pub fn from_io(message: String) -> (e: PlayingError)
        ensures
            e.kind == ErrorKind::IO,
            e.message@ == message@,
    {
        PlayingError { kind: ErrorKind::IO, message }
    }

    /// An unclassified failure.
    pub fn from_generic(message: String) -> (e: PlayingError)
        ensures
            e.kind == ErrorKind::Generic,
            e.message@ == message@,
    {
        PlayingError { kind: ErrorKind::Generic, message }
    }

    /// The favorites service failed.
    pub fn from_spotifav(message: String) -> (e: PlayingError)
        ensures
            e.kind == ErrorKind::Favorites,
            e.message@ == message@,
    {
        PlayingError { kind: ErrorKind::Favorites, message }
    }

    pub fn exit_code(&self) -> (c: i32)
        ensures
            c as int == spec_exit_code(self.kind),
    {
        self.kind.exit_code()
    }

    /// The full line printed to standard error.
    pub fn render(&self) -> (r: String)
        ensures
            r@ == error_line(self.kind, self.message@),
    {
        let mut r = String::from_str("error: ");
        r.append(self.kind.name());
        r.append(": ");
        r.append(self.message.as_str());
        r
    }
}

} // verus!
