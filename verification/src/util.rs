//! The two configuration enumerations of the locking protocol, and the
//! parsing of their textual names.

use vstd::prelude::*;

verus! {

/// Selects whether an acquisition waits for a contended lock or fails
/// immediately.
#[derive(Clone, Copy, Debug, PartialEq, Eq, Structural)]
pub enum Kind {
    /// Return at once with `Error::WouldBlock` when the lock is contended.
    NonBlocking,
    /// Block the calling thread until the current holder releases the lock.
    Blocking,
}

/// Read or write intent, handed through to the locking primitive.
#[derive(Clone, Copy, Debug, PartialEq, Eq, Structural)]
pub enum Mode {
    Read,
    Write,
}

/// The error returned when a configuration string names no known kind or
/// mode.
#[derive(Clone, Copy, Debug, PartialEq, Eq, Structural)]
pub enum ParseError {
    UnknownKind,
    UnknownMode,
}

impl Kind {
    /// Whether this kind asks the primitive to wait for a contended lock.
    pub open spec fn spec_should_block(self) -> bool {
        self is Blocking
    }

    /// The blocking flag this kind maps to at the primitive's boundary.
    pub fn should_block(&self) -> (r: bool)
        ensures
            r == self.spec_should_block(),
    {
        matches!(self, Kind::Blocking)
    }
}

impl Mode {
    /// Whether this mode asks for an exclusive (write) lock.
    pub open spec fn spec_is_write(self) -> bool {
        self is Write
    }

    /// The write flag this mode maps to at the primitive's boundary.
    pub fn is_write(&self) -> (r: bool)
        ensures
            r == self.spec_is_write(),
    {
        matches!(self, Mode::Write)
    }
}

/// Character-for-character equality of two strings.
fn str_eq(a: &str, b: &str) -> (r: bool)
    ensures
        r == (a@ == b@),
{
    let n = a.unicode_len();
    if n != b.unicode_len() {
        return false;
    }
    let mut i: usize = 0;
    while i < n
        invariant
            a@.len() == n,
            b@.len() == n,
            i <= n,
            forall|j: int| 0 <= j < i ==> a@[j] == b@[j],
        decreases n - i,
    {
        if a.get_char(i) != b.get_char(i) {
            return false;
        }
        i = i + 1;
    }
    proof {
        assert(a@ =~= b@);
    }
    true
}

/// Parse the textual name of an acquisition kind.
///
/// Exactly `"nonblocking"` and `"blocking"` are accepted; any other string
/// is reported as an unknown kind.
pub fn parse_kind(s: &str) -> (r: Result<Kind, ParseError>)
    ensures
        (r == Result::<Kind, ParseError>::Ok(Kind::NonBlocking)) <==> s@ == "nonblocking"@,
        (r == Result::<Kind, ParseError>::Ok(Kind::Blocking)) <==> s@ == "blocking"@,
        (r == Result::<Kind, ParseError>::Err(ParseError::UnknownKind)) <==> (s@
            != "nonblocking"@ && s@ != "blocking"@),
{
    proof {
        reveal_strlit("nonblocking");
        reveal_strlit("blocking");
    }
    if str_eq(s, "nonblocking") {
        // The two accepted names differ in length, so matching one rules
        // out the other.
        proof {
            assert(s@ == "nonblocking"@);
            assert(s@.len() == 11);
            assert(s@ != "blocking"@);
        }
        Ok(Kind::NonBlocking)
    } else if str_eq(s, "blocking") {
        Ok(Kind::Blocking)
    } else {
        Err(ParseError::UnknownKind)
    }
}

/// Parse the textual name of a lock mode.
///
/// Exactly `"read"` and `"write"` are accepted; any other string is
/// reported as an unknown mode.
pub fn parse_mode(s: &str) -> (r: Result<Mode, ParseError>)
    ensures
        (r == Result::<Mode, ParseError>::Ok(Mode::Read)) <==> s@ == "read"@,
        (r == Result::<Mode, ParseError>::Ok(Mode::Write)) <==> s@ == "write"@,
        (r == Result::<Mode, ParseError>::Err(ParseError::UnknownMode)) <==> (s@ != "read"@
            && s@ != "write"@),
{
    proof {
        reveal_strlit("read");
        reveal_strlit("write");
    }
    if str_eq(s, "read") {
        // The two accepted names differ in length, so matching one rules
        // out the other.
        proof {
            assert(s@ == "read"@);
            assert(s@.len() == 4);
            assert(s@ != "write"@);
        }
        Ok(Mode::Read)
    } else if str_eq(s, "write") {
        Ok(Mode::Write)
    } else {
        Err(ParseError::UnknownMode)
    }
}

} // verus!
