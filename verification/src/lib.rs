//! Advisory, process-level locking of an open file, identified by its file
//! descriptor, with a non-blocking and a blocking acquisition discipline and
//! automatic release when the lock handle goes out of scope.

pub mod fd;
pub mod functions;
pub mod util;
