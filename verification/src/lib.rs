//! The state of a small desktop application with a login form: the record it
//! keeps between runs and the session that the login form opens and closes.
//!
//! The library holds no window and touches no storage. A host draws the
//! frames, reports what the user did, and reads and writes the stored record;
//! every decision about the state is made here.

pub mod app;
pub mod record;
pub mod session;
