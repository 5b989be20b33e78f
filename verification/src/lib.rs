//! `impedance` provides utilities that make working with blocking code easier
//! while in the context of asynchronous code.
//!
//! The main utility is the adaptive execution engine in [`adaptive`]: a wrapper
//! around blocking work that can move that work to another thread when it is
//! expensive (where expensive means long wall-clock time), and run it inline
//! when it is cheap.

pub mod adaptive;
