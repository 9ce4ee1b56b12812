//! Lifecycle management for GPU shader programs: compiling shaders, linking
//! them into a program, resolving attributes and uniforms, writing uniforms
//! while the program is in use, and reloading a program from its sources.
//!
//! The library never touches the graphics driver. Each operation that needs
//! the driver is a small machine: it hands out the [`driver::Call`]s to
//! perform and is then stepped with the [`driver::Reply`] to the last of them,
//! until it finishes with a result and the calls that release whatever the
//! operation no longer owns. The host performs the calls; every decision is
//! made here.
//!
//! What a machine does is stated twice. Each step of the executable machine
//! equals the step of its model, a function on plain mathematical values.
//! And of the model it is proved what holds of whole runs, whatever the host
//! answers: when an operation succeeds, which calls it makes and in which
//! order, and that no object of the driver is lost or released twice
//! ([`ledger`]).

pub mod driver;
pub mod error;
pub mod ledger;
pub mod log;
pub mod program;
pub mod reload;
pub mod shader;
pub mod stopwatch;
pub mod uniform;
