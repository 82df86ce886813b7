//! Host-call layer of a WebAssembly tank controller: the table of host
//! functions a tank program may import, their numeric ids and signatures,
//! the decoding of a host call into an upcall, and the small state machine
//! that resumes a suspended program with the simulator's reply.
pub mod value;
pub mod calls;
pub mod text;
pub mod upcall;
pub mod host;
pub mod machine;
pub mod laws;
