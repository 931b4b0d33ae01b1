//! An interpreter for SAL, a small bytecode in which every instruction carries
//! a social tone that gates whether and how it runs.
//!
//! The library holds the decoder, the mood profiles, the affect check and the
//! virtual machine as a step function; the program around it reads the file,
//! performs the delays and the terminal I/O, and runs the loop.

pub mod decode;
pub mod mood;
pub mod affect;
pub mod machine;
pub mod text;
pub mod proofs;
