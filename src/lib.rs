//! Grading support for submitted programs: turning a submission into source
//! text and a workspace, deciding what to do with a running child process on
//! an interrupt, mapping operator input to a grade, and sequencing the steps
//! for one submission.
pub mod grading;
pub mod interrupt;
pub mod pipeline;
pub mod text;
pub mod workspace;
