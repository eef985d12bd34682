pub mod control;
pub mod echo;
pub mod iopub;
pub mod shell;
pub mod stdin;
