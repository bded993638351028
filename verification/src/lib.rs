//! The decisions behind a set of small Linux programs: a file copy on bare system calls, a command
//! runner with a timeout, and experiments with virtual memory.
//!
//! The library computes and decides; it opens no file and makes no system call. What it decides
//! comes back as plain values, which a program carries out.

pub mod copy;
pub mod copy_steps;
pub mod fault;
pub mod line_laws;
pub mod maps;
pub mod mem;
pub mod mem_bytes;
pub mod mem_laws;
pub mod mem_lines;
pub mod mem_order;
pub mod pagemap;
pub mod proc_laws;
pub mod run;
pub mod run_laws;
pub mod run_lines;
pub mod run_steps;
pub mod signal;
pub mod status;
pub mod sys;
pub mod text;
pub mod text_laws;
