//! A process-injection toolkit: an ELF image reader (header validation,
//! section enumeration, symbol resolution) and a ptrace-driven engine that
//! makes a traced process call its dynamic loader, then restores it exactly.

pub mod bytes;
pub mod elf;
pub mod injector;
pub mod proc;
