//! The boundary between unprivileged code and the kernel of a bare-metal
//! RISC-V system, as verified logic.
//!
//! One declarative table of operations is the source of everything that
//! crosses the boundary:
//!
//! - [`table`] holds the table and the rules that a row must meet.
//! - [`generator`] renders the four artifacts of a table: the identifier
//!   listing, the prototypes for callers, the prototypes for the kernel's
//!   implementations and the source of the typed wrappers.
//! - [`trampoline`] is the calling convention of the one instruction that
//!   transfers control: which register carries what.
//! - [`wrapper`] is what a typed wrapper does around that instruction: typed
//!   arguments to register-sized words, and the raw word that comes back to a
//!   value of the declared type.
//! - [`syscall_interface`] is the kernel's own table and the wrapper of each
//!   of its operations.
//! - [`types`] is the closed set of type tags and their spellings, and
//!   [`text`] the byte-level primitives that rendering is built from.
//!
//! Next to the boundary stand three facilities that the kernel links against:
//! [`fdt`], the snapshot of the device addresses; [`string`], the C string
//! functions; and the tasks of [`user_task`] and [`rust_tasks`].
//!
//! The library computes and decides; it touches no file, no register and no
//! device. Whoever holds the machine writes the artifacts, issues the trap
//! and performs the steps of a task.

pub mod fdt;
pub mod generator;
pub mod rust_tasks;
pub mod string;
pub mod syscall_interface;
pub mod table;
pub mod text;
pub mod trampoline;
pub mod types;
pub mod user_task;
pub mod wrapper;
