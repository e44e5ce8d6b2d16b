//! Tasks that run under the kernel's scheduler and print through its console
//! driver.

pub mod user_task;
