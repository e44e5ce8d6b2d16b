//! The hardware snapshot: the base addresses of the essential devices.
//!
//! The snapshot starts out with the addresses of the QEMU `virt` machine. It
//! is populated once, at start-up and before any reader runs concurrently,
//! from the cache that device discovery has filled. From then on it is only
//! read.
//!
//! Populating takes the snapshot by exclusive reference, so no reader can
//! hold it at that moment; that it happens once is a precondition.

use vstd::prelude::*;

verus! {

/// Where the primary console sits on the QEMU `virt` machine.
pub const DEFAULT_UART_BASE: usize = 0x1000_0000;

/// Where the interrupt controller sits on the QEMU `virt` machine.
pub const DEFAULT_PLIC_BASE: usize = 0x0c00_0000;

/// Where the timer sits on the QEMU `virt` machine.
pub const DEFAULT_CLINT_BASE: usize = 0x0200_0000;

/// The base addresses of the essential devices.
#[derive(Clone, Copy, PartialEq, Eq, Debug, Structural)]
pub struct DeviceInfo {
    pub uart_base: usize,
    pub plic_base: usize,
    pub clint_base: usize,
}

/// What device discovery has found, as its cache holds it.
#[derive(Clone, Copy, PartialEq, Eq, Debug, Structural)]
pub struct FdtCache {
    pub uart_base: u64,
    pub plic_base: u64,
    pub clint_base: u64,
}

/// Where a snapshot stands in its life.
#[derive(Clone, Copy, PartialEq, Eq, Debug, Structural)]
pub enum Lifecycle {
    /// Not populated yet: readers see the defaults.
    Defaults,
    /// Populated: readers see what was discovered, for the rest of execution.
    Populated,
}

/// The record together with where it stands in its life.
#[derive(Debug)]
pub struct DeviceSnapshot {
    info: DeviceInfo,
    lifecycle: Lifecycle,
}

/// The addresses of the QEMU `virt` machine, which a snapshot holds until it
/// is populated.
pub open spec fn default_device_info() -> DeviceInfo {
    DeviceInfo {
        uart_base: DEFAULT_UART_BASE,
        plic_base: DEFAULT_PLIC_BASE,
        clint_base: DEFAULT_CLINT_BASE,
    }
}

/// The discovered addresses as the record holds them: each narrowed to the
/// width of an address. A value that fits is kept as it is.
pub open spec fn discovered(cache: FdtCache) -> DeviceInfo {
    DeviceInfo {
        uart_base: cache.uart_base as usize,
        plic_base: cache.plic_base as usize,
        clint_base: cache.clint_base as usize,
    }
}

impl View for DeviceSnapshot {
    type V = DeviceInfo;

    /// What a reader of the snapshot sees.
    closed spec fn view(&self) -> DeviceInfo {
        self.info
    }
}

impl DeviceSnapshot {
    /// Where the snapshot stands in its life.
    pub closed spec fn lifecycle(&self) -> Lifecycle {
        self.lifecycle
    }

    /// A snapshot that has not been populated: it holds the defaults.
    pub fn new() -> (s: DeviceSnapshot)
        ensures
            s.lifecycle() == Lifecycle::Defaults,
            s@ == default_device_info(),
    {
        DeviceSnapshot {
            info: DeviceInfo {
                uart_base: DEFAULT_UART_BASE,
                plic_base: DEFAULT_PLIC_BASE,
                clint_base: DEFAULT_CLINT_BASE,
            },
            lifecycle: Lifecycle::Defaults,
        }
    }

    /// Whether the snapshot has been populated.
    pub fn is_populated(&self) -> (r: bool)
        ensures
            r == (self.lifecycle() == Lifecycle::Populated),
    {
        match self.lifecycle {
            Lifecycle::Populated => true,
            Lifecycle::Defaults => false,
        }
    }
}

/// Reads the snapshot. Reading changes nothing, so every read between two
/// writes sees the same record.
pub fn get_device_info(snapshot: &DeviceSnapshot) -> (info: &DeviceInfo)
    ensures
        *info == snapshot@,
{
    &snapshot.info
}

/// Populates the snapshot from the discovery cache.
///
/// This is the one write in a snapshot's life: it must run exactly once, at
/// start-up, before any concurrent reader exists. `_fdt_phys_addr` is where
/// the boot loader left the device tree; discovery has read it already, so
/// it is not read again here.
pub fn init_fdt_and_devices_rust(
    snapshot: &mut DeviceSnapshot,
    _fdt_phys_addr: usize,
    cache: &FdtCache,
)
    requires
        old(snapshot).lifecycle() == Lifecycle::Defaults,
    ensures
        final(snapshot).lifecycle() == Lifecycle::Populated,
        final(snapshot)@ == discovered(*cache),
{
    snapshot.info = DeviceInfo {
        uart_base: #[verifier::truncate]
        (cache.uart_base as usize),
        plic_base: #[verifier::truncate]
        (cache.plic_base as usize),
        clint_base: #[verifier::truncate]
        (cache.clint_base as usize),
    };
    snapshot.lifecycle = Lifecycle::Populated;
}

/// Populates the snapshot from the discovery cache unless it has been
/// populated before. A populated snapshot is read-only: it is left as it is,
/// and the result says so.
pub fn populate_once(snapshot: &mut DeviceSnapshot, fdt_phys_addr: usize, cache: &FdtCache) -> (done:
    bool)
    ensures
        done == (old(snapshot).lifecycle() == Lifecycle::Defaults),
        final(snapshot).lifecycle() == Lifecycle::Populated,
        done ==> final(snapshot)@ == discovered(*cache),
        !done ==> final(snapshot)@ == old(snapshot)@,
{
    if snapshot.is_populated() {
        false
    } else {
        init_fdt_and_devices_rust(snapshot, fdt_phys_addr, cache);
        true
    }
}

/// Discovered addresses that fit an address are stored exactly.
pub proof fn lemma_discovered_exact(cache: FdtCache)
    requires
        cache.uart_base <= usize::MAX,
        cache.plic_base <= usize::MAX,
        cache.clint_base <= usize::MAX,
    ensures
        discovered(cache).uart_base == cache.uart_base,
        discovered(cache).plic_base == cache.plic_base,
        discovered(cache).clint_base == cache.clint_base,
{
}

} // verus!
