//! Interface to the hardware memory-protection unit.
//!
//! The MPU is an external collaborator: given a memory window and size
//! constraints it produces protection regions. The kernel only decides the
//! allocation policy around those calls and validates every value an
//! implementation returns, so the trait promises nothing about its results.
//!
//! The unit type `()` implements the trait as a permissive region-based
//! model: regions are granted at the start of the offered span, memory
//! windows rounded up to a power of two the way region-based hardware sizes
//! them. It serves boards without a protection unit and the library's tests.

use vstd::prelude::*;

use crate::task::AppId;

verus! {

/// Memory access permissions of one protection region.
#[derive(Copy, Clone, Debug, PartialEq, Eq, Structural)]
pub enum Permissions {
    /// Read, write and execute.
    ReadWriteExecute,
    /// Read and write, no execute.
    ReadWriteOnly,
    /// Read and execute, no write.
    ReadExecuteOnly,
    /// Read only.
    ReadOnly,
    /// Execute only.
    ExecuteOnly,
}

/// One protection region: a start address and a size in bytes.
#[derive(Copy, Clone, Debug, PartialEq, Eq, Structural)]
pub struct MpuRegion {
    /// First address covered by the region.
    pub start: usize,
    /// Number of bytes covered.
    pub size: usize,
}

/// Per-process protection configuration: the regions allocated for the
/// process and the application-accessible span of its memory window.
pub struct MpuConfig {
    /// Regions allocated so far, with their permissions.
    pub regions: Vec<(MpuRegion, Permissions)>,
    /// The application-owned span the unit lets the process touch,
    /// from the start of its memory window up to its current break.
    pub app_memory: Option<MpuRegion>,
}

impl MpuConfig {
    /// An empty configuration with no regions.
    pub fn new() -> (r: MpuConfig)
        ensures
            r.regions@.len() == 0,
            r.app_memory is None,
    {
        MpuConfig { regions: Vec::new(), app_memory: None }
    }
}

/// Operations the kernel asks of a memory-protection unit.
///
/// Implementations are hardware-specific and unverified; the kernel checks
/// at run time that returned regions lie inside the windows it offered.
pub trait Mpu {
    /// Allocate a protection region of at least `min_region_size` bytes
    /// inside `[unallocated_start, unallocated_start + unallocated_size)`,
    /// or `None` if the unit cannot.
    fn allocate_region(
        &mut self,
        config: &mut MpuConfig,
        unallocated_start: usize,
        unallocated_size: usize,
        min_region_size: usize,
        permissions: Permissions,
    ) -> Option<MpuRegion>;

    /// Allocate the memory window of a new process inside the unallocated
    /// span: at least `min_total_size` bytes in all, of which the first
    /// `initial_app_memory_size` bytes are application-accessible and the
    /// last `initial_kernel_memory_size` bytes are kernel-owned. Returns the
    /// window as (start, size), or `None` if the unit cannot satisfy it.
    fn allocate_app_memory_region(
        &mut self,
        config: &mut MpuConfig,
        unallocated_start: usize,
        unallocated_size: usize,
        min_total_size: usize,
        initial_app_memory_size: usize,
        initial_kernel_memory_size: usize,
        permissions: Permissions,
    ) -> Option<(usize, usize)>;

    /// Move the boundary between application-accessible memory (up to
    /// `app_break`) and kernel-owned memory (from `kernel_break` up).
    /// Fails if the unit cannot isolate the two with the new boundary.
    fn update_app_memory_region(
        &mut self,
        config: &mut MpuConfig,
        app_break: usize,
        kernel_break: usize,
        permissions: Permissions,
    ) -> Result<(), ()>;

    /// Load the process's configuration into the hardware.
    fn configure_mpu(&mut self, config: &MpuConfig, app: AppId);

    /// Turn protection on before entering a process.
    fn enable_mpu(&mut self);

    /// Turn protection off after a process returns to the kernel.
    fn disable_mpu(&mut self);
}

impl Mpu for () {
    /// Grants an exact-fit region at the start of the unallocated span
    /// whenever the span is large enough.
    fn allocate_region(
        &mut self,
        config: &mut MpuConfig,
        unallocated_start: usize,
        unallocated_size: usize,
        min_region_size: usize,
        permissions: Permissions,
    ) -> (r: Option<MpuRegion>)
        ensures
            r is Some <==> min_region_size <= unallocated_size,
            r matches Some(region) ==> {
                &&& region.start == unallocated_start
                &&& region.size == min_region_size
                &&& final(config).regions@ == old(config).regions@.push((region, permissions))
                &&& final(config).app_memory == old(config).app_memory
            },
            r is None ==> *final(config) == *old(config),
    {
        if min_region_size <= unallocated_size {
            let region = MpuRegion { start: unallocated_start, size: min_region_size };
            config.regions.push((region, permissions));
            Some(region)
        } else {
            None
        }
    }

    /// Grants a window at the start of the unallocated span whenever the
    /// span is large enough, sized like a region-based unit would size it:
    /// rounded up to the next power of two where the span allows, and the
    /// requested minimum otherwise.
    fn allocate_app_memory_region(
        &mut self,
        config: &mut MpuConfig,
        unallocated_start: usize,
        unallocated_size: usize,
        min_total_size: usize,
        initial_app_memory_size: usize,
        initial_kernel_memory_size: usize,
        permissions: Permissions,
    ) -> (r: Option<(usize, usize)>)
        ensures
            r is Some <==> min_total_size <= unallocated_size,
            r matches Some((start, size)) ==> {
                &&& start == unallocated_start
                &&& min_total_size <= size <= unallocated_size
                &&& final(config).app_memory == Some(
                    MpuRegion { start: unallocated_start, size: initial_app_memory_size },
                )
                &&& final(config).regions == old(config).regions
            },
            r is None ==> *final(config) == *old(config),
    {
        if min_total_size <= unallocated_size {
            let size = if min_total_size <= usize::MAX / 2 {
                let mut rounded: usize = 1;
                let mut doublings: usize = 0;
                while rounded < min_total_size && doublings < 64
                    invariant
                        1 <= rounded,
                        min_total_size <= usize::MAX / 2,
                    decreases 64 - doublings,
                {
                    rounded = rounded * 2;
                    doublings = doublings + 1;
                }
                if rounded >= min_total_size && rounded <= unallocated_size {
                    rounded
                } else {
                    min_total_size
                }
            } else {
                min_total_size
            };
            config.app_memory = Some(
                MpuRegion { start: unallocated_start, size: initial_app_memory_size },
            );
            Some((unallocated_start, size))
        } else {
            None
        }
    }

    /// Accepts any boundary with the application span below the kernel span.
    fn update_app_memory_region(
        &mut self,
        config: &mut MpuConfig,
        app_break: usize,
        kernel_break: usize,
        permissions: Permissions,
    ) -> (r: Result<(), ()>)
        ensures
            r is Ok <==> app_break <= kernel_break,
            r is Err ==> *final(config) == *old(config),
            final(config).regions == old(config).regions,
    {
        if app_break <= kernel_break {
            let start = match config.app_memory {
                Some(region) => region.start,
                None => 0,
            };
            if app_break >= start {
                config.app_memory = Some(MpuRegion { start, size: app_break - start });
            } else {
                config.app_memory = Some(MpuRegion { start: app_break, size: 0 });
            }
            Ok(())
        } else {
            Err(())
        }
    }

    fn configure_mpu(&mut self, config: &MpuConfig, app: AppId) {
    }

    fn enable_mpu(&mut self) {
    }

    fn disable_mpu(&mut self) {
    }
}

} // verus!
