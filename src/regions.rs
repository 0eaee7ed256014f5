//! Which parts of the target's address space are scanned.
//!
//! Two sources describe the address space: a walk of region descriptors that
//! the operating system hands out one at a time, and a listing of all
//! mappings with the file each one comes from.

use vstd::prelude::*;
use crate::names::{file_name, is_module_file_path, text_bytes, TARGET_MODULE};

verus! {

/// Region state value for committed memory.
pub const MEM_COMMIT: u32 = 0x1000;

/// Protection bit for executable, readable memory.
pub const PAGE_EXECUTE_READ: u32 = 0x20;

/// One region of the target's address space.
#[derive(Clone, Copy, Debug, PartialEq, Eq, Structural)]
pub struct MemoryRegion {
    pub base: usize,
    pub size: usize,
    pub committed: bool,
    pub executable: bool,
}

/// A region is scanned only if it is committed and executable.
pub open spec fn is_scan_eligible(r: MemoryRegion) -> bool {
    r.committed && r.executable
}

/// Where the walk goes after region `r`: its end, while that still lies
/// inside the module mapped at `module_base` with `module_size` bytes.
pub open spec fn next_query_address(
    r: MemoryRegion,
    module_base: usize,
    module_size: usize,
) -> Option<usize> {
    let end = r.base + r.size;
    if end <= usize::MAX && module_base <= end < module_base + module_size {
        Some(end as usize)
    } else {
        None
    }
}

impl MemoryRegion {
    /// A region from the raw fields of a region descriptor.
    pub fn from_query(base: usize, size: usize, state: u32, protect: u32) -> (r: MemoryRegion)
        ensures
            r.base == base,
            r.size == size,
            r.committed == (state == MEM_COMMIT),
            r.executable == (protect & PAGE_EXECUTE_READ != 0),
    {
        MemoryRegion {
            base,
            size,
            committed: state == MEM_COMMIT,
            executable: protect & PAGE_EXECUTE_READ != 0,
        }
    }

    /// Whether the region is scanned.
    pub fn scan_eligible(&self) -> (r: bool)
        ensures
            r == is_scan_eligible(*self),
    {
        self.committed && self.executable
    }

    /// The address to query after this region, or `None` when the walk ends.
    pub fn next_query(&self, module_base: usize, module_size: usize) -> (r: Option<usize>)
        ensures
            r == next_query_address(*self, module_base, module_size),
    {
        if self.size > usize::MAX - self.base {
            return None;
        }
        let end = self.base + self.size;
        if end < module_base || end - module_base >= module_size {
            None
        } else {
            Some(end)
        }
    }
}

/// Where a mapping's contents come from.
#[derive(Clone, Debug)]
pub enum MapOrigin {
    /// A file, by its path.
    File { path: String },
    /// No file: anonymous memory.
    Anonymous,
    /// Anything else: stack, heap, virtual system pages.
    Other,
}

/// One mapping of the target's address space.
#[derive(Clone, Debug)]
pub struct MapEntry {
    pub start: usize,
    pub end: usize,
    pub origin: MapOrigin,
    pub executable: bool,
}

/// The mapping comes from the target module's file.
pub open spec fn maps_module_file(m: MapEntry) -> bool {
    match m.origin {
        MapOrigin::File { path } => file_name(text_bytes(path@)) == text_bytes(TARGET_MODULE@),
        _ => false,
    }
}

/// Mapping `i` belongs to the target module: it maps the module's file, or
/// it is anonymous and directly follows a mapping of the module.
pub open spec fn in_module(maps: Seq<MapEntry>, i: int) -> bool
    decreases i + 1,
{
    if i < 0 || i >= maps.len() {
        false
    } else {
        match maps[i].origin {
            MapOrigin::File { .. } => maps_module_file(maps[i]),
            MapOrigin::Anonymous => in_module(maps, i - 1),
            MapOrigin::Other => false,
        }
    }
}

/// Mapping `i` holds code of the target module.
pub open spec fn is_module_code(maps: Seq<MapEntry>, i: int) -> bool {
    in_module(maps, i) && maps[i].executable
}

/// The indices below `n` of the mappings that hold the module's code, in
/// increasing order.
pub open spec fn module_code_indices(maps: Seq<MapEntry>, n: int) -> Seq<usize>
    decreases n,
{
    if n <= 0 {
        Seq::empty()
    } else if is_module_code(maps, n - 1) {
        module_code_indices(maps, n - 1).push((n - 1) as usize)
    } else {
        module_code_indices(maps, n - 1)
    }
}

fn origin_is_module_file(m: &MapEntry) -> (r: bool)
    ensures
        r == maps_module_file(*m),
{
    match &m.origin {
        MapOrigin::File { path } => is_module_file_path(path.as_str()),
        _ => false,
    }
}

/// The first mapping of the module's file, which holds its header.
pub fn module_header_map(maps: &[MapEntry]) -> (r: Option<usize>)
    ensures
        match r {
            Some(i) => i < maps@.len() && maps_module_file(maps@[i as int]) && forall|j: int|
                0 <= j < i ==> !#[trigger] maps_module_file(maps@[j]),
            None => forall|j: int| 0 <= j < maps@.len() ==> !#[trigger] maps_module_file(maps@[j]),
        },
{
    let mut i: usize = 0;
    while i < maps.len()
        invariant
            i <= maps@.len(),
            forall|j: int| 0 <= j < i ==> !#[trigger] maps_module_file(maps@[j]),
        decreases maps@.len() - i,
    {
        if origin_is_module_file(&maps[i]) {
            return Some(i);
        }
        i = i + 1;
    }
    None
}

/// The indices of the mappings that hold the module's code, in address order.
pub fn module_code_maps(maps: &[MapEntry]) -> (r: Vec<usize>)
    ensures
        r@ == module_code_indices(maps@, maps@.len() as int),
{
    let mut r: Vec<usize> = Vec::new();
    let mut in_mod = false;
    let mut i: usize = 0;
    while i < maps.len()
        invariant
            i <= maps@.len(),
            in_mod == in_module(maps@, i - 1),
            r@ == module_code_indices(maps@, i as int),
        decreases maps@.len() - i,
    {
        let m = &maps[i];
        in_mod = match &m.origin {
            MapOrigin::File { path } => is_module_file_path(path.as_str()),
            MapOrigin::Anonymous => in_mod,
            MapOrigin::Other => false,
        };
        if in_mod && m.executable {
            r.push(i);
        }
        i = i + 1;
    }
    r
}

} // verus!
