//! Creating a VapourSynth core: the options it is created with, and what it
//! reports about itself.
use vstd::prelude::*;
use crate::text::{TextBuf, decimal_text};

verus! {

/// Options when creating a core.
#[derive(Debug, Clone, Copy, PartialEq, Eq, Structural, Hash)]
pub struct CoreCreationFlags {
    /// One bit per option.
    pub bits: u32,
}

impl CoreCreationFlags {
    /// No flags.
    pub fn none() -> (r: CoreCreationFlags)
        ensures
            r.bits == 0,
    {
        CoreCreationFlags { bits: 0 }
    }

    /// Required to use the graph inspection api functions. Increases memory usage due to the extra information stored.
    pub fn enable_graph_inspection() -> (r: CoreCreationFlags)
        ensures
            r.bits == 1,
    {
        CoreCreationFlags { bits: 1 }
    }

    /// Don’t autoload any user plugins. Core plugins are always loaded.
    pub fn disable_auto_loading() -> (r: CoreCreationFlags)
        ensures
            r.bits == 2,
    {
        CoreCreationFlags { bits: 2 }
    }

    /// Don’t unload plugin libraries when the core is destroyed.
    pub fn disable_library_unloading() -> (r: CoreCreationFlags)
        ensures
            r.bits == 4,
    {
        CoreCreationFlags { bits: 4 }
    }

    /// The flags of both.
    pub fn union(self, other: CoreCreationFlags) -> (r: CoreCreationFlags)
        ensures
            r.bits == self.bits | other.bits,
    {
        CoreCreationFlags { bits: self.bits | other.bits }
    }

    /// Whether every flag of `other` is set.
    pub fn contains(self, other: CoreCreationFlags) -> (r: bool)
        ensures
            r == (self.bits & other.bits == other.bits),
    {
        self.bits & other.bits == other.bits
    }

    /// The flags as the number VapourSynth takes.
    pub fn as_ffi(self) -> (r: i32)
        requires
            self.bits <= i32::MAX,
        ensures
            r == self.bits,
    {
        self.bits as i32
    }
}

/// Builder for the options of a new core.
#[derive(Debug, Clone, Copy, PartialEq, Eq, Structural)]
pub struct CoreBuilder {
    flags: CoreCreationFlags,
}

impl CoreBuilder {
    /// The options collected so far.
    pub closed spec fn spec_flags(&self) -> u32 {
        self.flags.bits
    }

    /// Creates a new `CoreBuilder` with default flags.
    pub fn new() -> (r: CoreBuilder)
        ensures
            r.spec_flags() == 0,
    {
        CoreBuilder { flags: CoreCreationFlags::none() }
    }

    /// Enables graph inspection API functions.
    pub fn with_graph_inspection(self) -> (r: CoreBuilder)
        ensures
            r.spec_flags() == self.spec_flags() | 1,
    {
        CoreBuilder { flags: self.flags.union(CoreCreationFlags::enable_graph_inspection()) }
    }

    /// Disables autoloading of user plugins.
    pub fn disable_auto_loading(self) -> (r: CoreBuilder)
        ensures
            r.spec_flags() == self.spec_flags() | 2,
    {
        CoreBuilder { flags: self.flags.union(CoreCreationFlags::disable_auto_loading()) }
    }

    /// Disables unloading of plugin libraries when the core is destroyed.
    pub fn disable_library_unloading(self) -> (r: CoreBuilder)
        ensures
            r.spec_flags() == self.spec_flags() | 4,
    {
        CoreBuilder { flags: self.flags.union(CoreCreationFlags::disable_library_unloading()) }
    }

    /// The options a core built now is created with.
    pub fn flags(&self) -> (r: CoreCreationFlags)
        ensures
            r.bits == self.spec_flags(),
    {
        self.flags
    }
}

impl Default for CoreBuilder {
    fn default() -> (r: CoreBuilder)
        ensures
            r.spec_flags() == 0,
    {
        CoreBuilder::new()
    }
}

/// The options a builder collects do not depend on the order they are asked
/// for in, and asking for one twice changes nothing.
pub proof fn lemma_builder_order_free(f: u32, a: u32, c: u32)
    ensures
        (f | a) | c == (f | c) | a,
        (f | a) | a == f | a,
{
    assert((f | a) | c == (f | c) | a) by (bit_vector);
    assert((f | a) | a == f | a) by (bit_vector);
}

/// Contains information about a `VapourSynth` core.
#[derive(Debug, Clone, PartialEq, Eq)]
pub struct CoreInfo {
    pub version_string: String,
    pub core_version: i32,
    pub api_version: i32,
    /// Number of worker threads.
    pub num_threads: usize,
    /// Maximum size of the framebuffer cache in bytes.
    pub max_framebuffer_size: u64,
    /// Current size of the framebuffer cache in bytes.
    pub used_framebuffer_size: u64,
}

/// The description of a core: its version text, then one line each for the
/// worker threads and the framebuffer cache.
pub open spec fn core_info_text(info: CoreInfo) -> Seq<char> {
    info.version_string@ + "Worker threads: "@ + decimal_text(info.num_threads as int) + "\n"@
        + "Max framebuffer cache size: "@ + decimal_text(info.max_framebuffer_size as int) + "\n"@
        + "Current framebuffer cache size: "@ + decimal_text(info.used_framebuffer_size as int)
        + "\n"@
}

impl CoreInfo {
    /// The information from the values VapourSynth reports, which are never
    /// negative.
    pub fn from_raw(
        version_string: String,
        core: i32,
        api: i32,
        num_threads: i32,
        max_framebuffer_size: i64,
        used_framebuffer_size: i64,
    ) -> (r: CoreInfo)
        requires
            num_threads >= 0,
            max_framebuffer_size >= 0,
            used_framebuffer_size >= 0,
        ensures
            r.version_string@ == version_string@,
            r.core_version == core,
            r.api_version == api,
            r.num_threads == num_threads,
            r.max_framebuffer_size == max_framebuffer_size,
            r.used_framebuffer_size == used_framebuffer_size,
    {
        CoreInfo {
            version_string,
            core_version: core,
            api_version: api,
            num_threads: num_threads as usize,
            max_framebuffer_size: max_framebuffer_size as u64,
            used_framebuffer_size: used_framebuffer_size as u64,
        }
    }

    /// The description of the core.
    pub fn to_text(&self) -> (r: String)
        ensures
            r@ == core_info_text(*self),
    {
        let mut t = TextBuf::new();
        t.push_str(self.version_string.as_str());
        t.push_str("Worker threads: ");
        t.push_u64(self.num_threads as u64);
        t.push_str("\n");
        t.push_str("Max framebuffer cache size: ");
        t.push_u64(self.max_framebuffer_size);
        t.push_str("\n");
        t.push_str("Current framebuffer cache size: ");
        t.push_u64(self.used_framebuffer_size);
        t.push_str("\n");
        t.into_string()
    }
}

} // verus!

verus! {

/// The description of a core is its version text, then a line for the
/// worker threads, the largest framebuffer cache and the cache in use, each
/// its label and the number in decimal.
pub proof fn lemma_core_info_lines(info: CoreInfo)
    ensures
        core_info_text(info) == info.version_string@ + crate::pipe::info_line(
            "Worker threads: "@,
            decimal_text(info.num_threads as int),
        ) + crate::pipe::info_line(
            "Max framebuffer cache size: "@,
            decimal_text(info.max_framebuffer_size as int),
        ) + crate::pipe::info_line(
            "Current framebuffer cache size: "@,
            decimal_text(info.used_framebuffer_size as int),
        ),
{
    let a = crate::pipe::info_line("Worker threads: "@, decimal_text(info.num_threads as int));
    let b = crate::pipe::info_line("Max framebuffer cache size: "@, decimal_text(info.max_framebuffer_size as int));
    let c = crate::pipe::info_line("Current framebuffer cache size: "@, decimal_text(info.used_framebuffer_size as int));
    assert(core_info_text(info) =~= info.version_string@ + a + b + c);
}

} // verus!
