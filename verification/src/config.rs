use vstd::prelude::*;

verus! {

/// The immutable build configuration: which orchestration mode runs, how
/// libraries are linked, and which optional codecs are enabled. Constructed
/// once per build invocation; every component branches on its fields.
#[derive(Clone, Copy, PartialEq, Eq, Structural)]
pub struct BuildConfig {
    /// Vendor mode compiles bundled sources; otherwise system mode links
    /// already-installed libraries.
    pub vendor: bool,
    /// Request static linking of the located libraries.
    pub static_link: bool,
    /// Request static linking of the C++ runtime.
    pub static_libcpp: bool,
    /// Allow discovery of libraries through the package-metadata probe.
    pub probing: bool,
    /// Suppress the probe's own build-tool metadata output.
    pub non_cargo: bool,
    /// Define the custom-allocator macro for the engine build.
    pub jemalloc: bool,
    pub snappy: bool,
    pub lz4: bool,
    pub zstd: bool,
    pub zlib: bool,
    pub bzip2: bool,
}

impl BuildConfig {
    /// A configuration with every switch off: system mode, dynamic linking,
    /// no probing, no codecs.
    pub fn all_off() -> (c: BuildConfig)
        ensures
            c == (BuildConfig {
                vendor: false,
                static_link: false,
                static_libcpp: false,
                probing: false,
                non_cargo: false,
                jemalloc: false,
                snappy: false,
                lz4: false,
                zstd: false,
                zlib: false,
                bzip2: false,
            }),
    {
        BuildConfig {
            vendor: false,
            static_link: false,
            static_libcpp: false,
            probing: false,
            non_cargo: false,
            jemalloc: false,
            snappy: false,
            lz4: false,
            zstd: false,
            zlib: false,
            bzip2: false,
        }
    }
}

} // verus!
