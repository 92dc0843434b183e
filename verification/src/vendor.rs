use vstd::prelude::*;
use crate::config::BuildConfig;
use crate::directive::{Directive, DirectiveModel, BuildError, ErrorModel, LinkKind};
use crate::job::{
    CompileJob, JobModel, empty_job, with_hdr, with_define, with_flag, with_flag_maybe,
    with_source,
};
use crate::system::{DirStatus, extend_dirs, result_models};
use crate::source_set::{SourceSet, drop_entry, set_insert, manifest_entries};
use crate::strutil::{str_contains, str_eq, str_starts_with, split_char, concat_str, contains_str,
    starts_with, split_str, list_has};
use crate::expand::glob_paths;

verus! {

/// A failure that pattern expansion can report.
pub open spec fn is_expand_error(e: ErrorModel) -> bool {
    match e {
        ErrorModel::BadPattern { pattern } => true,
        ErrorModel::WalkFailed { pattern } => true,
        _ => false,
    }
}

/// A pattern expansion's result is admissible when it either found a file
/// list or failed in one of the two ways expansion can fail.
pub open spec fn admissible_expansion(z: Result<Seq<Seq<char>>, ErrorModel>) -> bool {
    match z {
        Ok(fs) => true,
        Err(e) => is_expand_error(e),
    }
}

/// What checking a bundled source tree yields for each observed status: an
/// empty tree is the common setup mistake and gets the remediation hint; a
/// tree that cannot be canonicalized or opened is named as such.
pub open spec fn submodule_check_model(path: Seq<char>, st: DirStatus) -> Result<(), ErrorModel> {
    match st {
        DirStatus::NonEmpty => Ok(()),
        DirStatus::BadPath => Err(ErrorModel::BadLibDir { path: path }),
        DirStatus::Unreadable => Err(ErrorModel::UnreadableDir { path: path }),
        DirStatus::Empty => Err(ErrorModel::MissingSubmodule { path: path }),
    }
}

/// Verify that a codec's bundled source tree is present and non-empty before
/// anything is compiled from it.
pub fn check_submodule(path: &str, st: DirStatus) -> (r: Result<(), BuildError>)
    ensures
        result_models(r, submodule_check_model(path@, st)),
{
    match st {
        DirStatus::NonEmpty => Ok(()),
        DirStatus::BadPath => Err(BuildError::BadLibDir { path: String::from_str(path) }),
        DirStatus::Unreadable => Err(BuildError::UnreadableDir { path: String::from_str(path) }),
        DirStatus::Empty => Err(BuildError::MissingSubmodule { path: String::from_str(path) }),
    }
}

/// The rerun trigger for a vendored source directory.
pub fn enforce_rerun(path: &str) -> (d: Directive)
    ensures
        d@ == (DirectiveModel::RerunIfChanged { path: path@ }),
{
    Directive::RerunIfChanged { path: String::from_str(path) }
}

/// The C++ standard flag: an explicit override takes precedence, normalized
/// to carry the standard-selection prefix; without one, the fixed baseline.
pub open spec fn cxx_standard_model(over: Option<Seq<char>>) -> Seq<char> {
    match over {
        None => "-std=c++11"@,
        Some(s) => if starts_with(s, "-std="@) {
            s
        } else {
            "-std="@ + s
        },
    }
}

pub fn cxx_standard(over: &Option<String>) -> (r: String)
    ensures
        r@ == cxx_standard_model(match over {
            Some(s) => Some(s@),
            None => None,
        }),
{
    match over {
        None => String::from_str("-std=c++11"),
        Some(s) => {
            if str_starts_with(s.as_str(), "-std=") {
                s.clone()
            } else {
                concat_str("-std=", s.as_str())
            }
        },
    }
}

/// The import-library directives for one Windows system library: on a
/// Windows target triple the library is linked dynamically, and for a
/// bundled library on the GNU environment a search path under the manifest
/// directory is added for the target's architecture.
pub open spec fn link_model(
    name: Seq<char>,
    bundled: bool,
    target: Seq<char>,
    manifest_dir: Seq<char>,
) -> Seq<DirectiveModel> {
    let parts = split_str(target, '-');
    if parts.len() > 2 && parts[2] == "windows"@ {
        seq![DirectiveModel::LinkLib { name: name, kind: LinkKind::Dylib }] + (if bundled
            && parts.len() > 3 && parts[3] == "gnu"@ {
            seq![DirectiveModel::SearchNative { path: manifest_dir + "/"@ + parts[0] }]
        } else {
            Seq::empty()
        })
    } else {
        Seq::empty()
    }
}

pub fn link(name: &str, bundled: bool, target: &str, manifest_dir: &str) -> (r: Vec<Directive>)
    ensures
        r.deep_view() == link_model(name@, bundled, target@, manifest_dir@),
{
    let mut out: Vec<Directive> = Vec::new();
    let parts = split_char(target, '-');
    if parts.len() > 2 && str_eq(parts[2].as_str(), "windows") {
        out.push(Directive::LinkLib { name: String::from_str(name), kind: LinkKind::Dylib });
        if bundled && parts.len() > 3 && str_eq(parts[3].as_str(), "gnu") {
            let head = concat_str(manifest_dir, "/");
            let path = head.concat(parts[0].as_str());
            out.push(Directive::SearchNative { path });
        }
    }
    proof {
        assert(out.deep_view() =~= link_model(name@, bundled, target@, manifest_dir@));
    }
    out
}

/// The snappy codec's compilation job.
pub open spec fn snappy_job_model(target: Seq<char>, endian: Seq<char>) -> JobModel {
    let m = empty_job("libsnappy.a"@);
    let m = with_hdr(with_hdr(m, "./snappy/"@), "./"@);
    let m = with_define(m, "NDEBUG"@, Some("1"@));
    let m = JobModel { extra_warnings: false, ..m };
    let m = if contains_str(target, "msvc"@) {
        with_flag(m, "-EHsc"@)
    } else {
        with_flag(m, "-std=c++11"@)
    };
    let m = if endian == "big"@ {
        with_define(m, "SNAPPY_IS_BIG_ENDIAN"@, Some("1"@))
    } else {
        m
    };
    let m = with_source(m, "./snappy/snappy.cc"@);
    let m = with_source(m, "./snappy/snappy-sinksource.cc"@);
    let m = with_source(m, "./snappy/snappy-c.cc"@);
    JobModel { cpp: true, ..m }
}

pub fn snappy_job(target: &str, endian: &str) -> (j: CompileJob)
    ensures
        j@ == snappy_job_model(target@, endian@),
{
    let mut j = CompileJob::new("libsnappy.a");
    j.hdr("./snappy/");
    j.hdr("./");
    j.define("NDEBUG", Some("1"));
    j.quiet_warnings();
    if str_contains(target, "msvc") {
        j.flag("-EHsc");
    } else {
        j.flag("-std=c++11");
    }
    if str_eq(endian, "big") {
        j.define("SNAPPY_IS_BIG_ENDIAN", Some("1"));
    }
    j.source(String::from_str("./snappy/snappy.cc"));
    j.source(String::from_str("./snappy/snappy-sinksource.cc"));
    j.source(String::from_str("./snappy/snappy-c.cc"));
    j.set_cpp();
    proof {
        assert(j@ =~= snappy_job_model(target@, endian@));
    }
    j
}

/// The lz4 codec's compilation job.
pub open spec fn lz4_job_model(target: Seq<char>) -> JobModel {
    let m = empty_job("liblz4.a"@);
    let m = JobModel { opt_level: Some(3u32), ..m };
    let m = if contains_str(target, "i686-pc-windows-gnu"@) {
        with_flag(m, "-fno-tree-vectorize"@)
    } else {
        m
    };
    let m = with_source(m, "./lz4/lib/lz4.c"@);
    let m = with_source(m, "./lz4/lib/lz4frame.c"@);
    let m = with_source(m, "./lz4/lib/lz4hc.c"@);
    with_source(m, "./lz4/lib/xxhash.c"@)
}

pub fn lz4_job(target: &str) -> (j: CompileJob)
    ensures
        j@ == lz4_job_model(target@),
{
    let mut j = CompileJob::new("liblz4.a");
    j.set_opt_level(3);
    if str_contains(target, "i686-pc-windows-gnu") {
        j.flag("-fno-tree-vectorize");
    }
    j.source(String::from_str("./lz4/lib/lz4.c"));
    j.source(String::from_str("./lz4/lib/lz4frame.c"));
    j.source(String::from_str("./lz4/lib/lz4hc.c"));
    j.source(String::from_str("./lz4/lib/xxhash.c"));
    proof {
        assert(j@ =~= lz4_job_model(target@));
    }
    j
}

/// The bzip2 codec's compilation job.
pub open spec fn bzip2_job_model() -> JobModel {
    let m = empty_job("libbz2.a"@);
    let m = JobModel { extra_warnings: false, opt_level: Some(3u32), ..m };
    let m = with_define(m, "_FILE_OFFSET_BITS"@, Some("64"@));
    let m = with_define(m, "BZ_NO_STDIO"@, None);
    let m = with_source(m, "./bzip2/blocksort.c"@);
    let m = with_source(m, "./bzip2/bzlib.c"@);
    let m = with_source(m, "./bzip2/compress.c"@);
    let m = with_source(m, "./bzip2/crctable.c"@);
    let m = with_source(m, "./bzip2/decompress.c"@);
    let m = with_source(m, "./bzip2/huffman.c"@);
    with_source(m, "./bzip2/randtable.c"@)
}

pub fn bzip2_job() -> (j: CompileJob)
    ensures
        j@ == bzip2_job_model(),
{
    let mut j = CompileJob::new("libbz2.a");
    j.quiet_warnings();
    j.set_opt_level(3);
    j.define("_FILE_OFFSET_BITS", Some("64"));
    j.define("BZ_NO_STDIO", None);
    j.source(String::from_str("./bzip2/blocksort.c"));
    j.source(String::from_str("./bzip2/bzlib.c"));
    j.source(String::from_str("./bzip2/compress.c"));
    j.source(String::from_str("./bzip2/crctable.c"));
    j.source(String::from_str("./bzip2/decompress.c"));
    j.source(String::from_str("./bzip2/huffman.c"));
    j.source(String::from_str("./bzip2/randtable.c"));
    proof {
        assert(j@ =~= bzip2_job_model());
    }
    j
}

/// The zstd codec's compilation job, over whatever translation units the
/// pattern expansion found.
pub open spec fn zstd_job_model(files: Seq<Seq<char>>) -> JobModel {
    let m = empty_job("libzstd.a"@);
    let m = with_hdr(m, "./zstd/lib/"@);
    let m = with_hdr(m, "./zstd/lib/common/"@);
    let m = with_hdr(m, "./zstd/lib/legacy/"@);
    let m = with_define(m, "ZSTD_LIB_DEPRECATED"@, Some("0"@));
    let m = JobModel { opt_level: Some(3u32), extra_warnings: false, ..m };
    JobModel { sources: files, ..m }
}

pub fn zstd_job(files: Vec<String>) -> (j: CompileJob)
    ensures
        j@ == zstd_job_model(files.deep_view()),
{
    let ghost fs = files.deep_view();
    let mut j = CompileJob::new("libzstd.a");
    j.hdr("./zstd/lib/");
    j.hdr("./zstd/lib/common/");
    j.hdr("./zstd/lib/legacy/");
    j.define("ZSTD_LIB_DEPRECATED", Some("0"));
    j.set_opt_level(3);
    j.quiet_warnings();
    push_sources(&mut j, files);
    proof {
        assert(j@ =~= zstd_job_model(fs));
    }
    j
}

/// The zlib codec's compilation job, over whatever translation units the
/// pattern expansion found.
pub open spec fn zlib_job_model(files: Seq<Seq<char>>) -> JobModel {
    let m = empty_job("libz.a"@);
    let m = JobModel { opt_level: Some(3u32), ..m };
    let m = with_flag_maybe(m, "-Wno-implicit-function-declaration"@);
    let m = JobModel { extra_warnings: false, ..m };
    JobModel { sources: files, ..m }
}

pub fn zlib_job(files: Vec<String>) -> (j: CompileJob)
    ensures
        j@ == zlib_job_model(files.deep_view()),
{
    let ghost fs = files.deep_view();
    let mut j = CompileJob::new("libz.a");
    j.set_opt_level(3);
    j.flag_maybe("-Wno-implicit-function-declaration");
    j.quiet_warnings();
    push_sources(&mut j, files);
    proof {
        assert(j@ =~= zlib_job_model(fs));
    }
    j
}

/// Append every file of the list as a translation unit, in order.
fn push_sources(j: &mut CompileJob, files: Vec<String>)
    ensures
        final(j)@ == (JobModel {
            sources: old(j)@.sources + files.deep_view(),
            ..old(j)@
        }),
{
    let ghost start = j@;
    let ghost fs = files.deep_view();
    let mut i: usize = 0;
    while i < files.len()
        invariant
            i <= files.len(),
            fs == files.deep_view(),
            j@ == (JobModel { sources: start.sources + fs.take(i as int), ..start }),
        decreases files.len() - i,
    {
        let f = files[i].clone();
        j.source(f);
        proof {
            assert(start.sources + fs.take(i + 1) =~= (start.sources + fs.take(i as int)).push(
                fs[i as int],
            ));
            assert(j@ =~= (JobModel { sources: start.sources + fs.take(i + 1), ..start }));
        }
        i = i + 1;
    }
    proof {
        assert(fs.take(files.len() as int) =~= fs);
        assert(j@ =~= (JobModel { sources: start.sources + fs, ..start }));
    }
}

/// Compile the zstd codec from its bundled tree: the tree is checked first,
/// then its translation units are found by pattern expansion.
pub fn build_zstd(sub: DirStatus) -> (r: Result<(CompileJob, Vec<Directive>), BuildError>)
    ensures
        match r {
            Ok(jd) => sub == DirStatus::NonEmpty && (exists|fs: Seq<Seq<char>>|
                jd.0@ == zstd_job_model(fs)) && jd.1.deep_view() =~= seq![
                DirectiveModel::RerunIfChanged { path: "./zstd"@ },
            ],
            Err(e) => match submodule_check_model("./zstd"@, sub) {
                Err(m) => e@ == m,
                Ok(u) => is_expand_error(e@),
            },
        },
{
    let rerun = enforce_rerun("./zstd");
    match check_submodule("./zstd", sub) {
        Ok(u) => {
            proof {
                assert(sub == DirStatus::NonEmpty);
            }
        },
        Err(e) => {
            return Err(e);
        },
    }
    let mut files: Vec<String> = Vec::new();
    let patterns: [&str; 5] = [
        "./zstd/lib/common/*.c",
        "./zstd/lib/compress/*.c",
        "./zstd/lib/decompress/*.c",
        "./zstd/lib/dictBuilder/*.c",
        "./zstd/lib/legacy/*.c",
    ];
    let mut p: usize = 0;
    while p < 5
        invariant
            p <= 5,
            sub == DirStatus::NonEmpty,
        decreases 5 - p,
    {
        let mut found = match glob_paths(patterns[p]) {
            Ok(v) => v,
            Err(e) => {
                return Err(e);
            },
        };
        files.append(&mut found);
        p = p + 1;
    }
    let j = zstd_job(files);
    let mut dirs: Vec<Directive> = Vec::new();
    dirs.push(rerun);
    proof {
        assert(dirs.deep_view() =~= seq![DirectiveModel::RerunIfChanged { path: "./zstd"@ }]);
    }
    Ok((j, dirs))
}

/// Compile the zlib codec from its bundled tree: the tree is checked first,
/// then its translation units are found by pattern expansion.
pub fn build_zlib(sub: DirStatus) -> (r: Result<(CompileJob, Vec<Directive>), BuildError>)
    ensures
        match r {
            Ok(jd) => sub == DirStatus::NonEmpty && (exists|fs: Seq<Seq<char>>|
                jd.0@ == zlib_job_model(fs)) && jd.1.deep_view() =~= seq![
                DirectiveModel::RerunIfChanged { path: "./zlib"@ },
            ],
            Err(e) => match submodule_check_model("./zlib"@, sub) {
                Err(m) => e@ == m,
                Ok(u) => is_expand_error(e@),
            },
        },
{
    let rerun = enforce_rerun("./zlib");
    match check_submodule("./zlib", sub) {
        Ok(u) => {
            proof {
                assert(sub == DirStatus::NonEmpty);
            }
        },
        Err(e) => {
            return Err(e);
        },
    }
    let files = match glob_paths("./zlib/*.c") {
        Ok(v) => v,
        Err(e) => {
            return Err(e);
        },
    };
    let j = zlib_job(files);
    let mut dirs: Vec<Directive> = Vec::new();
    dirs.push(rerun);
    proof {
        assert(dirs.deep_view() =~= seq![DirectiveModel::RerunIfChanged { path: "./zlib"@ }]);
    }
    Ok((j, dirs))
}

/// The platform family branch for the engine build, chosen by the first
/// marker found in the target triple, in a fixed order.
#[derive(Clone, Copy, PartialEq, Eq, Structural)]
pub enum Platform {
    Darwin,
    Android,
    Linux,
    Freebsd,
    Windows,
    Other,
}

pub open spec fn platform_model(target: Seq<char>) -> Platform {
    if contains_str(target, "darwin"@) {
        Platform::Darwin
    } else if contains_str(target, "android"@) {
        Platform::Android
    } else if contains_str(target, "linux"@) {
        Platform::Linux
    } else if contains_str(target, "freebsd"@) {
        Platform::Freebsd
    } else if contains_str(target, "windows"@) {
        Platform::Windows
    } else {
        Platform::Other
    }
}

pub fn platform_of(target: &str) -> (p: Platform)
    ensures
        p == platform_model(target@),
{
    if str_contains(target, "darwin") {
        Platform::Darwin
    } else if str_contains(target, "android") {
        Platform::Android
    } else if str_contains(target, "linux") {
        Platform::Linux
    } else if str_contains(target, "freebsd") {
        Platform::Freebsd
    } else if str_contains(target, "windows") {
        Platform::Windows
    } else {
        Platform::Other
    }
}

/// The POSIX-only translation units that a Windows build must not compile.
pub open spec fn posix_only_sources() -> Seq<Seq<char>> {
    seq!["port/port_posix.cc"@, "env/env_posix.cc"@, "env/fs_posix.cc"@, "env/io_posix.cc"@]
}

/// The native-port translation units that a Windows build must compile.
pub open spec fn windows_port_sources() -> Seq<Seq<char>> {
    seq![
        "port/win/port_win.cc"@,
        "port/win/env_win.cc"@,
        "port/win/env_default.cc"@,
        "port/win/win_logger.cc"@,
        "port/win/io_win.cc"@,
        "port/win/win_thread.cc"@,
    ]
}

/// The engine's Source Set after every platform adjustment: the upstream
/// version-stamp unit is dropped (a pregenerated one is compiled instead),
/// the ARM checksum unit is added on ARM64 targets, and on the Windows
/// branch the POSIX-only units give way to the native port's units.
pub open spec fn adjusted_sources(manifest: Seq<char>, target: Seq<char>) -> Seq<Seq<char>> {
    let s0 = manifest_entries(manifest);
    let s1 = drop_entry(s0, "util/build_version.cc"@);
    let s2 = if contains_str(target, "aarch64"@) {
        set_insert(s1, "util/crc32c_arm64.cc"@)
    } else {
        s1
    };
    if platform_model(target) == Platform::Windows {
        let s3 = drop_entry(
            drop_entry(
                drop_entry(drop_entry(s2, "port/port_posix.cc"@), "env/env_posix.cc"@),
                "env/fs_posix.cc"@,
            ),
            "env/io_posix.cc"@,
        );
        set_insert(
            set_insert(
                set_insert(
                    set_insert(
                        set_insert(set_insert(s3, "port/win/port_win.cc"@), "port/win/env_win.cc"@),
                        "port/win/env_default.cc"@,
                    ),
                    "port/win/win_logger.cc"@,
                ),
                "port/win/io_win.cc"@,
            ),
            "port/win/win_thread.cc"@,
        )
    } else {
        s2
    }
}

/// Load the engine's Source Set from the manifest text and apply every
/// platform adjustment for the target.
pub fn adjusted_source_set(manifest: &str, target: &str) -> (s: SourceSet)
    ensures
        s@ == adjusted_sources(manifest@, target@),
        s.wf(),
{
    let mut s = SourceSet::from_manifest(manifest);
    s.remove_entry("util/build_version.cc");
    if str_contains(target, "aarch64") {
        s.insert(String::from_str("util/crc32c_arm64.cc"));
    }
    if platform_of(target) == Platform::Windows {
        s.remove_entry("port/port_posix.cc");
        s.remove_entry("env/env_posix.cc");
        s.remove_entry("env/fs_posix.cc");
        s.remove_entry("env/io_posix.cc");
        s.insert(String::from_str("port/win/port_win.cc"));
        s.insert(String::from_str("port/win/env_win.cc"));
        s.insert(String::from_str("port/win/env_default.cc"));
        s.insert(String::from_str("port/win/win_logger.cc"));
        s.insert(String::from_str("port/win/io_win.cc"));
        s.insert(String::from_str("port/win/win_thread.cc"));
    }
    s
}

/// The engine job before any target-conditional work: header search paths,
/// the per-codec feature macros, and the fixed release macro.
pub open spec fn rocksdb_base_model(cfg: BuildConfig) -> JobModel {
    let m = empty_job("librocksdb.a"@);
    let m = with_hdr(m, "./rocksdb/include/"@);
    let m = with_hdr(m, "./rocksdb/"@);
    let m = with_hdr(m, "./rocksdb/third-party/gtest-1.8.1/fused-src/"@);
    let m = if cfg.snappy {
        with_hdr(with_define(m, "SNAPPY"@, Some("1"@)), "./snappy/"@)
    } else {
        m
    };
    let m = if cfg.lz4 {
        with_hdr(with_define(m, "LZ4"@, Some("1"@)), "./lz4/lib/"@)
    } else {
        m
    };
    let m = if cfg.zstd {
        with_hdr(
            with_hdr(with_define(m, "ZSTD"@, Some("1"@)), "./zstd/lib/"@),
            "./zstd/lib/dictBuilder/"@,
        )
    } else {
        m
    };
    let m = if cfg.zlib {
        with_hdr(with_define(m, "ZLIB"@, Some("1"@)), "./zlib/"@)
    } else {
        m
    };
    let m = if cfg.bzip2 {
        with_hdr(with_define(m, "BZIP2"@, Some("1"@)), "./bzip2/"@)
    } else {
        m
    };
    let m = with_hdr(m, "."@);
    with_define(m, "NDEBUG"@, Some("1"@))
}

/// The hardware-acceleration stage for 64-bit x86 targets: vector flags per
/// reported feature, the checksum macro with SSE 4.2, and the carry-less
/// multiply macro where supported and not on the mobile OS.
pub open spec fn x86_stage(m: JobModel, target: Seq<char>, features: Seq<char>) -> JobModel {
    if !contains_str(target, "x86_64"@) {
        m
    } else {
        let feats = split_str(features, ',');
        let m = if feats.contains("sse2"@) {
            with_flag_maybe(m, "-msse2"@)
        } else {
            m
        };
        let m = if feats.contains("sse4.1"@) {
            with_flag_maybe(m, "-msse4.1"@)
        } else {
            m
        };
        let m = if feats.contains("sse4.2"@) {
            with_define(with_flag_maybe(m, "-msse4.2"@), "HAVE_SSE42"@, Some("1"@))
        } else {
            m
        };
        if !contains_str(target, "android"@) && feats.contains("pclmulqdq"@) {
            with_flag_maybe(with_define(m, "HAVE_PCLMUL"@, Some("1"@)), "-mpclmul"@)
        } else {
            m
        }
    }
}

/// The platform branch's macros: the platform's OS macro and the POSIX
/// input-output macros, or the Windows macro set, with the two extra
/// macros on the 64-bit GNU Windows target.
pub open spec fn platform_defines(m: JobModel, target: Seq<char>) -> JobModel {
    match platform_model(target) {
        Platform::Darwin => with_define(
            with_define(
                with_define(m, "OS_MACOSX"@, Some("1"@)),
                "ROCKSDB_PLATFORM_POSIX"@,
                Some("1"@),
            ),
            "ROCKSDB_LIB_IO_POSIX"@,
            Some("1"@),
        ),
        Platform::Android => with_define(
            with_define(
                with_define(m, "OS_ANDROID"@, Some("1"@)),
                "ROCKSDB_PLATFORM_POSIX"@,
                Some("1"@),
            ),
            "ROCKSDB_LIB_IO_POSIX"@,
            Some("1"@),
        ),
        Platform::Linux => with_define(
            with_define(
                with_define(m, "OS_LINUX"@, Some("1"@)),
                "ROCKSDB_PLATFORM_POSIX"@,
                Some("1"@),
            ),
            "ROCKSDB_LIB_IO_POSIX"@,
            Some("1"@),
        ),
        Platform::Freebsd => with_define(
            with_define(
                with_define(m, "OS_FREEBSD"@, Some("1"@)),
                "ROCKSDB_PLATFORM_POSIX"@,
                Some("1"@),
            ),
            "ROCKSDB_LIB_IO_POSIX"@,
            Some("1"@),
        ),
        Platform::Windows => {
            let m = with_define(m, "DWIN32"@, None);
            let m = with_define(m, "OS_WIN"@, None);
            let m = with_define(m, "_MBCS"@, None);
            let m = with_define(m, "WIN64"@, None);
            let m = with_define(m, "NOMINMAX"@, None);
            let m = with_define(m, "OS_WIN"@, Some("1"@));
            let m = with_define(m, "ROCKSDB_WINDOWS_UTF8_FILENAMES"@, Some("1"@));
            if target == "x86_64-pc-windows-gnu"@ {
                with_define(
                    with_define(m, "_POSIX_C_SOURCE"@, Some("1"@)),
                    "_WIN32_WINNT"@,
                    Some("_WIN32_WINNT_VISTA"@),
                )
            } else {
                m
            }
        },
        Platform::Other => m,
    }
}

/// The compiler-frontend flags: structured exception handling for the
/// Microsoft frontend; elsewhere the chosen C++ standard flag and the one
/// noisy warning class disabled.
pub open spec fn frontend_flags(m: JobModel, target: Seq<char>, over: Option<Seq<char>>) -> JobModel {
    if contains_str(target, "msvc"@) {
        with_flag(m, "-EHsc"@)
    } else {
        with_flag(with_flag(m, cxx_standard_model(over)), "-Wno-unused-parameter"@)
    }
}

/// Every translation unit the engine job compiles: the adjusted Source Set
/// under the engine's directory, then the pregenerated version stamp.
pub open spec fn rocksdb_sources_model(manifest: Seq<char>, target: Seq<char>) -> Seq<Seq<char>> {
    adjusted_sources(manifest, target).map_values(|e: Seq<char>| "rocksdb/"@ + e).push(
        "build_version.cc"@,
    )
}

/// The whole engine compilation job.
pub open spec fn rocksdb_job_model(
    cfg: BuildConfig,
    target: Seq<char>,
    features: Seq<char>,
    manifest: Seq<char>,
    over: Option<Seq<char>>,
) -> JobModel {
    let m = rocksdb_base_model(cfg);
    let m = x86_stage(m, target, features);
    let m = platform_defines(m, target);
    let m = frontend_flags(m, target, over);
    let m = with_define(m, "ROCKSDB_SUPPORT_THREAD_LOCAL"@, None);
    let m = if cfg.jemalloc {
        with_define(m, "WITH_JEMALLOC"@, Some("ON"@))
    } else {
        m
    };
    JobModel { sources: rocksdb_sources_model(manifest, target), cpp: true, ..m }
}

/// The directives the engine build emits: on the Windows branch, the two
/// system import libraries it needs.
pub open spec fn rocksdb_dirs_model(target: Seq<char>, manifest_dir: Seq<char>) -> Seq<
    DirectiveModel,
> {
    if platform_model(target) == Platform::Windows {
        link_model("rpcrt4"@, false, target, manifest_dir) + link_model(
            "shlwapi"@,
            false,
            target,
            manifest_dir,
        )
    } else {
        Seq::empty()
    }
}

/// Prefix every entry with the engine's directory.
fn prefix_sources(set: SourceSet) -> (v: Vec<String>)
    ensures
        v.deep_view().len() == set@.len(),
        forall|k: int| 0 <= k < set@.len() ==> v.deep_view()[k] == "rocksdb/"@ + set@[k],
{
    let ghost model = set@;
    let entries = set.into_entries();
    let mut out: Vec<String> = Vec::new();
    let mut i: usize = 0;
    while i < entries.len()
        invariant
            i <= entries.len(),
            entries.deep_view() == model,
            out.deep_view().len() == i,
            forall|k: int| 0 <= k < i ==> out.deep_view()[k] == "rocksdb/"@ + model[k],
        decreases entries.len() - i,
    {
        let ghost before = out.deep_view();
        let p = concat_str("rocksdb/", entries[i].as_str());
        out.push(p);
        proof {
            assert(out.deep_view() =~= before.push("rocksdb/"@ + model[i as int]));
        }
        i = i + 1;
    }
    out
}

/// Build the engine's compilation job and the directives that go with it.
#[verifier::rlimit(80)]
pub fn rocksdb_job(
    cfg: &BuildConfig,
    target: &str,
    features: &str,
    manifest: &str,
    cxx_override: &Option<String>,
    manifest_dir: &str,
) -> (r: (CompileJob, Vec<Directive>))
    ensures
        r.0@ == rocksdb_job_model(*cfg, target@, features@, manifest@, match cxx_override {
            Some(s) => Some(s@),
            None => None,
        }),
        r.1.deep_view() == rocksdb_dirs_model(target@, manifest_dir@),
{
    let ghost over = match cxx_override {
        Some(s) => Some(s@),
        None => None,
    };
    let mut j = CompileJob::new("librocksdb.a");
    j.hdr("./rocksdb/include/");
    j.hdr("./rocksdb/");
    j.hdr("./rocksdb/third-party/gtest-1.8.1/fused-src/");
    if cfg.snappy {
        j.define("SNAPPY", Some("1"));
        j.hdr("./snappy/");
    }
    if cfg.lz4 {
        j.define("LZ4", Some("1"));
        j.hdr("./lz4/lib/");
    }
    if cfg.zstd {
        j.define("ZSTD", Some("1"));
        j.hdr("./zstd/lib/");
        j.hdr("./zstd/lib/dictBuilder/");
    }
    if cfg.zlib {
        j.define("ZLIB", Some("1"));
        j.hdr("./zlib/");
    }
    if cfg.bzip2 {
        j.define("BZIP2", Some("1"));
        j.hdr("./bzip2/");
    }
    j.hdr(".");
    j.define("NDEBUG", Some("1"));
    proof {
        assert(j@ =~= rocksdb_base_model(*cfg));
    }
    let ghost m_base = rocksdb_base_model(*cfg);
    let sources = adjusted_source_set(manifest, target);
    if str_contains(target, "x86_64") {
        let feats = split_char(features, ',');
        if list_has(&feats, "sse2") {
            j.flag_maybe("-msse2");
        }
        if list_has(&feats, "sse4.1") {
            j.flag_maybe("-msse4.1");
        }
        if list_has(&feats, "sse4.2") {
            j.flag_maybe("-msse4.2");
            j.define("HAVE_SSE42", Some("1"));
        }
        if !str_contains(target, "android") && list_has(&feats, "pclmulqdq") {
            j.define("HAVE_PCLMUL", Some("1"));
            j.flag_maybe("-mpclmul");
        }
    }
    proof {
        assert(j@ =~= x86_stage(m_base, target@, features@));
    }
    let ghost m_x86 = x86_stage(m_base, target@, features@);
    let mut dirs: Vec<Directive> = Vec::new();
    match platform_of(target) {
        Platform::Darwin => {
            j.define("OS_MACOSX", Some("1"));
            j.define("ROCKSDB_PLATFORM_POSIX", Some("1"));
            j.define("ROCKSDB_LIB_IO_POSIX", Some("1"));
        },
        Platform::Android => {
            j.define("OS_ANDROID", Some("1"));
            j.define("ROCKSDB_PLATFORM_POSIX", Some("1"));
            j.define("ROCKSDB_LIB_IO_POSIX", Some("1"));
        },
        Platform::Linux => {
            j.define("OS_LINUX", Some("1"));
            j.define("ROCKSDB_PLATFORM_POSIX", Some("1"));
            j.define("ROCKSDB_LIB_IO_POSIX", Some("1"));
        },
        Platform::Freebsd => {
            j.define("OS_FREEBSD", Some("1"));
            j.define("ROCKSDB_PLATFORM_POSIX", Some("1"));
            j.define("ROCKSDB_LIB_IO_POSIX", Some("1"));
        },
        Platform::Windows => {
            let mut d1 = link("rpcrt4", false, target, manifest_dir);
            dirs.append(&mut d1);
            let mut d2 = link("shlwapi", false, target, manifest_dir);
            dirs.append(&mut d2);
            j.define("DWIN32", None);
            j.define("OS_WIN", None);
            j.define("_MBCS", None);
            j.define("WIN64", None);
            j.define("NOMINMAX", None);
            j.define("OS_WIN", Some("1"));
            j.define("ROCKSDB_WINDOWS_UTF8_FILENAMES", Some("1"));
            if str_eq(target, "x86_64-pc-windows-gnu") {
                j.define("_POSIX_C_SOURCE", Some("1"));
                j.define("_WIN32_WINNT", Some("_WIN32_WINNT_VISTA"));
            }
        },
        Platform::Other => {},
    }
    proof {
        assert(j@ =~= platform_defines(m_x86, target@));
        assert(dirs.deep_view() =~= rocksdb_dirs_model(target@, manifest_dir@));
    }
    let ghost m_plat = platform_defines(m_x86, target@);
    if str_contains(target, "msvc") {
        j.flag("-EHsc");
    } else {
        let std_flag = cxx_standard(cxx_override);
        j.flag(std_flag.as_str());
        j.flag("-Wno-unused-parameter");
    }
    proof {
        assert(j@ =~= frontend_flags(m_plat, target@, over));
    }
    j.define("ROCKSDB_SUPPORT_THREAD_LOCAL", None);
    if cfg.jemalloc {
        j.define("WITH_JEMALLOC", Some("ON"));
    }
    let prefixed = prefix_sources(sources);
    push_sources(&mut j, prefixed);
    j.source(String::from_str("build_version.cc"));
    j.set_cpp();
    proof {
        assert(j@.sources =~= rocksdb_sources_model(manifest@, target@));
        assert(j@ =~= rocksdb_job_model(*cfg, target@, features@, manifest@, over));
    }
    (j, dirs)
}

/// What building the bzip2 codec yields: its tree checked, then its job and
/// its rerun trigger.
pub open spec fn bzip2_build_model(sub: DirStatus) -> Result<
    (JobModel, Seq<DirectiveModel>),
    ErrorModel,
> {
    match submodule_check_model("./bzip2"@, sub) {
        Err(m) => Err(m),
        Ok(u) => Ok(
            (bzip2_job_model(), seq![DirectiveModel::RerunIfChanged { path: "./bzip2"@ }]),
        ),
    }
}

pub fn build_bzip2(sub: DirStatus) -> (r: Result<(CompileJob, Vec<Directive>), BuildError>)
    ensures
        result_models(r, bzip2_build_model(sub)),
{
    let rerun = enforce_rerun("./bzip2");
    match check_submodule("./bzip2", sub) {
        Ok(u) => {},
        Err(e) => {
            return Err(e);
        },
    }
    let j = bzip2_job();
    let mut dirs: Vec<Directive> = Vec::new();
    dirs.push(rerun);
    proof {
        assert(dirs.deep_view() =~= seq![DirectiveModel::RerunIfChanged { path: "./bzip2"@ }]);
    }
    Ok((j, dirs))
}

/// What building the lz4 codec yields.
pub open spec fn lz4_build_model(target: Seq<char>, sub: DirStatus) -> Result<
    (JobModel, Seq<DirectiveModel>),
    ErrorModel,
> {
    match submodule_check_model("./lz4"@, sub) {
        Err(m) => Err(m),
        Ok(u) => Ok(
            (lz4_job_model(target), seq![DirectiveModel::RerunIfChanged { path: "./lz4"@ }]),
        ),
    }
}

pub fn build_lz4(target: &str, sub: DirStatus) -> (r: Result<
    (CompileJob, Vec<Directive>),
    BuildError,
>)
    ensures
        result_models(r, lz4_build_model(target@, sub)),
{
    let rerun = enforce_rerun("./lz4");
    match check_submodule("./lz4", sub) {
        Ok(u) => {},
        Err(e) => {
            return Err(e);
        },
    }
    let j = lz4_job(target);
    let mut dirs: Vec<Directive> = Vec::new();
    dirs.push(rerun);
    proof {
        assert(dirs.deep_view() =~= seq![DirectiveModel::RerunIfChanged { path: "./lz4"@ }]);
    }
    Ok((j, dirs))
}

/// What building the snappy codec yields.
pub open spec fn snappy_build_model(target: Seq<char>, endian: Seq<char>, sub: DirStatus) -> Result<
    (JobModel, Seq<DirectiveModel>),
    ErrorModel,
> {
    match submodule_check_model("./snappy"@, sub) {
        Err(m) => Err(m),
        Ok(u) => Ok(
            (
                snappy_job_model(target, endian),
                seq![DirectiveModel::RerunIfChanged { path: "./snappy"@ }],
            ),
        ),
    }
}

pub fn build_snappy(target: &str, endian: &str, sub: DirStatus) -> (r: Result<
    (CompileJob, Vec<Directive>),
    BuildError,
>)
    ensures
        result_models(r, snappy_build_model(target@, endian@, sub)),
{
    let rerun = enforce_rerun("./snappy");
    match check_submodule("./snappy", sub) {
        Ok(u) => {},
        Err(e) => {
            return Err(e);
        },
    }
    let j = snappy_job(target, endian);
    let mut dirs: Vec<Directive> = Vec::new();
    dirs.push(rerun);
    proof {
        assert(dirs.deep_view() =~= seq![DirectiveModel::RerunIfChanged { path: "./snappy"@ }]);
    }
    Ok((j, dirs))
}

/// What building the zlib codec yields, given the pattern expansion's result.
pub open spec fn zlib_build_model(
    sub: DirStatus,
    globres: Result<Seq<Seq<char>>, ErrorModel>,
) -> Result<(JobModel, Seq<DirectiveModel>), ErrorModel> {
    match submodule_check_model("./zlib"@, sub) {
        Err(m) => Err(m),
        Ok(u) => match globres {
            Err(e) => Err(e),
            Ok(fs) => Ok(
                (zlib_job_model(fs), seq![DirectiveModel::RerunIfChanged { path: "./zlib"@ }]),
            ),
        },
    }
}

/// What building the zstd codec yields, given the pattern expansions' result.
pub open spec fn zstd_build_model(
    sub: DirStatus,
    globres: Result<Seq<Seq<char>>, ErrorModel>,
) -> Result<(JobModel, Seq<DirectiveModel>), ErrorModel> {
    match submodule_check_model("./zstd"@, sub) {
        Err(m) => Err(m),
        Ok(u) => match globres {
            Err(e) => Err(e),
            Ok(fs) => Ok(
                (zstd_job_model(fs), seq![DirectiveModel::RerunIfChanged { path: "./zstd"@ }]),
            ),
        },
    }
}

/// Everything the surrounding program hands vendor-mode orchestration: the
/// target triple, the reported target features and endianness, the manifest
/// text and working directory, the standard override, and each bundled
/// tree's observed status.
pub struct VendorInputs {
    pub target: String,
    pub features: String,
    pub endian: String,
    pub manifest: String,
    pub manifest_dir: String,
    pub cxx_override: Option<String>,
    pub bzip2_tree: DirStatus,
    pub lz4_tree: DirStatus,
    pub snappy_tree: DirStatus,
    pub zlib_tree: DirStatus,
    pub zstd_tree: DirStatus,
}

#[verifier::ext_equal]
pub struct VendorInputsModel {
    pub target: Seq<char>,
    pub features: Seq<char>,
    pub endian: Seq<char>,
    pub manifest: Seq<char>,
    pub manifest_dir: Seq<char>,
    pub cxx_override: Option<Seq<char>>,
    pub bzip2_tree: DirStatus,
    pub lz4_tree: DirStatus,
    pub snappy_tree: DirStatus,
    pub zlib_tree: DirStatus,
    pub zstd_tree: DirStatus,
}

impl View for VendorInputs {
    type V = VendorInputsModel;

    open spec fn view(&self) -> VendorInputsModel {
        VendorInputsModel {
            target: self.target@,
            features: self.features@,
            endian: self.endian@,
            manifest: self.manifest@,
            manifest_dir: self.manifest_dir@,
            cxx_override: match self.cxx_override {
                Some(ref s) => Some(s@),
                None => None,
            },
            bzip2_tree: self.bzip2_tree,
            lz4_tree: self.lz4_tree,
            snappy_tree: self.snappy_tree,
            zlib_tree: self.zlib_tree,
            zstd_tree: self.zstd_tree,
        }
    }
}

/// One vendor-mode step: a failed chain stands; a disabled codec adds
/// nothing; else the codec's job and directives are appended, or its failure
/// ends the chain.
pub open spec fn vendor_step(
    acc: Result<(Seq<JobModel>, Seq<DirectiveModel>), ErrorModel>,
    enabled: bool,
    one: Result<(JobModel, Seq<DirectiveModel>), ErrorModel>,
) -> Result<(Seq<JobModel>, Seq<DirectiveModel>), ErrorModel> {
    match acc {
        Err(e) => Err(e),
        Ok(jd) => if !enabled {
            Ok(jd)
        } else {
            match one {
                Err(e) => Err(e),
                Ok(next) => Ok((jd.0.push(next.0), jd.1 + next.1)),
            }
        },
    }
}

/// What vendor-mode orchestration yields: each enabled codec's job in a
/// fixed order, then the engine's job, with their directives; the first
/// failure stops the chain. The two pattern expansions' results stand as
/// parameters, since what they find depends on what is on disk.
pub open spec fn vendor_model(
    cfg: BuildConfig,
    vin: VendorInputsModel,
    zlib_glob: Result<Seq<Seq<char>>, ErrorModel>,
    zstd_glob: Result<Seq<Seq<char>>, ErrorModel>,
) -> Result<(Seq<JobModel>, Seq<DirectiveModel>), ErrorModel> {
    let acc = Ok((Seq::<JobModel>::empty(), Seq::<DirectiveModel>::empty()));
    let acc = vendor_step(acc, cfg.bzip2, bzip2_build_model(vin.bzip2_tree));
    let acc = vendor_step(acc, cfg.lz4, lz4_build_model(vin.target, vin.lz4_tree));
    let acc = vendor_step(
        acc,
        cfg.snappy,
        snappy_build_model(vin.target, vin.endian, vin.snappy_tree),
    );
    let acc = vendor_step(acc, cfg.zlib, zlib_build_model(vin.zlib_tree, zlib_glob));
    let acc = vendor_step(acc, cfg.zstd, zstd_build_model(vin.zstd_tree, zstd_glob));
    match acc {
        Err(e) => Err(e),
        Ok(jd) => Ok(
            (
                jd.0.push(
                    rocksdb_job_model(cfg, vin.target, vin.features, vin.manifest, vin.cxx_override),
                ),
                jd.1 + rocksdb_dirs_model(vin.target, vin.manifest_dir),
            ),
        ),
    }
}

/// Produce the compilation jobs for every enabled codec and for the engine,
/// with the build-tool directives that go with them, or stop at the first
/// fatal condition. With the two pattern-dependent codecs disabled the
/// outcome is exact; else it is exact over whatever the expansions found.
#[verifier::rlimit(100)]
pub fn vendor_dependencies(cfg: &BuildConfig, vin: &VendorInputs) -> (r: Result<
    (Vec<CompileJob>, Vec<Directive>),
    BuildError,
>)
    ensures
        exists|zl: Result<Seq<Seq<char>>, ErrorModel>, zs: Result<Seq<Seq<char>>, ErrorModel>|
            result_models(r, #[trigger] vendor_model(*cfg, vin@, zl, zs))
                && admissible_expansion(zl) && admissible_expansion(zs),
        !cfg.zlib && !cfg.zstd ==> result_models(
            r,
            vendor_model(
                *cfg,
                vin@,
                Ok(Seq::<Seq<char>>::empty()),
                Ok(Seq::<Seq<char>>::empty()),
            ),
        ),
{
    let ghost none: Result<Seq<Seq<char>>, ErrorModel> = Ok(Seq::<Seq<char>>::empty());
    let ghost mut zl: Result<Seq<Seq<char>>, ErrorModel> = none;
    let ghost mut zs: Result<Seq<Seq<char>>, ErrorModel> = none;
    let mut jobs: Vec<CompileJob> = Vec::new();
    let mut dirs: Vec<Directive> = Vec::new();
    proof {
        assert(jobs.deep_view() =~= Seq::<JobModel>::empty());
        assert(dirs.deep_view() =~= Seq::<DirectiveModel>::empty());
    }
    let ghost a0: Result<(Seq<JobModel>, Seq<DirectiveModel>), ErrorModel> = Ok(
        (Seq::<JobModel>::empty(), Seq::<DirectiveModel>::empty()),
    );
    if cfg.bzip2 {
        match build_bzip2(vin.bzip2_tree) {
            Ok(jd) => {
                let (job, ds) = jd;
                let ghost jb = jobs.deep_view();
                jobs.push(job);
                proof {
                    assert(jobs.deep_view() =~= jb.push(job@));
                }
                extend_dirs(&mut dirs, ds);
            },
            Err(e) => {
                proof {
                    assert(result_models(
                        Err::<(Vec<CompileJob>, Vec<Directive>), BuildError>(e),
                        vendor_model(*cfg, vin@, zl, zs),
                    ));
                }
                return Err(e);
            },
        }
    }
    let ghost a1 = vendor_step(a0, cfg.bzip2, bzip2_build_model(vin@.bzip2_tree));
    proof {
        assert(a1 == Ok::<_, ErrorModel>((jobs.deep_view(), dirs.deep_view())));
    }
    if cfg.lz4 {
        match build_lz4(vin.target.as_str(), vin.lz4_tree) {
            Ok(jd) => {
                let (job, ds) = jd;
                let ghost jb = jobs.deep_view();
                jobs.push(job);
                proof {
                    assert(jobs.deep_view() =~= jb.push(job@));
                }
                extend_dirs(&mut dirs, ds);
            },
            Err(e) => {
                proof {
                    assert(result_models(
                        Err::<(Vec<CompileJob>, Vec<Directive>), BuildError>(e),
                        vendor_model(*cfg, vin@, zl, zs),
                    ));
                }
                return Err(e);
            },
        }
    }
    let ghost a2 = vendor_step(a1, cfg.lz4, lz4_build_model(vin@.target, vin@.lz4_tree));
    proof {
        assert(a2 == Ok::<_, ErrorModel>((jobs.deep_view(), dirs.deep_view())));
    }
    if cfg.snappy {
        match build_snappy(vin.target.as_str(), vin.endian.as_str(), vin.snappy_tree) {
            Ok(jd) => {
                let (job, ds) = jd;
                let ghost jb = jobs.deep_view();
                jobs.push(job);
                proof {
                    assert(jobs.deep_view() =~= jb.push(job@));
                }
                extend_dirs(&mut dirs, ds);
            },
            Err(e) => {
                proof {
                    assert(result_models(
                        Err::<(Vec<CompileJob>, Vec<Directive>), BuildError>(e),
                        vendor_model(*cfg, vin@, zl, zs),
                    ));
                }
                return Err(e);
            },
        }
    }
    let ghost a3 = vendor_step(
        a2,
        cfg.snappy,
        snappy_build_model(vin@.target, vin@.endian, vin@.snappy_tree),
    );
    proof {
        assert(a3 == Ok::<_, ErrorModel>((jobs.deep_view(), dirs.deep_view())));
    }
    if cfg.zlib {
        match build_zlib(vin.zlib_tree) {
            Ok(jd) => {
                let (job, ds) = jd;
                proof {
                    let fs = choose|fs: Seq<Seq<char>>| job@ == zlib_job_model(fs);
                    zl = Ok(fs);
                }
                let ghost jb = jobs.deep_view();
                jobs.push(job);
                proof {
                    assert(jobs.deep_view() =~= jb.push(job@));
                }
                extend_dirs(&mut dirs, ds);
            },
            Err(e) => {
                proof {
                    if submodule_check_model("./zlib"@, vin@.zlib_tree) is Ok {
                        zl = Err(e@);
                    }
                    assert(result_models(
                        Err::<(Vec<CompileJob>, Vec<Directive>), BuildError>(e),
                        vendor_model(*cfg, vin@, zl, zs),
                    ));
                }
                return Err(e);
            },
        }
    }
    let ghost a4 = vendor_step(a3, cfg.zlib, zlib_build_model(vin@.zlib_tree, zl));
    proof {
        assert(a4 == Ok::<_, ErrorModel>((jobs.deep_view(), dirs.deep_view())));
    }
    if cfg.zstd {
        match build_zstd(vin.zstd_tree) {
            Ok(jd) => {
                let (job, ds) = jd;
                proof {
                    let fs = choose|fs: Seq<Seq<char>>| job@ == zstd_job_model(fs);
                    zs = Ok(fs);
                }
                let ghost jb = jobs.deep_view();
                jobs.push(job);
                proof {
                    assert(jobs.deep_view() =~= jb.push(job@));
                }
                extend_dirs(&mut dirs, ds);
            },
            Err(e) => {
                proof {
                    if submodule_check_model("./zstd"@, vin@.zstd_tree) is Ok {
                        zs = Err(e@);
                    }
                    assert(result_models(
                        Err::<(Vec<CompileJob>, Vec<Directive>), BuildError>(e),
                        vendor_model(*cfg, vin@, zl, zs),
                    ));
                }
                return Err(e);
            },
        }
    }
    let ghost a5 = vendor_step(a4, cfg.zstd, zstd_build_model(vin@.zstd_tree, zs));
    proof {
        assert(a5 == Ok::<_, ErrorModel>((jobs.deep_view(), dirs.deep_view())));
    }
    let engine = rocksdb_job(
        cfg,
        vin.target.as_str(),
        vin.features.as_str(),
        vin.manifest.as_str(),
        &vin.cxx_override,
        vin.manifest_dir.as_str(),
    );
    let (ejob, edirs) = engine;
    let ghost jb = jobs.deep_view();
    jobs.push(ejob);
    proof {
        assert(jobs.deep_view() =~= jb.push(ejob@));
    }
    extend_dirs(&mut dirs, edirs);
    proof {
        assert(result_models(
            Ok::<(Vec<CompileJob>, Vec<Directive>), BuildError>((jobs, dirs)),
            vendor_model(*cfg, vin@, zl, zs),
        ));
    }
    Ok((jobs, dirs))
}

} // verus!
