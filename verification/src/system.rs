use vstd::prelude::*;
use crate::config::BuildConfig;
use crate::directive::{Directive, DirectiveModel, BuildError, ErrorModel, LinkKind};
use crate::strutil::{upper_ascii, upper_char, concat_str};

verus! {

/// What the surrounding program observed about a declared library directory.
#[derive(Clone, Copy, PartialEq, Eq, Structural)]
pub enum DirStatus {
    /// The path could not be canonicalized.
    BadPath,
    /// The canonical directory could not be opened.
    Unreadable,
    /// The directory opened but holds nothing.
    Empty,
    /// The directory holds at least one entry.
    NonEmpty,
}

/// What the package-metadata probe reported for one library.
#[derive(Clone, Copy, PartialEq, Eq, Structural)]
pub enum ProbeOutcome {
    NotAttempted,
    Succeeded,
    Failed,
}

/// Everything the surrounding program observed for one library: the probe's
/// outcome, the per-library directory variable's value, and — when that
/// variable is set — the status of the directory it names.
pub struct LibProbe {
    pub probe: ProbeOutcome,
    pub lib_dir: Option<String>,
    pub dir_status: DirStatus,
}

#[verifier::ext_equal]
pub struct LibProbeModel {
    pub probe: ProbeOutcome,
    pub lib_dir: Option<Seq<char>>,
    pub dir_status: DirStatus,
}

impl View for LibProbe {
    type V = LibProbeModel;

    open spec fn view(&self) -> LibProbeModel {
        LibProbeModel {
            probe: self.probe,
            lib_dir: match self.lib_dir {
                Some(ref d) => Some(d@),
                None => None,
            },
            dir_status: self.dir_status,
        }
    }
}

/// The compiler frontend family in use; the three are mutually exclusive.
#[derive(Clone, Copy, PartialEq, Eq, Structural)]
pub enum ToolFamily {
    Gnu,
    Clang,
    Msvc,
}

/// The observed result of asking the compiler for the absolute path of its
/// static C++ runtime archive.
pub struct RuntimeProbe {
    /// The query ran and exited successfully, with decodable output.
    pub success: bool,
    /// The captured output.
    pub stdout: String,
    /// The output, read as a path, is absolute.
    pub absolute: bool,
    /// The parent directory of that path.
    pub parent: String,
}

#[verifier::ext_equal]
pub struct RuntimeProbeModel {
    pub success: bool,
    pub stdout: Seq<char>,
    pub absolute: bool,
    pub parent: Seq<char>,
}

impl View for RuntimeProbe {
    type V = RuntimeProbeModel;

    open spec fn view(&self) -> RuntimeProbeModel {
        RuntimeProbeModel {
            success: self.success,
            stdout: self.stdout@,
            absolute: self.absolute,
            parent: self.parent@,
        }
    }
}

/// A result agrees with its mathematical model.
pub open spec fn result_models<T: DeepView, E: DeepView>(
    r: Result<T, E>,
    m: Result<T::V, E::V>,
) -> bool {
    match (r, m) {
        (Ok(v), Ok(mv)) => v.deep_view() == mv,
        (Err(e), Err(me)) => e.deep_view() == me,
        _ => false,
    }
}

/// The deterministic name of the per-library directory variable: the
/// uppercased library name followed by `_LIB_DIR`.
pub open spec fn lib_var_name(name: Seq<char>) -> Seq<char> {
    name.map_values(|c: char| upper_char(c)) + "_LIB_DIR"@
}

pub fn lib_dir_var_name(name: &str) -> (r: String)
    ensures
        r@ == lib_var_name(name@),
{
    let upper = upper_ascii(name);
    upper.concat("_LIB_DIR")
}

/// The name handed to the package-metadata probe: an explicit alias where the
/// on-disk package name differs from the feature name, else the feature name.
pub fn probe_name<'a>(name: &'a str, pkg_name: Option<&'a str>) -> (r: &'a str)
    ensures
        r@ == match pkg_name {
            Some(p) => p@,
            None => name@,
        },
{
    match pkg_name {
        Some(p) => p,
        None => name,
    }
}

/// What validating a declared directory yields for each observed status.
pub open spec fn dir_check_model(path: Seq<char>, st: DirStatus) -> Result<(), ErrorModel> {
    match st {
        DirStatus::NonEmpty => Ok(()),
        DirStatus::BadPath => Err(ErrorModel::BadLibDir { path: path }),
        DirStatus::Unreadable => Err(ErrorModel::UnreadableLibDir { path: path }),
        DirStatus::Empty => Err(ErrorModel::EmptyLibDir { path: path }),
    }
}

/// Validate a declared library directory: it must canonicalize, open, and
/// hold at least one entry. Validation comes before any directive for it.
pub fn verify_lib_dir(path: &str, st: DirStatus) -> (r: Result<(), BuildError>)
    ensures
        result_models(r, dir_check_model(path@, st)),
{
    match st {
        DirStatus::NonEmpty => Ok(()),
        DirStatus::BadPath => Err(BuildError::BadLibDir { path: String::from_str(path) }),
        DirStatus::Unreadable => Err(
            BuildError::UnreadableLibDir { path: String::from_str(path) },
        ),
        DirStatus::Empty => Err(BuildError::EmptyLibDir { path: String::from_str(path) }),
    }
}

/// The declared directory for a library, read from `<NAME>_LIB_DIR`; absent
/// means the build stops, naming that exact variable.
pub fn get_lib_dir(name: &str, lib_dir: &Option<String>) -> (r: Result<String, BuildError>)
    ensures
        match r {
            Ok(d) => lib_dir is Some && d@ == lib_dir->0@,
            Err(e) => lib_dir is None && e@ == (ErrorModel::MissingEnvVar {
                var: lib_var_name(name@),
            }),
        },
{
    match lib_dir {
        Some(d) => Ok(d.clone()),
        None => Err(BuildError::MissingEnvVar { var: lib_dir_var_name(name) }),
    }
}

/// What linking one already-installed library yields. When the probe found
/// it, the probe has emitted everything needed and nothing more is owed.
/// Otherwise the declared directory is validated first; only a validated
/// directory yields its search-path and link directives, the library linked
/// statically exactly when the static-linking switch is on.
pub open spec fn link_lib_model(
    name: Seq<char>,
    alt_name: Option<Seq<char>>,
    static_link: bool,
    probing: bool,
    obs: LibProbeModel,
) -> Result<Seq<DirectiveModel>, ErrorModel> {
    if probing && obs.probe == ProbeOutcome::Succeeded {
        Ok(Seq::empty())
    } else {
        match obs.lib_dir {
            None => Err(ErrorModel::MissingEnvVar { var: lib_var_name(name) }),
            Some(dir) => match dir_check_model(dir, obs.dir_status) {
                Err(e) => Err(e),
                Ok(u) => Ok(
                    seq![
                        DirectiveModel::SearchNative { path: dir },
                        DirectiveModel::LinkLib {
                            name: match alt_name {
                                Some(a) => a,
                                None => name,
                            },
                            kind: if static_link {
                                LinkKind::Static
                            } else {
                                LinkKind::Default
                            },
                        },
                    ],
                ),
            },
        }
    }
}

/// Emit the directives for one library, or the first fatal error. `alt_name`
/// is the link name where the library file's name differs from the feature
/// name.
pub fn link_lib(
    name: &str,
    alt_name: Option<&str>,
    static_link: bool,
    probing: bool,
    obs: &LibProbe,
) -> (r: Result<Vec<Directive>, BuildError>)
    ensures
        result_models(
            r,
            link_lib_model(
                name@,
                match alt_name {
                    Some(a) => Some(a@),
                    None => None,
                },
                static_link,
                probing,
                obs@,
            ),
        ),
{
    if probing && obs.probe == ProbeOutcome::Succeeded {
        let empty: Vec<Directive> = Vec::new();
        proof {
            assert(empty.deep_view() =~= Seq::<DirectiveModel>::empty());
        }
        return Ok(empty);
    }
    let dir = match get_lib_dir(name, &obs.lib_dir) {
        Ok(d) => d,
        Err(e) => {
            return Err(e);
        },
    };
    match verify_lib_dir(dir.as_str(), obs.dir_status) {
        Ok(u) => {},
        Err(e) => {
            return Err(e);
        },
    }
    let mut out: Vec<Directive> = Vec::new();
    let link_name = match alt_name {
        Some(a) => a,
        None => name,
    };
    let kind = if static_link {
        LinkKind::Static
    } else {
        LinkKind::Default
    };
    out.push(Directive::SearchNative { path: dir });
    out.push(Directive::LinkLib { name: String::from_str(link_name), kind });
    proof {
        let m = link_lib_model(
            name@,
            match alt_name {
                Some(a) => Some(a@),
                None => None,
            },
            static_link,
            probing,
            obs@,
        );
        assert(out.deep_view() =~= m->Ok_0);
    }
    Ok(out)
}

/// The static runtime archive the family would use, if any.
pub open spec fn cpp_stdlib_name(fam: ToolFamily) -> Option<Seq<char>> {
    match fam {
        ToolFamily::Gnu => Some("libstdc++.a"@),
        ToolFamily::Clang => Some("libc++.a"@),
        ToolFamily::Msvc => None,
    }
}

/// The bare link name of a runtime archive: the `lib` front and the `.a` tail
/// stripped off.
pub open spec fn bare_link_name(s: Seq<char>) -> Seq<char> {
    s.subrange(3, s.len() - 2)
}

/// What linking the C++ runtime yields. For the family with no static
/// runtime archive, nothing. Where the query failed, returned nothing, or
/// returned a relative path, nothing — the runtime then links dynamically by
/// default, which always works. On success: the archive's bare link name,
/// linked statically exactly when the dedicated runtime switch is on, and
/// its directory.
pub open spec fn link_cpp_model(
    fam: ToolFamily,
    probe: RuntimeProbeModel,
    static_libcpp: bool,
) -> Seq<DirectiveModel> {
    match cpp_stdlib_name(fam) {
        None => Seq::empty(),
        Some(stdlib) => if !probe.success || probe.stdout.len() == 0 || !probe.absolute {
            Seq::empty()
        } else {
            seq![
                DirectiveModel::LinkLib {
                    name: bare_link_name(stdlib),
                    kind: if static_libcpp {
                        LinkKind::Static
                    } else {
                        LinkKind::Dylib
                    },
                },
                DirectiveModel::SearchNative { path: probe.parent },
            ]
        },
    }
}

pub fn link_cpp(fam: ToolFamily, probe: &RuntimeProbe, static_libcpp: bool) -> (r: Vec<Directive>)
    ensures
        r.deep_view() == link_cpp_model(fam, probe@, static_libcpp),
{
    let mut out: Vec<Directive> = Vec::new();
    let stdlib: &str = match fam {
        ToolFamily::Gnu => "libstdc++.a",
        ToolFamily::Clang => "libc++.a",
        ToolFamily::Msvc => {
            proof {
                assert(out.deep_view() =~= link_cpp_model(fam, probe@, static_libcpp));
            }
            return out;
        },
    };
    if !probe.success || probe.stdout.as_str().unicode_len() == 0 || !probe.absolute {
        proof {
            assert(out.deep_view() =~= link_cpp_model(fam, probe@, static_libcpp));
        }
        return out;
    }
    proof {
        reveal_strlit("libstdc++.a");
        reveal_strlit("libc++.a");
    }
    let stdlib_len: usize = stdlib.unicode_len();
    let libname = stdlib.substring_char(3, stdlib_len - 2);
    let kind = if static_libcpp {
        LinkKind::Static
    } else {
        LinkKind::Dylib
    };
    out.push(Directive::LinkLib { name: String::from_str(libname), kind });
    out.push(Directive::SearchNative { path: probe.parent.clone() });
    proof {
        assert(out.deep_view() =~= link_cpp_model(fam, probe@, static_libcpp));
    }
    out
}

/// Everything the surrounding program observed for system-mode linking.
pub struct SystemInputs {
    pub bzip2: LibProbe,
    pub lz4: LibProbe,
    pub snappy: LibProbe,
    pub zlib: LibProbe,
    pub zstd: LibProbe,
    pub rocksdb: LibProbe,
    pub tool_family: ToolFamily,
    pub runtime_probe: RuntimeProbe,
}

#[verifier::ext_equal]
pub struct SystemInputsModel {
    pub bzip2: LibProbeModel,
    pub lz4: LibProbeModel,
    pub snappy: LibProbeModel,
    pub zlib: LibProbeModel,
    pub zstd: LibProbeModel,
    pub rocksdb: LibProbeModel,
    pub tool_family: ToolFamily,
    pub runtime_probe: RuntimeProbeModel,
}

impl View for SystemInputs {
    type V = SystemInputsModel;

    open spec fn view(&self) -> SystemInputsModel {
        SystemInputsModel {
            bzip2: self.bzip2@,
            lz4: self.lz4@,
            snappy: self.snappy@,
            zlib: self.zlib@,
            zstd: self.zstd@,
            rocksdb: self.rocksdb@,
            tool_family: self.tool_family,
            runtime_probe: self.runtime_probe@,
        }
    }
}

/// One system-mode step: on an already-failed chain, the failure stands; on
/// a disabled library, nothing is added; else the library's directives are
/// appended, or its failure ends the chain.
pub open spec fn link_step(
    acc: Result<Seq<DirectiveModel>, ErrorModel>,
    enabled: bool,
    name: Seq<char>,
    alt_name: Option<Seq<char>>,
    cfg: BuildConfig,
    obs: LibProbeModel,
) -> Result<Seq<DirectiveModel>, ErrorModel> {
    match acc {
        Err(e) => Err(e),
        Ok(ds) => if !enabled {
            Ok(ds)
        } else {
            match link_lib_model(name, alt_name, cfg.static_link, cfg.probing, obs) {
                Err(e) => Err(e),
                Ok(d2) => Ok(ds + d2),
            }
        },
    }
}

/// What system-mode linking yields: each enabled codec in a fixed order,
/// then the engine, then the C++ runtime; the first failure stops the chain
/// with nothing emitted.
pub open spec fn link_dependencies_model(cfg: BuildConfig, sys: SystemInputsModel) -> Result<
    Seq<DirectiveModel>,
    ErrorModel,
> {
    let r0 = Ok(Seq::<DirectiveModel>::empty());
    let r1 = link_step(r0, cfg.bzip2, "bzip2"@, Some("bz2"@), cfg, sys.bzip2);
    let r2 = link_step(r1, cfg.lz4, "lz4"@, None, cfg, sys.lz4);
    let r3 = link_step(r2, cfg.snappy, "snappy"@, None, cfg, sys.snappy);
    let r4 = link_step(r3, cfg.zlib, "zlib"@, Some("z"@), cfg, sys.zlib);
    let r5 = link_step(r4, cfg.zstd, "zstd"@, None, cfg, sys.zstd);
    let r6 = link_step(r5, true, "rocksdb"@, None, cfg, sys.rocksdb);
    match r6 {
        Err(e) => Err(e),
        Ok(ds) => Ok(ds + link_cpp_model(sys.tool_family, sys.runtime_probe, cfg.static_libcpp)),
    }
}

pub(crate) fn extend_dirs(dst: &mut Vec<Directive>, src: Vec<Directive>)
    ensures
        final(dst).deep_view() == old(dst).deep_view() + src.deep_view(),
{
    let ghost dst0 = dst.deep_view();
    let ghost src0 = src.deep_view();
    let mut src = src;
    dst.append(&mut src);
    proof {
        assert(dst.deep_view() =~= dst0 + src0);
    }
}

/// Emit the link directives for every already-installed library this build
/// needs, in a fixed order, or stop at the first fatal error with nothing
/// emitted.
#[verifier::rlimit(60)]
pub fn link_dependencies(cfg: &BuildConfig, sys: &SystemInputs) -> (r: Result<
    Vec<Directive>,
    BuildError,
>)
    ensures
        result_models(r, link_dependencies_model(*cfg, sys@)),
{
    let ghost r0: Result<Seq<DirectiveModel>, ErrorModel> = Ok(Seq::<DirectiveModel>::empty());
    let ghost r1 = link_step(r0, cfg.bzip2, "bzip2"@, Some("bz2"@), *cfg, sys@.bzip2);
    let ghost r2 = link_step(r1, cfg.lz4, "lz4"@, None, *cfg, sys@.lz4);
    let ghost r3 = link_step(r2, cfg.snappy, "snappy"@, None, *cfg, sys@.snappy);
    let ghost r4 = link_step(r3, cfg.zlib, "zlib"@, Some("z"@), *cfg, sys@.zlib);
    let ghost r5 = link_step(r4, cfg.zstd, "zstd"@, None, *cfg, sys@.zstd);
    let ghost r6 = link_step(r5, true, "rocksdb"@, None, *cfg, sys@.rocksdb);
    let mut out: Vec<Directive> = Vec::new();
    proof {
        assert(out.deep_view() =~= Seq::<DirectiveModel>::empty());
    }
    if cfg.bzip2 {
        match link_lib("bzip2", Some("bz2"), cfg.static_link, cfg.probing, &sys.bzip2) {
            Ok(ds) => extend_dirs(&mut out, ds),
            Err(e) => {
                assert(link_dependencies_model(*cfg, sys@) == Err::<Seq<DirectiveModel>, _>(e@));
                return Err(e);
            },
        }
    }
    assert(r1 == Ok::<_, ErrorModel>(out.deep_view()));
    if cfg.lz4 {
        match link_lib("lz4", None, cfg.static_link, cfg.probing, &sys.lz4) {
            Ok(ds) => extend_dirs(&mut out, ds),
            Err(e) => {
                assert(link_dependencies_model(*cfg, sys@) == Err::<Seq<DirectiveModel>, _>(e@));
                return Err(e);
            },
        }
    }
    assert(r2 == Ok::<_, ErrorModel>(out.deep_view()));
    if cfg.snappy {
        match link_lib("snappy", None, cfg.static_link, cfg.probing, &sys.snappy) {
            Ok(ds) => extend_dirs(&mut out, ds),
            Err(e) => {
                assert(link_dependencies_model(*cfg, sys@) == Err::<Seq<DirectiveModel>, _>(e@));
                return Err(e);
            },
        }
    }
    assert(r3 == Ok::<_, ErrorModel>(out.deep_view()));
    if cfg.zlib {
        match link_lib("zlib", Some("z"), cfg.static_link, cfg.probing, &sys.zlib) {
            Ok(ds) => extend_dirs(&mut out, ds),
            Err(e) => {
                assert(link_dependencies_model(*cfg, sys@) == Err::<Seq<DirectiveModel>, _>(e@));
                return Err(e);
            },
        }
    }
    assert(r4 == Ok::<_, ErrorModel>(out.deep_view()));
    if cfg.zstd {
        match link_lib("zstd", None, cfg.static_link, cfg.probing, &sys.zstd) {
            Ok(ds) => extend_dirs(&mut out, ds),
            Err(e) => {
                assert(link_dependencies_model(*cfg, sys@) == Err::<Seq<DirectiveModel>, _>(e@));
                return Err(e);
            },
        }
    }
    assert(r5 == Ok::<_, ErrorModel>(out.deep_view()));
    match link_lib("rocksdb", None, cfg.static_link, cfg.probing, &sys.rocksdb) {
        Ok(ds) => extend_dirs(&mut out, ds),
        Err(e) => {
            assert(link_dependencies_model(*cfg, sys@) == Err::<Seq<DirectiveModel>, _>(e@));
            return Err(e);
        },
    }
    assert(r6 == Ok::<_, ErrorModel>(out.deep_view()));
    let cpp = link_cpp(sys.tool_family, &sys.runtime_probe, cfg.static_libcpp);
    extend_dirs(&mut out, cpp);
    Ok(out)
}

} // verus!
