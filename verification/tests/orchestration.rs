use rocksdb_build::bindings::{binding_outcome, binding_plan};
use rocksdb_build::config::BuildConfig;
use rocksdb_build::directive::{BuildError, Directive, LinkKind};
use rocksdb_build::orchestrate;
use rocksdb_build::source_set::SourceSet;
use rocksdb_build::strutil::{split_char, str_contains, trim_blank, upper_ascii};
use rocksdb_build::system::{
    DirStatus, LibProbe, ProbeOutcome, RuntimeProbe, SystemInputs, ToolFamily, lib_dir_var_name,
    link_cpp, link_dependencies, link_lib, probe_name, verify_lib_dir,
};
use rocksdb_build::vendor::{
    VendorInputs, build_bzip2, check_submodule, cxx_standard, link, vendor_dependencies,
};

fn probe(probe: ProbeOutcome, dir: Option<&str>, status: DirStatus) -> LibProbe {
    LibProbe { probe, lib_dir: dir.map(|d| d.to_string()), dir_status: status }
}

fn quiet_runtime() -> RuntimeProbe {
    RuntimeProbe { success: false, stdout: String::new(), absolute: false, parent: String::new() }
}

fn system_inputs() -> SystemInputs {
    SystemInputs {
        bzip2: probe(ProbeOutcome::NotAttempted, None, DirStatus::BadPath),
        lz4: probe(ProbeOutcome::NotAttempted, None, DirStatus::BadPath),
        snappy: probe(ProbeOutcome::NotAttempted, None, DirStatus::BadPath),
        zlib: probe(ProbeOutcome::NotAttempted, None, DirStatus::BadPath),
        zstd: probe(ProbeOutcome::NotAttempted, None, DirStatus::BadPath),
        rocksdb: probe(ProbeOutcome::NotAttempted, Some("/opt/r"), DirStatus::NonEmpty),
        tool_family: ToolFamily::Msvc,
        runtime_probe: quiet_runtime(),
    }
}

fn vendor_inputs(target: &str, features: &str, manifest: &str) -> VendorInputs {
    VendorInputs {
        target: target.to_string(),
        features: features.to_string(),
        endian: "little".to_string(),
        manifest: manifest.to_string(),
        manifest_dir: "/mfd".to_string(),
        cxx_override: None,
        bzip2_tree: DirStatus::NonEmpty,
        lz4_tree: DirStatus::NonEmpty,
        snappy_tree: DirStatus::NonEmpty,
        zlib_tree: DirStatus::NonEmpty,
        zstd_tree: DirStatus::NonEmpty,
    }
}

#[test]
fn standard_flag_prefixed_override_passes_through() {
    let over = Some("-std=c++17".to_string());
    assert_eq!(cxx_standard(&over), "-std=c++17");
}

#[test]
fn standard_flag_bare_override_gains_prefix() {
    let over = Some("c++17".to_string());
    assert_eq!(cxx_standard(&over), "-std=c++17");
}

#[test]
fn standard_flag_absent_override_yields_baseline() {
    assert_eq!(cxx_standard(&None), "-std=c++11");
}

#[test]
fn lib_dir_variable_is_uppercased_feature_name() {
    assert_eq!(lib_dir_var_name("bzip2"), "BZIP2_LIB_DIR");
    assert_eq!(lib_dir_var_name("zstd"), "ZSTD_LIB_DIR");
}

#[test]
fn probe_alias_used_for_probe_only() {
    assert_eq!(probe_name("zstd", Some("libzstd")), "libzstd");
    assert_eq!(probe_name("snappy", None), "snappy");
}

#[test]
fn unset_variable_aborts_naming_it_exactly() {
    // Scenario: system mode, one codec enabled whose package name differs
    // from its feature name, probing off. The variable consulted carries the
    // feature name, never the package alias.
    let mut cfg = BuildConfig::all_off();
    cfg.zstd = true;
    let sys = system_inputs();
    match link_dependencies(&cfg, &sys) {
        Err(BuildError::MissingEnvVar { var }) => {
            assert_eq!(var, "ZSTD_LIB_DIR");
            let msg = BuildError::MissingEnvVar { var }.message();
            assert_eq!(
                msg,
                "You must set ZSTD_LIB_DIR and it must be valid UTF-8 in order to link this library!"
            );
        },
        other => panic!("expected the missing-variable failure, got {:?} directives", other.is_ok()),
    }
}

#[test]
fn empty_directory_aborts_before_any_directive() {
    let r = link_lib(
        "rocksdb",
        None,
        false,
        false,
        &probe(ProbeOutcome::NotAttempted, Some("/somewhere"), DirStatus::Empty),
    );
    match r {
        Err(BuildError::EmptyLibDir { path }) => assert_eq!(path, "/somewhere"),
        _ => panic!("expected the empty-directory failure"),
    }
    assert!(verify_lib_dir("/somewhere", DirStatus::Empty).is_err());
    assert!(verify_lib_dir("/somewhere", DirStatus::NonEmpty).is_ok());
}

#[test]
fn failed_chain_emits_nothing() {
    let mut cfg = BuildConfig::all_off();
    cfg.bzip2 = true;
    let mut sys = system_inputs();
    sys.bzip2 = probe(ProbeOutcome::NotAttempted, Some("/empty"), DirStatus::Empty);
    let r = link_dependencies(&cfg, &sys);
    assert!(r.is_err(), "a failure must yield no directive at all");
}

#[test]
fn system_mode_happy_path_directives() {
    let cfg = BuildConfig::all_off();
    let sys = system_inputs();
    let dirs = link_dependencies(&cfg, &sys).expect("one installed library");
    assert_eq!(dirs.len(), 2);
    match &dirs[0] {
        Directive::SearchNative { path } => assert_eq!(path, "/opt/r"),
        _ => panic!("expected the search path first"),
    }
    match &dirs[1] {
        Directive::LinkLib { name, kind } => {
            assert_eq!(name, "rocksdb");
            assert_eq!(*kind, LinkKind::Default);
        },
        _ => panic!("expected the link directive second"),
    }
}

#[test]
fn probe_success_leaves_nothing_owed() {
    let mut cfg = BuildConfig::all_off();
    cfg.probing = true;
    let mut sys = system_inputs();
    sys.rocksdb = probe(ProbeOutcome::Succeeded, None, DirStatus::BadPath);
    let dirs = link_dependencies(&cfg, &sys).expect("the probe found it");
    assert!(dirs.is_empty());
}

#[test]
fn cpp_runtime_static_query_success() {
    let rp = RuntimeProbe {
        success: true,
        stdout: "/usr/lib/libstdc++.a\n".to_string(),
        absolute: true,
        parent: "/usr/lib".to_string(),
    };
    let dirs = link_cpp(ToolFamily::Gnu, &rp, false);
    assert_eq!(dirs.len(), 2);
    match &dirs[0] {
        Directive::LinkLib { name, kind } => {
            assert_eq!(name, "stdc++");
            assert_eq!(*kind, LinkKind::Dylib);
        },
        _ => panic!("expected the runtime link directive"),
    }
    match &dirs[1] {
        Directive::SearchNative { path } => assert_eq!(path, "/usr/lib"),
        _ => panic!("expected the runtime search path"),
    }
    let static_dirs = link_cpp(ToolFamily::Clang, &rp, true);
    match &static_dirs[0] {
        Directive::LinkLib { name, kind } => {
            assert_eq!(name, "c++");
            assert_eq!(*kind, LinkKind::Static);
        },
        _ => panic!("expected the clang runtime name"),
    }
}

#[test]
fn cpp_runtime_degrades_to_dynamic() {
    let relative = RuntimeProbe {
        success: true,
        stdout: "libstdc++.a".to_string(),
        absolute: false,
        parent: String::new(),
    };
    assert!(link_cpp(ToolFamily::Gnu, &relative, true).is_empty());
    assert!(link_cpp(ToolFamily::Gnu, &quiet_runtime(), true).is_empty());
    assert!(link_cpp(ToolFamily::Msvc, &quiet_runtime(), true).is_empty());
}

#[test]
fn windows_import_library_directives() {
    let dirs = link("rpcrt4", false, "x86_64-pc-windows-gnu", "/mfd");
    assert_eq!(dirs.len(), 1);
    match &dirs[0] {
        Directive::LinkLib { name, kind } => {
            assert_eq!(name, "rpcrt4");
            assert_eq!(*kind, LinkKind::Dylib);
        },
        _ => panic!("expected a dynamic link directive"),
    }
    let bundled = link("ssl", true, "x86_64-pc-windows-gnu", "/mfd");
    assert_eq!(bundled.len(), 2);
    match &bundled[1] {
        Directive::SearchNative { path } => assert_eq!(path, "/mfd/x86_64"),
        _ => panic!("expected the bundled search path"),
    }
    assert!(link("rpcrt4", false, "x86_64-unknown-linux-gnu", "/mfd").is_empty());
}

#[test]
fn empty_submodule_aborts_with_remediation() {
    match build_bzip2(DirStatus::Empty) {
        Err(BuildError::MissingSubmodule { path }) => {
            assert_eq!(path, "./bzip2");
            let msg = BuildError::MissingSubmodule { path }.message();
            assert!(msg.contains("git submodule update --init --recursive"));
        },
        _ => panic!("expected the missing-submodule failure"),
    }
    assert!(check_submodule("./bzip2", DirStatus::NonEmpty).is_ok());
}

#[test]
fn windows_target_exchanges_port_sources() {
    let manifest = "port/port_posix.cc\nenv/env_posix.cc\nenv/fs_posix.cc\nenv/io_posix.cc\nx.cc";
    let set = rocksdb_build::vendor::adjusted_source_set(manifest, "x86_64-pc-windows-msvc");
    let entries = set.into_entries();
    for posix in ["port/port_posix.cc", "env/env_posix.cc", "env/fs_posix.cc", "env/io_posix.cc"] {
        assert!(!entries.iter().any(|e| e == posix), "{posix} must be gone");
    }
    for win in [
        "port/win/port_win.cc",
        "port/win/env_win.cc",
        "port/win/env_default.cc",
        "port/win/win_logger.cc",
        "port/win/io_win.cc",
        "port/win/win_thread.cc",
    ] {
        assert_eq!(entries.iter().filter(|e| *e == win).count(), 1, "{win} must be present once");
    }
    assert!(entries.iter().any(|e| e == "x.cc"));
}

#[test]
fn arm64_target_carries_checksum_unit_once() {
    let set = rocksdb_build::vendor::adjusted_source_set(
        "util/crc32c_arm64.cc\ny.cc",
        "aarch64-unknown-linux-gnu",
    );
    let entries = set.into_entries();
    assert_eq!(entries.iter().filter(|e| *e == "util/crc32c_arm64.cc").count(), 1);
    let set2 = rocksdb_build::vendor::adjusted_source_set("y.cc", "aarch64-apple-darwin");
    let entries2 = set2.into_entries();
    assert_eq!(entries2.iter().filter(|e| *e == "util/crc32c_arm64.cc").count(), 1);
}

#[test]
fn vendor_scenario_linux_sse42_no_codecs() {
    // Scenario: vendor mode, no codecs, Linux x86-64 with SSE 4.2 reported.
    let mut cfg = BuildConfig::all_off();
    cfg.vendor = true;
    let vin = vendor_inputs(
        "x86_64-unknown-linux-gnu",
        "fxsr,sse,sse2,sse4.1,sse4.2",
        "a.cc\nutil/build_version.cc\nb.cc",
    );
    let (jobs, dirs) = vendor_dependencies(&cfg, &vin).expect("nothing can fail here");
    assert_eq!(jobs.len(), 1, "no codec archive may be produced");
    let engine = &jobs[0];
    assert_eq!(engine.out_name, "librocksdb.a");
    assert!(engine.flags_maybe.iter().any(|f| f == "-msse4.2"));
    assert!(engine.flags_maybe.iter().any(|f| f == "-msse2"));
    assert!(
        engine
            .defines
            .iter()
            .any(|d| d.name == "HAVE_SSE42" && d.value.as_deref() == Some("1"))
    );
    assert!(
        engine
            .defines
            .iter()
            .any(|d| d.name == "OS_LINUX" && d.value.as_deref() == Some("1"))
    );
    assert!(engine.defines.iter().any(|d| d.name == "ROCKSDB_SUPPORT_THREAD_LOCAL"));
    assert_eq!(engine.flags, vec!["-std=c++11".to_string(), "-Wno-unused-parameter".to_string()]);
    assert_eq!(
        engine.sources,
        vec!["rocksdb/a.cc".to_string(), "rocksdb/b.cc".to_string(), "build_version.cc".to_string()]
    );
    assert!(engine.cpp);
    assert!(dirs.is_empty());
}

#[test]
fn vendor_codec_archives_carry_canonical_names() {
    let mut cfg = BuildConfig::all_off();
    cfg.vendor = true;
    cfg.bzip2 = true;
    cfg.lz4 = true;
    cfg.snappy = true;
    let vin = vendor_inputs("x86_64-unknown-linux-gnu", "", "a.cc");
    let (jobs, dirs) = vendor_dependencies(&cfg, &vin).expect("all trees are present");
    let names: Vec<&str> = jobs.iter().map(|j| j.out_name.as_str()).collect();
    assert_eq!(names, vec!["libbz2.a", "liblz4.a", "libsnappy.a", "librocksdb.a"]);
    let reruns: Vec<&str> = dirs
        .iter()
        .filter_map(|d| match d {
            Directive::RerunIfChanged { path } => Some(path.as_str()),
            _ => None,
        })
        .collect();
    assert_eq!(reruns, vec!["./bzip2", "./lz4", "./snappy"]);
}

#[test]
fn system_mode_compiles_nothing() {
    let mut cfg = BuildConfig::all_off();
    cfg.zstd = true;
    let mut sys = system_inputs();
    sys.zstd = probe(ProbeOutcome::NotAttempted, Some("/opt/z"), DirStatus::NonEmpty);
    let vin = vendor_inputs("x86_64-unknown-linux-gnu", "", "a.cc");
    let plan = orchestrate(&cfg, &vin, &sys, &None).expect("system mode links fine");
    assert!(plan.jobs.is_empty(), "system mode must compile nothing");
    assert!(!plan.directives.is_empty());
}

#[test]
fn binding_configuration_is_fixed() {
    let plan = binding_plan(&None);
    assert_eq!(plan.header, "rocksdb/include/rocksdb/c.h");
    assert!(!plan.derive_debug);
    assert_eq!(plan.blocked_type, "max_align_t");
    assert_eq!(plan.ctypes_prefix, "libc");
    assert!(plan.size_t_is_usize);
    assert_eq!(plan.out_file, "bindings.rs");
    let over = binding_plan(&Some("/inc".to_string()));
    assert_eq!(over.header, "/inc/rocksdb/c.h");
}

#[test]
fn header_parse_failure_is_fatal() {
    assert!(binding_outcome(true).is_ok());
    match binding_outcome(false) {
        Err(e) => assert_eq!(e.message(), "Unable to generate RocksDB bindings"),
        Ok(_) => panic!("a failed parse cannot succeed"),
    }
}

#[test]
fn error_messages_name_the_place() {
    let bad = BuildError::BadLibDir { path: "/p".to_string() };
    assert_eq!(bad.message(), "Failed to canonicalize /p");
    let unread = BuildError::UnreadableLibDir { path: "/p".to_string() };
    assert_eq!(unread.message(), "Failed to open library dir /p");
    let empty = BuildError::EmptyLibDir { path: "/p".to_string() };
    assert_eq!(
        empty.message(),
        "Library dir /p is empty and is probably incorrect. Verify it is the correct path."
    );
}

#[test]
fn string_helpers_behave() {
    assert!(str_contains("x86_64-apple-darwin", "darwin"));
    assert!(!str_contains("x86_64-apple-darwin", "windows"));
    assert_eq!(trim_blank("  a b \r\n"), "a b");
    assert_eq!(upper_ascii("zstd"), "ZSTD");
    let pieces = split_char("a-b--c", '-');
    assert_eq!(pieces, vec!["a", "b", "", "c"]);
}

#[test]
fn manifest_entries_are_deduplicated() {
    let set = SourceSet::from_manifest("a.cc\nb.cc\na.cc\n  c.cc  ");
    let entries = set.into_entries();
    assert_eq!(entries, vec!["a.cc", "b.cc", "c.cc"]);
}

#[test]
fn vendor_pattern_codecs_carry_their_configuration() {
    let mut cfg = BuildConfig::all_off();
    cfg.vendor = true;
    cfg.zlib = true;
    cfg.zstd = true;
    let vin = vendor_inputs("x86_64-unknown-linux-gnu", "", "a.cc");
    let (jobs, dirs) = vendor_dependencies(&cfg, &vin).expect("patterns may expand to nothing");
    let names: Vec<&str> = jobs.iter().map(|j| j.out_name.as_str()).collect();
    assert_eq!(names, vec!["libz.a", "libzstd.a", "librocksdb.a"]);
    let zlib = &jobs[0];
    assert_eq!(zlib.opt_level, Some(3));
    assert!(!zlib.extra_warnings);
    assert!(zlib.flags_maybe.iter().any(|f| f == "-Wno-implicit-function-declaration"));
    let zstd = &jobs[1];
    assert!(zstd.header_dirs.iter().any(|d| d == "./zstd/lib/legacy/"));
    assert!(
        zstd.defines
            .iter()
            .any(|d| d.name == "ZSTD_LIB_DEPRECATED" && d.value.as_deref() == Some("0"))
    );
    let reruns: Vec<&str> = dirs
        .iter()
        .filter_map(|d| match d {
            Directive::RerunIfChanged { path } => Some(path.as_str()),
            _ => None,
        })
        .collect();
    assert_eq!(reruns, vec!["./zlib", "./zstd"]);
}

#[test]
fn vendor_stops_at_first_empty_tree() {
    let mut cfg = BuildConfig::all_off();
    cfg.vendor = true;
    cfg.bzip2 = true;
    cfg.lz4 = true;
    let mut vin = vendor_inputs("x86_64-unknown-linux-gnu", "", "a.cc");
    vin.lz4_tree = DirStatus::Empty;
    match vendor_dependencies(&cfg, &vin) {
        Err(BuildError::MissingSubmodule { path }) => assert_eq!(path, "./lz4"),
        _ => panic!("the first empty tree must end the run"),
    }
}

#[test]
fn windows_engine_build_defines_and_directives() {
    let mut cfg = BuildConfig::all_off();
    cfg.vendor = true;
    let vin = vendor_inputs(
        "x86_64-pc-windows-gnu",
        "",
        "a.cc\nport/port_posix.cc",
    );
    let (jobs, dirs) = vendor_dependencies(&cfg, &vin).expect("the engine always builds");
    let engine = &jobs[0];
    assert!(
        engine
            .defines
            .iter()
            .any(|d| d.name == "ROCKSDB_WINDOWS_UTF8_FILENAMES" && d.value.as_deref() == Some("1"))
    );
    assert!(
        engine
            .defines
            .iter()
            .any(|d| d.name == "_WIN32_WINNT" && d.value.as_deref() == Some("_WIN32_WINNT_VISTA"))
    );
    assert!(!engine.sources.iter().any(|s| s == "rocksdb/port/port_posix.cc"));
    assert!(engine.sources.iter().any(|s| s == "rocksdb/port/win/port_win.cc"));
    assert_eq!(engine.flags, vec!["-std=c++11".to_string(), "-Wno-unused-parameter".to_string()]);
    let linked: Vec<&str> = dirs
        .iter()
        .filter_map(|d| match d {
            Directive::LinkLib { name, kind: LinkKind::Dylib } => Some(name.as_str()),
            _ => None,
        })
        .collect();
    assert_eq!(linked, vec!["rpcrt4", "shlwapi"]);
}

#[test]
fn msvc_engine_build_uses_exception_flag() {
    let mut cfg = BuildConfig::all_off();
    cfg.vendor = true;
    let vin = vendor_inputs("x86_64-pc-windows-msvc", "", "a.cc");
    let (jobs, _dirs) = vendor_dependencies(&cfg, &vin).expect("the engine always builds");
    assert_eq!(jobs[0].flags, vec!["-EHsc".to_string()]);
}

#[test]
fn static_switch_yields_static_link_kind() {
    let r = link_lib(
        "rocksdb",
        None,
        true,
        false,
        &probe(ProbeOutcome::NotAttempted, Some("/opt/r"), DirStatus::NonEmpty),
    );
    let dirs = r.expect("a valid directory links");
    match &dirs[1] {
        Directive::LinkLib { name, kind } => {
            assert_eq!(name, "rocksdb");
            assert_eq!(*kind, LinkKind::Static);
        },
        _ => panic!("expected the link directive second"),
    }
}

#[test]
fn unreadable_tree_names_the_directory() {
    match check_submodule("./lz4", DirStatus::Unreadable) {
        Err(e) => assert_eq!(e.message(), "Failed to open directory ./lz4"),
        Ok(_) => panic!("an unreadable tree cannot pass"),
    }
}
