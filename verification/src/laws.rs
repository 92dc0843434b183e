use vstd::prelude::*;
use crate::config::BuildConfig;
use crate::directive::{DirectiveModel, ErrorModel};
use crate::job::{DefineModel, JobModel, with_define};
use crate::source_set::{
    count_of, distinct, drop_entry, lemma_distinct_count, lemma_drop_entry_contains,
    lemma_drop_entry_distinct, lemma_manifest_distinct, lemma_set_insert_contains,
    lemma_set_insert_distinct, manifest_entries, set_insert,
};
use crate::strutil::{contains_str, starts_with};
use crate::system::{DirStatus, LibProbeModel, ProbeOutcome, lib_var_name, link_lib_model};
use crate::vendor::{
    Platform, VendorInputsModel, adjusted_sources, bzip2_build_model, cxx_standard_model,
    lz4_build_model, platform_defines, platform_model, posix_only_sources, rocksdb_base_model,
    rocksdb_job_model, snappy_build_model, vendor_model, vendor_step, windows_port_sources,
    x86_stage, zlib_build_model, zstd_build_model,
};

verus! {

/// For any target on the Windows platform branch, the adjusted Source Set
/// holds none of the POSIX-only units and every one of the six native-port
/// units. (A triple that carries the Windows marker together with an
/// earlier branch's marker is not on the Windows branch.)
pub proof fn lemma_windows_source_exchange(manifest: Seq<char>, target: Seq<char>)
    requires
        platform_model(target) == Platform::Windows,
    ensures
        forall|p: Seq<char>|
            posix_only_sources().contains(p) ==> !adjusted_sources(manifest, target).contains(p),
        forall|w: Seq<char>|
            windows_port_sources().contains(w) ==> adjusted_sources(manifest, target).contains(w),
{
    reveal_strlit("port/port_posix.cc");
    reveal_strlit("env/env_posix.cc");
    reveal_strlit("env/fs_posix.cc");
    reveal_strlit("env/io_posix.cc");
    reveal_strlit("port/win/port_win.cc");
    reveal_strlit("port/win/env_win.cc");
    reveal_strlit("port/win/env_default.cc");
    reveal_strlit("port/win/win_logger.cc");
    reveal_strlit("port/win/io_win.cc");
    reveal_strlit("port/win/win_thread.cc");
    let p0 = "port/port_posix.cc"@;
    let p1 = "env/env_posix.cc"@;
    let p2 = "env/fs_posix.cc"@;
    let p3 = "env/io_posix.cc"@;
    let w0 = "port/win/port_win.cc"@;
    let w1 = "port/win/env_win.cc"@;
    let w2 = "port/win/env_default.cc"@;
    let w3 = "port/win/win_logger.cc"@;
    let w4 = "port/win/io_win.cc"@;
    let w5 = "port/win/win_thread.cc"@;
    let s0 = manifest_entries(manifest);
    let s1 = drop_entry(s0, "util/build_version.cc"@);
    let s2 = if contains_str(target, "aarch64"@) {
        set_insert(s1, "util/crc32c_arm64.cc"@)
    } else {
        s1
    };
    let d1 = drop_entry(s2, p0);
    let d2 = drop_entry(d1, p1);
    let d3 = drop_entry(d2, p2);
    let d4 = drop_entry(d3, p3);
    let i1 = set_insert(d4, w0);
    let i2 = set_insert(i1, w1);
    let i3 = set_insert(i2, w2);
    let i4 = set_insert(i3, w3);
    let i5 = set_insert(i4, w4);
    let i6 = set_insert(i5, w5);
    assert(adjusted_sources(manifest, target) == i6);
    assert(p0 != w0) by {
        assert(p0[5] == 'p');
        assert(w0[5] == 'w');
    }
    assert(p0 != w1) by {
        assert(p0[5] == 'p');
        assert(w1[5] == 'w');
    }
    assert(p0 != w2) by {
        assert(p0[5] == 'p');
        assert(w2[5] == 'w');
    }
    assert(p0 != w3) by {
        assert(p0[5] == 'p');
        assert(w3[5] == 'w');
    }
    assert(p0 != w4) by {
        assert(p0[5] == 'p');
        assert(w4[5] == 'w');
    }
    assert(p0 != w5) by {
        assert(p0[5] == 'p');
        assert(w5[5] == 'w');
    }
    assert(p1 != w0) by {
        assert(p1[0] == 'e');
        assert(w0[0] == 'p');
    }
    assert(p1 != w1) by {
        assert(p1[0] == 'e');
        assert(w1[0] == 'p');
    }
    assert(p1 != w2) by {
        assert(p1[0] == 'e');
        assert(w2[0] == 'p');
    }
    assert(p1 != w3) by {
        assert(p1[0] == 'e');
        assert(w3[0] == 'p');
    }
    assert(p1 != w4) by {
        assert(p1[0] == 'e');
        assert(w4[0] == 'p');
    }
    assert(p1 != w5) by {
        assert(p1[0] == 'e');
        assert(w5[0] == 'p');
    }
    assert(p2 != w0) by {
        assert(p2[0] == 'e');
        assert(w0[0] == 'p');
    }
    assert(p2 != w1) by {
        assert(p2[0] == 'e');
        assert(w1[0] == 'p');
    }
    assert(p2 != w2) by {
        assert(p2[0] == 'e');
        assert(w2[0] == 'p');
    }
    assert(p2 != w3) by {
        assert(p2[0] == 'e');
        assert(w3[0] == 'p');
    }
    assert(p2 != w4) by {
        assert(p2[0] == 'e');
        assert(w4[0] == 'p');
    }
    assert(p2 != w5) by {
        assert(p2[0] == 'e');
        assert(w5[0] == 'p');
    }
    assert(p3 != w0) by {
        assert(p3[0] == 'e');
        assert(w0[0] == 'p');
    }
    assert(p3 != w1) by {
        assert(p3[0] == 'e');
        assert(w1[0] == 'p');
    }
    assert(p3 != w2) by {
        assert(p3[0] == 'e');
        assert(w2[0] == 'p');
    }
    assert(p3 != w3) by {
        assert(p3[0] == 'e');
        assert(w3[0] == 'p');
    }
    assert(p3 != w4) by {
        assert(p3[0] == 'e');
        assert(w4[0] == 'p');
    }
    assert(p3 != w5) by {
        assert(p3[0] == 'e');
        assert(w5[0] == 'p');
    }
    assert forall|p: Seq<char>| posix_only_sources().contains(p) implies !i6.contains(p) by {
        assert(p == p0 || p == p1 || p == p2 || p == p3) by {
            let k = choose|k: int|
                0 <= k < posix_only_sources().len() && posix_only_sources()[k] == p;
            assert(posix_only_sources()[0] == p0);
            assert(posix_only_sources()[1] == p1);
            assert(posix_only_sources()[2] == p2);
            assert(posix_only_sources()[3] == p3);
        }
        lemma_drop_entry_contains(s2, p0, p);
        lemma_drop_entry_contains(d1, p1, p);
        lemma_drop_entry_contains(d2, p2, p);
        lemma_drop_entry_contains(d3, p3, p);
        assert(!d4.contains(p));
        lemma_set_insert_contains(d4, w0, p);
        lemma_set_insert_contains(i1, w1, p);
        lemma_set_insert_contains(i2, w2, p);
        lemma_set_insert_contains(i3, w3, p);
        lemma_set_insert_contains(i4, w4, p);
        lemma_set_insert_contains(i5, w5, p);
    }
    assert forall|w: Seq<char>| windows_port_sources().contains(w) implies i6.contains(w) by {
        assert(w == w0 || w == w1 || w == w2 || w == w3 || w == w4 || w == w5) by {
            let k = choose|k: int|
                0 <= k < windows_port_sources().len() && windows_port_sources()[k] == w;
            assert(windows_port_sources()[0] == w0);
            assert(windows_port_sources()[1] == w1);
            assert(windows_port_sources()[2] == w2);
            assert(windows_port_sources()[3] == w3);
            assert(windows_port_sources()[4] == w4);
            assert(windows_port_sources()[5] == w5);
        }
        lemma_set_insert_contains(d4, w0, w);
        lemma_set_insert_contains(i1, w1, w);
        lemma_set_insert_contains(i2, w2, w);
        lemma_set_insert_contains(i3, w3, w);
        lemma_set_insert_contains(i4, w4, w);
        lemma_set_insert_contains(i5, w5, w);
    }
}

proof fn lemma_defines_push_contains(s: Seq<DefineModel>, x: DefineModel)
    ensures
        s.push(x).contains(x),
        forall|y: DefineModel| s.contains(y) ==> #[trigger] s.push(x).contains(y),
{
    assert(s.push(x)[s.len() as int] == x);
    assert forall|y: DefineModel| s.contains(y) implies #[trigger] s.push(x).contains(y) by {
        let i = choose|i: int| 0 <= i < s.len() && s[i] == y;
        assert(s.push(x)[i] == y);
    }
}

/// On the Windows platform branch the engine job defines the Windows OS
/// macro and the UTF-8 filename macro.
pub proof fn lemma_windows_defines(
    cfg: BuildConfig,
    target: Seq<char>,
    features: Seq<char>,
    manifest: Seq<char>,
    over: Option<Seq<char>>,
)
    requires
        platform_model(target) == Platform::Windows,
    ensures
        rocksdb_job_model(cfg, target, features, manifest, over).defines.contains(
            DefineModel { name: "OS_WIN"@, value: Some("1"@) },
        ),
        rocksdb_job_model(cfg, target, features, manifest, over).defines.contains(
            DefineModel { name: "ROCKSDB_WINDOWS_UTF8_FILENAMES"@, value: Some("1"@) },
        ),
{
    let os_win = DefineModel { name: "OS_WIN"@, value: Some("1"@) };
    let utf8 = DefineModel { name: "ROCKSDB_WINDOWS_UTF8_FILENAMES"@, value: Some("1"@) };
    let base = x86_stage(rocksdb_base_model(cfg), target, features);
    let m1 = with_define(base, "DWIN32"@, None);
    let m2 = with_define(m1, "OS_WIN"@, None);
    let m3 = with_define(m2, "_MBCS"@, None);
    let m4 = with_define(m3, "WIN64"@, None);
    let m5 = with_define(m4, "NOMINMAX"@, None);
    let m6 = with_define(m5, "OS_WIN"@, Some("1"@));
    let m7 = with_define(m6, "ROCKSDB_WINDOWS_UTF8_FILENAMES"@, Some("1"@));
    lemma_defines_push_contains(m5.defines, os_win);
    lemma_defines_push_contains(m6.defines, utf8);
    assert(m7.defines.contains(os_win) && m7.defines.contains(utf8));
    let pd = platform_defines(base, target);
    if target == "x86_64-pc-windows-gnu"@ {
        let m8 = with_define(m7, "_POSIX_C_SOURCE"@, Some("1"@));
        lemma_defines_push_contains(
            m7.defines,
            DefineModel { name: "_POSIX_C_SOURCE"@, value: Some("1"@) },
        );
        lemma_defines_push_contains(
            m8.defines,
            DefineModel { name: "_WIN32_WINNT"@, value: Some("_WIN32_WINNT_VISTA"@) },
        );
    }
    assert(pd.defines.contains(os_win) && pd.defines.contains(utf8));
    let tl = with_define(
        crate::vendor::frontend_flags(pd, target, over),
        "ROCKSDB_SUPPORT_THREAD_LOCAL"@,
        None,
    );
    lemma_defines_push_contains(
        pd.defines,
        DefineModel { name: "ROCKSDB_SUPPORT_THREAD_LOCAL"@, value: None },
    );
    assert(tl.defines.contains(os_win) && tl.defines.contains(utf8));
    if cfg.jemalloc {
        lemma_defines_push_contains(
            tl.defines,
            DefineModel { name: "WITH_JEMALLOC"@, value: Some("ON"@) },
        );
    }
}

/// For any target carrying the ARM64 marker, the adjusted Source Set holds
/// the ARM checksum unit exactly once, whatever the manifest held.
pub proof fn lemma_arm_checksum_once(manifest: Seq<char>, target: Seq<char>)
    requires
        contains_str(target, "aarch64"@),
    ensures
        count_of(adjusted_sources(manifest, target), "util/crc32c_arm64.cc"@) == 1,
{
    reveal_strlit("util/crc32c_arm64.cc");
    reveal_strlit("port/port_posix.cc");
    reveal_strlit("env/env_posix.cc");
    reveal_strlit("env/fs_posix.cc");
    reveal_strlit("env/io_posix.cc");
    reveal_strlit("port/win/port_win.cc");
    reveal_strlit("port/win/env_win.cc");
    reveal_strlit("port/win/env_default.cc");
    reveal_strlit("port/win/win_logger.cc");
    reveal_strlit("port/win/io_win.cc");
    reveal_strlit("port/win/win_thread.cc");
    let arm = "util/crc32c_arm64.cc"@;
    let p0 = "port/port_posix.cc"@;
    let p1 = "env/env_posix.cc"@;
    let p2 = "env/fs_posix.cc"@;
    let p3 = "env/io_posix.cc"@;
    let w0 = "port/win/port_win.cc"@;
    let w1 = "port/win/env_win.cc"@;
    let w2 = "port/win/env_default.cc"@;
    let w3 = "port/win/win_logger.cc"@;
    let w4 = "port/win/io_win.cc"@;
    let w5 = "port/win/win_thread.cc"@;
    let s0 = manifest_entries(manifest);
    lemma_manifest_distinct(manifest);
    let s1 = drop_entry(s0, "util/build_version.cc"@);
    lemma_drop_entry_distinct(s0, "util/build_version.cc"@);
    let s2 = set_insert(s1, arm);
    lemma_set_insert_distinct(s1, arm);
    assert(s2.contains(arm) && distinct(s2));
    if platform_model(target) == Platform::Windows {
        let d1 = drop_entry(s2, p0);
        let d2 = drop_entry(d1, p1);
        let d3 = drop_entry(d2, p2);
        let d4 = drop_entry(d3, p3);
        lemma_drop_entry_distinct(s2, p0);
        lemma_drop_entry_distinct(d1, p1);
        lemma_drop_entry_distinct(d2, p2);
        lemma_drop_entry_distinct(d3, p3);
        lemma_drop_entry_contains(s2, p0, arm);
        lemma_drop_entry_contains(d1, p1, arm);
        lemma_drop_entry_contains(d2, p2, arm);
        lemma_drop_entry_contains(d3, p3, arm);
        assert(arm.len() == 20);
        assert(arm != p0);
        assert(arm != p1);
        assert(arm != p2);
        assert(arm != p3);
        assert(d4.contains(arm) && distinct(d4));
        let i1 = set_insert(d4, w0);
        let i2 = set_insert(i1, w1);
        let i3 = set_insert(i2, w2);
        let i4 = set_insert(i3, w3);
        let i5 = set_insert(i4, w4);
        let i6 = set_insert(i5, w5);
        lemma_set_insert_distinct(d4, w0);
        lemma_set_insert_distinct(i1, w1);
        lemma_set_insert_distinct(i2, w2);
        lemma_set_insert_distinct(i3, w3);
        lemma_set_insert_distinct(i4, w4);
        lemma_set_insert_distinct(i5, w5);
        assert(i6.contains(arm) && distinct(i6));
        assert(adjusted_sources(manifest, target) == i6);
        lemma_distinct_count(i6, arm);
    } else {
        assert(adjusted_sources(manifest, target) == s2);
        lemma_distinct_count(s2, arm);
    }
}

/// How many of the jobs produce an archive of the given name.
pub open spec fn jobs_named(jobs: Seq<JobModel>, name: Seq<char>) -> nat
    decreases jobs.len(),
{
    if jobs.len() == 0 {
        0
    } else {
        jobs_named(jobs.drop_last(), name) + (if jobs.last().out_name == name {
            1nat
        } else {
            0nat
        })
    }
}

proof fn lemma_jobs_named_push(s: Seq<JobModel>, x: JobModel)
    ensures
        forall|n: Seq<char>|
            #[trigger] jobs_named(s.push(x), n) == jobs_named(s, n) + (if x.out_name == n {
                1nat
            } else {
                0nat
            }),
{
    assert(s.push(x).drop_last() =~= s);
    assert(s.push(x).last() == x);
}

/// For every enabled codec, the vendor path produces exactly one archive
/// bearing the codec's canonical name — and none for a disabled codec;
/// the engine's archive is always produced exactly once.
#[verifier::rlimit(100)]
pub proof fn lemma_one_archive_per_codec(
    cfg: BuildConfig,
    vin: VendorInputsModel,
    zl: Result<Seq<Seq<char>>, ErrorModel>,
    zs: Result<Seq<Seq<char>>, ErrorModel>,
    jobs: Seq<JobModel>,
    dirs: Seq<DirectiveModel>,
)
    requires
        vendor_model(cfg, vin, zl, zs) == Ok::<_, ErrorModel>((jobs, dirs)),
    ensures
        jobs_named(jobs, "libbz2.a"@) == (if cfg.bzip2 {
            1nat
        } else {
            0nat
        }),
        jobs_named(jobs, "liblz4.a"@) == (if cfg.lz4 {
            1nat
        } else {
            0nat
        }),
        jobs_named(jobs, "libsnappy.a"@) == (if cfg.snappy {
            1nat
        } else {
            0nat
        }),
        jobs_named(jobs, "libz.a"@) == (if cfg.zlib {
            1nat
        } else {
            0nat
        }),
        jobs_named(jobs, "libzstd.a"@) == (if cfg.zstd {
            1nat
        } else {
            0nat
        }),
        jobs_named(jobs, "librocksdb.a"@) == 1,
{
    reveal_strlit("libbz2.a");
    reveal_strlit("liblz4.a");
    reveal_strlit("libsnappy.a");
    reveal_strlit("libz.a");
    reveal_strlit("libzstd.a");
    reveal_strlit("librocksdb.a");
    let n_bz = "libbz2.a"@;
    let n_lz = "liblz4.a"@;
    let n_sn = "libsnappy.a"@;
    let n_zg = "libz.a"@;
    let n_zt = "libzstd.a"@;
    let n_rk = "librocksdb.a"@;
    assert(n_bz != n_lz) by {
        assert(n_bz[3] == 'b');
        assert(n_lz[3] == 'l');
    }
    assert(n_bz != n_sn) by {
        assert(n_bz[3] == 'b');
        assert(n_sn[3] == 's');
    }
    assert(n_bz != n_zg) by {
        assert(n_bz[3] == 'b');
        assert(n_zg[3] == 'z');
    }
    assert(n_bz != n_zt) by {
        assert(n_bz[3] == 'b');
        assert(n_zt[3] == 'z');
    }
    assert(n_bz != n_rk) by {
        assert(n_bz[3] == 'b');
        assert(n_rk[3] == 'r');
    }
    assert(n_lz != n_sn) by {
        assert(n_lz[3] == 'l');
        assert(n_sn[3] == 's');
    }
    assert(n_lz != n_zg) by {
        assert(n_lz[3] == 'l');
        assert(n_zg[3] == 'z');
    }
    assert(n_lz != n_zt) by {
        assert(n_lz[3] == 'l');
        assert(n_zt[3] == 'z');
    }
    assert(n_lz != n_rk) by {
        assert(n_lz[3] == 'l');
        assert(n_rk[3] == 'r');
    }
    assert(n_sn != n_zg) by {
        assert(n_sn[3] == 's');
        assert(n_zg[3] == 'z');
    }
    assert(n_sn != n_zt) by {
        assert(n_sn[3] == 's');
        assert(n_zt[3] == 'z');
    }
    assert(n_sn != n_rk) by {
        assert(n_sn[3] == 's');
        assert(n_rk[3] == 'r');
    }
    assert(n_zg != n_zt) by {
        assert(n_zg[4] == '.');
        assert(n_zt[4] == 's');
    }
    assert(n_zg != n_rk) by {
        assert(n_zg[3] == 'z');
        assert(n_rk[3] == 'r');
    }
    assert(n_zt != n_rk) by {
        assert(n_zt[3] == 'z');
        assert(n_rk[3] == 'r');
    }
    let a0: Result<(Seq<JobModel>, Seq<DirectiveModel>), ErrorModel> = Ok(
        (Seq::<JobModel>::empty(), Seq::<DirectiveModel>::empty()),
    );
    let a1 = vendor_step(a0, cfg.bzip2, bzip2_build_model(vin.bzip2_tree));
    let a2 = vendor_step(a1, cfg.lz4, lz4_build_model(vin.target, vin.lz4_tree));
    let a3 = vendor_step(a2, cfg.snappy, snappy_build_model(vin.target, vin.endian, vin.snappy_tree));
    let a4 = vendor_step(a3, cfg.zlib, zlib_build_model(vin.zlib_tree, zl));
    let a5 = vendor_step(a4, cfg.zstd, zstd_build_model(vin.zstd_tree, zs));
    assert(a5 is Ok);
    let j0 = Seq::<JobModel>::empty();
    let j1 = if cfg.bzip2 {
        j0.push(bzip2_build_model(vin.bzip2_tree)->Ok_0.0)
    } else {
        j0
    };
    if cfg.bzip2 {
        lemma_jobs_named_push(j0, bzip2_build_model(vin.bzip2_tree)->Ok_0.0);
    }
    let j2 = if cfg.lz4 {
        j1.push(lz4_build_model(vin.target, vin.lz4_tree)->Ok_0.0)
    } else {
        j1
    };
    if cfg.lz4 {
        lemma_jobs_named_push(j1, lz4_build_model(vin.target, vin.lz4_tree)->Ok_0.0);
    }
    let j3 = if cfg.snappy {
        j2.push(snappy_build_model(vin.target, vin.endian, vin.snappy_tree)->Ok_0.0)
    } else {
        j2
    };
    if cfg.snappy {
        lemma_jobs_named_push(
            j2,
            snappy_build_model(vin.target, vin.endian, vin.snappy_tree)->Ok_0.0,
        );
    }
    let j4 = if cfg.zlib {
        j3.push(zlib_build_model(vin.zlib_tree, zl)->Ok_0.0)
    } else {
        j3
    };
    if cfg.zlib {
        lemma_jobs_named_push(j3, zlib_build_model(vin.zlib_tree, zl)->Ok_0.0);
    }
    let j5 = if cfg.zstd {
        j4.push(zstd_build_model(vin.zstd_tree, zs)->Ok_0.0)
    } else {
        j4
    };
    if cfg.zstd {
        lemma_jobs_named_push(j4, zstd_build_model(vin.zstd_tree, zs)->Ok_0.0);
    }
    assert(a1->Ok_0.0 == j1);
    assert(a2->Ok_0.0 == j2);
    assert(a3->Ok_0.0 == j3);
    assert(a4->Ok_0.0 == j4);
    assert(a5->Ok_0.0 == j5);
    let engine = rocksdb_job_model(cfg, vin.target, vin.features, vin.manifest, vin.cxx_override);
    assert(engine.out_name == n_rk);
    lemma_jobs_named_push(j5, engine);
    assert(jobs == j5.push(engine));
    if cfg.bzip2 {
        assert(bzip2_build_model(vin.bzip2_tree)->Ok_0.0.out_name == n_bz);
    }
    if cfg.lz4 {
        assert(lz4_build_model(vin.target, vin.lz4_tree)->Ok_0.0.out_name == n_lz);
    }
    if cfg.snappy {
        assert(snappy_build_model(vin.target, vin.endian, vin.snappy_tree)->Ok_0.0.out_name
            == n_sn);
    }
    if cfg.zlib {
        assert(zlib_build_model(vin.zlib_tree, zl)->Ok_0.0.out_name == n_zg);
    }
    if cfg.zstd {
        assert(zstd_build_model(vin.zstd_tree, zs)->Ok_0.0.out_name == n_zt);
    }
}

/// Validation precedes emission: a library whose declared directory exists
/// but holds nothing yields the fatal empty-directory error and not a
/// single directive. (A failed chain carries no directives at all, so no
/// directive of any library is emitted once one fails.)
pub proof fn lemma_validate_before_emit(
    name: Seq<char>,
    alt_name: Option<Seq<char>>,
    static_link: bool,
    probing: bool,
    obs: LibProbeModel,
    dir: Seq<char>,
)
    requires
        !(probing && obs.probe == ProbeOutcome::Succeeded),
        obs.lib_dir == Some(dir),
        obs.dir_status == DirStatus::Empty,
    ensures
        link_lib_model(name, alt_name, static_link, probing, obs) == Err::<
            Seq<DirectiveModel>,
            _,
        >(ErrorModel::EmptyLibDir { path: dir }),
{
}

/// The per-library directory variable is consulted under the feature name,
/// never the probe alias, and when it is unset the build aborts naming that
/// exact variable.
pub proof fn lemma_env_var_named_for_feature(
    name: Seq<char>,
    alt_name: Option<Seq<char>>,
    static_link: bool,
    probing: bool,
    obs: LibProbeModel,
)
    requires
        !(probing && obs.probe == ProbeOutcome::Succeeded),
        obs.lib_dir is None,
    ensures
        link_lib_model(name, alt_name, static_link, probing, obs) == Err::<
            Seq<DirectiveModel>,
            _,
        >(ErrorModel::MissingEnvVar { var: lib_var_name(name) }),
{
}

/// Round-trip of the standard flag: a prefixed override passes through
/// unchanged, an unprefixed one gains the prefix, and no override yields
/// the fixed baseline.
pub proof fn lemma_standard_flag_round_trip(over: Seq<char>)
    ensures
        starts_with(over, "-std="@) ==> cxx_standard_model(Some(over)) == over,
        !starts_with(over, "-std="@) ==> cxx_standard_model(Some(over)) == "-std="@ + over,
        cxx_standard_model(None) == "-std=c++11"@,
{
}

} // verus!
