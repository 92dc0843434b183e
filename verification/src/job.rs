use vstd::prelude::*;

verus! {

/// One preprocessor definition: a name, optionally with a value.
pub struct Define {
    pub name: String,
    pub value: Option<String>,
}

/// The mathematical shape of a definition.
#[verifier::ext_equal]
pub struct DefineModel {
    pub name: Seq<char>,
    pub value: Option<Seq<char>>,
}

impl View for Define {
    type V = DefineModel;

    open spec fn view(&self) -> DefineModel {
        DefineModel {
            name: self.name@,
            value: match self.value {
                Some(ref v) => Some(v@),
                None => None,
            },
        }
    }
}

impl DeepView for Define {
    type V = DefineModel;

    open spec fn deep_view(&self) -> DefineModel {
        self.view()
    }
}

/// One compilation job: everything the toolchain needs to compile one static
/// archive. Constructed and populated here; executed by the surrounding
/// program, which invokes the system compiler on it.
pub struct CompileJob {
    /// The archive name to produce.
    pub out_name: String,
    /// Header search paths.
    pub header_dirs: Vec<String>,
    /// Preprocessor definitions, in order.
    pub defines: Vec<Define>,
    /// Compiler flags that must be accepted.
    pub flags: Vec<String>,
    /// Compiler flags passed on only when the compiler supports them.
    pub flags_maybe: Vec<String>,
    /// The translation units to compile.
    pub sources: Vec<String>,
    /// An explicit optimization level, where one is forced.
    pub opt_level: Option<u32>,
    /// Compile as C++.
    pub cpp: bool,
    /// Keep the toolchain's extra warnings on.
    pub extra_warnings: bool,
}

/// The mathematical shape of a compilation job.
#[verifier::ext_equal]
pub struct JobModel {
    pub out_name: Seq<char>,
    pub header_dirs: Seq<Seq<char>>,
    pub defines: Seq<DefineModel>,
    pub flags: Seq<Seq<char>>,
    pub flags_maybe: Seq<Seq<char>>,
    pub sources: Seq<Seq<char>>,
    pub opt_level: Option<u32>,
    pub cpp: bool,
    pub extra_warnings: bool,
}

impl View for CompileJob {
    type V = JobModel;

    open spec fn view(&self) -> JobModel {
        JobModel {
            out_name: self.out_name@,
            header_dirs: self.header_dirs.deep_view(),
            defines: self.defines.deep_view(),
            flags: self.flags.deep_view(),
            flags_maybe: self.flags_maybe.deep_view(),
            sources: self.sources.deep_view(),
            opt_level: self.opt_level,
            cpp: self.cpp,
            extra_warnings: self.extra_warnings,
        }
    }
}

impl DeepView for CompileJob {
    type V = JobModel;

    open spec fn deep_view(&self) -> JobModel {
        self.view()
    }
}

/// An empty job for the given archive name: no paths, no definitions, no
/// flags, no sources, default optimization, C compilation, warnings on.
pub open spec fn empty_job(out_name: Seq<char>) -> JobModel {
    JobModel {
        out_name: out_name,
        header_dirs: Seq::empty(),
        defines: Seq::empty(),
        flags: Seq::empty(),
        flags_maybe: Seq::empty(),
        sources: Seq::empty(),
        opt_level: None,
        cpp: false,
        extra_warnings: true,
    }
}

pub open spec fn with_hdr(m: JobModel, d: Seq<char>) -> JobModel {
    JobModel { header_dirs: m.header_dirs.push(d), ..m }
}

pub open spec fn with_define(m: JobModel, n: Seq<char>, v: Option<Seq<char>>) -> JobModel {
    JobModel { defines: m.defines.push(DefineModel { name: n, value: v }), ..m }
}

pub open spec fn with_flag(m: JobModel, f: Seq<char>) -> JobModel {
    JobModel { flags: m.flags.push(f), ..m }
}

pub open spec fn with_flag_maybe(m: JobModel, f: Seq<char>) -> JobModel {
    JobModel { flags_maybe: m.flags_maybe.push(f), ..m }
}

pub open spec fn with_source(m: JobModel, f: Seq<char>) -> JobModel {
    JobModel { sources: m.sources.push(f), ..m }
}

impl CompileJob {
    pub fn new(out_name: &str) -> (j: CompileJob)
        ensures
            j@ == empty_job(out_name@),
    {
        let j = CompileJob {
            out_name: String::from_str(out_name),
            header_dirs: Vec::new(),
            defines: Vec::new(),
            flags: Vec::new(),
            flags_maybe: Vec::new(),
            sources: Vec::new(),
            opt_level: None,
            cpp: false,
            extra_warnings: true,
        };
        proof {
            assert(j@ =~= empty_job(out_name@));
        }
        j
    }

    /// Add a header search path.
    pub fn hdr(&mut self, d: &str)
        ensures
            final(self)@ == with_hdr(old(self)@, d@),
    {
        let ghost before = self@;
        self.header_dirs.push(String::from_str(d));
        proof {
            assert(self@ =~= with_hdr(before, d@));
        }
    }

    /// Add a preprocessor definition.
    pub fn define(&mut self, n: &str, v: Option<&str>)
        ensures
            final(self)@ == with_define(
                old(self)@,
                n@,
                match v {
                    Some(s) => Some(s@),
                    None => None,
                },
            ),
    {
        let ghost before = self@;
        let value = match v {
            Some(s) => Some(String::from_str(s)),
            None => None,
        };
        self.defines.push(Define { name: String::from_str(n), value });
        proof {
            assert(self@ =~= with_define(
                before,
                n@,
                match v {
                    Some(s) => Some(s@),
                    None => None,
                },
            ));
        }
    }

    /// Add a flag that must be accepted.
    pub fn flag(&mut self, f: &str)
        ensures
            final(self)@ == with_flag(old(self)@, f@),
    {
        let ghost before = self@;
        self.flags.push(String::from_str(f));
        proof {
            assert(self@ =~= with_flag(before, f@));
        }
    }

    /// Add a flag passed on only when the compiler supports it.
    pub fn flag_maybe(&mut self, f: &str)
        ensures
            final(self)@ == with_flag_maybe(old(self)@, f@),
    {
        let ghost before = self@;
        self.flags_maybe.push(String::from_str(f));
        proof {
            assert(self@ =~= with_flag_maybe(before, f@));
        }
    }

    /// Add one translation unit.
    pub fn source(&mut self, f: String)
        ensures
            final(self)@ == with_source(old(self)@, f@),
    {
        let ghost before = self@;
        let ghost fv = f@;
        self.sources.push(f);
        proof {
            assert(self@ =~= with_source(before, fv));
        }
    }

    /// Force an optimization level.
    pub fn set_opt_level(&mut self, level: u32)
        ensures
            final(self)@ == (JobModel { opt_level: Some(level), ..old(self)@ }),
    {
        self.opt_level = Some(level);
        proof {
            assert(self@ =~= (JobModel { opt_level: Some(level), ..old(self)@ }));
        }
    }

    /// Compile as C++.
    pub fn set_cpp(&mut self)
        ensures
            final(self)@ == (JobModel { cpp: true, ..old(self)@ }),
    {
        self.cpp = true;
        proof {
            assert(self@ =~= (JobModel { cpp: true, ..old(self)@ }));
        }
    }

    /// Suppress the toolchain's extra warnings.
    pub fn quiet_warnings(&mut self)
        ensures
            final(self)@ == (JobModel { extra_warnings: false, ..old(self)@ }),
    {
        self.extra_warnings = false;
        proof {
            assert(self@ =~= (JobModel { extra_warnings: false, ..old(self)@ }));
        }
    }
}

} // verus!
