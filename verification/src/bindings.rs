use vstd::prelude::*;
use crate::directive::{BuildError, ErrorModel};

verus! {

/// The fixed configuration handed to the header-parsing tool that turns the
/// engine's public C header into a binding declaration set.
pub struct BindingPlan {
    /// The header to parse.
    pub header: String,
    /// Derivation of a human-readable debug representation is off.
    pub derive_debug: bool,
    /// The one known-problematic platform type alias, left out.
    pub blocked_type: String,
    /// The fixed integer-type prefix.
    pub ctypes_prefix: String,
    /// The platform's size type maps to the native unsigned size type.
    pub size_t_is_usize: bool,
    /// The file written under the build-output location.
    pub out_file: String,
}

#[verifier::ext_equal]
pub struct BindingPlanModel {
    pub header: Seq<char>,
    pub derive_debug: bool,
    pub blocked_type: Seq<char>,
    pub ctypes_prefix: Seq<char>,
    pub size_t_is_usize: bool,
    pub out_file: Seq<char>,
}

impl View for BindingPlan {
    type V = BindingPlanModel;

    open spec fn view(&self) -> BindingPlanModel {
        BindingPlanModel {
            header: self.header@,
            derive_debug: self.derive_debug,
            blocked_type: self.blocked_type@,
            ctypes_prefix: self.ctypes_prefix@,
            size_t_is_usize: self.size_t_is_usize,
            out_file: self.out_file@,
        }
    }
}

/// Where the engine's headers live: an explicit override, or the bundled
/// tree's header directory.
pub open spec fn header_dir_model(over: Option<Seq<char>>) -> Seq<char> {
    match over {
        Some(d) => d,
        None => "rocksdb/include"@,
    }
}

pub fn header_dir(over: &Option<String>) -> (r: String)
    ensures
        r@ == header_dir_model(match over {
            Some(d) => Some(d@),
            None => None,
        }),
{
    match over {
        Some(d) => d.clone(),
        None => String::from_str("rocksdb/include"),
    }
}

/// The binding configuration for a given header-directory override.
pub open spec fn binding_plan_model(over: Option<Seq<char>>) -> BindingPlanModel {
    BindingPlanModel {
        header: header_dir_model(over) + "/rocksdb/c.h"@,
        derive_debug: false,
        blocked_type: "max_align_t"@,
        ctypes_prefix: "libc"@,
        size_t_is_usize: true,
        out_file: "bindings.rs"@,
    }
}

pub fn binding_plan(over: &Option<String>) -> (p: BindingPlan)
    ensures
        p@ == binding_plan_model(match over {
            Some(d) => Some(d@),
            None => None,
        }),
{
    let dir = header_dir(over);
    let header = dir.concat("/rocksdb/c.h");
    let p = BindingPlan {
        header,
        derive_debug: false,
        blocked_type: String::from_str("max_align_t"),
        ctypes_prefix: String::from_str("libc"),
        size_t_is_usize: true,
        out_file: String::from_str("bindings.rs"),
    };
    proof {
        assert(p@ =~= binding_plan_model(match over {
            Some(d) => Some(d@),
            None => None,
        }));
    }
    p
}

/// A failed header parse is fatal with no fallback; a successful one owes
/// nothing further here.
pub fn binding_outcome(parse_ok: bool) -> (r: Result<(), BuildError>)
    ensures
        parse_ok <==> r is Ok,
        !parse_ok ==> (r matches Err(e) && e@ == ErrorModel::HeaderParseFailed),
{
    if parse_ok {
        Ok(())
    } else {
        Err(BuildError::HeaderParseFailed)
    }
}

} // verus!
