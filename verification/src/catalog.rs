use vstd::prelude::*;
use vstd::string::StringExecFns;

use crate::text::str_eq;
use crate::values::FuncSig;
use crate::values::ModuleId;
use crate::values::NativeId;
use crate::values::SemanticType;

verus! {

/// The catalog entries of a module, in declaration order.  This sequence is
/// the single source of truth shared by the signature exporter and the
/// registrar, so the two can never drift apart.
pub open spec fn module_natives(m: ModuleId) -> Seq<NativeId> {
    match m {
        ModuleId::Io => seq![NativeId::Print, NativeId::Println, NativeId::Input],
        ModuleId::Math => seq![
            NativeId::MinI,
            NativeId::MaxI,
            NativeId::MinD,
            NativeId::MaxD,
            NativeId::AbsI,
            NativeId::AbsD,
            NativeId::ClampI,
            NativeId::ClampD,
            NativeId::Pi,
            NativeId::Factorial,
            NativeId::Sqrt,
            NativeId::Sin,
            NativeId::Cos,
            NativeId::Tan,
            NativeId::Asin,
            NativeId::Acos,
            NativeId::Atan,
            NativeId::Atan2,
        ],
    }
}

/// The catalog entries of a module, as a vector.
pub fn module_natives_vec(m: ModuleId) -> (r: Vec<NativeId>)
    ensures
        r@ == module_natives(m),
{
    match m {
        ModuleId::Io => {
            let v = vec![NativeId::Print, NativeId::Println, NativeId::Input];
            proof {
                assert(v@ =~= module_natives(m));
            }
            v
        },
        ModuleId::Math => {
            let v = vec![
                NativeId::MinI,
                NativeId::MaxI,
                NativeId::MinD,
                NativeId::MaxD,
                NativeId::AbsI,
                NativeId::AbsD,
                NativeId::ClampI,
                NativeId::ClampD,
                NativeId::Pi,
                NativeId::Factorial,
                NativeId::Sqrt,
                NativeId::Sin,
                NativeId::Cos,
                NativeId::Tan,
                NativeId::Asin,
                NativeId::Acos,
                NativeId::Atan,
                NativeId::Atan2,
            ];
            proof {
                assert(v@ =~= module_natives(m));
            }
            v
        },
    }
}

/// The name under which a native function is declared and bound.
pub open spec fn native_name(id: NativeId) -> Seq<char> {
    match id {
        NativeId::Print => "print"@,
        NativeId::Println => "println"@,
        NativeId::Input => "input"@,
        NativeId::MinI => "min_i"@,
        NativeId::MaxI => "max_i"@,
        NativeId::MinD => "min_d"@,
        NativeId::MaxD => "max_d"@,
        NativeId::AbsI => "abs_i"@,
        NativeId::AbsD => "abs_d"@,
        NativeId::ClampI => "clamp_i"@,
        NativeId::ClampD => "clamp_d"@,
        NativeId::Pi => "pi"@,
        NativeId::Factorial => "factorial"@,
        NativeId::Sqrt => "sqrt"@,
        NativeId::Sin => "sin"@,
        NativeId::Cos => "cos"@,
        NativeId::Tan => "tan"@,
        NativeId::Asin => "asin"@,
        NativeId::Acos => "acos"@,
        NativeId::Atan => "atan"@,
        NativeId::Atan2 => "atan2"@,
    }
}

/// The name under which a native function is declared and bound.
pub fn native_name_str(id: NativeId) -> (r: &'static str)
    ensures
        r@ == native_name(id),
{
    match id {
        NativeId::Print => "print",
        NativeId::Println => "println",
        NativeId::Input => "input",
        NativeId::MinI => "min_i",
        NativeId::MaxI => "max_i",
        NativeId::MinD => "min_d",
        NativeId::MaxD => "max_d",
        NativeId::AbsI => "abs_i",
        NativeId::AbsD => "abs_d",
        NativeId::ClampI => "clamp_i",
        NativeId::ClampD => "clamp_d",
        NativeId::Pi => "pi",
        NativeId::Factorial => "factorial",
        NativeId::Sqrt => "sqrt",
        NativeId::Sin => "sin",
        NativeId::Cos => "cos",
        NativeId::Tan => "tan",
        NativeId::Asin => "asin",
        NativeId::Acos => "acos",
        NativeId::Atan => "atan",
        NativeId::Atan2 => "atan2",
    }
}

/// The parameter types of a native function, in order.
pub open spec fn native_params(id: NativeId) -> Seq<SemanticType> {
    match id {
        NativeId::Print => seq![SemanticType::Str],
        NativeId::Println => seq![SemanticType::Str],
        NativeId::Input => seq![SemanticType::Str],
        NativeId::MinI => seq![SemanticType::Int, SemanticType::Int],
        NativeId::MaxI => seq![SemanticType::Int, SemanticType::Int],
        NativeId::MinD => seq![SemanticType::Double, SemanticType::Double],
        NativeId::MaxD => seq![SemanticType::Double, SemanticType::Double],
        NativeId::AbsI => seq![SemanticType::Int],
        NativeId::AbsD => seq![SemanticType::Double],
        NativeId::ClampI => seq![SemanticType::Int, SemanticType::Int, SemanticType::Int],
        NativeId::ClampD => seq![
            SemanticType::Double,
            SemanticType::Double,
            SemanticType::Double,
        ],
        NativeId::Pi => seq![],
        NativeId::Factorial => seq![SemanticType::Int],
        NativeId::Sqrt => seq![SemanticType::Double],
        NativeId::Sin => seq![SemanticType::Double],
        NativeId::Cos => seq![SemanticType::Double],
        NativeId::Tan => seq![SemanticType::Double],
        NativeId::Asin => seq![SemanticType::Double],
        NativeId::Acos => seq![SemanticType::Double],
        NativeId::Atan => seq![SemanticType::Double],
        NativeId::Atan2 => seq![SemanticType::Double, SemanticType::Double],
    }
}

/// The fixed number of arguments a native function accepts.
pub open spec fn native_arity(id: NativeId) -> nat {
    native_params(id).len()
}

/// The fixed number of arguments a native function accepts.
pub fn native_arity_exec(id: NativeId) -> (r: usize)
    ensures
        r == native_arity(id),
{
    match id {
        NativeId::Print => 1,
        NativeId::Println => 1,
        NativeId::Input => 1,
        NativeId::MinI => 2,
        NativeId::MaxI => 2,
        NativeId::MinD => 2,
        NativeId::MaxD => 2,
        NativeId::AbsI => 1,
        NativeId::AbsD => 1,
        NativeId::ClampI => 3,
        NativeId::ClampD => 3,
        NativeId::Pi => 0,
        NativeId::Factorial => 1,
        NativeId::Sqrt => 1,
        NativeId::Sin => 1,
        NativeId::Cos => 1,
        NativeId::Tan => 1,
        NativeId::Asin => 1,
        NativeId::Acos => 1,
        NativeId::Atan => 1,
        NativeId::Atan2 => 2,
    }
}

/// The return type of a native function.
pub open spec fn native_ret(id: NativeId) -> SemanticType {
    match id {
        NativeId::Print => SemanticType::Void,
        NativeId::Println => SemanticType::Void,
        NativeId::Input => SemanticType::Str,
        NativeId::MinI => SemanticType::Int,
        NativeId::MaxI => SemanticType::Int,
        NativeId::MinD => SemanticType::Double,
        NativeId::MaxD => SemanticType::Double,
        NativeId::AbsI => SemanticType::Int,
        NativeId::AbsD => SemanticType::Double,
        NativeId::ClampI => SemanticType::Int,
        NativeId::ClampD => SemanticType::Double,
        NativeId::Pi => SemanticType::Double,
        NativeId::Factorial => SemanticType::Int,
        NativeId::Sqrt => SemanticType::Double,
        NativeId::Sin => SemanticType::Double,
        NativeId::Cos => SemanticType::Double,
        NativeId::Tan => SemanticType::Double,
        NativeId::Asin => SemanticType::Double,
        NativeId::Acos => SemanticType::Double,
        NativeId::Atan => SemanticType::Double,
        NativeId::Atan2 => SemanticType::Double,
    }
}

/// The return type of a native function.
pub fn native_ret_exec(id: NativeId) -> (r: SemanticType)
    ensures
        r == native_ret(id),
{
    match id {
        NativeId::Print => SemanticType::Void,
        NativeId::Println => SemanticType::Void,
        NativeId::Input => SemanticType::Str,
        NativeId::MinI => SemanticType::Int,
        NativeId::MaxI => SemanticType::Int,
        NativeId::MinD => SemanticType::Double,
        NativeId::MaxD => SemanticType::Double,
        NativeId::AbsI => SemanticType::Int,
        NativeId::AbsD => SemanticType::Double,
        NativeId::ClampI => SemanticType::Int,
        NativeId::ClampD => SemanticType::Double,
        NativeId::Pi => SemanticType::Double,
        NativeId::Factorial => SemanticType::Int,
        NativeId::Sqrt => SemanticType::Double,
        NativeId::Sin => SemanticType::Double,
        NativeId::Cos => SemanticType::Double,
        NativeId::Tan => SemanticType::Double,
        NativeId::Asin => SemanticType::Double,
        NativeId::Acos => SemanticType::Double,
        NativeId::Atan => SemanticType::Double,
        NativeId::Atan2 => SemanticType::Double,
    }
}

/// The parameter types of a native function, as a vector.
pub fn native_params_vec(id: NativeId) -> (r: Vec<SemanticType>)
    ensures
        r@ == native_params(id),
{
    let mut v: Vec<SemanticType> = Vec::new();
    match id {
        NativeId::Print | NativeId::Println | NativeId::Input => {
            v.push(SemanticType::Str);
        },
        NativeId::MinI | NativeId::MaxI => {
            v.push(SemanticType::Int);
            v.push(SemanticType::Int);
        },
        NativeId::MinD | NativeId::MaxD | NativeId::Atan2 => {
            v.push(SemanticType::Double);
            v.push(SemanticType::Double);
        },
        NativeId::AbsI | NativeId::Factorial => {
            v.push(SemanticType::Int);
        },
        NativeId::AbsD | NativeId::Sqrt | NativeId::Sin | NativeId::Cos | NativeId::Tan
            | NativeId::Asin | NativeId::Acos | NativeId::Atan => {
            v.push(SemanticType::Double);
        },
        NativeId::ClampI => {
            v.push(SemanticType::Int);
            v.push(SemanticType::Int);
            v.push(SemanticType::Int);
        },
        NativeId::ClampD => {
            v.push(SemanticType::Double);
            v.push(SemanticType::Double);
            v.push(SemanticType::Double);
        },
        NativeId::Pi => {},
    }
    proof {
        assert(v@ =~= native_params(id));
    }
    v
}

/// The full declared signature of a native function.
pub fn signature_of(id: NativeId) -> (s: FuncSig)
    ensures
        s.name@ == native_name(id),
        s.params@ == native_params(id),
        s.ret == native_ret(id),
{
    FuncSig {
        name: String::from_str(native_name_str(id)),
        params: native_params_vec(id),
        ret: native_ret_exec(id),
    }
}

/// `sig` is exactly the declared signature of the native function `id`.
pub open spec fn sig_matches(sig: FuncSig, id: NativeId) -> bool {
    &&& sig.name@ == native_name(id)
    &&& sig.params@ == native_params(id)
    &&& sig.ret == native_ret(id)
}

/// The segments of a path joined with `/`, the key under which a module
/// is compared.
pub open spec fn join_path(path: Seq<String>) -> Seq<char>
    decreases path.len(),
{
    if path.len() == 0 {
        Seq::empty()
    } else if path.len() == 1 {
        path[0]@
    } else {
        join_path(path.drop_last()) + "/"@ + path.last()@
    }
}

/// The segments of a path joined with `/`.
pub fn join_segments(path: &[String]) -> (r: String)
    ensures
        r@ == join_path(path@),
{
    let n = path.len();
    let mut out = String::new();
    let mut i: usize = 0;
    while i < n
        invariant
            n == path@.len(),
            i <= n,
            out@ == join_path(path@.take(i as int)),
        decreases n - i,
    {
        if i > 0 {
            out.append("/");
        }
        out.append(path[i].as_str());
        proof {
            assert(path@.take(i + 1).drop_last() =~= path@.take(i as int));
            assert(path@.take(i + 1).last() == path@[i as int]);
            if i == 0 {
                assert(out@ =~= path@[0 as int]@);
            } else {
                assert(out@ =~= join_path(path@.take(i as int)) + "/"@ + path@[i as int]@);
            }
        }
        i += 1;
    }
    proof {
        assert(path@.take(n as int) =~= path@);
    }
    out
}

/// The native module identified by a path of segments: the segments are
/// compared as one joined key, so the module is found however the caller
/// has split or not split the path text.
pub open spec fn module_of_path(path: Seq<String>) -> Option<ModuleId> {
    module_of_key(join_path(path))
}

/// The native module identified by a joined path key such as `"std/io"`.
pub open spec fn module_of_key(key: Seq<char>) -> Option<ModuleId> {
    if key == "std/io"@ {
        Some(ModuleId::Io)
    } else if key == "std/math"@ {
        Some(ModuleId::Math)
    } else {
        None
    }
}

/// The native module identified by a joined path key such as `"std/io"`.
pub fn module_for_key(key: &str) -> (r: Option<ModuleId>)
    ensures
        r == module_of_key(key@),
{
    if str_eq(key, "std/io") {
        Some(ModuleId::Io)
    } else if str_eq(key, "std/math") {
        Some(ModuleId::Math)
    } else {
        None
    }
}

/// Existence probe used to distinguish a native module from a user source
/// module during resolution.
pub fn has_native_module(path: &[String]) -> (r: bool)
    ensures
        r == (module_of_path(path@) is Some),
{
    let key = join_segments(path);
    module_for_key(key.as_str()).is_some()
}

/// The signatures of every function a native module offers, for predeclaring
/// them with the static analyzer; `None` for a path that names no native
/// module.  The result depends only on the catalog's declarations, never on
/// any runtime registration.
pub fn signatures_for(path: &[String]) -> (r: Option<Vec<FuncSig>>)
    ensures
        match r {
            Some(sigs) => {
                &&& module_of_path(path@) matches Some(m)
                &&& sigs@.len() == module_natives(m).len()
                &&& forall|k: int|
                    0 <= k < sigs@.len() ==> sig_matches(
                        #[trigger] sigs@[k],
                        module_natives(m)[k],
                    )
            },
            None => module_of_path(path@) is None,
        },
{
    let key = join_segments(path);
    let m = match module_for_key(key.as_str()) {
        Some(m) => m,
        None => {
            return None;
        },
    };
    let ids = module_natives_vec(m);
    let mut sigs: Vec<FuncSig> = Vec::new();
    let mut k: usize = 0;
    while k < ids.len()
        invariant
            ids@ == module_natives(m),
            k <= ids@.len(),
            sigs@.len() == k,
            forall|j: int|
                0 <= j < k ==> sig_matches(#[trigger] sigs@[j], module_natives(m)[j]),
        decreases ids@.len() - k,
    {
        sigs.push(signature_of(ids[k]));
        k += 1;
    }
    Some(sigs)
}

} // verus!
