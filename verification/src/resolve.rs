use vstd::prelude::*;
use vstd::string::StringExecFns;
use vstd::utf8::encode_utf8;

use crate::config::Config;
use crate::error::Error;
use crate::error::ErrorKind;
use crate::name::encode_name;

verus! {

/// The given parts joined with a colon between each pair, in order.
pub open spec fn join_colon(parts: Seq<Seq<char>>) -> Seq<char>
    decreases parts.len(),
{
    if parts.len() == 0 {
        Seq::empty()
    } else if parts.len() == 1 {
        parts.last()
    } else {
        join_colon(parts.drop_last()) + seq![':'] + parts.last()
    }
}

/// Joins the given paths with a colon between each pair, preserving their
/// order — the list form the native resolver reads its search variables in.
pub fn join_paths(paths: &Vec<String>) -> (r: String)
    ensures
        r@ == join_colon(paths.deep_view()),
{
    let mut out = String::new();
    let mut i: usize = 0;
    proof {
        reveal_strlit(":");
        assert(paths.deep_view().take(0) =~= Seq::<Seq<char>>::empty());
    }
    while i < paths.len()
        invariant
            i <= paths@.len(),
            paths.deep_view().len() == paths@.len(),
            out@ == join_colon(paths.deep_view().take(i as int)),
            ":"@ == seq![':'],
        decreases paths@.len() - i,
    {
        if i > 0 {
            out.append(":");
        }
        out.append(paths[i].as_str());
        proof {
            let dv = paths.deep_view();
            assert(dv.take(i + 1).drop_last() =~= dv.take(i as int));
            assert(dv.take(i + 1).last() == dv[i as int]);
            assert(out@ =~= join_colon(dv.take(i + 1)));
        }
        i += 1;
    }
    proof {
        assert(paths.deep_view().take(paths@.len() as int) =~= paths.deep_view());
    }
    out
}

/// The environment assignments initialization must perform before the first
/// native call: the value for the MIB-file variable and the value for the
/// MIB-directory variable.  An empty list leaves its variable unset, so the
/// resolver falls back to its own defaults; a non-empty list becomes the
/// colon-joined paths, exactly as given and in the order given.
pub fn init_env_values(config: &Config) -> (r: (Option<String>, Option<String>))
    ensures
        r.0 is Some <==> config.spec_mibs().len() > 0,
        r.0 matches Some(v) ==> v@ == join_colon(config.spec_mibs()),
        r.1 is Some <==> config.spec_mib_dirs().len() > 0,
        r.1 matches Some(v) ==> v@ == join_colon(config.spec_mib_dirs()),
{
    let mibs_value = if config.mibs.len() > 0 {
        Some(join_paths(&config.mibs))
    } else {
        None
    };
    let mib_dirs_value = if config.mib_dirs.len() > 0 {
        Some(join_paths(&config.mib_dirs))
    } else {
        None
    };
    (mibs_value, mib_dirs_value)
}

/// The nul-terminated application name initialization hands to the native
/// resolver's own entry point.  A name holding a nul character cannot be
/// represented; that is a mistake in static configuration, and the embedding
/// layer treats it as fatal rather than recoverable.
pub fn init_app_name(config: &Config) -> (r: Result<Vec<u8>, Error>)
    ensures
        match r {
            Ok(buf) => {
                &&& !config.spec_app_name().contains('\0')
                &&& buf@ == encode_utf8(config.spec_app_name()).push(0)
            },
            Err(e) => {
                &&& config.spec_app_name().contains('\0')
                &&& e.spec_kind() == ErrorKind::InvalidData
            },
        },
{
    encode_name(config.app_name.as_str())
}

/// The library path dynamic initialization will open, checked before any
/// loader call: an empty path is reported as `Failed`, and nothing is ever
/// opened for it.
pub fn init_dynamic_lib_path(config: &Config) -> (r: Result<String, Error>)
    ensures
        match r {
            Ok(p) => {
                &&& config.spec_lib_path().len() > 0
                &&& p@ == config.spec_lib_path()
            },
            Err(e) => {
                &&& config.spec_lib_path().len() == 0
                &&& e.spec_kind() == ErrorKind::Failed
                &&& e.spec_message() == "lib path not set"@
            },
        },
{
    if config.lib_path.as_str().is_empty() {
        Err(Error::failed("lib path not set"))
    } else {
        Ok(config.lib_path.clone())
    }
}

} // verus!
