//! Wrapping generated matcher code into a named module.
//!
//! The code emitted for a compiled automaton always exposes an entry point
//! called `fsm_main`. To give each matcher the name the caller asked for,
//! the code is wrapped in a module named after it and the entry point is
//! re-exported under that name.

use vstd::prelude::*;
use vstd::string::StringExecFns;

verus! {

/// The view of the text `wrap_code` produces for a given name and body.
pub open spec fn spec_wrapped_code(name: Seq<char>, code: Seq<char>) -> Seq<char> {
    "mod "@ + name + "_module { "@ + code + " } pub use "@ + name + "_module::fsm_main as "@
        + name + ";"@
}

/// Wraps generated code in a module named `<name>_module` and re-exports
/// its `fsm_main` entry point as `name`.
pub fn wrap_code(name: &str, code: &str) -> (r: String)
    ensures
        r@ == spec_wrapped_code(name@, code@),
{
    let mut out = String::new();
    out.append("mod ");
    out.append(name);
    out.append("_module { ");
    out.append(code);
    out.append(" } pub use ");
    out.append(name);
    out.append("_module::fsm_main as ");
    out.append(name);
    out.append(";");
    out
}

} // verus!
