//! Decisions of the shader pipeline: how driver-reported compile and link
//! outcomes (creation success, status flag, info log) turn into results.
//! The GPU calls themselves happen outside; only their reported flags and
//! logs flow in here.

use vstd::prelude::*;
use vstd::string::StrSliceExecFns;

verus! {

broadcast use vstd::string::to_string_from_display_ensures_for_str;

/// Everything a session operation can fail with.
#[derive(Clone, Debug, PartialEq, Eq)]
pub enum GlError {
    /// A GPU object creation call returned nothing.
    ResourceCreationFailed,
    /// Shader compilation failed; carries a never-empty diagnostic.
    CompileFailed(String),
    /// Program linking failed; carries a never-empty diagnostic.
    LinkFailed(String),
    /// The operation was attempted after `dispose`.
    SessionFinalized,
    /// `init` was attempted on a session that is already initialized.
    AlreadyInitialized,
    /// `render` was attempted with no active program.
    NoProgram,
}

/// The diagnostic reported when a failed compile comes with no driver log
/// text.
pub open spec fn compile_fallback_s() -> Seq<char> {
    "Unknown error creating shader"@
}

/// The diagnostic reported when a failed link comes with no driver log text.
pub open spec fn link_fallback_s() -> Seq<char> {
    "Unknown error creating program object"@
}

/// Turn a shader-compilation report into a result: a missing shader object is
/// a creation failure, a true status flag is success, and a false one carries
/// a diagnostic that is never empty — the driver's log verbatim when it has
/// text, the fallback text when the log is absent or empty.
pub fn compile_outcome(created: bool, status: bool, log: Option<String>) -> (r: Result<
    (),
    GlError,
>)
    ensures
        !created ==> r == Err::<(), GlError>(GlError::ResourceCreationFailed),
        created && status ==> r == Ok::<(), GlError>(()),
        created && !status ==> (log matches Some(s0) ==> (s0@.len() > 0 ==> (r matches Err(
            GlError::CompileFailed(d),
        ) && d@ == s0@))),
        created && !status ==> (log matches Some(s0) ==> (s0@.len() == 0 ==> (r matches Err(
            GlError::CompileFailed(d),
        ) && d@ == compile_fallback_s()))),
        created && !status && log is None ==> (r matches Err(GlError::CompileFailed(d)) && d@
            == compile_fallback_s()),
        created && !status ==> (r matches Err(GlError::CompileFailed(d)) && d@.len() > 0),
{
    proof {
        reveal_strlit("Unknown error creating shader");
    }
    if !created {
        Err(GlError::ResourceCreationFailed)
    } else if status {
        Ok(())
    } else {
        match log {
            Some(s) => {
                if s.as_str().unicode_len() > 0 {
                    Err(GlError::CompileFailed(s))
                } else {
                    Err(GlError::CompileFailed("Unknown error creating shader".to_string()))
                }
            },
            None => Err(GlError::CompileFailed("Unknown error creating shader".to_string())),
        }
    }
}

/// Turn a program-link report into a result, as `compile_outcome` does for
/// compilation: the carried diagnostic is never empty.
pub fn link_outcome(created: bool, status: bool, log: Option<String>) -> (r: Result<(), GlError>)
    ensures
        !created ==> r == Err::<(), GlError>(GlError::ResourceCreationFailed),
        created && status ==> r == Ok::<(), GlError>(()),
        created && !status ==> (log matches Some(s0) ==> (s0@.len() > 0 ==> (r matches Err(
            GlError::LinkFailed(d),
        ) && d@ == s0@))),
        created && !status ==> (log matches Some(s0) ==> (s0@.len() == 0 ==> (r matches Err(
            GlError::LinkFailed(d),
        ) && d@ == link_fallback_s()))),
        created && !status && log is None ==> (r matches Err(GlError::LinkFailed(d)) && d@
            == link_fallback_s()),
        created && !status ==> (r matches Err(GlError::LinkFailed(d)) && d@.len() > 0),
{
    proof {
        reveal_strlit("Unknown error creating program object");
    }
    if !created {
        Err(GlError::ResourceCreationFailed)
    } else if status {
        Ok(())
    } else {
        match log {
            Some(s) => {
                if s.as_str().unicode_len() > 0 {
                    Err(GlError::LinkFailed(s))
                } else {
                    Err(GlError::LinkFailed("Unknown error creating program object".to_string()))
                }
            },
            None => Err(GlError::LinkFailed("Unknown error creating program object".to_string())),
        }
    }
}

} // verus!
