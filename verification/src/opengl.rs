//! Versions of OpenGL, and how they are written.

use vstd::prelude::*;
use std::str::FromStr;
use opengl_graphics::OpenGL as BackendOpenGL;

verus! {

/// A version of OpenGL that a drawing backend can be made for.
#[allow(non_camel_case_types)]
#[derive(Clone, Copy, Debug, PartialEq, Eq, Hash, Structural)]
pub enum OpenGL {
    V2_0,
    V2_1,
    V3_0,
    V3_1,
    V3_2,
    V3_3,
    V4_0,
    V4_1,
    V4_2,
    V4_3,
    V4_4,
    V4_5,
}

/// The version that a text names: a major and a minor number with a dot
/// between them, such as `3.2`, for the twelve versions there are.
pub open spec fn version_named(text: Seq<char>) -> Option<OpenGL> {
    if text == seq!['2', '.', '0'] {
        Some(OpenGL::V2_0)
    } else if text == seq!['2', '.', '1'] {
        Some(OpenGL::V2_1)
    } else if text == seq!['3', '.', '0'] {
        Some(OpenGL::V3_0)
    } else if text == seq!['3', '.', '1'] {
        Some(OpenGL::V3_1)
    } else if text == seq!['3', '.', '2'] {
        Some(OpenGL::V3_2)
    } else if text == seq!['3', '.', '3'] {
        Some(OpenGL::V3_3)
    } else if text == seq!['4', '.', '0'] {
        Some(OpenGL::V4_0)
    } else if text == seq!['4', '.', '1'] {
        Some(OpenGL::V4_1)
    } else if text == seq!['4', '.', '2'] {
        Some(OpenGL::V4_2)
    } else if text == seq!['4', '.', '3'] {
        Some(OpenGL::V4_3)
    } else if text == seq!['4', '.', '4'] {
        Some(OpenGL::V4_4)
    } else if text == seq!['4', '.', '5'] {
        Some(OpenGL::V4_5)
    } else {
        None
    }
}

/// Calls `OpenGL::from_str` of the `opengl_graphics` crate, whose `OpenGL` is
/// an enum of the same twelve versions, and maps the version it finds to
/// ours. Not proved, but taken from that crate: that `from_str` accepts
/// exactly the twelve texts of `version_named`, each as the version of that
/// name, and fails on every other text.
#[verifier::external_body]
fn backend_from_str(text: &str) -> (r: Option<OpenGL>)
    ensures
        r == version_named(text@),
{
    match BackendOpenGL::from_str(text) {
        Ok(BackendOpenGL::V2_0) => Some(OpenGL::V2_0),
        Ok(BackendOpenGL::V2_1) => Some(OpenGL::V2_1),
        Ok(BackendOpenGL::V3_0) => Some(OpenGL::V3_0),
        Ok(BackendOpenGL::V3_1) => Some(OpenGL::V3_1),
        Ok(BackendOpenGL::V3_2) => Some(OpenGL::V3_2),
        Ok(BackendOpenGL::V3_3) => Some(OpenGL::V3_3),
        Ok(BackendOpenGL::V4_0) => Some(OpenGL::V4_0),
        Ok(BackendOpenGL::V4_1) => Some(OpenGL::V4_1),
        Ok(BackendOpenGL::V4_2) => Some(OpenGL::V4_2),
        Ok(BackendOpenGL::V4_3) => Some(OpenGL::V4_3),
        Ok(BackendOpenGL::V4_4) => Some(OpenGL::V4_4),
        Ok(BackendOpenGL::V4_5) => Some(OpenGL::V4_5),
        Err(_) => None,
    }
}

impl OpenGL {
    /// Reads a version from its name, such as `3.2`. Any other text names no
    /// version.
    pub fn from_str(text: &str) -> (r: Option<OpenGL>)
        ensures
            r == version_named(text@),
    {
        backend_from_str(text)
    }
}

} // verus!
