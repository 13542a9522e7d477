//! Fixed startup configuration: window size and title, the requested
//! graphics API version, and the vertex attribute layout of the mesh.

use vstd::prelude::*;

verus! {

/// Width in pixels of the window created at startup.
pub fn window_width() -> (w: u32)
    ensures
        w == 800u32,
{
    800
}

/// Height in pixels of the window created at startup.
pub fn window_height() -> (h: u32)
    ensures
        h == 600u32,
{
    600
}

/// Title of the window created at startup.
pub fn window_title() -> (t: String)
    ensures
        t@ == "OpenGL"@,
{
    "OpenGL".to_string()
}

/// Major part of the graphics API version requested for the context.
pub fn gl_major_version() -> (v: u32)
    ensures
        v == 3u32,
{
    3
}

/// Minor part of the graphics API version requested for the context.
pub fn gl_minor_version() -> (v: u32)
    ensures
        v == 3u32,
{
    3
}

} // verus!
