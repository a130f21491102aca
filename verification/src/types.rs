//! Host types that have a counterpart in the shading language, and the
//! description of that counterpart.

use vstd::prelude::*;

pub mod layout;
pub mod matrix;
pub mod vector;

verus! {

/// A field of a structure of the shading language.
pub struct WGSLStructField {
    pub name: String,
    pub ty: String,
}

/// The counterpart of a host type in the shading language.
pub enum WGSL {
    /// A structure with the given name and fields.
    Struct { name: String, fields: Vec<WGSLStructField> },
    /// A type that the language knows by name.
    Ty(String),
}

/// Whether `wgsl` names the type `name`.
pub open spec fn names(wgsl: WGSL, name: &str) -> bool {
    wgsl matches WGSL::Ty(ty) && ty@ == name@
}

/// A host type with a counterpart in the shading language.
pub trait ToWGSL {
    /// The counterpart of the type.
    fn to_wgsl() -> WGSL;
}

/// A host type that stands for an array of the shading language.
pub trait BufferArray: Sized {
}

/// The language's type `name`.
fn ty(name: &str) -> (wgsl: WGSL)
    ensures
        names(wgsl, name),
{
    WGSL::Ty(name.to_owned())
}

impl ToWGSL for i32 {
    fn to_wgsl() -> (wgsl: WGSL)
        ensures
            names(wgsl, "i32"),
    {
        ty("i32")
    }
}

impl ToWGSL for u32 {
    fn to_wgsl() -> (wgsl: WGSL)
        ensures
            names(wgsl, "u32"),
    {
        ty("u32")
    }
}

} // verus!
