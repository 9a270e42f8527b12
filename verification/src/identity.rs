//! Identity of GPU objects and driver errors.
//!
//! An object that stands for something on the GPU is what its handle
//! says it is: two values with the same handle are equal, hash alike and
//! are ordered by the handle, whatever else they hold. A driver error is
//! told apart by the driver's status in the same way.

use vstd::prelude::*;
use vstd::std_specs::cmp::{PartialEqSpecImpl, PartialOrdSpecImpl};
use std::cmp::Ordering;
use std::hash::{Hash, Hasher};
use crate::gl::{
    FragmentShaderCompileError, GlShaderLinkError, Texture, VertexLayoutDescription,
    VertexShaderCompileError,
};
use crate::shader::{GlShader, VertexBuffer};

verus! {

/// `Hash::hash` of a `u32`: feeds the number to the hasher.
pub assume_specification<H: Hasher>[ <u32 as Hash>::hash ](value: &u32, state: &mut H);

/// `Hash::hash` of an `i32`: feeds the number to the hasher.
pub assume_specification<H: Hasher>[ <i32 as Hash>::hash ](value: &i32, state: &mut H);

impl PartialEq for Texture {
    /// Two values are equal if they hold the same `texture_id`.
    fn eq(&self, other: &Texture) -> (equal: bool) {
        self.texture_id == other.texture_id
    }
}

impl PartialEqSpecImpl for Texture {
    open spec fn obeys_eq_spec() -> bool {
        true
    }

    open spec fn eq_spec(&self, other: &Texture) -> bool {
        self.texture_id == other.texture_id
    }
}

impl Eq for Texture {

}

impl Hash for Texture {
    fn hash<H: Hasher>(&self, state: &mut H) {
        self.texture_id.hash(state);
    }
}

impl PartialOrd for Texture {
    /// Values are ordered by their `texture_id`.
    fn partial_cmp(&self, other: &Texture) -> (order: Option<Ordering>) {
        if self.texture_id < other.texture_id {
            Some(Ordering::Less)
        } else if self.texture_id == other.texture_id {
            Some(Ordering::Equal)
        } else {
            Some(Ordering::Greater)
        }
    }
}

impl PartialOrdSpecImpl for Texture {
    open spec fn obeys_partial_cmp_spec() -> bool {
        true
    }

    open spec fn partial_cmp_spec(&self, other: &Texture) -> Option<Ordering> {
        if self.texture_id < other.texture_id {
            Some(Ordering::Less)
        } else if self.texture_id == other.texture_id {
            Some(Ordering::Equal)
        } else {
            Some(Ordering::Greater)
        }
    }
}

impl PartialEq for GlShader {
    /// Two values are equal if they hold the same `program_id`.
    fn eq(&self, other: &GlShader) -> (equal: bool) {
        self.program_id == other.program_id
    }
}

impl PartialEqSpecImpl for GlShader {
    open spec fn obeys_eq_spec() -> bool {
        true
    }

    open spec fn eq_spec(&self, other: &GlShader) -> bool {
        self.program_id == other.program_id
    }
}

impl Eq for GlShader {

}

impl Hash for GlShader {
    fn hash<H: Hasher>(&self, state: &mut H) {
        self.program_id.hash(state);
    }
}

impl PartialOrd for GlShader {
    /// Values are ordered by their `program_id`.
    fn partial_cmp(&self, other: &GlShader) -> (order: Option<Ordering>) {
        if self.program_id < other.program_id {
            Some(Ordering::Less)
        } else if self.program_id == other.program_id {
            Some(Ordering::Equal)
        } else {
            Some(Ordering::Greater)
        }
    }
}

impl PartialOrdSpecImpl for GlShader {
    open spec fn obeys_partial_cmp_spec() -> bool {
        true
    }

    open spec fn partial_cmp_spec(&self, other: &GlShader) -> Option<Ordering> {
        if self.program_id < other.program_id {
            Some(Ordering::Less)
        } else if self.program_id == other.program_id {
            Some(Ordering::Equal)
        } else {
            Some(Ordering::Greater)
        }
    }
}

impl<T: VertexLayoutDescription> PartialEq for VertexBuffer<T> {
    /// Two values are equal if they hold the same `vertex_buffer_id`.
    fn eq(&self, other: &VertexBuffer<T>) -> (equal: bool) {
        self.vertex_buffer_id == other.vertex_buffer_id
    }
}

impl<T: VertexLayoutDescription> PartialEqSpecImpl for VertexBuffer<T> {
    open spec fn obeys_eq_spec() -> bool {
        true
    }

    open spec fn eq_spec(&self, other: &VertexBuffer<T>) -> bool {
        self.vertex_buffer_id == other.vertex_buffer_id
    }
}

impl<T: VertexLayoutDescription> Eq for VertexBuffer<T> {

}

impl<T: VertexLayoutDescription> Hash for VertexBuffer<T> {
    fn hash<H: Hasher>(&self, state: &mut H) {
        self.vertex_buffer_id.hash(state);
    }
}

impl<T: VertexLayoutDescription> PartialOrd for VertexBuffer<T> {
    /// Values are ordered by their `vertex_buffer_id`.
    fn partial_cmp(&self, other: &VertexBuffer<T>) -> (order: Option<Ordering>) {
        if self.vertex_buffer_id < other.vertex_buffer_id {
            Some(Ordering::Less)
        } else if self.vertex_buffer_id == other.vertex_buffer_id {
            Some(Ordering::Equal)
        } else {
            Some(Ordering::Greater)
        }
    }
}

impl<T: VertexLayoutDescription> PartialOrdSpecImpl for VertexBuffer<T> {
    open spec fn obeys_partial_cmp_spec() -> bool {
        true
    }

    open spec fn partial_cmp_spec(&self, other: &VertexBuffer<T>) -> Option<Ordering> {
        if self.vertex_buffer_id < other.vertex_buffer_id {
            Some(Ordering::Less)
        } else if self.vertex_buffer_id == other.vertex_buffer_id {
            Some(Ordering::Equal)
        } else {
            Some(Ordering::Greater)
        }
    }
}

impl PartialEq for VertexShaderCompileError {
    /// Two values are equal if they hold the same `error_id`.
    fn eq(&self, other: &VertexShaderCompileError) -> (equal: bool) {
        self.error_id == other.error_id
    }
}

impl PartialEqSpecImpl for VertexShaderCompileError {
    open spec fn obeys_eq_spec() -> bool {
        true
    }

    open spec fn eq_spec(&self, other: &VertexShaderCompileError) -> bool {
        self.error_id == other.error_id
    }
}

impl Eq for VertexShaderCompileError {

}

impl Hash for VertexShaderCompileError {
    fn hash<H: Hasher>(&self, state: &mut H) {
        self.error_id.hash(state);
    }
}

impl PartialOrd for VertexShaderCompileError {
    /// Values are ordered by their `error_id`.
    fn partial_cmp(&self, other: &VertexShaderCompileError) -> (order: Option<Ordering>) {
        if self.error_id < other.error_id {
            Some(Ordering::Less)
        } else if self.error_id == other.error_id {
            Some(Ordering::Equal)
        } else {
            Some(Ordering::Greater)
        }
    }
}

impl PartialOrdSpecImpl for VertexShaderCompileError {
    open spec fn obeys_partial_cmp_spec() -> bool {
        true
    }

    open spec fn partial_cmp_spec(&self, other: &VertexShaderCompileError) -> Option<Ordering> {
        if self.error_id < other.error_id {
            Some(Ordering::Less)
        } else if self.error_id == other.error_id {
            Some(Ordering::Equal)
        } else {
            Some(Ordering::Greater)
        }
    }
}

impl PartialEq for FragmentShaderCompileError {
    /// Two values are equal if they hold the same `error_id`.
    fn eq(&self, other: &FragmentShaderCompileError) -> (equal: bool) {
        self.error_id == other.error_id
    }
}

impl PartialEqSpecImpl for FragmentShaderCompileError {
    open spec fn obeys_eq_spec() -> bool {
        true
    }

    open spec fn eq_spec(&self, other: &FragmentShaderCompileError) -> bool {
        self.error_id == other.error_id
    }
}

impl Eq for FragmentShaderCompileError {

}

impl Hash for FragmentShaderCompileError {
    fn hash<H: Hasher>(&self, state: &mut H) {
        self.error_id.hash(state);
    }
}

impl PartialOrd for FragmentShaderCompileError {
    /// Values are ordered by their `error_id`.
    fn partial_cmp(&self, other: &FragmentShaderCompileError) -> (order: Option<Ordering>) {
        if self.error_id < other.error_id {
            Some(Ordering::Less)
        } else if self.error_id == other.error_id {
            Some(Ordering::Equal)
        } else {
            Some(Ordering::Greater)
        }
    }
}

impl PartialOrdSpecImpl for FragmentShaderCompileError {
    open spec fn obeys_partial_cmp_spec() -> bool {
        true
    }

    open spec fn partial_cmp_spec(&self, other: &FragmentShaderCompileError) -> Option<Ordering> {
        if self.error_id < other.error_id {
            Some(Ordering::Less)
        } else if self.error_id == other.error_id {
            Some(Ordering::Equal)
        } else {
            Some(Ordering::Greater)
        }
    }
}

impl PartialEq for GlShaderLinkError {
    /// Two values are equal if they hold the same `error_id`.
    fn eq(&self, other: &GlShaderLinkError) -> (equal: bool) {
        self.error_id == other.error_id
    }
}

impl PartialEqSpecImpl for GlShaderLinkError {
    open spec fn obeys_eq_spec() -> bool {
        true
    }

    open spec fn eq_spec(&self, other: &GlShaderLinkError) -> bool {
        self.error_id == other.error_id
    }
}

impl Eq for GlShaderLinkError {

}

impl Hash for GlShaderLinkError {
    fn hash<H: Hasher>(&self, state: &mut H) {
        self.error_id.hash(state);
    }
}

impl PartialOrd for GlShaderLinkError {
    /// Values are ordered by their `error_id`.
    fn partial_cmp(&self, other: &GlShaderLinkError) -> (order: Option<Ordering>) {
        if self.error_id < other.error_id {
            Some(Ordering::Less)
        } else if self.error_id == other.error_id {
            Some(Ordering::Equal)
        } else {
            Some(Ordering::Greater)
        }
    }
}

impl PartialOrdSpecImpl for GlShaderLinkError {
    open spec fn obeys_partial_cmp_spec() -> bool {
        true
    }

    open spec fn partial_cmp_spec(&self, other: &GlShaderLinkError) -> Option<Ordering> {
        if self.error_id < other.error_id {
            Some(Ordering::Less)
        } else if self.error_id == other.error_id {
            Some(Ordering::Equal)
        } else {
            Some(Ordering::Greater)
        }
    }
}

} // verus!
