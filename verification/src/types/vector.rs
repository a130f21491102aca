//! Vectors of two, three and four components.

#![allow(non_camel_case_types)]

use vstd::prelude::*;
use vstd::std_specs::convert::FromSpecImpl;
use crate::types::{names, ty, ToWGSL, WGSL};

verus! {

/// A vector of two components.
#[derive(PartialEq, Eq, PartialOrd, Ord, Clone, Copy, Debug)]
pub struct vec2<T>([T; 2]);

/// A vector of three components.
#[derive(PartialEq, Eq, PartialOrd, Ord, Clone, Copy, Debug)]
pub struct vec3<T>([T; 3]);

/// A vector of four components.
#[derive(PartialEq, Eq, PartialOrd, Ord, Clone, Copy, Debug)]
pub struct vec4<T>([T; 4]);

pub type vec2i = vec2<i32>;

pub type vec3i = vec3<i32>;

pub type vec4i = vec4<i32>;

pub type vec2u = vec2<u32>;

pub type vec3u = vec3<u32>;

pub type vec4u = vec4<u32>;

impl<T> View for vec2<T> {
    type V = [T; 2];

    /// The components, first to last.
    closed spec fn view(&self) -> [T; 2] {
        self.0
    }
}

impl<T> View for vec3<T> {
    type V = [T; 3];

    /// The components, first to last.
    closed spec fn view(&self) -> [T; 3] {
        self.0
    }
}

impl<T> View for vec4<T> {
    type V = [T; 4];

    /// The components, first to last.
    closed spec fn view(&self) -> [T; 4] {
        self.0
    }
}

impl<T: Copy> vec2<T> {
    /// The components, first to last.
    pub fn components(&self) -> (components: [T; 2])
        ensures
            components == self@,
    {
        self.0
    }
}

impl<T: Copy> vec3<T> {
    /// The components, first to last.
    pub fn components(&self) -> (components: [T; 3])
        ensures
            components == self@,
    {
        self.0
    }
}

impl<T: Copy> vec4<T> {
    /// The components, first to last.
    pub fn components(&self) -> (components: [T; 4])
        ensures
            components == self@,
    {
        self.0
    }
}

impl core::convert::From<[i32; 2]> for vec2<i32> {
    /// The vector with the components `value`.
    fn from(value: [i32; 2]) -> (vector: Self)
        ensures
            vector@ == value,
    {
        Self(value)
    }
}

impl FromSpecImpl<[i32; 2]> for vec2<i32> {
    open spec fn obeys_from_spec() -> bool {
        true
    }

    closed spec fn from_spec(value: [i32; 2]) -> Self {
        vec2(value)
    }
}

impl ToWGSL for vec2<i32> {
    fn to_wgsl() -> (wgsl: WGSL)
        ensures
            names(wgsl, "vec2<i32>"),
    {
        ty("vec2<i32>")
    }
}

impl core::convert::From<[i32; 3]> for vec3<i32> {
    /// The vector with the components `value`.
    fn from(value: [i32; 3]) -> (vector: Self)
        ensures
            vector@ == value,
    {
        Self(value)
    }
}

impl FromSpecImpl<[i32; 3]> for vec3<i32> {
    open spec fn obeys_from_spec() -> bool {
        true
    }

    closed spec fn from_spec(value: [i32; 3]) -> Self {
        vec3(value)
    }
}

impl ToWGSL for vec3<i32> {
    fn to_wgsl() -> (wgsl: WGSL)
        ensures
            names(wgsl, "vec3<i32>"),
    {
        ty("vec3<i32>")
    }
}

impl core::convert::From<[i32; 4]> for vec4<i32> {
    /// The vector with the components `value`.
    fn from(value: [i32; 4]) -> (vector: Self)
        ensures
            vector@ == value,
    {
        Self(value)
    }
}

impl FromSpecImpl<[i32; 4]> for vec4<i32> {
    open spec fn obeys_from_spec() -> bool {
        true
    }

    closed spec fn from_spec(value: [i32; 4]) -> Self {
        vec4(value)
    }
}

impl ToWGSL for vec4<i32> {
    fn to_wgsl() -> (wgsl: WGSL)
        ensures
            names(wgsl, "vec4<i32>"),
    {
        ty("vec4<i32>")
    }
}

impl core::convert::From<[u32; 2]> for vec2<u32> {
    /// The vector with the components `value`.
    fn from(value: [u32; 2]) -> (vector: Self)
        ensures
            vector@ == value,
    {
        Self(value)
    }
}

impl FromSpecImpl<[u32; 2]> for vec2<u32> {
    open spec fn obeys_from_spec() -> bool {
        true
    }

    closed spec fn from_spec(value: [u32; 2]) -> Self {
        vec2(value)
    }
}

impl ToWGSL for vec2<u32> {
    fn to_wgsl() -> (wgsl: WGSL)
        ensures
            names(wgsl, "vec2<u32>"),
    {
        ty("vec2<u32>")
    }
}

impl core::convert::From<[u32; 3]> for vec3<u32> {
    /// The vector with the components `value`.
    fn from(value: [u32; 3]) -> (vector: Self)
        ensures
            vector@ == value,
    {
        Self(value)
    }
}

impl FromSpecImpl<[u32; 3]> for vec3<u32> {
    open spec fn obeys_from_spec() -> bool {
        true
    }

    closed spec fn from_spec(value: [u32; 3]) -> Self {
        vec3(value)
    }
}

impl ToWGSL for vec3<u32> {
    fn to_wgsl() -> (wgsl: WGSL)
        ensures
            names(wgsl, "vec3<u32>"),
    {
        ty("vec3<u32>")
    }
}

impl core::convert::From<[u32; 4]> for vec4<u32> {
    /// The vector with the components `value`.
    fn from(value: [u32; 4]) -> (vector: Self)
        ensures
            vector@ == value,
    {
        Self(value)
    }
}

impl FromSpecImpl<[u32; 4]> for vec4<u32> {
    open spec fn obeys_from_spec() -> bool {
        true
    }

    closed spec fn from_spec(value: [u32; 4]) -> Self {
        vec4(value)
    }
}

impl ToWGSL for vec4<u32> {
    fn to_wgsl() -> (wgsl: WGSL)
        ensures
            names(wgsl, "vec4<u32>"),
    {
        ty("vec4<u32>")
    }
}

} // verus!
