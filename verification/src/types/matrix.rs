//! Matrices of two to four columns and rows.

#![allow(non_camel_case_types)]

use vstd::prelude::*;

verus! {

/// A matrix of 2 columns and 2 rows, stored as 2 arrays of 2.
#[derive(Debug, Copy, Clone, PartialEq, Eq)]
pub struct mat2x2<T>([[T; 2]; 2]);

impl<T> View for mat2x2<T> {
    type V = [[T; 2]; 2];

    /// The elements as they are stored.
    closed spec fn view(&self) -> [[T; 2]; 2] {
        self.0
    }
}

impl<T: Copy> mat2x2<T> {
    /// The matrix with the elements `value`.
    pub fn new(value: [[T; 2]; 2]) -> (matrix: Self)
        ensures
            matrix@ == value,
    {
        Self(value)
    }

    /// The elements as they are stored.
    pub fn elements(&self) -> (elements: [[T; 2]; 2])
        ensures
            elements == self@,
    {
        self.0
    }
}

/// A matrix of 2 columns and 3 rows, stored as 3 arrays of 2.
#[derive(Debug, Copy, Clone, PartialEq, Eq)]
pub struct mat2x3<T>([[T; 2]; 3]);

impl<T> View for mat2x3<T> {
    type V = [[T; 2]; 3];

    /// The elements as they are stored.
    closed spec fn view(&self) -> [[T; 2]; 3] {
        self.0
    }
}

impl<T: Copy> mat2x3<T> {
    /// The matrix with the elements `value`.
    pub fn new(value: [[T; 2]; 3]) -> (matrix: Self)
        ensures
            matrix@ == value,
    {
        Self(value)
    }

    /// The elements as they are stored.
    pub fn elements(&self) -> (elements: [[T; 2]; 3])
        ensures
            elements == self@,
    {
        self.0
    }
}

/// A matrix of 2 columns and 4 rows, stored as 4 arrays of 2.
#[derive(Debug, Copy, Clone, PartialEq, Eq)]
pub struct mat2x4<T>([[T; 2]; 4]);

impl<T> View for mat2x4<T> {
    type V = [[T; 2]; 4];

    /// The elements as they are stored.
    closed spec fn view(&self) -> [[T; 2]; 4] {
        self.0
    }
}

impl<T: Copy> mat2x4<T> {
    /// The matrix with the elements `value`.
    pub fn new(value: [[T; 2]; 4]) -> (matrix: Self)
        ensures
            matrix@ == value,
    {
        Self(value)
    }

    /// The elements as they are stored.
    pub fn elements(&self) -> (elements: [[T; 2]; 4])
        ensures
            elements == self@,
    {
        self.0
    }
}

/// A matrix of 3 columns and 2 rows, stored as 2 arrays of 3.
#[derive(Debug, Copy, Clone, PartialEq, Eq)]
pub struct mat3x2<T>([[T; 3]; 2]);

impl<T> View for mat3x2<T> {
    type V = [[T; 3]; 2];

    /// The elements as they are stored.
    closed spec fn view(&self) -> [[T; 3]; 2] {
        self.0
    }
}

impl<T: Copy> mat3x2<T> {
    /// The matrix with the elements `value`.
    pub fn new(value: [[T; 3]; 2]) -> (matrix: Self)
        ensures
            matrix@ == value,
    {
        Self(value)
    }

    /// The elements as they are stored.
    pub fn elements(&self) -> (elements: [[T; 3]; 2])
        ensures
            elements == self@,
    {
        self.0
    }
}

/// A matrix of 3 columns and 3 rows, stored as 3 arrays of 3.
#[derive(Debug, Copy, Clone, PartialEq, Eq)]
pub struct mat3x3<T>([[T; 3]; 3]);

impl<T> View for mat3x3<T> {
    type V = [[T; 3]; 3];

    /// The elements as they are stored.
    closed spec fn view(&self) -> [[T; 3]; 3] {
        self.0
    }
}

impl<T: Copy> mat3x3<T> {
    /// The matrix with the elements `value`.
    pub fn new(value: [[T; 3]; 3]) -> (matrix: Self)
        ensures
            matrix@ == value,
    {
        Self(value)
    }

    /// The elements as they are stored.
    pub fn elements(&self) -> (elements: [[T; 3]; 3])
        ensures
            elements == self@,
    {
        self.0
    }
}

/// A matrix of 3 columns and 4 rows, stored as 4 arrays of 3.
#[derive(Debug, Copy, Clone, PartialEq, Eq)]
pub struct mat3x4<T>([[T; 3]; 4]);

impl<T> View for mat3x4<T> {
    type V = [[T; 3]; 4];

    /// The elements as they are stored.
    closed spec fn view(&self) -> [[T; 3]; 4] {
        self.0
    }
}

impl<T: Copy> mat3x4<T> {
    /// The matrix with the elements `value`.
    pub fn new(value: [[T; 3]; 4]) -> (matrix: Self)
        ensures
            matrix@ == value,
    {
        Self(value)
    }

    /// The elements as they are stored.
    pub fn elements(&self) -> (elements: [[T; 3]; 4])
        ensures
            elements == self@,
    {
        self.0
    }
}

/// A matrix of 4 columns and 2 rows, stored as 2 arrays of 4.
#[derive(Debug, Copy, Clone, PartialEq, Eq)]
pub struct mat4x2<T>([[T; 4]; 2]);

impl<T> View for mat4x2<T> {
    type V = [[T; 4]; 2];

    /// The elements as they are stored.
    closed spec fn view(&self) -> [[T; 4]; 2] {
        self.0
    }
}

impl<T: Copy> mat4x2<T> {
    /// The matrix with the elements `value`.
    pub fn new(value: [[T; 4]; 2]) -> (matrix: Self)
        ensures
            matrix@ == value,
    {
        Self(value)
    }

    /// The elements as they are stored.
    pub fn elements(&self) -> (elements: [[T; 4]; 2])
        ensures
            elements == self@,
    {
        self.0
    }
}

/// A matrix of 4 columns and 3 rows, stored as 3 arrays of 4.
#[derive(Debug, Copy, Clone, PartialEq, Eq)]
pub struct mat4x3<T>([[T; 4]; 3]);

impl<T> View for mat4x3<T> {
    type V = [[T; 4]; 3];

    /// The elements as they are stored.
    closed spec fn view(&self) -> [[T; 4]; 3] {
        self.0
    }
}

impl<T: Copy> mat4x3<T> {
    /// The matrix with the elements `value`.
    pub fn new(value: [[T; 4]; 3]) -> (matrix: Self)
        ensures
            matrix@ == value,
    {
        Self(value)
    }

    /// The elements as they are stored.
    pub fn elements(&self) -> (elements: [[T; 4]; 3])
        ensures
            elements == self@,
    {
        self.0
    }
}

/// A matrix of 4 columns and 4 rows, stored as 4 arrays of 4.
#[derive(Debug, Copy, Clone, PartialEq, Eq)]
pub struct mat4x4<T>([[T; 4]; 4]);

impl<T> View for mat4x4<T> {
    type V = [[T; 4]; 4];

    /// The elements as they are stored.
    closed spec fn view(&self) -> [[T; 4]; 4] {
        self.0
    }
}

impl<T: Copy> mat4x4<T> {
    /// The matrix with the elements `value`.
    pub fn new(value: [[T; 4]; 4]) -> (matrix: Self)
        ensures
            matrix@ == value,
    {
        Self(value)
    }

    /// The elements as they are stored.
    pub fn elements(&self) -> (elements: [[T; 4]; 4])
        ensures
            elements == self@,
    {
        self.0
    }
}

} // verus!
