//! Thin wrappers for the primitive OPC UA data types.
//!
//! For each entry of the fixed table of primitive protocol scalars the crate
//! defines one transparent wrapper type bound to the matching native scalar
//! and its descriptor index, together with a constructor from the host
//! primitive. The table is the single source of truth for which primitives
//! are supported; there is exactly one wrapper type per entry and the types
//! are structurally identical to their native counterparts, so conversion in
//! either direction is a pure bit copy.
//!
//! The two floating-point entries of the native table have no wrapper here:
//! verified code carries no floating-point values, so those wrappers live in
//! the unverified shell.

use vstd::prelude::*;

use crate::DataType;

verus! {

/// Wrapper for the native boolean scalar (descriptor index 0).
#[derive(Clone, Copy, PartialEq, Eq, Structural, Debug)]
pub struct Boolean {
    value: bool,
}

impl DataType for Boolean {
    type Inner = bool;

    closed spec fn inner_view(&self) -> bool {
        self.value
    }

    closed spec fn spec_from_ref(inner: bool) -> Self {
        Boolean { value: inner }
    }

    closed spec fn spec_type_index() -> usize {
        0
    }

    proof fn lemma_transparent(inner: bool) {
    }

    fn from_ref(inner: &bool) -> Self {
        Boolean { value: *inner }
    }

    fn as_ref(&self) -> &bool {
        &self.value
    }

    fn as_mut(&mut self) -> &mut bool {
        &mut self.value
    }

    fn type_index() -> usize {
        0
    }
}

impl Boolean {
    /// Builds the wrapper from a host value.
    pub fn new(value: bool) -> (r: Self)
        ensures
            r.inner_view() == value,
    {
        Self::from_ref(&value)
    }
}

/// Wrapper for the native 8-bit signed integer scalar (descriptor index 1).
#[derive(Clone, Copy, PartialEq, Eq, Structural, Debug)]
pub struct SByte {
    value: i8,
}

impl DataType for SByte {
    type Inner = i8;

    closed spec fn inner_view(&self) -> i8 {
        self.value
    }

    closed spec fn spec_from_ref(inner: i8) -> Self {
        SByte { value: inner }
    }

    closed spec fn spec_type_index() -> usize {
        1
    }

    proof fn lemma_transparent(inner: i8) {
    }

    fn from_ref(inner: &i8) -> Self {
        SByte { value: *inner }
    }

    fn as_ref(&self) -> &i8 {
        &self.value
    }

    fn as_mut(&mut self) -> &mut i8 {
        &mut self.value
    }

    fn type_index() -> usize {
        1
    }
}

impl SByte {
    /// Builds the wrapper from a host value.
    pub fn new(value: i8) -> (r: Self)
        ensures
            r.inner_view() == value,
    {
        Self::from_ref(&value)
    }
}

/// Wrapper for the native 8-bit unsigned integer scalar (descriptor index 2).
#[derive(Clone, Copy, PartialEq, Eq, Structural, Debug)]
pub struct Byte {
    value: u8,
}

impl DataType for Byte {
    type Inner = u8;

    closed spec fn inner_view(&self) -> u8 {
        self.value
    }

    closed spec fn spec_from_ref(inner: u8) -> Self {
        Byte { value: inner }
    }

    closed spec fn spec_type_index() -> usize {
        2
    }

    proof fn lemma_transparent(inner: u8) {
    }

    fn from_ref(inner: &u8) -> Self {
        Byte { value: *inner }
    }

    fn as_ref(&self) -> &u8 {
        &self.value
    }

    fn as_mut(&mut self) -> &mut u8 {
        &mut self.value
    }

    fn type_index() -> usize {
        2
    }
}

impl Byte {
    /// Builds the wrapper from a host value.
    pub fn new(value: u8) -> (r: Self)
        ensures
            r.inner_view() == value,
    {
        Self::from_ref(&value)
    }
}

/// Wrapper for the native 16-bit signed integer scalar (descriptor index 3).
#[derive(Clone, Copy, PartialEq, Eq, Structural, Debug)]
pub struct Int16 {
    value: i16,
}

impl DataType for Int16 {
    type Inner = i16;

    closed spec fn inner_view(&self) -> i16 {
        self.value
    }

    closed spec fn spec_from_ref(inner: i16) -> Self {
        Int16 { value: inner }
    }

    closed spec fn spec_type_index() -> usize {
        3
    }

    proof fn lemma_transparent(inner: i16) {
    }

    fn from_ref(inner: &i16) -> Self {
        Int16 { value: *inner }
    }

    fn as_ref(&self) -> &i16 {
        &self.value
    }

    fn as_mut(&mut self) -> &mut i16 {
        &mut self.value
    }

    fn type_index() -> usize {
        3
    }
}

impl Int16 {
    /// Builds the wrapper from a host value.
    pub fn new(value: i16) -> (r: Self)
        ensures
            r.inner_view() == value,
    {
        Self::from_ref(&value)
    }
}

/// Wrapper for the native 16-bit unsigned integer scalar (descriptor index 4).
#[derive(Clone, Copy, PartialEq, Eq, Structural, Debug)]
pub struct UInt16 {
    value: u16,
}

impl DataType for UInt16 {
    type Inner = u16;

    closed spec fn inner_view(&self) -> u16 {
        self.value
    }

    closed spec fn spec_from_ref(inner: u16) -> Self {
        UInt16 { value: inner }
    }

    closed spec fn spec_type_index() -> usize {
        4
    }

    proof fn lemma_transparent(inner: u16) {
    }

    fn from_ref(inner: &u16) -> Self {
        UInt16 { value: *inner }
    }

    fn as_ref(&self) -> &u16 {
        &self.value
    }

    fn as_mut(&mut self) -> &mut u16 {
        &mut self.value
    }

    fn type_index() -> usize {
        4
    }
}

impl UInt16 {
    /// Builds the wrapper from a host value.
    pub fn new(value: u16) -> (r: Self)
        ensures
            r.inner_view() == value,
    {
        Self::from_ref(&value)
    }
}

/// Wrapper for the native 32-bit signed integer scalar (descriptor index 5).
#[derive(Clone, Copy, PartialEq, Eq, Structural, Debug)]
pub struct Int32 {
    value: i32,
}

impl DataType for Int32 {
    type Inner = i32;

    closed spec fn inner_view(&self) -> i32 {
        self.value
    }

    closed spec fn spec_from_ref(inner: i32) -> Self {
        Int32 { value: inner }
    }

    closed spec fn spec_type_index() -> usize {
        5
    }

    proof fn lemma_transparent(inner: i32) {
    }

    fn from_ref(inner: &i32) -> Self {
        Int32 { value: *inner }
    }

    fn as_ref(&self) -> &i32 {
        &self.value
    }

    fn as_mut(&mut self) -> &mut i32 {
        &mut self.value
    }

    fn type_index() -> usize {
        5
    }
}

impl Int32 {
    /// Builds the wrapper from a host value.
    pub fn new(value: i32) -> (r: Self)
        ensures
            r.inner_view() == value,
    {
        Self::from_ref(&value)
    }
}

/// Wrapper for the native 32-bit unsigned integer scalar (descriptor index 6).
#[derive(Clone, Copy, PartialEq, Eq, Structural, Debug)]
pub struct UInt32 {
    value: u32,
}

impl DataType for UInt32 {
    type Inner = u32;

    closed spec fn inner_view(&self) -> u32 {
        self.value
    }

    closed spec fn spec_from_ref(inner: u32) -> Self {
        UInt32 { value: inner }
    }

    closed spec fn spec_type_index() -> usize {
        6
    }

    proof fn lemma_transparent(inner: u32) {
    }

    fn from_ref(inner: &u32) -> Self {
        UInt32 { value: *inner }
    }

    fn as_ref(&self) -> &u32 {
        &self.value
    }

    fn as_mut(&mut self) -> &mut u32 {
        &mut self.value
    }

    fn type_index() -> usize {
        6
    }
}

impl UInt32 {
    /// Builds the wrapper from a host value.
    pub fn new(value: u32) -> (r: Self)
        ensures
            r.inner_view() == value,
    {
        Self::from_ref(&value)
    }
}

/// Wrapper for the native 64-bit signed integer scalar (descriptor index 7).
#[derive(Clone, Copy, PartialEq, Eq, Structural, Debug)]
pub struct Int64 {
    value: i64,
}

impl DataType for Int64 {
    type Inner = i64;

    closed spec fn inner_view(&self) -> i64 {
        self.value
    }

    closed spec fn spec_from_ref(inner: i64) -> Self {
        Int64 { value: inner }
    }

    closed spec fn spec_type_index() -> usize {
        7
    }

    proof fn lemma_transparent(inner: i64) {
    }

    fn from_ref(inner: &i64) -> Self {
        Int64 { value: *inner }
    }

    fn as_ref(&self) -> &i64 {
        &self.value
    }

    fn as_mut(&mut self) -> &mut i64 {
        &mut self.value
    }

    fn type_index() -> usize {
        7
    }
}

impl Int64 {
    /// Builds the wrapper from a host value.
    pub fn new(value: i64) -> (r: Self)
        ensures
            r.inner_view() == value,
    {
        Self::from_ref(&value)
    }
}

/// Wrapper for the native 64-bit unsigned integer scalar (descriptor index 8).
#[derive(Clone, Copy, PartialEq, Eq, Structural, Debug)]
pub struct UInt64 {
    value: u64,
}

impl DataType for UInt64 {
    type Inner = u64;

    closed spec fn inner_view(&self) -> u64 {
        self.value
    }

    closed spec fn spec_from_ref(inner: u64) -> Self {
        UInt64 { value: inner }
    }

    closed spec fn spec_type_index() -> usize {
        8
    }

    proof fn lemma_transparent(inner: u64) {
    }

    fn from_ref(inner: &u64) -> Self {
        UInt64 { value: *inner }
    }

    fn as_ref(&self) -> &u64 {
        &self.value
    }

    fn as_mut(&mut self) -> &mut u64 {
        &mut self.value
    }

    fn type_index() -> usize {
        8
    }
}

impl UInt64 {
    /// Builds the wrapper from a host value.
    pub fn new(value: u64) -> (r: Self)
        ensures
            r.inner_view() == value,
    {
        Self::from_ref(&value)
    }
}

/// Status code returned by native engine routines.
///
/// The code's top two bits give its severity class; a code is good exactly
/// when that class is zero.
#[derive(Clone, Copy, PartialEq, Eq, Structural, Debug)]
pub struct StatusCode {
    code: u32,
}

impl StatusCode {
    /// The raw status code.
    pub closed spec fn spec_code(&self) -> u32 {
        self.code
    }

    /// Whether the code's severity class is good.
    pub open spec fn spec_is_good(&self) -> bool {
        self.spec_code() >> 30u32 == 0u32
    }

    /// Wraps a raw status code received from the engine.
    pub fn new(code: u32) -> (r: Self)
        ensures
            r.spec_code() == code,
    {
        StatusCode { code }
    }

    /// The raw status code.
    pub fn code(&self) -> (r: u32)
        ensures
            r == self.spec_code(),
    {
        self.code
    }

    /// Whether the code's severity class is good.
    pub fn is_good(&self) -> (r: bool)
        ensures
            r == self.spec_is_good(),
    {
        self.code >> 30u32 == 0u32
    }
}

} // verus!
