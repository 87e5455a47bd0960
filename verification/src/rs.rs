//! Core value and metadata types for a row-major stream of typed values:
//! declared variable types, their storage mapping, file-level metadata, and
//! the plain-value events a native reader delivers.

use vstd::prelude::*;

use crate::DataType;
use crate::formats::ReadStatFormatClass;

verus! {

/// The primitive type a variable is declared with.
#[derive(Clone, Copy, Debug, PartialEq, Eq, Structural)]
pub enum ReadStatVarType {
    String,
    Int8,
    Int16,
    Int32,
    Float,
    Double,
    StringRef,
    Unknown,
}

/// Coarse classification of a declared type.
#[derive(Clone, Copy, Debug, PartialEq, Eq, Structural)]
pub enum ReadStatVarTypeClass {
    String,
    Numeric,
}

/// File-level compression scheme.
#[derive(Clone, Copy, Debug, PartialEq, Eq, Structural)]
pub enum ReadStatCompress {
    Uncompressed,
    Rows,
    Binary,
    Unknown,
}

/// Byte order the file was written with.
#[derive(Clone, Copy, Debug, PartialEq, Eq, Structural)]
pub enum ReadStatEndian {
    Unknown,
    Little,
    Big,
}

/// The declared-type code used by the native reader: 0 string, 1 int8,
/// 2 int16, 3 int32, 4 float, 5 double, 6 string ref.
pub open spec fn spec_var_type_from_code(code: i32) -> ReadStatVarType {
    if code == 0 {
        ReadStatVarType::String
    } else if code == 1 {
        ReadStatVarType::Int8
    } else if code == 2 {
        ReadStatVarType::Int16
    } else if code == 3 {
        ReadStatVarType::Int32
    } else if code == 4 {
        ReadStatVarType::Float
    } else if code == 5 {
        ReadStatVarType::Double
    } else if code == 6 {
        ReadStatVarType::StringRef
    } else {
        ReadStatVarType::Unknown
    }
}

/// Decodes a declared-type code; unmapped codes fall back to `Unknown`.
pub fn var_type_from_code(code: i32) -> (t: ReadStatVarType)
    ensures
        t == spec_var_type_from_code(code),
{
    if code == 0 {
        ReadStatVarType::String
    } else if code == 1 {
        ReadStatVarType::Int8
    } else if code == 2 {
        ReadStatVarType::Int16
    } else if code == 3 {
        ReadStatVarType::Int32
    } else if code == 4 {
        ReadStatVarType::Float
    } else if code == 5 {
        ReadStatVarType::Double
    } else if code == 6 {
        ReadStatVarType::StringRef
    } else {
        ReadStatVarType::Unknown
    }
}

/// The type-class code used by the native reader: 0 string, 1 numeric;
/// unmapped codes fall back to `Numeric`.
pub open spec fn spec_var_type_class_from_code(code: i32) -> ReadStatVarTypeClass {
    if code == 0 {
        ReadStatVarTypeClass::String
    } else {
        ReadStatVarTypeClass::Numeric
    }
}

/// Decodes a type-class code.
pub fn var_type_class_from_code(code: i32) -> (c: ReadStatVarTypeClass)
    ensures
        c == spec_var_type_class_from_code(code),
{
    if code == 0 {
        ReadStatVarTypeClass::String
    } else {
        ReadStatVarTypeClass::Numeric
    }
}

/// The compression code used by the native reader: 0 none, 1 row-level,
/// 2 binary; unmapped codes fall back to `Unknown`.
pub open spec fn spec_compress_from_code(code: i32) -> ReadStatCompress {
    if code == 0 {
        ReadStatCompress::Uncompressed
    } else if code == 1 {
        ReadStatCompress::Rows
    } else if code == 2 {
        ReadStatCompress::Binary
    } else {
        ReadStatCompress::Unknown
    }
}

/// Decodes a compression code.
pub fn compress_from_code(code: i32) -> (c: ReadStatCompress)
    ensures
        c == spec_compress_from_code(code),
{
    if code == 0 {
        ReadStatCompress::Uncompressed
    } else if code == 1 {
        ReadStatCompress::Rows
    } else if code == 2 {
        ReadStatCompress::Binary
    } else {
        ReadStatCompress::Unknown
    }
}

/// The endianness code used by the native reader: 1 little, 2 big;
/// 0 and unmapped codes fall back to `Unknown`.
pub open spec fn spec_endian_from_code(code: i32) -> ReadStatEndian {
    if code == 1 {
        ReadStatEndian::Little
    } else if code == 2 {
        ReadStatEndian::Big
    } else {
        ReadStatEndian::Unknown
    }
}

/// Decodes an endianness code.
pub fn endian_from_code(code: i32) -> (e: ReadStatEndian)
    ensures
        e == spec_endian_from_code(code),
{
    if code == 1 {
        ReadStatEndian::Little
    } else if code == 2 {
        ReadStatEndian::Big
    } else {
        ReadStatEndian::Unknown
    }
}

/// Storage type a declared type is kept under: text for the string kinds,
/// 8-bit integers widened to 16 bits, and numeric values otherwise kept at
/// their declared width.
pub open spec fn spec_var_dt(t: ReadStatVarType) -> DataType {
    match t {
        ReadStatVarType::String => DataType::Utf8,
        ReadStatVarType::StringRef => DataType::Utf8,
        ReadStatVarType::Unknown => DataType::Utf8,
        ReadStatVarType::Int8 => DataType::Int16,
        ReadStatVarType::Int16 => DataType::Int16,
        ReadStatVarType::Int32 => DataType::Int32,
        ReadStatVarType::Float => DataType::Float32,
        ReadStatVarType::Double => DataType::Float64,
    }
}

/// Maps a declared type to its storage type.
pub fn var_dt(t: ReadStatVarType) -> (d: DataType)
    ensures
        d == spec_var_dt(t),
{
    match t {
        ReadStatVarType::String => DataType::Utf8,
        ReadStatVarType::StringRef => DataType::Utf8,
        ReadStatVarType::Unknown => DataType::Utf8,
        ReadStatVarType::Int8 => DataType::Int16,
        ReadStatVarType::Int16 => DataType::Int16,
        ReadStatVarType::Int32 => DataType::Int32,
        ReadStatVarType::Float => DataType::Float32,
        ReadStatVarType::Double => DataType::Float64,
    }
}

/// One typed value delivered for a cell. Floating-point payloads are carried
/// as their IEEE 754 bit patterns and kept opaque throughout assembly.
#[derive(Clone, Debug, PartialEq)]
pub enum ReadStatVar {
    String(String),
    Int8(i8),
    Int16(i16),
    Int32(i32),
    Float32Bits(u32),
    Float64Bits(u64),
}

/// Identity of a declared variable: its ordinal position and its name.
/// Names are not guaranteed unique by the source; the pair is.
#[derive(Clone, Debug, PartialEq)]
pub struct ReadStatVarIndexAndName {
    pub var_index: i32,
    pub var_name: String,
}

impl ReadStatVarIndexAndName {
    pub fn new(var_index: i32, var_name: String) -> (r: Self)
        ensures
            r.var_index == var_index,
            r.var_name == var_name,
    {
        ReadStatVarIndexAndName { var_index, var_name }
    }
}

/// Everything recorded about one declared variable beyond its identity.
#[derive(Clone, Debug, PartialEq)]
pub struct ReadStatVarMetadata {
    pub var_type: ReadStatVarType,
    pub var_type_class: ReadStatVarTypeClass,
    pub var_label: String,
    pub var_format: String,
    pub var_format_class: Option<ReadStatFormatClass>,
}

impl ReadStatVarMetadata {
    pub fn new(
        var_type: ReadStatVarType,
        var_type_class: ReadStatVarTypeClass,
        var_label: String,
        var_format: String,
        var_format_class: Option<ReadStatFormatClass>,
    ) -> (r: Self)
        ensures
            r == (ReadStatVarMetadata {
                var_type,
                var_type_class,
                var_label,
                var_format,
                var_format_class,
            }),
    {
        ReadStatVarMetadata { var_type, var_type_class, var_label, var_format, var_format_class }
    }
}

/// File-level metadata as delivered by the native reader, in plain values:
/// counts, strings, version numbers, raw enum codes, and the creation and
/// modification instants as epoch seconds.
#[derive(Clone, Debug, PartialEq)]
pub struct ReadStatMetadataEvent {
    pub row_count: i32,
    pub var_count: i32,
    pub table_name: String,
    pub file_label: String,
    pub file_encoding: String,
    pub version: i32,
    pub is64bit: i32,
    pub creation_time: i64,
    pub modified_time: i64,
    pub compression: i32,
    pub endianness: i32,
}

/// File-level metadata as kept for the life of a session: enum codes decoded
/// and timestamps rendered as text. Captured exactly once, immutable after.
#[derive(Clone, Debug, PartialEq)]
pub struct ReadStatMetadata {
    pub row_count: i32,
    pub var_count: i32,
    pub table_name: String,
    pub file_label: String,
    pub file_encoding: String,
    pub version: i32,
    pub is64bit: i32,
    pub creation_time: String,
    pub modified_time: String,
    pub compression: ReadStatCompress,
    pub endianness: ReadStatEndian,
}

} // verus!
