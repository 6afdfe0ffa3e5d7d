//! Metadata attribute bits of the ECMA-335 tables, as IL2CPP uses them.

use vstd::prelude::*;

verus! {

pub const METHOD_ATTRIBUTE_MEMBER_ACCESS_MASK: u32 = 0x0007;
pub const METHOD_ATTRIBUTE_COMPILER_CONTROLLED: u32 = 0x0000;
pub const METHOD_ATTRIBUTE_PRIVATE: u32 = 0x0001;
pub const METHOD_ATTRIBUTE_FAM_AND_ASSEM: u32 = 0x0002;
pub const METHOD_ATTRIBUTE_ASSEM: u32 = 0x0003;
pub const METHOD_ATTRIBUTE_FAMILY: u32 = 0x0004;
pub const METHOD_ATTRIBUTE_FAM_OR_ASSEM: u32 = 0x0005;
pub const METHOD_ATTRIBUTE_PUBLIC: u32 = 0x0006;
pub const METHOD_ATTRIBUTE_STATIC: u32 = 0x0010;
pub const METHOD_ATTRIBUTE_FINAL: u32 = 0x0020;
pub const METHOD_ATTRIBUTE_VIRTUAL: u32 = 0x0040;
pub const METHOD_ATTRIBUTE_HIDE_BY_SIG: u32 = 0x0080;
pub const METHOD_ATTRIBUTE_VTABLE_LAYOUT_MASK: u32 = 0x0100;
pub const METHOD_ATTRIBUTE_REUSE_SLOT: u32 = 0x0000;
pub const METHOD_ATTRIBUTE_NEW_SLOT: u32 = 0x0100;
pub const METHOD_ATTRIBUTE_ABSTRACT: u32 = 0x0400;
pub const METHOD_ATTRIBUTE_PINVOKE_IMPL: u32 = 0x2000;

pub const FIELD_ATTRIBUTE_FIELD_ACCESS_MASK: u32 = 0x0007;
pub const FIELD_ATTRIBUTE_COMPILER_CONTROLLED: u32 = 0x0000;
pub const FIELD_ATTRIBUTE_PRIVATE: u32 = 0x0001;
pub const FIELD_ATTRIBUTE_FAM_AND_ASSEM: u32 = 0x0002;
pub const FIELD_ATTRIBUTE_ASSEMBLY: u32 = 0x0003;
pub const FIELD_ATTRIBUTE_FAMILY: u32 = 0x0004;
pub const FIELD_ATTRIBUTE_FAM_OR_ASSEM: u32 = 0x0005;
pub const FIELD_ATTRIBUTE_PUBLIC: u32 = 0x0006;
pub const FIELD_ATTRIBUTE_STATIC: u32 = 0x0010;
pub const FIELD_ATTRIBUTE_INIT_ONLY: u32 = 0x0020;
pub const FIELD_ATTRIBUTE_LITERAL: u32 = 0x0040;

pub const TYPE_ATTRIBUTE_VISIBILITY_MASK: u32 = 0x0000_0007;
pub const TYPE_ATTRIBUTE_NOT_PUBLIC: u32 = 0x0000_0000;
pub const TYPE_ATTRIBUTE_PUBLIC: u32 = 0x0000_0001;
pub const TYPE_ATTRIBUTE_NESTED_PUBLIC: u32 = 0x0000_0002;
pub const TYPE_ATTRIBUTE_NESTED_PRIVATE: u32 = 0x0000_0003;
pub const TYPE_ATTRIBUTE_NESTED_FAMILY: u32 = 0x0000_0004;
pub const TYPE_ATTRIBUTE_NESTED_ASSEMBLY: u32 = 0x0000_0005;
pub const TYPE_ATTRIBUTE_NESTED_FAM_AND_ASSEM: u32 = 0x0000_0006;
pub const TYPE_ATTRIBUTE_NESTED_FAM_OR_ASSEM: u32 = 0x0000_0007;
pub const TYPE_ATTRIBUTE_INTERFACE: u32 = 0x0000_0020;
pub const TYPE_ATTRIBUTE_ABSTRACT: u32 = 0x0000_0080;
pub const TYPE_ATTRIBUTE_SEALED: u32 = 0x0000_0100;
pub const TYPE_ATTRIBUTE_SERIALIZABLE: u32 = 0x0000_2000;

pub const PARAM_ATTRIBUTE_IN: u32 = 0x0001;
pub const PARAM_ATTRIBUTE_OUT: u32 = 0x0002;

/// The type-enum tag of `System.Object` (`IL2CPP_TYPE_OBJECT`).
pub const IL2CPP_TYPE_OBJECT: u8 = 0x1c;

} // verus!
