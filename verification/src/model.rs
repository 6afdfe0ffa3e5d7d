//! What the dump reads from the runtime, held as plain values.
//!
//! A pointer that the runtime may hand back as null is an `Option` here, and a
//! C string is a `String` (empty where the runtime gave none or gave bytes
//! that are not UTF-8).

use vstd::prelude::*;

verus! {

/// One parameter of a method.
#[derive(Debug)]
pub struct ParamInfo {
    /// The parameter's attribute bits (`PARAM_ATTRIBUTE_*`).
    pub attrs: u16,
    /// Whether the parameter's type is passed by reference.
    pub byref: bool,
    /// The name of the parameter's type.
    pub type_label: String,
    /// The parameter's name.
    pub name: String,
}

/// One method of a class.
#[derive(Debug)]
pub struct MethodInfo {
    /// The address of the method's code; 0 where it has none.
    pub address: u64,
    /// The method's attribute bits (`METHOD_ATTRIBUTE_*`).
    pub flags: u32,
    /// Whether the return type is a reference.
    pub return_byref: bool,
    /// The name of the return type.
    pub return_type_label: String,
    /// The method's name.
    pub name: String,
    /// The parameters that could be read, in order.
    pub params: Vec<ParamInfo>,
}

/// One property of a class.
#[derive(Debug)]
pub struct PropertyInfo {
    /// Whether the property has a getter.
    pub has_getter: bool,
    /// Whether the property has a setter.
    pub has_setter: bool,
    /// The attribute bits of the accessor that `render::property_accessor` picks
    /// (read as 0 where the property has neither).
    pub accessor_flags: u32,
    /// The name of the property's type, read through the accessor that
    /// `render::property_accessor` picks (the getter's return type, the setter's
    /// first parameter), where it could be resolved.
    pub type_label: Option<String>,
    /// The property's name, where the runtime gave one.
    pub name: Option<String>,
}

/// One field of a class.
#[derive(Debug)]
pub struct FieldInfo {
    /// The field's attribute bits (`FIELD_ATTRIBUTE_*`).
    pub attrs: u32,
    /// The name of the field's type.
    pub type_label: String,
    /// The field's name.
    pub name: String,
    /// The constant's value, read for the literal fields of an enum (0 otherwise).
    pub constant_value: u64,
    /// The field's offset in an instance.
    pub offset: usize,
}

/// The base class of a class.
#[derive(Debug)]
pub struct ParentInfo {
    /// The type-enum tag of the base class's type, where it could be read.
    pub type_tag: Option<u8>,
    /// The base class's name (read only where `render::shows_base` says it is
    /// shown; empty otherwise).
    pub name: String,
}

/// One class, with its members.
#[derive(Debug)]
pub struct ClassInfo {
    /// The class's namespace.
    pub namespace: String,
    /// The class's attribute bits (`TYPE_ATTRIBUTE_*`).
    pub flags: u32,
    /// Whether the class is a value type.
    pub is_valuetype: bool,
    /// Whether the class is an enum.
    pub is_enum: bool,
    /// The class's name.
    pub name: String,
    /// The base class, where there is one.
    pub parent: Option<ParentInfo>,
    /// The names of the interfaces the class implements, in order.
    pub interfaces: Vec<String>,
    /// The fields, in order.
    pub fields: Vec<FieldInfo>,
    /// The properties, in order.
    pub properties: Vec<PropertyInfo>,
    /// The methods, in order.
    pub methods: Vec<MethodInfo>,
}

/// One loaded image (assembly) and its classes.
#[derive(Debug)]
pub struct ImageInfo {
    /// The image's name.
    pub name: String,
    /// The classes of the image whose type could be resolved, in order.
    pub classes: Vec<ClassInfo>,
}

} // verus!
