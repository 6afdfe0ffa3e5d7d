//! The text of the dump: declarations in C# syntax built from the model.

use vstd::prelude::*;
use crate::model::{ClassInfo, FieldInfo, ImageInfo, MethodInfo, ParamInfo, PropertyInfo};
use crate::tabledefs as td;
use crate::text::{append_decimal, append_hex, decimal_text, hex_text};

verus! {

/// The access keyword of a method, from the member-access bits.
pub open spec fn method_access_text(flags: u32) -> Seq<char> {
    let access = flags & td::METHOD_ATTRIBUTE_MEMBER_ACCESS_MASK;
    if access == td::METHOD_ATTRIBUTE_PRIVATE {
        "private "@
    } else if access == td::METHOD_ATTRIBUTE_PUBLIC {
        "public "@
    } else if access == td::METHOD_ATTRIBUTE_FAMILY {
        "protected "@
    } else if access == td::METHOD_ATTRIBUTE_ASSEM || access == td::METHOD_ATTRIBUTE_FAM_AND_ASSEM {
        "internal "@
    } else if access == td::METHOD_ATTRIBUTE_FAM_OR_ASSEM {
        "protected internal "@
    } else {
        Seq::empty()
    }
}

/// Whether the method takes over the slot of the method it overrides.
pub open spec fn reuses_slot(flags: u32) -> bool {
    flags & td::METHOD_ATTRIBUTE_VTABLE_LAYOUT_MASK == td::METHOD_ATTRIBUTE_REUSE_SLOT
}

/// The inheritance keywords of a method: abstract, sealed, virtual, override.
pub open spec fn method_slot_text(flags: u32) -> Seq<char> {
    if flags & td::METHOD_ATTRIBUTE_ABSTRACT != 0 {
        "abstract "@ + if reuses_slot(flags) {
            "override "@
        } else {
            Seq::empty()
        }
    } else if flags & td::METHOD_ATTRIBUTE_FINAL != 0 {
        if reuses_slot(flags) {
            "sealed override "@
        } else {
            Seq::empty()
        }
    } else if flags & td::METHOD_ATTRIBUTE_VIRTUAL != 0 {
        if flags & td::METHOD_ATTRIBUTE_VTABLE_LAYOUT_MASK == td::METHOD_ATTRIBUTE_NEW_SLOT {
            "virtual "@
        } else {
            "override "@
        }
    } else {
        Seq::empty()
    }
}

/// The keywords that stand before a method's return type, each followed by a space:
/// access, `static`, the inheritance keywords and `extern`.
pub open spec fn modifier_text(flags: u32) -> Seq<char> {
    method_access_text(flags) + (if flags & td::METHOD_ATTRIBUTE_STATIC != 0 {
        "static "@
    } else {
        Seq::empty()
    }) + method_slot_text(flags) + (if flags & td::METHOD_ATTRIBUTE_PINVOKE_IMPL != 0 {
        "extern "@
    } else {
        Seq::empty()
    })
}

/// The keywords of a method with the attribute bits `flags`.
pub fn modifier(flags: u32) -> (s: String)
    ensures
        s@ == modifier_text(flags),
{
    let mut s = String::new();
    let access: u32 = flags & td::METHOD_ATTRIBUTE_MEMBER_ACCESS_MASK;
    if access == td::METHOD_ATTRIBUTE_PRIVATE {
        s.append("private ");
    } else if access == td::METHOD_ATTRIBUTE_PUBLIC {
        s.append("public ");
    } else if access == td::METHOD_ATTRIBUTE_FAMILY {
        s.append("protected ");
    } else if access == td::METHOD_ATTRIBUTE_ASSEM || access == td::METHOD_ATTRIBUTE_FAM_AND_ASSEM {
        s.append("internal ");
    } else if access == td::METHOD_ATTRIBUTE_FAM_OR_ASSEM {
        s.append("protected internal ");
    }
    if flags & td::METHOD_ATTRIBUTE_STATIC != 0 {
        s.append("static ");
    }
    if flags & td::METHOD_ATTRIBUTE_ABSTRACT != 0 {
        s.append("abstract ");
        if (flags & td::METHOD_ATTRIBUTE_VTABLE_LAYOUT_MASK) == td::METHOD_ATTRIBUTE_REUSE_SLOT {
            s.append("override ");
        }
    } else if flags & td::METHOD_ATTRIBUTE_FINAL != 0 {
        if (flags & td::METHOD_ATTRIBUTE_VTABLE_LAYOUT_MASK) == td::METHOD_ATTRIBUTE_REUSE_SLOT {
            s.append("sealed override ");
        }
    } else if flags & td::METHOD_ATTRIBUTE_VIRTUAL != 0 {
        if (flags & td::METHOD_ATTRIBUTE_VTABLE_LAYOUT_MASK) == td::METHOD_ATTRIBUTE_NEW_SLOT {
            s.append("virtual ");
        } else {
            s.append("override ");
        }
    }
    if flags & td::METHOD_ATTRIBUTE_PINVOKE_IMPL != 0 {
        s.append("extern ");
    }
    s
}

// ---------------------------------------------------------------- fields

/// The access keyword of a field, from the field-access bits.
pub open spec fn field_access_text(attrs: u32) -> Seq<char> {
    let access = attrs & td::FIELD_ATTRIBUTE_FIELD_ACCESS_MASK;
    if access == td::FIELD_ATTRIBUTE_PRIVATE {
        "private "@
    } else if access == td::FIELD_ATTRIBUTE_PUBLIC {
        "public "@
    } else if access == td::FIELD_ATTRIBUTE_FAMILY {
        "protected "@
    } else if access == td::FIELD_ATTRIBUTE_ASSEMBLY || access == td::FIELD_ATTRIBUTE_FAM_AND_ASSEM {
        "internal "@
    } else if access == td::FIELD_ATTRIBUTE_FAM_OR_ASSEM {
        "protected internal "@
    } else {
        Seq::empty()
    }
}

/// `const` for a literal field; otherwise `static` and `readonly` as the bits say.
pub open spec fn field_storage_text(attrs: u32) -> Seq<char> {
    if attrs & td::FIELD_ATTRIBUTE_LITERAL != 0 {
        "const "@
    } else {
        (if attrs & td::FIELD_ATTRIBUTE_STATIC != 0 {
            "static "@
        } else {
            Seq::empty()
        }) + (if attrs & td::FIELD_ATTRIBUTE_INIT_ONLY != 0 {
            "readonly "@
        } else {
            Seq::empty()
        })
    }
}

/// Whether the field's constant value is shown: a literal field of an enum.
pub open spec fn shows_value(f: FieldInfo, is_enum: bool) -> bool {
    f.attrs & td::FIELD_ATTRIBUTE_LITERAL != 0 && is_enum
}

/// The line of one field: `\t<access><storage><type> <name>[ = <value>]; // 0x<offset>\n`.
pub open spec fn field_text(f: FieldInfo, is_enum: bool) -> Seq<char> {
    "\t"@ + field_access_text(f.attrs) + field_storage_text(f.attrs) + f.type_label@ + " "@
        + f.name@ + (if shows_value(f, is_enum) {
        " = "@ + decimal_text(f.constant_value as nat)
    } else {
        Seq::empty()
    }) + "; // 0x"@ + hex_text(f.offset as nat) + "\n"@
}

/// The lines of the fields, one after another.
pub open spec fn field_lines(fs: Seq<FieldInfo>, is_enum: bool) -> Seq<char>
    decreases fs.len(),
{
    if fs.len() == 0 {
        Seq::empty()
    } else {
        field_lines(fs.drop_last(), is_enum) + field_text(fs.last(), is_enum)
    }
}

/// The field section of a class: nothing without fields, else a heading and the lines.
pub open spec fn fields_text(fs: Seq<FieldInfo>, is_enum: bool) -> Seq<char> {
    if fs.len() == 0 {
        Seq::empty()
    } else {
        "\n\t// Fields\n"@ + field_lines(fs, is_enum)
    }
}

fn field_line(f: &FieldInfo, is_enum: bool) -> (out: String)
    ensures
        out@ == field_text(*f, is_enum),
{
    let mut out = String::new();
    out.append("\t");
    let attrs: u32 = f.attrs;
    let access: u32 = attrs & td::FIELD_ATTRIBUTE_FIELD_ACCESS_MASK;
    if access == td::FIELD_ATTRIBUTE_PRIVATE {
        out.append("private ");
    } else if access == td::FIELD_ATTRIBUTE_PUBLIC {
        out.append("public ");
    } else if access == td::FIELD_ATTRIBUTE_FAMILY {
        out.append("protected ");
    } else if access == td::FIELD_ATTRIBUTE_ASSEMBLY || access == td::FIELD_ATTRIBUTE_FAM_AND_ASSEM {
        out.append("internal ");
    } else if access == td::FIELD_ATTRIBUTE_FAM_OR_ASSEM {
        out.append("protected internal ");
    }
    if attrs & td::FIELD_ATTRIBUTE_LITERAL != 0 {
        out.append("const ");
    } else {
        if attrs & td::FIELD_ATTRIBUTE_STATIC != 0 {
            out.append("static ");
        }
        if attrs & td::FIELD_ATTRIBUTE_INIT_ONLY != 0 {
            out.append("readonly ");
        }
    }
    out.append(f.type_label.as_str());
    out.append(" ");
    out.append(f.name.as_str());
    if attrs & td::FIELD_ATTRIBUTE_LITERAL != 0 && is_enum {
        out.append(" = ");
        append_decimal(&mut out, f.constant_value);
    }
    out.append("; // 0x");
    append_hex(&mut out, f.offset as u64);
    out.append("\n");
    out
}

/// The field section of a class whose fields are `fields`; `is_enum` tells
/// whether the class is an enum, whose constants are shown with their values.
pub fn dump_field(fields: &Vec<FieldInfo>, is_enum: bool) -> (out: String)
    ensures
        out@ == fields_text(fields@, is_enum),
{
    let mut out = String::new();
    let mut i: usize = 0;
    while i < fields.len()
        invariant
            i <= fields.len(),
            out@ == fields_text(fields@.take(i as int), is_enum),
        decreases fields.len() - i,
    {
        if i == 0 {
            out.append("\n\t// Fields\n");
        }
        let line = field_line(&fields[i], is_enum);
        out.append(line.as_str());
        proof {
            let prev = fields@.take(i as int);
            let next = fields@.take(i + 1);
            assert(next.drop_last() =~= prev);
            assert(field_lines(next, is_enum) == field_lines(prev, is_enum) + field_text(
                fields@[i as int],
                is_enum,
            ));
            assert(out@ =~= fields_text(next, is_enum));
        }
        i = i + 1;
    }
    assert(fields@.take(fields.len() as int) =~= fields@);
    out
}

// ---------------------------------------------------------------- properties

/// One of the two accessors of a property.
#[derive(Debug)]
pub enum Accessor {
    Getter,
    Setter,
}

/// The accessor through which a property's keywords and type are read: its
/// getter, else its setter; none where it has neither.
pub open spec fn accessor_of(has_getter: bool, has_setter: bool) -> Option<Accessor> {
    if has_getter {
        Some(Accessor::Getter)
    } else if has_setter {
        Some(Accessor::Setter)
    } else {
        None
    }
}

/// Picks the accessor through which a property's keywords and type are read.
pub fn property_accessor(has_getter: bool, has_setter: bool) -> (a: Option<Accessor>)
    ensures
        a == accessor_of(has_getter, has_setter),
{
    if has_getter {
        Some(Accessor::Getter)
    } else if has_setter {
        Some(Accessor::Setter)
    } else {
        None
    }
}

/// The keywords of a property: those of the accessor it is read through, nothing
/// where it has no accessor.
pub open spec fn property_modifier_text(p: PropertyInfo) -> Seq<char> {
    if accessor_of(p.has_getter, p.has_setter) is Some {
        modifier_text(p.accessor_flags)
    } else {
        Seq::empty()
    }
}

/// The property's name, or nothing where the runtime gave none.
pub open spec fn property_name_text(p: PropertyInfo) -> Seq<char> {
    match p.name {
        Some(n) => n@,
        None => Seq::empty(),
    }
}

/// The line of one property: `\t<keywords><type> <name> { get; set; }\n` where its
/// type is known, `\t<keywords> // unknown property <name>\n` where only its name
/// is, and a lone tab where neither is.
pub open spec fn property_text(p: PropertyInfo) -> Seq<char> {
    "\t"@ + property_modifier_text(p) + match p.type_label {
        Some(t) => t@ + " "@ + property_name_text(p) + " { "@ + (if p.has_getter {
            "get; "@
        } else {
            Seq::empty()
        }) + (if p.has_setter {
            "set; "@
        } else {
            Seq::empty()
        }) + "}\n"@,
        None => match p.name {
            Some(n) => " // unknown property "@ + n@ + "\n"@,
            None => Seq::empty(),
        },
    }
}

/// The lines of the properties, one after another.
pub open spec fn property_lines(ps: Seq<PropertyInfo>) -> Seq<char>
    decreases ps.len(),
{
    if ps.len() == 0 {
        Seq::empty()
    } else {
        property_lines(ps.drop_last()) + property_text(ps.last())
    }
}

/// The property section of a class: nothing without properties, else a heading
/// and the lines.
pub open spec fn properties_text(ps: Seq<PropertyInfo>) -> Seq<char> {
    if ps.len() == 0 {
        Seq::empty()
    } else {
        "\n\t// Properties\n"@ + property_lines(ps)
    }
}

fn property_line(p: &PropertyInfo) -> (out: String)
    ensures
        out@ == property_text(*p),
{
    let mut out = String::new();
    out.append("\t");
    if property_accessor(p.has_getter, p.has_setter).is_some() {
        let m = modifier(p.accessor_flags);
        out.append(m.as_str());
    }
    match &p.type_label {
        Some(t) => {
            out.append(t.as_str());
            out.append(" ");
            match &p.name {
                Some(n) => out.append(n.as_str()),
                None => {},
            }
            out.append(" { ");
            if p.has_getter {
                out.append("get; ");
            }
            if p.has_setter {
                out.append("set; ");
            }
            out.append("}\n");
        },
        None => match &p.name {
            Some(n) => {
                out.append(" // unknown property ");
                out.append(n.as_str());
                out.append("\n");
            },
            None => {},
        },
    }
    out
}

/// The property section of a class whose properties are `properties`.
pub fn dump_property(properties: &Vec<PropertyInfo>) -> (out: String)
    ensures
        out@ == properties_text(properties@),
{
    let mut out = String::new();
    let mut i: usize = 0;
    while i < properties.len()
        invariant
            i <= properties.len(),
            out@ == properties_text(properties@.take(i as int)),
        decreases properties.len() - i,
    {
        if i == 0 {
            out.append("\n\t// Properties\n");
        }
        let line = property_line(&properties[i]);
        out.append(line.as_str());
        proof {
            let prev = properties@.take(i as int);
            let next = properties@.take(i + 1);
            assert(next.drop_last() =~= prev);
            assert(property_lines(next) == property_lines(prev) + property_text(
                properties@[i as int],
            ));
            assert(out@ =~= properties_text(next));
        }
        i = i + 1;
    }
    assert(properties@.take(properties.len() as int) =~= properties@);
    out
}

// ---------------------------------------------------------------- methods

/// The comment with the method's code address that opens its entry.
pub open spec fn address_text(address: u64) -> Seq<char> {
    if address != 0 {
        "\t// RVA: 0x"@ + hex_text(address as nat) + " VA: 0x"@ + hex_text(address as nat)
            + "\n\t"@
    } else {
        "\t// RVA: 0x VA: 0x0\n\t"@
    }
}

/// The direction of a parameter: `out`, `in` or `ref` for one passed by reference,
/// else the `[In]` and `[Out]` attributes its bits carry.
pub open spec fn param_prefix_text(p: ParamInfo) -> Seq<char> {
    let is_in = p.attrs as u32 & td::PARAM_ATTRIBUTE_IN != 0;
    let is_out = p.attrs as u32 & td::PARAM_ATTRIBUTE_OUT != 0;
    if p.byref {
        if is_out && !is_in {
            "out "@
        } else if is_in && !is_out {
            "in "@
        } else {
            "ref "@
        }
    } else {
        (if is_in {
            "[In] "@
        } else {
            Seq::empty()
        }) + (if is_out {
            "[Out] "@
        } else {
            Seq::empty()
        })
    }
}

/// One parameter as written: `<direction><type> <name>`.
pub open spec fn param_text(p: ParamInfo) -> Seq<char> {
    param_prefix_text(p) + p.type_label@ + " "@ + p.name@
}

/// The parameters, separated by `, `.
pub open spec fn params_text(ps: Seq<ParamInfo>) -> Seq<char>
    decreases ps.len(),
{
    if ps.len() == 0 {
        Seq::empty()
    } else if ps.len() == 1 {
        param_text(ps[0])
    } else {
        params_text(ps.drop_last()) + ", "@ + param_text(ps.last())
    }
}

/// A method's entry up to the end of its parameters.
pub open spec fn method_head_text(m: MethodInfo) -> Seq<char> {
    address_text(m.address) + modifier_text(m.flags) + (if m.return_byref {
        "ref "@
    } else {
        Seq::empty()
    }) + m.return_type_label@ + " "@ + m.name@ + "("@ + params_text(m.params@)
}

/// A method's entry: `<address comment><keywords>[ref ]<return type> <name>(<parameters>) { }`
/// and a new line.
pub open spec fn method_text(m: MethodInfo) -> Seq<char> {
    method_head_text(m) + ") { }\n"@
}

/// The entries of the methods, separated by empty lines.
pub open spec fn method_entries(ms: Seq<MethodInfo>) -> Seq<char>
    decreases ms.len(),
{
    if ms.len() == 0 {
        Seq::empty()
    } else if ms.len() == 1 {
        method_text(ms[0])
    } else {
        method_entries(ms.drop_last()) + "\n"@ + method_text(ms.last())
    }
}

/// The method section of a class: nothing without methods, else a heading and the entries.
pub open spec fn methods_text(ms: Seq<MethodInfo>) -> Seq<char> {
    if ms.len() == 0 {
        Seq::empty()
    } else {
        "\n\t// Methods\n"@ + method_entries(ms)
    }
}

fn param_entry(p: &ParamInfo) -> (out: String)
    ensures
        out@ == param_text(*p),
{
    let mut out = String::new();
    let attrs: u32 = p.attrs as u32;
    if p.byref {
        if attrs & td::PARAM_ATTRIBUTE_OUT != 0 && attrs & td::PARAM_ATTRIBUTE_IN == 0 {
            out.append("out ");
        } else if attrs & td::PARAM_ATTRIBUTE_IN != 0 && attrs & td::PARAM_ATTRIBUTE_OUT == 0 {
            out.append("in ");
        } else {
            out.append("ref ");
        }
    } else {
        if attrs & td::PARAM_ATTRIBUTE_IN != 0 {
            out.append("[In] ");
        }
        if attrs & td::PARAM_ATTRIBUTE_OUT != 0 {
            out.append("[Out] ");
        }
    }
    out.append(p.type_label.as_str());
    out.append(" ");
    out.append(p.name.as_str());
    out
}

fn method_entry(m: &MethodInfo) -> (out: String)
    ensures
        out@ == method_text(*m),
{
    let mut out = String::new();
    if m.address != 0 {
        out.append("\t// RVA: 0x");
        append_hex(&mut out, m.address);
        out.append(" VA: 0x");
        append_hex(&mut out, m.address);
        out.append("\n\t");
    } else {
        out.append("\t// RVA: 0x VA: 0x0\n\t");
    }
    let keywords = modifier(m.flags);
    out.append(keywords.as_str());
    if m.return_byref {
        out.append("ref ");
    }
    out.append(m.return_type_label.as_str());
    out.append(" ");
    out.append(m.name.as_str());
    out.append("(");
    let ghost start = out@;
    let mut i: usize = 0;
    while i < m.params.len()
        invariant
            i <= m.params.len(),
            out@ == start + params_text(m.params@.take(i as int)),
        decreases m.params.len() - i,
    {
        if i > 0 {
            out.append(", ");
        }
        let entry = param_entry(&m.params[i]);
        out.append(entry.as_str());
        proof {
            let prev = m.params@.take(i as int);
            let next = m.params@.take(i + 1);
            assert(next.drop_last() =~= prev);
            if i == 0 {
                assert(params_text(next) == param_text(m.params@[0]));
            } else {
                assert(params_text(next) == params_text(prev) + ", "@ + param_text(
                    m.params@[i as int],
                ));
            }
            assert(out@ =~= start + params_text(next));
        }
        i = i + 1;
    }
    assert(m.params@.take(m.params.len() as int) =~= m.params@);
    assert(out@ =~= method_head_text(*m));
    out.append(") { }\n");
    out
}

/// The method section of a class whose methods are `methods`.
pub fn dump_method(methods: &Vec<MethodInfo>) -> (out: String)
    ensures
        out@ == methods_text(methods@),
{
    let mut out = String::new();
    let mut i: usize = 0;
    while i < methods.len()
        invariant
            i <= methods.len(),
            out@ == methods_text(methods@.take(i as int)),
        decreases methods.len() - i,
    {
        if i == 0 {
            out.append("\n\t// Methods\n");
        } else {
            out.append("\n");
        }
        let entry = method_entry(&methods[i]);
        out.append(entry.as_str());
        proof {
            let prev = methods@.take(i as int);
            let next = methods@.take(i + 1);
            assert(next.drop_last() =~= prev);
            if i == 0 {
                assert(method_entries(next) == method_text(methods@[0]));
            } else {
                assert(method_entries(next) == method_entries(prev) + "\n"@ + method_text(
                    methods@[i as int],
                ));
            }
            assert(out@ =~= methods_text(next));
        }
        i = i + 1;
    }
    assert(methods@.take(methods.len() as int) =~= methods@);
    out
}

// ---------------------------------------------------------------- types

/// The visibility keyword of a type, from the visibility bits.
pub open spec fn type_visibility_text(flags: u32) -> Seq<char> {
    let visibility = flags & td::TYPE_ATTRIBUTE_VISIBILITY_MASK;
    if visibility == td::TYPE_ATTRIBUTE_PUBLIC || visibility == td::TYPE_ATTRIBUTE_NESTED_PUBLIC {
        "public "@
    } else if visibility == td::TYPE_ATTRIBUTE_NOT_PUBLIC || visibility
        == td::TYPE_ATTRIBUTE_NESTED_FAM_AND_ASSEM || visibility
        == td::TYPE_ATTRIBUTE_NESTED_ASSEMBLY {
        "internal "@
    } else if visibility == td::TYPE_ATTRIBUTE_NESTED_PRIVATE {
        "private "@
    } else if visibility == td::TYPE_ATTRIBUTE_NESTED_FAMILY {
        "protected "@
    } else if visibility == td::TYPE_ATTRIBUTE_NESTED_FAM_OR_ASSEM {
        "protected internal "@
    } else {
        Seq::empty()
    }
}

/// `static` for an abstract sealed type, `abstract` for another abstract type that
/// is no interface, `sealed` for a sealed class.
pub open spec fn type_modifier_text(c: ClassInfo) -> Seq<char> {
    let flags = c.flags;
    if flags & td::TYPE_ATTRIBUTE_ABSTRACT != 0 && flags & td::TYPE_ATTRIBUTE_SEALED != 0 {
        "static "@
    } else if flags & td::TYPE_ATTRIBUTE_INTERFACE == 0 && flags & td::TYPE_ATTRIBUTE_ABSTRACT
        != 0 {
        "abstract "@
    } else if !c.is_valuetype && !c.is_enum && flags & td::TYPE_ATTRIBUTE_SEALED != 0 {
        "sealed "@
    } else {
        Seq::empty()
    }
}

/// The kind of a type: interface, enum, struct or class.
pub open spec fn type_kind_text(c: ClassInfo) -> Seq<char> {
    if c.flags & td::TYPE_ATTRIBUTE_INTERFACE != 0 {
        "interface "@
    } else if c.is_enum {
        "enum "@
    } else if c.is_valuetype {
        "struct "@
    } else {
        "class "@
    }
}

/// Whether a base class with the type tag `type_tag` is named after a type: the
/// type is a class (no value type, no enum) and the base class's type is known and
/// is not `System.Object`.
pub open spec fn base_shown(is_valuetype: bool, is_enum: bool, type_tag: Option<u8>) -> bool {
    &&& !is_valuetype
    &&& !is_enum
    &&& type_tag matches Some(tag)
    &&& tag != td::IL2CPP_TYPE_OBJECT
}

/// Whether the base class of `c` is named after it.
pub open spec fn parent_shown(c: ClassInfo) -> bool {
    &&& c.parent matches Some(p)
    &&& base_shown(c.is_valuetype, c.is_enum, p.type_tag)
}

/// Decides whether a base class with the type tag `type_tag` is named after a
/// type, so that its name need only be read where it is.
pub fn shows_base(is_valuetype: bool, is_enum: bool, type_tag: Option<u8>) -> (b: bool)
    ensures
        b == base_shown(is_valuetype, is_enum, type_tag),
{
    if is_valuetype || is_enum {
        return false;
    }
    match type_tag {
        Some(tag) => tag != td::IL2CPP_TYPE_OBJECT,
        None => false,
    }
}

/// The names after the colon: the base class where it is shown, then the interfaces.
pub open spec fn extends_names(c: ClassInfo) -> Seq<Seq<char>> {
    (if parent_shown(c) {
        seq![c.parent.unwrap().name@]
    } else {
        Seq::empty()
    }) + c.interfaces@.map_values(|i: String| i@)
}

/// The names separated by `, `.
pub open spec fn comma_joined(ns: Seq<Seq<char>>) -> Seq<char>
    decreases ns.len(),
{
    if ns.len() == 0 {
        Seq::empty()
    } else if ns.len() == 1 {
        ns[0]
    } else {
        comma_joined(ns.drop_last()) + ", "@ + ns.last()
    }
}

/// ` : ` and the names, or nothing without names.
pub open spec fn extends_text(ns: Seq<Seq<char>>) -> Seq<char> {
    if ns.len() == 0 {
        Seq::empty()
    } else {
        " : "@ + comma_joined(ns)
    }
}

/// The declaration line of a type, after its namespace comment.
pub open spec fn type_head_text(c: ClassInfo) -> Seq<char> {
    "\n// Namespace: "@ + c.namespace@ + "\n"@ + (if c.flags & td::TYPE_ATTRIBUTE_SERIALIZABLE
        != 0 {
        "[Serializable]\n"@
    } else {
        Seq::empty()
    }) + type_visibility_text(c.flags) + type_modifier_text(c) + type_kind_text(c) + c.name@
        + extends_text(extends_names(c))
}

/// The member sections of a type: fields, properties, methods.
pub open spec fn type_body_text(c: ClassInfo) -> Seq<char> {
    fields_text(c.fields@, c.is_enum) + properties_text(c.properties@) + methods_text(
        c.methods@,
    )
}

/// The text of a type: nothing where all its member sections are empty, else the
/// head, then `{`, the sections and `}` each on a line.
pub open spec fn type_text(c: ClassInfo) -> Seq<char> {
    if type_body_text(c).len() == 0 {
        Seq::empty()
    } else {
        type_head_text(c) + "\n{"@ + type_body_text(c) + "}\n"@
    }
}

fn show_parent(c: &ClassInfo) -> (b: bool)
    ensures
        b == parent_shown(*c),
{
    match &c.parent {
        Some(p) => shows_base(c.is_valuetype, c.is_enum, p.type_tag),
        None => false,
    }
}

proof fn lemma_extends_push(ns: Seq<Seq<char>>, n: Seq<char>)
    ensures
        extends_text(ns.push(n)) == if ns.len() == 0 {
            " : "@ + n
        } else {
            extends_text(ns) + ", "@ + n
        },
{
    let next = ns.push(n);
    assert(next.drop_last() =~= ns);
    if ns.len() == 0 {
        assert(comma_joined(next) == n);
    } else {
        assert(comma_joined(next) == comma_joined(ns) + ", "@ + n);
        assert(extends_text(next) =~= extends_text(ns) + ", "@ + n);
    }
}

/// The text of the type `c`, or nothing where it has no members to show.
#[verifier::rlimit(40)]
pub fn dump_type(c: &ClassInfo) -> (out: String)
    ensures
        out@ == type_text(*c),
{
    let mut out = String::new();
    out.append("\n// Namespace: ");
    out.append(c.namespace.as_str());
    out.append("\n");
    let flags: u32 = c.flags;
    if flags & td::TYPE_ATTRIBUTE_SERIALIZABLE != 0 {
        out.append("[Serializable]\n");
    }
    let visibility: u32 = flags & td::TYPE_ATTRIBUTE_VISIBILITY_MASK;
    if visibility == td::TYPE_ATTRIBUTE_PUBLIC || visibility == td::TYPE_ATTRIBUTE_NESTED_PUBLIC {
        out.append("public ");
    } else if visibility == td::TYPE_ATTRIBUTE_NOT_PUBLIC || visibility
        == td::TYPE_ATTRIBUTE_NESTED_FAM_AND_ASSEM || visibility
        == td::TYPE_ATTRIBUTE_NESTED_ASSEMBLY {
        out.append("internal ");
    } else if visibility == td::TYPE_ATTRIBUTE_NESTED_PRIVATE {
        out.append("private ");
    } else if visibility == td::TYPE_ATTRIBUTE_NESTED_FAMILY {
        out.append("protected ");
    } else if visibility == td::TYPE_ATTRIBUTE_NESTED_FAM_OR_ASSEM {
        out.append("protected internal ");
    }
    if flags & td::TYPE_ATTRIBUTE_ABSTRACT != 0 && flags & td::TYPE_ATTRIBUTE_SEALED != 0 {
        out.append("static ");
    } else if (flags & td::TYPE_ATTRIBUTE_INTERFACE) == 0 && flags & td::TYPE_ATTRIBUTE_ABSTRACT
        != 0 {
        out.append("abstract ");
    } else if !c.is_valuetype && !c.is_enum && flags & td::TYPE_ATTRIBUTE_SEALED != 0 {
        out.append("sealed ");
    }
    if flags & td::TYPE_ATTRIBUTE_INTERFACE != 0 {
        out.append("interface ");
    } else if c.is_enum {
        out.append("enum ");
    } else if c.is_valuetype {
        out.append("struct ");
    } else {
        out.append("class ");
    }
    out.append(c.name.as_str());
    let ghost start = out@;
    let ghost first_names: Seq<Seq<char>> = if parent_shown(*c) {
        seq![c.parent.unwrap().name@]
    } else {
        Seq::empty()
    };
    let ghost interfaces = c.interfaces@.map_values(|i: String| i@);
    let mut any = false;
    if show_parent(c) {
        match &c.parent {
            Some(p) => {
                out.append(" : ");
                out.append(p.name.as_str());
                any = true;
                proof {
                    lemma_extends_push(Seq::empty(), p.name@);
                    assert(first_names =~= Seq::<Seq<char>>::empty().push(p.name@));
                }
            },
            None => {},
        }
    }
    assert(first_names + interfaces.take(0) =~= first_names);
    let mut j: usize = 0;
    while j < c.interfaces.len()
        invariant
            j <= c.interfaces.len(),
            interfaces == c.interfaces@.map_values(|i: String| i@),
            any == ((first_names + interfaces.take(j as int)).len() > 0),
            out@ == start + extends_text(first_names + interfaces.take(j as int)),
        decreases c.interfaces.len() - j,
    {
        let ghost prev = first_names + interfaces.take(j as int);
        if any {
            out.append(", ");
        } else {
            out.append(" : ");
        }
        out.append(c.interfaces[j].as_str());
        any = true;
        proof {
            assert(first_names + interfaces.take(j + 1) =~= prev.push(c.interfaces@[j as int]@));
            lemma_extends_push(prev, c.interfaces@[j as int]@);
        }
        j = j + 1;
    }
    assert(interfaces.take(c.interfaces.len() as int) =~= interfaces);
    assert(out@ =~= type_head_text(*c));
    let fd = dump_field(&c.fields, c.is_enum);
    let pd = dump_property(&c.properties);
    let md = dump_method(&c.methods);
    if fd.as_str().is_empty() && pd.as_str().is_empty() && md.as_str().is_empty() {
        return String::new();
    }
    out.append("\n{");
    out.append(fd.as_str());
    out.append(pd.as_str());
    out.append(md.as_str());
    out.append("}\n");
    out
}

// ---------------------------------------------------------------- the dump

/// The block of one class: the image's line and the type's text, or nothing
/// where the type shows nothing.
pub open spec fn class_block(image_name: Seq<char>, c: ClassInfo) -> Seq<char> {
    if type_text(c).len() == 0 {
        Seq::empty()
    } else {
        "\n// Dll : "@ + image_name + type_text(c)
    }
}

/// The blocks of the classes of one image, one after another.
pub open spec fn image_text(image_name: Seq<char>, cs: Seq<ClassInfo>) -> Seq<char>
    decreases cs.len(),
{
    if cs.len() == 0 {
        Seq::empty()
    } else {
        image_text(image_name, cs.drop_last()) + class_block(image_name, cs.last())
    }
}

/// The whole dump: the blocks of the images, one after another.
pub open spec fn dump_text(images: Seq<ImageInfo>) -> Seq<char>
    decreases images.len(),
{
    if images.len() == 0 {
        Seq::empty()
    } else {
        dump_text(images.drop_last()) + image_text(images.last().name@, images.last().classes@)
    }
}

fn dump_image(image: &ImageInfo) -> (out: String)
    ensures
        out@ == image_text(image.name@, image.classes@),
{
    let mut header = String::new();
    header.append("\n// Dll : ");
    header.append(image.name.as_str());
    let mut out = String::new();
    let mut j: usize = 0;
    while j < image.classes.len()
        invariant
            j <= image.classes.len(),
            header@ == "\n// Dll : "@ + image.name@,
            out@ == image_text(image.name@, image.classes@.take(j as int)),
        decreases image.classes.len() - j,
    {
        let dt = dump_type(&image.classes[j]);
        if !dt.as_str().is_empty() {
            out.append(header.as_str());
            out.append(dt.as_str());
        }
        proof {
            let prev = image.classes@.take(j as int);
            let next = image.classes@.take(j + 1);
            assert(next.drop_last() =~= prev);
            assert(image_text(image.name@, next) == image_text(image.name@, prev) + class_block(
                image.name@,
                image.classes@[j as int],
            ));
            assert(out@ =~= image_text(image.name@, next));
        }
        j = j + 1;
    }
    assert(image.classes@.take(image.classes.len() as int) =~= image.classes@);
    out
}

/// The text of the dump file for the loaded images `images`.
pub fn dump_content(images: &Vec<ImageInfo>) -> (content: String)
    ensures
        content@ == dump_text(images@),
{
    let mut content = String::new();
    let mut i: usize = 0;
    while i < images.len()
        invariant
            i <= images.len(),
            content@ == dump_text(images@.take(i as int)),
        decreases images.len() - i,
    {
        let part = dump_image(&images[i]);
        content.append(part.as_str());
        proof {
            let prev = images@.take(i as int);
            let next = images@.take(i + 1);
            assert(next.drop_last() =~= prev);
            assert(dump_text(next) == dump_text(prev) + image_text(
                images@[i as int].name@,
                images@[i as int].classes@,
            ));
            assert(content@ =~= dump_text(next));
        }
        i = i + 1;
    }
    assert(images@.take(images.len() as int) =~= images@);
    content
}

} // verus!
