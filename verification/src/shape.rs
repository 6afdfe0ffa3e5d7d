//! What each piece of the dump is made of, stated over the inputs: the words and
//! numbers it shows and the order in which the pieces follow one another.

use vstd::prelude::*;
use crate::laws::{has_members, law_type_shown_iff_members};
use crate::model::{ClassInfo, FieldInfo, MethodInfo, ParamInfo, ParentInfo, PropertyInfo};
use crate::render::{
    comma_joined, extends_text, field_access_text, field_lines, field_text, fields_text,
    image_text, method_entries, method_text, methods_text, modifier_text, param_text, params_text,
    properties_text, property_lines, property_text, type_body_text, type_text,
};
use crate::tabledefs as td;
use crate::text::{decimal_text, hex_text};

verus! {

/// Whether `t` occurs in `s` as a contiguous piece.
pub open spec fn occurs_in(t: Seq<char>, s: Seq<char>) -> bool {
    exists|pre: Seq<char>, post: Seq<char>| #![trigger pre + t + post] s == pre + t + post
}

proof fn lemma_prefix(pre: Seq<char>, rest: Seq<char>)
    ensures
        pre.is_prefix_of(pre + rest),
{
    assert((pre + rest).subrange(0, pre.len() as int) =~= pre);
}

proof fn lemma_suffix(rest: Seq<char>, post: Seq<char>)
    ensures
        post.is_suffix_of(rest + post),
{
    assert((rest + post).subrange(rest.len() as int, (rest + post).len() as int) =~= post);
}

proof fn lemma_occurs(pre: Seq<char>, t: Seq<char>, post: Seq<char>)
    ensures
        occurs_in(t, pre + t + post),
{
    assert(pre + t + post == pre + t + post);
}

// ---------------------------------------------------------------- the dump

/// Adding a class to an image adds its block at the end of the image's text: the
/// line `// Dll : <image name>` and the type's text where the class has a field, a
/// property or a method, nothing otherwise. So an image with k classes that have
/// members gives k blocks, in class order.
pub proof fn law_image_text_appends_class(name: Seq<char>, cs: Seq<ClassInfo>, c: ClassInfo)
    ensures
        image_text(name, Seq::empty()) == Seq::<char>::empty(),
        image_text(name, cs.push(c)) == image_text(name, cs) + if has_members(c) {
            "\n// Dll : "@ + name + type_text(c)
        } else {
            Seq::empty()
        },
{
    law_type_shown_iff_members(c);
    assert(cs.push(c).drop_last() =~= cs);
}

// ---------------------------------------------------------------- types

proof fn lemma_first_name_leads(ns: Seq<Seq<char>>)
    requires
        ns.len() > 0,
    ensures
        ns[0].is_prefix_of(comma_joined(ns)),
    decreases ns.len(),
{
    if ns.len() == 1 {
        lemma_prefix(ns[0], Seq::empty());
        assert(ns[0] + Seq::<char>::empty() =~= ns[0]);
    } else {
        let rest = ns.drop_last();
        lemma_first_name_leads(rest);
        assert(rest[0] == ns[0]);
        let j = comma_joined(rest);
        assert(comma_joined(ns) == j + ", "@ + ns.last());
        assert((j + ", "@ + ns.last()).subrange(0, ns[0].len() as int) =~= j.subrange(
            0,
            ns[0].len() as int,
        ));
    }
}

/// A class (neither a value type nor an enum) whose base class is known and is not
/// `System.Object` names that base right after its own name, `<name> : <base>`,
/// whatever interfaces it implements, wherever it is shown at all.
pub proof fn law_base_class_named(c: ClassInfo, p: ParentInfo, tag: u8)
    requires
        !c.is_valuetype,
        !c.is_enum,
        c.parent == Some(p),
        p.type_tag == Some(tag),
        tag != td::IL2CPP_TYPE_OBJECT,
        has_members(c),
    ensures
        occurs_in(c.name@ + " : "@ + p.name@, type_text(c)),
{
    law_type_shown_iff_members(c);
    let ifaces = c.interfaces@.map_values(|i: String| i@);
    let names = seq![p.name@] + ifaces;
    assert(names[0] == p.name@);
    lemma_first_name_leads(names);
    let joined = comma_joined(names);
    let r = joined.subrange(p.name@.len() as int, joined.len() as int);
    assert(joined =~= p.name@ + r);
    let t = type_text(c);
    let pre = t.subrange(0, 0);
    let head_start = "\n// Namespace: "@ + c.namespace@ + "\n"@ + (if c.flags
        & td::TYPE_ATTRIBUTE_SERIALIZABLE != 0 {
        "[Serializable]\n"@
    } else {
        Seq::empty()
    }) + crate::render::type_visibility_text(c.flags) + crate::render::type_modifier_text(c)
        + crate::render::type_kind_text(c);
    assert(extends_text(names) == " : "@ + joined);
    let post = r + "\n{"@ + type_body_text(c) + "}\n"@;
    assert(t =~= head_start + (c.name@ + " : "@ + p.name@) + post);
    lemma_occurs(head_start, c.name@ + " : "@ + p.name@, post);
}

// ---------------------------------------------------------------- methods

/// A method's entry opens with a comment that gives its full code address in
/// hexadecimal twice, `\t// RVA: 0x<address> VA: 0x<address>` (see
/// `law_hex_text_is_exact` for what the digits are), or `\t// RVA: 0x VA: 0x0` for
/// a method without code, then the method's keywords (those `modifier` gives for
/// its bits).
pub proof fn law_method_entry_opens_with_address(m: MethodInfo)
    ensures
        m.address != 0 ==> ("\t// RVA: 0x"@ + hex_text(m.address as nat) + " VA: 0x"@ + hex_text(
            m.address as nat,
        ) + "\n\t"@ + modifier_text(m.flags)).is_prefix_of(method_text(m)),
        m.address == 0 ==> ("\t// RVA: 0x VA: 0x0\n\t"@ + modifier_text(m.flags)).is_prefix_of(
            method_text(m),
        ),
{
    let rest = (if m.return_byref {
        "ref "@
    } else {
        Seq::<char>::empty()
    }) + m.return_type_label@ + " "@ + m.name@ + "("@ + params_text(m.params@) + ") { }\n"@;
    if m.address != 0 {
        let pre = "\t// RVA: 0x"@ + hex_text(m.address as nat) + " VA: 0x"@ + hex_text(
            m.address as nat,
        ) + "\n\t"@ + modifier_text(m.flags);
        assert(method_text(m) =~= pre + rest);
        lemma_prefix(pre, rest);
    } else {
        let pre = "\t// RVA: 0x VA: 0x0\n\t"@ + modifier_text(m.flags);
        assert(method_text(m) =~= pre + rest);
        lemma_prefix(pre, rest);
    }
}

// ---------------------------------------------------------------- fields

/// A field's line is `\t<access>` then, for a literal field, `const `, and
/// otherwise `static ` exactly when the static bit is set and `readonly ` exactly
/// when the init-only bit is set, each on its own, then `<type> <name>`; it ends
/// with the offset in hexadecimal, `; // 0x<offset>\n`, with ` = <value>` in
/// decimal before it for a literal field of an enum.
pub proof fn law_field_line_shape(f: FieldInfo, is_enum: bool)
    ensures
        ("\t"@ + field_access_text(f.attrs) + (if f.attrs & td::FIELD_ATTRIBUTE_LITERAL != 0 {
            "const "@
        } else {
            (if f.attrs & td::FIELD_ATTRIBUTE_STATIC != 0 {
                "static "@
            } else {
                Seq::empty()
            }) + (if f.attrs & td::FIELD_ATTRIBUTE_INIT_ONLY != 0 {
                "readonly "@
            } else {
                Seq::empty()
            })
        }) + f.type_label@ + " "@ + f.name@).is_prefix_of(field_text(f, is_enum)),
        ((if f.attrs & td::FIELD_ATTRIBUTE_LITERAL != 0 && is_enum {
            " = "@ + decimal_text(f.constant_value as nat)
        } else {
            Seq::empty()
        }) + "; // 0x"@ + hex_text(f.offset as nat) + "\n"@).is_suffix_of(field_text(f, is_enum)),
{
    let pre = "\t"@ + field_access_text(f.attrs) + (if f.attrs & td::FIELD_ATTRIBUTE_LITERAL != 0 {
        "const "@
    } else {
        (if f.attrs & td::FIELD_ATTRIBUTE_STATIC != 0 {
            "static "@
        } else {
            Seq::empty()
        }) + (if f.attrs & td::FIELD_ATTRIBUTE_INIT_ONLY != 0 {
            "readonly "@
        } else {
            Seq::empty()
        })
    }) + f.type_label@ + " "@ + f.name@;
    let post = (if f.attrs & td::FIELD_ATTRIBUTE_LITERAL != 0 && is_enum {
        " = "@ + decimal_text(f.constant_value as nat)
    } else {
        Seq::empty()
    }) + "; // 0x"@ + hex_text(f.offset as nat) + "\n"@;
    assert(field_text(f, is_enum) =~= pre + post);
    lemma_prefix(pre, post);
    lemma_suffix(pre, post);
}

// ---------------------------------------------------------------- properties

/// A property with a getter or a setter opens with the same keywords as a method
/// with its accessor's bits (`\t` then what `modifier` gives for them, static,
/// virtual, override and abstract included); one with neither opens with the tab
/// alone, followed directly by its type or by ` // unknown property`.
pub proof fn law_property_keywords(p: PropertyInfo)
    ensures
        (p.has_getter || p.has_setter) ==> ("\t"@ + modifier_text(p.accessor_flags)).is_prefix_of(
            property_text(p),
        ),
        !(p.has_getter || p.has_setter) ==> match p.type_label {
            Some(t) => ("\t"@ + t@ + " "@).is_prefix_of(property_text(p)),
            None => match p.name {
                Some(n) => property_text(p) == "\t // unknown property "@ + n@ + "\n"@,
                None => property_text(p) == "\t"@,
            },
        },
{
    let tail = match p.type_label {
        Some(t) => t@ + " "@ + crate::render::property_name_text(p) + " { "@ + (if p.has_getter {
            "get; "@
        } else {
            Seq::empty()
        }) + (if p.has_setter {
            "set; "@
        } else {
            Seq::empty()
        }) + "}\n"@,
        None => match p.name {
            Some(n) => " // unknown property "@ + n@ + "\n"@,
            None => Seq::empty(),
        },
    };
    if p.has_getter || p.has_setter {
        let pre = "\t"@ + modifier_text(p.accessor_flags);
        assert(property_text(p) =~= pre + tail);
        lemma_prefix(pre, tail);
    } else {
        assert(property_text(p) =~= "\t"@ + tail);
        match p.type_label {
            Some(t) => {
                let rest = crate::render::property_name_text(p) + " { "@ + (if p.has_getter {
                    "get; "@
                } else {
                    Seq::empty()
                }) + (if p.has_setter {
                    "set; "@
                } else {
                    Seq::empty()
                }) + "}\n"@;
                assert(property_text(p) =~= ("\t"@ + t@ + " "@) + rest);
                lemma_prefix("\t"@ + t@ + " "@, rest);
            },
            None => {
                match p.name {
                    Some(n) => {
                        assert(property_text(p) =~= "\t // unknown property "@ + n@ + "\n"@) by {
                            reveal_strlit("\t");
                            reveal_strlit(" // unknown property ");
                            reveal_strlit("\t // unknown property ");
                        }
                    },
                    None => {
                        assert(property_text(p) =~= "\t"@);
                    },
                }
            },
        }
    }
}

// ---------------------------------------------------------------- sections

/// Adding a field adds its line at the end of the field section, after the
/// heading `\n\t// Fields\n` for the first field.
pub proof fn law_fields_append(fs: Seq<FieldInfo>, f: FieldInfo, is_enum: bool)
    ensures
        fields_text(Seq::empty(), is_enum) == Seq::<char>::empty(),
        fields_text(fs.push(f), is_enum) == (if fs.len() == 0 {
            "\n\t// Fields\n"@
        } else {
            fields_text(fs, is_enum)
        }) + field_text(f, is_enum),
{
    assert(fs.push(f).drop_last() =~= fs);
    assert(field_lines(fs.push(f), is_enum) == field_lines(fs, is_enum) + field_text(f, is_enum));
    if fs.len() == 0 {
        assert(field_lines(fs, is_enum) == Seq::<char>::empty());
    }
}

/// Adding a property adds its line at the end of the property section, after the
/// heading `\n\t// Properties\n` for the first property.
pub proof fn law_properties_append(ps: Seq<PropertyInfo>, p: PropertyInfo)
    ensures
        properties_text(Seq::empty()) == Seq::<char>::empty(),
        properties_text(ps.push(p)) == (if ps.len() == 0 {
            "\n\t// Properties\n"@
        } else {
            properties_text(ps)
        }) + property_text(p),
{
    assert(ps.push(p).drop_last() =~= ps);
    assert(property_lines(ps.push(p)) == property_lines(ps) + property_text(p));
    if ps.len() == 0 {
        assert(property_lines(ps) == Seq::<char>::empty());
    }
}

/// Adding a method adds its entry at the end of the method section: after the
/// heading `\n\t// Methods\n` for the first method, after an empty line otherwise.
pub proof fn law_methods_append(ms: Seq<MethodInfo>, m: MethodInfo)
    ensures
        methods_text(Seq::empty()) == Seq::<char>::empty(),
        methods_text(ms.push(m)) == (if ms.len() == 0 {
            "\n\t// Methods\n"@
        } else {
            methods_text(ms) + "\n"@
        }) + method_text(m),
{
    assert(ms.push(m).drop_last() =~= ms);
    if ms.len() == 0 {
        assert(method_entries(ms.push(m)) == method_text(ms.push(m)[0]));
    } else {
        assert(method_entries(ms.push(m)) == method_entries(ms) + "\n"@ + method_text(m));
    }
}

/// A method's parameters are listed in order, separated by `, `: adding a
/// parameter adds `, ` (unless it is the first) and its text at the end.
pub proof fn law_params_append(ps: Seq<ParamInfo>, p: ParamInfo)
    ensures
        params_text(Seq::empty()) == Seq::<char>::empty(),
        params_text(ps.push(p)) == (if ps.len() == 0 {
            Seq::empty()
        } else {
            params_text(ps) + ", "@
        }) + param_text(p),
{
    assert(ps.push(p).drop_last() =~= ps);
    if ps.len() == 0 {
        assert(params_text(ps.push(p)) == param_text(ps.push(p)[0]));
    }
}

/// A parameter is written `<direction><type> <name>`, its name whole: the direction
/// of one passed by reference is `out ` (out bit only), `in ` (in bit only) or
/// `ref `; one passed by value carries `[In] ` and `[Out] ` as its bits say.
pub proof fn law_param_shape(p: ParamInfo)
    ensures
        param_text(p) == (if p.byref {
            if p.attrs as u32 & td::PARAM_ATTRIBUTE_OUT != 0 && p.attrs as u32
                & td::PARAM_ATTRIBUTE_IN == 0 {
                "out "@
            } else if p.attrs as u32 & td::PARAM_ATTRIBUTE_IN != 0 && p.attrs as u32
                & td::PARAM_ATTRIBUTE_OUT == 0 {
                "in "@
            } else {
                "ref "@
            }
        } else {
            (if p.attrs as u32 & td::PARAM_ATTRIBUTE_IN != 0 {
                "[In] "@
            } else {
                Seq::empty()
            }) + (if p.attrs as u32 & td::PARAM_ATTRIBUTE_OUT != 0 {
                "[Out] "@
            } else {
                Seq::empty()
            })
        }) + p.type_label@ + " "@ + p.name@,
{
}

/// A method's entry ends with its return type, name and parameters:
/// `[ref ]<return type> <name>(<parameters>) { }\n`.
pub proof fn law_method_entry_closes_with_signature(m: MethodInfo)
    ensures
        ((if m.return_byref {
            "ref "@
        } else {
            Seq::empty()
        }) + m.return_type_label@ + " "@ + m.name@ + "("@ + params_text(m.params@)
            + ") { }\n"@).is_suffix_of(method_text(m)),
{
    let pre = crate::render::address_text(m.address) + modifier_text(m.flags);
    let post = (if m.return_byref {
        "ref "@
    } else {
        Seq::<char>::empty()
    }) + m.return_type_label@ + " "@ + m.name@ + "("@ + params_text(m.params@) + ") { }\n"@;
    assert(method_text(m) =~= pre + post);
    lemma_suffix(pre, post);
}

// ---------------------------------------------------------------- type declarations

/// The names separated by `, ` grow at the end: one name is itself, and adding a
/// name to a non-empty list adds `, <name>`.
pub proof fn law_comma_joined_append(ns: Seq<Seq<char>>, n: Seq<char>)
    ensures
        comma_joined(Seq::empty()) == Seq::<char>::empty(),
        comma_joined(ns.push(n)) == if ns.len() == 0 {
            n
        } else {
            comma_joined(ns) + ", "@ + n
        },
{
    assert(ns.push(n).drop_last() =~= ns);
}

/// The text of a class with members is the namespace comment, the declaration
/// line and the member sections in braces:
/// `\n// Namespace: <ns>\n[[Serializable]\n]<visibility><modifier><kind><name>[ : <names>]\n{<fields><properties><methods>}\n`,
/// where the visibility comes from the visibility bits, the modifier is `static`
/// (abstract and sealed), `abstract` (abstract, not an interface) or `sealed`
/// (sealed class), the kind is `interface`, `enum`, `struct` or `class`, and the
/// names are the base class (a class whose base is known and is not
/// `System.Object`) and then the interfaces, in order.
#[verifier::rlimit(50)]
pub proof fn law_type_text_shape(c: ClassInfo)
    requires
        has_members(c),
    ensures
        type_text(c) == "\n// Namespace: "@ + c.namespace@ + "\n"@ + (if c.flags
            & td::TYPE_ATTRIBUTE_SERIALIZABLE != 0 {
            "[Serializable]\n"@
        } else {
            Seq::empty()
        }) + ({
            let v = c.flags & td::TYPE_ATTRIBUTE_VISIBILITY_MASK;
            if v == 1 || v == 2 {
                "public "@
            } else if v == 0 || v == 5 || v == 6 {
                "internal "@
            } else if v == 3 {
                "private "@
            } else if v == 4 {
                "protected "@
            } else {
                "protected internal "@
            }
        }) + (if c.flags & td::TYPE_ATTRIBUTE_ABSTRACT != 0 && c.flags
            & td::TYPE_ATTRIBUTE_SEALED != 0 {
            "static "@
        } else if c.flags & td::TYPE_ATTRIBUTE_INTERFACE == 0 && c.flags
            & td::TYPE_ATTRIBUTE_ABSTRACT != 0 {
            "abstract "@
        } else if !c.is_valuetype && !c.is_enum && c.flags & td::TYPE_ATTRIBUTE_SEALED != 0 {
            "sealed "@
        } else {
            Seq::empty()
        }) + (if c.flags & td::TYPE_ATTRIBUTE_INTERFACE != 0 {
            "interface "@
        } else if c.is_enum {
            "enum "@
        } else if c.is_valuetype {
            "struct "@
        } else {
            "class "@
        }) + c.name@ + ({
            let names = (if !c.is_valuetype && !c.is_enum && c.parent is Some
                && c.parent.unwrap().type_tag is Some && c.parent.unwrap().type_tag.unwrap()
                != td::IL2CPP_TYPE_OBJECT {
                seq![c.parent.unwrap().name@]
            } else {
                Seq::empty()
            }) + c.interfaces@.map_values(|i: String| i@);
            if names.len() == 0 {
                Seq::empty()
            } else {
                " : "@ + comma_joined(names)
            }
        }) + "\n{"@ + fields_text(c.fields@, c.is_enum) + properties_text(c.properties@)
            + methods_text(c.methods@) + "}\n"@,
{
    law_type_shown_iff_members(c);
    let flags = c.flags;
    let v = flags & td::TYPE_ATTRIBUTE_VISIBILITY_MASK;
    assert(v < 8) by (bit_vector)
        requires
            v == flags & 7u32,
    ;
    assert(type_body_text(c) == fields_text(c.fields@, c.is_enum) + properties_text(c.properties@)
        + methods_text(c.methods@));
    assert(crate::render::type_visibility_text(flags) == {
        if v == 1 || v == 2 {
            "public "@
        } else if v == 0 || v == 5 || v == 6 {
            "internal "@
        } else if v == 3 {
            "private "@
        } else if v == 4 {
            "protected "@
        } else {
            "protected internal "@
        }
    });
    assert(crate::render::extends_names(c) == (if !c.is_valuetype && !c.is_enum && c.parent is Some
        && c.parent.unwrap().type_tag is Some && c.parent.unwrap().type_tag.unwrap()
        != td::IL2CPP_TYPE_OBJECT {
        seq![c.parent.unwrap().name@]
    } else {
        Seq::empty()
    }) + c.interfaces@.map_values(|i: String| i@));
}

// ---------------------------------------------------------------- keywords

/// The access keyword of member-access bits `a` (0 to 7).
pub open spec fn access_word(a: u32) -> Seq<char> {
    if a == 1 {
        "private "@
    } else if a == 2 || a == 3 {
        "internal "@
    } else if a == 4 {
        "protected "@
    } else if a == 5 {
        "protected internal "@
    } else if a == 6 {
        "public "@
    } else {
        Seq::empty()
    }
}

/// A method's keywords open with its access keyword: setting access bits `a` on
/// attribute bits without any puts the keyword of `a` in front of the rest.
pub proof fn law_modifier_access_first(flags: u32, a: u32)
    requires
        flags & 7 == 0,
        a < 8,
    ensures
        modifier_text(flags | a) == access_word(a) + modifier_text(flags),
{
    let g = flags | a;
    assert(g & 7 == a && g & 0x10 == flags & 0x10 && g & 0x20 == flags & 0x20 && g & 0x40
        == flags & 0x40 && g & 0x100 == flags & 0x100 && g & 0x400 == flags & 0x400 && g
        & 0x2000 == flags & 0x2000) by (bit_vector)
        requires
            g == flags | a,
            flags & 7 == 0,
            a < 8,
    ;
    assert(modifier_text(g) =~= access_word(a) + modifier_text(flags));
}

/// Setting the static bit puts `static ` right after the access keyword and
/// changes nothing else.
pub proof fn law_modifier_static(flags: u32)
    requires
        flags & 0x10 == 0,
    ensures
        modifier_text(flags | 0x10) == crate::render::method_access_text(flags) + "static "@
            + modifier_text(flags).subrange(
            crate::render::method_access_text(flags).len() as int,
            modifier_text(flags).len() as int,
        ),
{
    let g = flags | 0x10;
    assert(g & 7 == flags & 7 && g & 0x10 == 0x10 && g & 0x20 == flags & 0x20 && g & 0x40
        == flags & 0x40 && g & 0x100 == flags & 0x100 && g & 0x400 == flags & 0x400 && g
        & 0x2000 == flags & 0x2000) by (bit_vector)
        requires
            g == flags | 0x10,
            flags & 0x10 == 0,
    ;
    assert(modifier_text(g) =~= crate::render::method_access_text(flags) + "static "@
        + modifier_text(flags).subrange(
        crate::render::method_access_text(flags).len() as int,
        modifier_text(flags).len() as int,
    ));
}

/// Setting the pinvoke bit adds `extern ` at the end and changes nothing else.
pub proof fn law_modifier_extern(flags: u32)
    requires
        flags & 0x2000 == 0,
    ensures
        modifier_text(flags | 0x2000) == modifier_text(flags) + "extern "@,
{
    let g = flags | 0x2000;
    assert(g & 7 == flags & 7 && g & 0x10 == flags & 0x10 && g & 0x20 == flags & 0x20 && g
        & 0x40 == flags & 0x40 && g & 0x100 == flags & 0x100 && g & 0x400 == flags & 0x400 && g
        & 0x2000 == 0x2000) by (bit_vector)
        requires
            g == flags | 0x2000,
            flags & 0x2000 == 0,
    ;
    assert(modifier_text(g) =~= modifier_text(flags) + "extern "@);
}

/// The inheritance keywords of a method without access, static or pinvoke bits:
/// an abstract method is `abstract`, and `abstract override` where it reuses its
/// slot; else a final method that reuses its slot is `sealed override`; else a
/// virtual method is `virtual` with a new slot and `override` otherwise; anything
/// else has none.
pub proof fn law_modifier_inheritance(flags: u32)
    requires
        flags & 0x2017 == 0,
    ensures
        modifier_text(flags) == if flags & 0x400 != 0 {
            if flags & 0x100 == 0 {
                "abstract override "@
            } else {
                "abstract "@
            }
        } else if flags & 0x20 != 0 {
            if flags & 0x100 == 0 {
                "sealed override "@
            } else {
                Seq::empty()
            }
        } else if flags & 0x40 != 0 {
            if flags & 0x100 != 0 {
                "virtual "@
            } else {
                "override "@
            }
        } else {
            Seq::empty()
        },
{
    assert(flags & 7 == 0 && flags & 0x10 == 0 && flags & 0x2000 == 0) by (bit_vector)
        requires
            flags & 0x2017 == 0,
    ;
    reveal_strlit("abstract ");
    reveal_strlit("override ");
    reveal_strlit("abstract override ");
    assert("abstract "@ + "override "@ =~= "abstract override "@);
    assert(crate::render::method_access_text(flags) == Seq::<char>::empty());
    assert(modifier_text(flags) =~= crate::render::method_slot_text(flags));
    if flags & 0x400 != 0 {
        if flags & 0x100 == 0 {
            assert(crate::render::method_slot_text(flags) == "abstract "@ + "override "@);
        } else {
            assert(crate::render::method_slot_text(flags) =~= "abstract "@);
        }
    } else if flags & 0x20 != 0 {
        assert(crate::render::method_slot_text(flags) == if flags & 0x100 == 0 {
            "sealed override "@
        } else {
            Seq::<char>::empty()
        });
    } else if flags & 0x40 != 0 {
        assert((flags & 0x100 != 0) == (flags & 0x100 == 0x100)) by (bit_vector);
        assert(crate::render::method_slot_text(flags) == if flags & 0x100 != 0 {
            "virtual "@
        } else {
            "override "@
        });
    } else {
        assert(crate::render::method_slot_text(flags) == Seq::<char>::empty());
    }
}

/// A field's access keyword is that of its access bits.
pub proof fn law_field_access_word(attrs: u32)
    ensures
        field_access_text(attrs) == access_word(attrs & 7),
{
}

/// A property whose type is known is written
/// `\t<keywords><type> <name> { [get; ][set; ]}\n`, with `get; ` exactly when it
/// has a getter and `set; ` exactly when it has a setter; one whose type is not
/// known but whose name is, `\t<keywords> // unknown property <name>\n`.
pub proof fn law_property_line_shape(p: PropertyInfo)
    ensures
        p.type_label is Some ==> property_text(p) == "\t"@ + (if p.has_getter || p.has_setter {
            modifier_text(p.accessor_flags)
        } else {
            Seq::empty()
        }) + p.type_label.unwrap()@ + " "@ + (match p.name {
            Some(n) => n@,
            None => Seq::empty(),
        }) + " { "@ + (if p.has_getter {
            "get; "@
        } else {
            Seq::empty()
        }) + (if p.has_setter {
            "set; "@
        } else {
            Seq::empty()
        }) + "}\n"@,
        p.type_label is None && p.name is Some ==> property_text(p) == "\t"@ + (if p.has_getter
            || p.has_setter {
            modifier_text(p.accessor_flags)
        } else {
            Seq::empty()
        }) + " // unknown property "@ + p.name.unwrap()@ + "\n"@,
{
}

/// The dump of a single image is that image's text.
pub proof fn law_dump_of_one_image(image: crate::model::ImageInfo)
    ensures
        crate::render::dump_text(seq![image]) == image_text(image.name@, image.classes@),
{
    assert(seq![image].drop_last() =~= Seq::<crate::model::ImageInfo>::empty());
    assert(crate::render::dump_text(Seq::<crate::model::ImageInfo>::empty()) == Seq::<char>::empty());
    assert(Seq::<char>::empty() + image_text(image.name@, image.classes@) =~= image_text(
        image.name@,
        image.classes@,
    ));
}

/// A property's keywords and type are read through its getter whenever it has
/// one, through its setter only when it has no getter, and through neither when it
/// has no accessor.
pub proof fn law_getter_before_setter(has_setter: bool)
    ensures
        crate::render::accessor_of(true, has_setter) == Some(crate::render::Accessor::Getter),
        crate::render::accessor_of(false, true) == Some(crate::render::Accessor::Setter),
        crate::render::accessor_of(false, false) is None,
{
}

} // verus!
