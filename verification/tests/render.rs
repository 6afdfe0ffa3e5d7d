use il2cpp::model::{ClassInfo, FieldInfo, ImageInfo, MethodInfo, ParamInfo, ParentInfo, PropertyInfo};
use il2cpp::render::{
    dump_content, dump_field, dump_method, dump_property, dump_type, modifier, property_accessor,
    shows_base, Accessor,
};
use il2cpp::runtime::{byref_check, cstr, is_byref};

fn s(x: &str) -> String {
    x.to_string()
}

fn param(attrs: u16, byref: bool, ty: &str, name: &str) -> ParamInfo {
    ParamInfo { attrs, byref, type_label: s(ty), name: s(name) }
}

fn method(address: u64, flags: u32, ret: &str, name: &str, params: Vec<ParamInfo>) -> MethodInfo {
    MethodInfo {
        address,
        flags,
        return_byref: false,
        return_type_label: s(ret),
        name: s(name),
        params,
    }
}

fn field(attrs: u32, ty: &str, name: &str, value: u64, offset: usize) -> FieldInfo {
    FieldInfo { attrs, type_label: s(ty), name: s(name), constant_value: value, offset }
}

fn class(name: &str, flags: u32) -> ClassInfo {
    ClassInfo {
        namespace: s("Game"),
        flags,
        is_valuetype: false,
        is_enum: false,
        name: s(name),
        parent: None,
        interfaces: Vec::new(),
        fields: Vec::new(),
        properties: Vec::new(),
        methods: Vec::new(),
    }
}

// ------------------------------------------------------------ modifier

#[test]
fn modifier_access_words() {
    assert_eq!(modifier(0x0000), "");
    assert_eq!(modifier(0x0001), "private ");
    assert_eq!(modifier(0x0002), "internal ");
    assert_eq!(modifier(0x0003), "internal ");
    assert_eq!(modifier(0x0004), "protected ");
    assert_eq!(modifier(0x0005), "protected internal ");
    assert_eq!(modifier(0x0006), "public ");
    assert_eq!(modifier(0x0007), "");
}

#[test]
fn modifier_inheritance_words() {
    assert_eq!(modifier(0x0016), "public static ");
    assert_eq!(modifier(0x0446), "public abstract override ");
    assert_eq!(modifier(0x0546), "public abstract ");
    assert_eq!(modifier(0x0066), "public sealed override ");
    assert_eq!(modifier(0x0166), "public ");
    assert_eq!(modifier(0x0146), "public virtual ");
    assert_eq!(modifier(0x0046), "public override ");
    assert_eq!(modifier(0x2011), "private static extern ");
}

#[test]
fn modifier_ignores_other_bits() {
    for f in [0x0016u32, 0x0446, 0x0066, 0x0146, 0x2011, 0x0005] {
        assert_eq!(modifier(f), modifier(f | 0x0080 | 0x0800 | 0x1000 | 0x8000));
        assert_eq!(modifier(f | 0xffff_0000), modifier(f & 0x2577));
    }
}

#[test]
fn modifier_ends_in_space() {
    for f in 0u32..0x4000 {
        let m = modifier(f);
        assert!(m.is_empty() || m.ends_with(' '));
    }
}

// ------------------------------------------------------------ fields

#[test]
fn field_lines_with_offsets_in_hex() {
    let fields = vec![
        field(0x0036, "Int32", "count", 0, 0x10),
        field(0x0001, "String", "name", 0, 0x1a8),
    ];
    assert_eq!(
        dump_field(&fields, false),
        "\n\t// Fields\n\tpublic static readonly Int32 count; // 0x10\n\tprivate String name; // 0x1a8\n"
    );
}

#[test]
fn field_constants_of_enums_show_their_value() {
    let fields = vec![
        field(0x0006, "Int32", "value__", 0, 0x10),
        field(0x0056, "Color", "Red", 2, 0),
        field(0x0056, "Color", "Max", u64::MAX, 0),
    ];
    assert_eq!(
        dump_field(&fields, true),
        "\n\t// Fields\n\tpublic Int32 value__; // 0x10\n\tpublic const Color Red = 2; // 0x0\n\tpublic const Color Max = 18446744073709551615; // 0x0\n"
    );
    assert_eq!(
        dump_field(&fields, false),
        "\n\t// Fields\n\tpublic Int32 value__; // 0x10\n\tpublic const Color Red; // 0x0\n\tpublic const Color Max; // 0x0\n"
    );
}

#[test]
fn field_without_access_and_large_offset() {
    let fields = vec![field(0x0024, "Int64", "x", 0, usize::MAX)];
    let expected = format!("\n\t// Fields\n\tprotected readonly Int64 x; // 0x{:x}\n", usize::MAX);
    assert_eq!(dump_field(&fields, false), expected);
    let fields = vec![field(0x0000, "Int64", "y", 0, 0xabcdef)];
    assert_eq!(dump_field(&fields, false), "\n\t// Fields\n\tInt64 y; // 0xabcdef\n");
}

#[test]
fn field_keywords_ignore_other_bits() {
    let a = vec![field(0x0036, "Int32", "c", 0, 8)];
    let b = vec![field(0x0036 | 0x0080 | 0x8000, "Int32", "c", 0, 8)];
    assert_eq!(dump_field(&a, false), dump_field(&b, false));
}

#[test]
fn no_fields_no_section() {
    assert_eq!(dump_field(&Vec::new(), true), "");
}

// ------------------------------------------------------------ properties

#[test]
fn property_lines() {
    let props = vec![
        PropertyInfo { has_getter: true, has_setter: false, accessor_flags: 0x0006, type_label: Some(s("Int32")), name: Some(s("Count")) },
        PropertyInfo { has_getter: true, has_setter: true, accessor_flags: 0x0886, type_label: Some(s("String")), name: Some(s("Name")) },
        PropertyInfo { has_getter: false, has_setter: true, accessor_flags: 0x0016, type_label: Some(s("Single")), name: Some(s("Speed")) },
        PropertyInfo { has_getter: false, has_setter: false, accessor_flags: 0, type_label: None, name: Some(s("Ghost")) },
        PropertyInfo { has_getter: true, has_setter: false, accessor_flags: 0x0006, type_label: None, name: None },
        PropertyInfo { has_getter: true, has_setter: false, accessor_flags: 0x0006, type_label: Some(s("Int32")), name: None },
    ];
    assert_eq!(
        dump_property(&props),
        "\n\t// Properties\n\
         \tpublic Int32 Count { get; }\n\
         \tpublic String Name { get; set; }\n\
         \tpublic static Single Speed { set; }\n\
         \t // unknown property Ghost\n\
         \tpublic \
         \tpublic Int32  { get; }\n"
    );
}

#[test]
fn no_properties_no_section() {
    assert_eq!(dump_property(&Vec::new()), "");
}

// ------------------------------------------------------------ methods

#[test]
fn method_without_parameters() {
    let ms = vec![method(0x1234, 0x0006, "Void", "Start", Vec::new())];
    assert_eq!(
        dump_method(&ms),
        "\n\t// Methods\n\t// RVA: 0x1234 VA: 0x1234\n\tpublic Void Start() { }\n"
    );
}

#[test]
fn method_without_address() {
    let ms = vec![method(0, 0x0001, "Int32", "Get", Vec::new())];
    assert_eq!(dump_method(&ms), "\n\t// Methods\n\t// RVA: 0x VA: 0x0\n\tprivate Int32 Get() { }\n");
}

#[test]
fn method_parameters_are_separated_by_commas() {
    let ms = vec![method(
        0xdead_beef,
        0x0086,
        "Void",
        "Move",
        vec![param(0, false, "Int32", "dx"), param(0, false, "Int32", "dy")],
    )];
    assert_eq!(
        dump_method(&ms),
        "\n\t// Methods\n\t// RVA: 0xdeadbeef VA: 0xdeadbeef\n\tpublic Void Move(Int32 dx, Int32 dy) { }\n"
    );
}

#[test]
fn method_parameter_directions() {
    let ms = vec![method(
        1,
        0x0000,
        "Boolean",
        "Try",
        vec![
            param(0x0002, true, "Int32", "a"),
            param(0x0001, true, "Int32", "b"),
            param(0x0003, true, "Int32", "c"),
            param(0x0000, true, "Int32", "d"),
            param(0x0003, false, "Int32", "e"),
            param(0x0001, false, "Int32", "f"),
            param(0x0002, false, "Int32", "gg"),
        ],
    )];
    assert_eq!(
        dump_method(&ms),
        "\n\t// Methods\n\t// RVA: 0x1 VA: 0x1\n\tBoolean Try(out Int32 a, in Int32 b, ref Int32 c, ref Int32 d, [In] [Out] Int32 e, [In] Int32 f, [Out] Int32 gg) { }\n"
    );
}

#[test]
fn method_with_one_parameter_and_reference_return() {
    let mut m = method(0x10, 0x0006, "Void", "Run", vec![param(0, false, "Int32", "x")]);
    m.return_byref = true;
    assert_eq!(
        dump_method(&vec![m]),
        "\n\t// Methods\n\t// RVA: 0x10 VA: 0x10\n\tpublic ref Void Run(Int32 x) { }\n"
    );
}

#[test]
fn methods_are_separated_by_empty_lines() {
    let ms = vec![
        method(0xa, 0x0006, "Void", "A", Vec::new()),
        method(0xb, 0x0001, "Void", "B", Vec::new()),
        method(0xc, 0x0004, "Void", "C", Vec::new()),
    ];
    assert_eq!(
        dump_method(&ms),
        "\n\t// Methods\n\t// RVA: 0xa VA: 0xa\n\tpublic Void A() { }\n\n\t// RVA: 0xb VA: 0xb\n\tprivate Void B() { }\n\n\t// RVA: 0xc VA: 0xc\n\tprotected Void C() { }\n"
    );
}

#[test]
fn no_methods_no_section() {
    assert_eq!(dump_method(&Vec::new()), "");
}

// ------------------------------------------------------------ types

#[test]
fn class_without_members_is_not_shown() {
    let mut c = class("Empty", 0x0001);
    c.interfaces.push(s("IFoo"));
    assert_eq!(dump_type(&c), "");
}

#[test]
fn sealed_class_with_base_and_interfaces() {
    let mut c = class("Player", 0x2101);
    c.parent = Some(ParentInfo { type_tag: Some(0x12), name: s("Base") });
    c.interfaces.push(s("IFoo"));
    c.interfaces.push(s("IBar"));
    c.fields.push(field(0x0001, "Int32", "hp", 0, 0x10));
    assert_eq!(
        dump_type(&c),
        "\n// Namespace: Game\n[Serializable]\npublic sealed class Player : Base, IFoo, IBar\n{\n\t// Fields\n\tprivate Int32 hp; // 0x10\n}\n"
    );
}

#[test]
fn object_base_is_not_named() {
    let mut c = class("Thing", 0x0000);
    c.parent = Some(ParentInfo { type_tag: Some(0x1c), name: s("Object") });
    c.interfaces.push(s("IFoo"));
    c.methods.push(method(0x20, 0x0006, "Void", "Go", Vec::new()));
    assert_eq!(
        dump_type(&c),
        "\n// Namespace: Game\ninternal class Thing : IFoo\n{\n\t// Methods\n\t// RVA: 0x20 VA: 0x20\n\tpublic Void Go() { }\n}\n"
    );
    c.parent = Some(ParentInfo { type_tag: None, name: s("Object") });
    assert!(dump_type(&c).contains("internal class Thing : IFoo\n"));
}

#[test]
fn struct_and_enum_and_interface_kinds() {
    let mut st = class("Vec3", 0x0109);
    st.is_valuetype = true;
    st.parent = Some(ParentInfo { type_tag: Some(0x12), name: s("ValueType") });
    st.fields.push(field(0x0006, "Single", "x", 0, 0x10));
    assert_eq!(
        dump_type(&st),
        "\n// Namespace: Game\npublic struct Vec3\n{\n\t// Fields\n\tpublic Single x; // 0x10\n}\n"
    );

    let mut en = class("Color", 0x0101);
    en.is_valuetype = true;
    en.is_enum = true;
    en.fields.push(field(0x8056, "Color", "Red", 1, 0));
    assert_eq!(
        dump_type(&en),
        "\n// Namespace: Game\npublic enum Color\n{\n\t// Fields\n\tpublic const Color Red = 1; // 0x0\n}\n"
    );

    let mut itf = class("IRun", 0x00a1);
    itf.methods.push(method(0, 0x05c6, "Void", "Run", Vec::new()));
    assert_eq!(
        dump_type(&itf),
        "\n// Namespace: Game\npublic interface IRun\n{\n\t// Methods\n\t// RVA: 0x VA: 0x0\n\tpublic abstract Void Run() { }\n}\n"
    );
}

#[test]
fn static_and_abstract_classes_and_nested_visibility() {
    let expect = |flags: u32, head: &str| {
        let mut c = class("K", flags);
        c.properties.push(PropertyInfo { has_getter: false, has_setter: false, accessor_flags: 0, type_label: None, name: None });
        assert_eq!(
            dump_type(&c),
            format!("\n// Namespace: Game\n{}K\n{{\n\t// Properties\n\t}}\n", head)
        );
    };
    expect(0x0181, "public static class ");
    expect(0x0080, "internal abstract class ");
    expect(0x0002, "public class ");
    expect(0x0003, "private class ");
    expect(0x0004, "protected class ");
    expect(0x0005, "internal class ");
    expect(0x0006, "internal class ");
    expect(0x0007, "protected internal class ");
}

// ------------------------------------------------------------ the whole dump

fn sample_images() -> Vec<ImageInfo> {
    let mut a = class("A", 0x0001);
    a.fields.push(field(0x0006, "Int32", "x", 0, 0x10));
    let b = class("B", 0x0001);
    let mut c = class("C", 0x0001);
    c.methods.push(method(0x40, 0x0006, "Void", "M", Vec::new()));
    vec![
        ImageInfo { name: s("Assembly-CSharp.dll"), classes: vec![a, b] },
        ImageInfo { name: s("Empty.dll"), classes: Vec::new() },
        ImageInfo { name: s("mscorlib.dll"), classes: vec![c] },
    ]
}

#[test]
fn dump_content_prefixes_each_class_with_its_image() {
    let content = dump_content(&sample_images());
    assert_eq!(
        content,
        "\n// Dll : Assembly-CSharp.dll\n// Namespace: Game\npublic class A\n{\n\t// Fields\n\tpublic Int32 x; // 0x10\n}\n\
         \n// Dll : mscorlib.dll\n// Namespace: Game\npublic class C\n{\n\t// Methods\n\t// RVA: 0x40 VA: 0x40\n\tpublic Void M() { }\n}\n"
    );
}

#[test]
fn dump_content_of_two_lists_concatenates() {
    let mut first = sample_images();
    let second = first.split_off(1);
    let whole = sample_images();
    assert_eq!(dump_content(&whole), format!("{}{}", dump_content(&first), dump_content(&second)));
}

#[test]
fn dump_content_empty_without_members() {
    let images = vec![
        ImageInfo { name: s("X.dll"), classes: vec![class("P", 1), class("Q", 0)] },
        ImageInfo { name: s("Y.dll"), classes: Vec::new() },
    ];
    assert_eq!(dump_content(&images), "");
    assert_eq!(dump_content(&Vec::new()), "");
}

// ------------------------------------------------------------ runtime values

#[test]
fn byref_from_the_type_bit_or_the_runtime() {
    assert!(!is_byref(None, Some(true)));
    assert!(!is_byref(Some(0x00), Some(false)));
    assert!(!is_byref(Some(0x00), None));
    assert!(is_byref(Some(0x40), None));
    assert!(is_byref(Some(0xff), Some(false)));
    assert!(!is_byref(Some(0xbf), None));
    assert!(is_byref(Some(0x00), Some(true)));
}

#[test]
fn byref_runtime_asked_only_when_the_bit_is_clear() {
    assert_eq!(byref_check(None), Some(false));
    assert_eq!(byref_check(Some(0x40)), Some(true));
    assert_eq!(byref_check(Some(0xc3)), Some(true));
    assert_eq!(byref_check(Some(0x00)), None);
    assert_eq!(byref_check(Some(0xbf)), None);
    for b in 0u8..=255 {
        if let Some(known) = byref_check(Some(b)) {
            assert_eq!(is_byref(Some(b), Some(!known)), known);
            assert_eq!(is_byref(Some(b), None), known);
        }
    }
}

#[test]
fn property_read_through_getter_else_setter() {
    assert!(matches!(property_accessor(true, true), Some(Accessor::Getter)));
    assert!(matches!(property_accessor(true, false), Some(Accessor::Getter)));
    assert!(matches!(property_accessor(false, true), Some(Accessor::Setter)));
    assert!(property_accessor(false, false).is_none());
}

#[test]
fn base_named_only_for_classes_not_deriving_from_object() {
    assert!(shows_base(false, false, Some(0x12)));
    assert!(!shows_base(false, false, Some(0x1c)));
    assert!(!shows_base(false, false, None));
    assert!(!shows_base(true, false, Some(0x12)));
    assert!(!shows_base(false, true, Some(0x12)));
}

#[test]
fn cstr_decodes_utf8_or_gives_nothing() {
    assert_eq!(cstr(None), "");
    assert_eq!(cstr(Some(b"Assembly-CSharp.dll")), "Assembly-CSharp.dll");
    assert_eq!(cstr(Some("Größe".as_bytes())), "Größe");
    assert_eq!(cstr(Some(&[0x41, 0xff, 0x42])), "");
    assert_eq!(cstr(Some(&[0xed, 0xa0, 0x80])), "");
    assert_eq!(cstr(Some(&[])), "");
}
