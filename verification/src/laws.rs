//! What holds of the dump as a whole.

use vstd::prelude::*;
use crate::model::{ClassInfo, ImageInfo};
use crate::render::{
    class_block, dump_text, field_access_text, field_storage_text, fields_text, image_text,
    method_access_text, method_slot_text, methods_text, modifier_text, properties_text,
    type_body_text, type_text,
};
use crate::text::{decimal_text, hex_digit, hex_text, numeral_text};

verus! {

// ---------------------------------------------------------------- numbers

/// The value of one digit character.
pub open spec fn digit_value(c: char) -> int {
    if (c as int) < 58 {
        c as int - 48
    } else {
        c as int - 87
    }
}

/// Whether `c` is one of `0`-`9`, `a`-`f`.
pub open spec fn is_hex_digit(c: char) -> bool {
    (48 <= (c as int) && (c as int) <= 57) || (97 <= (c as int) && (c as int) <= 102)
}

/// The number that the digits `s` write in base `base`.
pub open spec fn digits_value(s: Seq<char>, base: int) -> int
    decreases s.len(),
{
    if s.len() == 0 {
        0
    } else {
        digits_value(s.drop_last(), base) * base + digit_value(s.last())
    }
}

/// Whether `s` is a canonical numeral: at least one digit, each a digit below
/// `base`, and no leading zero unless it is the only digit.
pub open spec fn canonical_numeral(s: Seq<char>, base: int) -> bool {
    &&& s.len() > 0
    &&& forall|i: int| 0 <= i < s.len() ==> #[trigger] is_hex_digit(s[i]) && digit_value(s[i]) < base
    &&& s.len() > 1 ==> s[0] != '0'
}

proof fn lemma_hex_digit(d: int)
    requires
        0 <= d < 16,
    ensures
        is_hex_digit(hex_digit(d)),
        digit_value(hex_digit(d)) == d,
        hex_digit(d) == '0' <==> d == 0,
{
}

/// In any base from two to sixteen, `numeral_text(n, base)` is a canonical numeral
/// whose value is `n`, and it starts with `0` only for zero.
pub proof fn lemma_numeral_text_is_exact(n: nat, base: nat)
    requires
        2 <= base <= 16,
    ensures
        canonical_numeral(numeral_text(n, base), base as int),
        digits_value(numeral_text(n, base), base as int) == n,
        numeral_text(n, base)[0] == '0' <==> n == 0,
    decreases n,
{
    let s = numeral_text(n, base);
    let b = base as int;
    if n < base {
        lemma_hex_digit(n as int);
        assert(s.drop_last() =~= Seq::<char>::empty());
        assert(digits_value(s.drop_last(), b) == 0);
        assert(s.last() == hex_digit(n as int));
        assert(digits_value(s, b) == digits_value(s.drop_last(), b) * b + digit_value(s.last()));
    } else {
        let m = n / base;
        let r = (n % base) as int;
        assert(m < n && 0 <= r < b && m * b + r == n) by (nonlinear_arith)
            requires
                base >= 2,
                n >= base,
                m == n / base,
                r == n % base,
                b == base,
        ;
        lemma_numeral_text_is_exact(m, base);
        lemma_hex_digit(r);
        let p = numeral_text(m, base);
        assert(s == p.push(hex_digit(r)));
        assert(s.drop_last() =~= p);
        assert(s.last() == hex_digit(r));
        assert(digits_value(s, b) == digits_value(p, b) * b + r);
        assert forall|i: int| 0 <= i < s.len() implies #[trigger] is_hex_digit(s[i])
            && digit_value(s[i]) < b by {
            if i < p.len() {
                assert(s[i] == p[i]);
                assert(is_hex_digit(p[i]));
            }
        }
        assert(s[0] == p[0]);
    }
}

/// Offsets and addresses are written in hexadecimal exactly: the digits that
/// `hex_text(n)` holds form a canonical numeral in base sixteen whose value is `n`.
pub proof fn law_hex_text_is_exact(n: nat)
    ensures
        canonical_numeral(hex_text(n), 16),
        digits_value(hex_text(n), 16) == n,
        hex_text(n)[0] == '0' <==> n == 0,
{
    lemma_numeral_text_is_exact(n, 16);
}

/// Constant values are written in decimal exactly: the digits that
/// `decimal_text(n)` holds form a canonical numeral in base ten whose value is `n`.
pub proof fn law_decimal_text_is_exact(n: nat)
    ensures
        canonical_numeral(decimal_text(n), 10),
        digits_value(decimal_text(n), 10) == n,
        decimal_text(n)[0] == '0' <==> n == 0,
{
    lemma_numeral_text_is_exact(n, 10);
}

// ---------------------------------------------------------------- which classes show

/// Whether a class has a field, a property or a method.
pub open spec fn has_members(c: ClassInfo) -> bool {
    c.fields@.len() > 0 || c.properties@.len() > 0 || c.methods@.len() > 0
}

/// A class is written into the dump exactly when it has a field, a property or a
/// method: its text is empty just when it has none of them.
pub proof fn law_type_shown_iff_members(c: ClassInfo)
    ensures
        type_text(c).len() == 0 <==> !has_members(c),
{
    reveal_strlit("\n\t// Fields\n");
    reveal_strlit("\n\t// Properties\n");
    reveal_strlit("\n\t// Methods\n");
    let f = fields_text(c.fields@, c.is_enum);
    let p = properties_text(c.properties@);
    let m = methods_text(c.methods@);
    assert(f.len() == 0 <==> c.fields@.len() == 0);
    assert(p.len() == 0 <==> c.properties@.len() == 0);
    assert(m.len() == 0 <==> c.methods@.len() == 0);
    assert(type_body_text(c).len() == f.len() + p.len() + m.len());
}

/// The dump of two lists of images, one after the other, is the dump of the first
/// followed by the dump of the second.
pub proof fn law_dump_concatenates(a: Seq<ImageInfo>, b: Seq<ImageInfo>)
    ensures
        dump_text(a + b) == dump_text(a) + dump_text(b),
    decreases b.len(),
{
    if b.len() == 0 {
        assert(a + b =~= a);
        assert(dump_text(a) + dump_text(b) =~= dump_text(a));
    } else {
        law_dump_concatenates(a, b.drop_last());
        assert((a + b).drop_last() =~= a + b.drop_last());
        assert((a + b).last() == b.last());
        assert(dump_text(a + b) =~= dump_text(a) + dump_text(b));
    }
}

proof fn lemma_image_empty(name: Seq<char>, cs: Seq<ClassInfo>)
    ensures
        image_text(name, cs).len() == 0 <==> forall|j: int|
            0 <= j < cs.len() ==> !has_members(#[trigger] cs[j]),
    decreases cs.len(),
{
    if cs.len() > 0 {
        lemma_image_empty(name, cs.drop_last());
        law_type_shown_iff_members(cs.last());
        let block = class_block(name, cs.last());
        assert(block.len() == 0 <==> type_text(cs.last()).len() == 0);
        if image_text(name, cs).len() == 0 {
            assert forall|j: int| 0 <= j < cs.len() implies !has_members(#[trigger] cs[j]) by {
                if j < cs.len() - 1 {
                    assert(cs[j] == cs.drop_last()[j]);
                }
            }
        } else {
            if forall|j: int| 0 <= j < cs.len() ==> !has_members(#[trigger] cs[j]) {
                assert forall|j: int| 0 <= j < cs.drop_last().len() implies !has_members(
                    #[trigger] cs.drop_last()[j],
                ) by {
                    assert(cs.drop_last()[j] == cs[j]);
                }
                assert(!has_members(cs[cs.len() - 1]));
            }
        }
    }
}

/// The dump is empty exactly when no class of any image has a field, a property
/// or a method.
pub proof fn law_dump_empty_iff_no_members(images: Seq<ImageInfo>)
    ensures
        dump_text(images).len() == 0 <==> forall|i: int, j: int|
            0 <= i < images.len() && 0 <= j < images[i].classes@.len() ==> !has_members(
                #[trigger] images[i].classes@[j],
            ),
    decreases images.len(),
{
    if images.len() > 0 {
        let rest = images.drop_last();
        let last = images.last();
        law_dump_empty_iff_no_members(rest);
        lemma_image_empty(last.name@, last.classes@);
        if dump_text(images).len() == 0 {
            assert forall|i: int, j: int|
                0 <= i < images.len() && 0 <= j < images[i].classes@.len() implies !has_members(
                #[trigger] images[i].classes@[j],
            ) by {
                if i < images.len() - 1 {
                    assert(images[i] == rest[i]);
                } else {
                    assert(images[i] == last);
                }
            }
        } else {
            if forall|i: int, j: int|
                0 <= i < images.len() && 0 <= j < images[i].classes@.len() ==> !has_members(
                    #[trigger] images[i].classes@[j],
                ) {
                assert forall|i: int, j: int|
                    0 <= i < rest.len() && 0 <= j < rest[i].classes@.len() implies !has_members(
                    #[trigger] rest[i].classes@[j],
                ) by {
                    assert(rest[i] == images[i]);
                }
                assert forall|j: int| 0 <= j < last.classes@.len() implies !has_members(
                    #[trigger] last.classes@[j],
                ) by {
                    assert(images[images.len() - 1] == last);
                    assert(!has_members(images[images.len() - 1].classes@[j]));
                }
            }
        }
    }
}

// ---------------------------------------------------------------- keywords

/// The bits of a method's attributes that its keywords depend on.
pub open spec fn modifier_bits() -> u32 {
    0x2577
}

/// A method's keywords depend only on its access, static, final, virtual,
/// vtable-layout, abstract and pinvoke bits: clearing any other bit leaves them as
/// they are.
pub proof fn law_modifier_reads_only_its_bits(flags: u32)
    ensures
        modifier_text(flags) == modifier_text(flags & modifier_bits()),
{
    let g = flags & 0x2577u32;
    assert(g & 0x0007u32 == flags & 0x0007u32) by (bit_vector)
        requires g == flags & 0x2577u32;
    assert(g & 0x0010u32 == flags & 0x0010u32) by (bit_vector)
        requires g == flags & 0x2577u32;
    assert(g & 0x0020u32 == flags & 0x0020u32) by (bit_vector)
        requires g == flags & 0x2577u32;
    assert(g & 0x0040u32 == flags & 0x0040u32) by (bit_vector)
        requires g == flags & 0x2577u32;
    assert(g & 0x0100u32 == flags & 0x0100u32) by (bit_vector)
        requires g == flags & 0x2577u32;
    assert(g & 0x0400u32 == flags & 0x0400u32) by (bit_vector)
        requires g == flags & 0x2577u32;
    assert(g & 0x2000u32 == flags & 0x2000u32) by (bit_vector)
        requires g == flags & 0x2577u32;
    assert(method_access_text(g) == method_access_text(flags));
    assert(method_slot_text(g) == method_slot_text(flags));
}

/// A field's keywords depend only on its access, static, init-only and literal bits.
pub proof fn law_field_keywords_read_only_their_bits(attrs: u32)
    ensures
        field_access_text(attrs) == field_access_text(attrs & 0x77u32),
        field_storage_text(attrs) == field_storage_text(attrs & 0x77u32),
{
    let g = attrs & 0x77u32;
    assert(g & 0x07u32 == attrs & 0x07u32) by (bit_vector)
        requires g == attrs & 0x77u32;
    assert(g & 0x10u32 == attrs & 0x10u32) by (bit_vector)
        requires g == attrs & 0x77u32;
    assert(g & 0x20u32 == attrs & 0x20u32) by (bit_vector)
        requires g == attrs & 0x77u32;
    assert(g & 0x40u32 == attrs & 0x40u32) by (bit_vector)
        requires g == attrs & 0x77u32;
}

/// Whether `s` is empty or ends in a space.
pub open spec fn ends_in_space(s: Seq<char>) -> bool {
    s.len() == 0 || s.last() == ' '
}

proof fn lemma_ends_in_space_concat(a: Seq<char>, b: Seq<char>)
    requires
        ends_in_space(a),
        ends_in_space(b),
    ensures
        ends_in_space(a + b),
{
    if b.len() > 0 {
        assert((a + b).last() == b.last());
    } else {
        assert(a + b =~= a);
    }
}

/// A method's keywords are each followed by a space, so that they stand apart from
/// the return type that follows: the text is empty or ends in a space.
pub proof fn law_modifier_ends_in_space(flags: u32)
    ensures
        ends_in_space(modifier_text(flags)),
{
    reveal_strlit("private ");
    reveal_strlit("public ");
    reveal_strlit("protected ");
    reveal_strlit("internal ");
    reveal_strlit("protected internal ");
    reveal_strlit("static ");
    reveal_strlit("abstract ");
    reveal_strlit("override ");
    reveal_strlit("sealed override ");
    reveal_strlit("virtual ");
    reveal_strlit("extern ");
    let a = method_access_text(flags);
    let st = if flags & 0x10u32 != 0 {
        "static "@
    } else {
        Seq::<char>::empty()
    };
    let slot = method_slot_text(flags);
    let ex = if flags & 0x2000u32 != 0 {
        "extern "@
    } else {
        Seq::<char>::empty()
    };
    assert(ends_in_space(a));
    assert(ends_in_space(st));
    if flags & 0x0400u32 != 0 {
        let o = if flags & 0x0100u32 == 0 {
            "override "@
        } else {
            Seq::<char>::empty()
        };
        lemma_ends_in_space_concat("abstract "@, o);
    }
    assert(ends_in_space(slot));
    assert(ends_in_space(ex));
    lemma_ends_in_space_concat(a, st);
    lemma_ends_in_space_concat(a + st, slot);
    lemma_ends_in_space_concat(a + st + slot, ex);
}

} // verus!
