//! The bytes that reach the hasher.
//!
//! A hasher may take its writes for one run of bytes, so that two write
//! sequences with the same bytes in a row have the same digest. The writes
//! of a key are laid out so that this loses nothing: the bytes of a key, one
//! write after the other, still say exactly what the key is made of. Every
//! part is as long as its kind says, but for the language, which is led by
//! its length.

use crate::key::{
    axis_writes, head_writes, key_writes, language_writes, lemma_eight_bytes_decide_word,
    lemma_four_bytes_decide_word, same_axes,
};
use crate::run::RunContext;
use crate::variation::{canonical, lemma_canonical_decides_same_number, Variation};
use vstd::bytes::{spec_u32_to_le_bytes, spec_u64_to_le_bytes};
use vstd::prelude::*;
use vstd::seq_lib::lemma_flatten_concat;
use vstd::utf8::{encode_utf8, encode_utf8_decode_utf8};

verus! {

/// The bytes that stand for a language.
pub open spec fn language_bytes(language: Option<Seq<char>>) -> Seq<u8> {
    match language {
        None => seq![0u8],
        Some(tag) => seq![1u8] + spec_u64_to_le_bytes(encode_utf8(tag).len() as u64) + encode_utf8(
            tag,
        ),
    }
}

/// The bytes that come before the axes.
pub open spec fn head_bytes(id: u64, context: RunContext) -> Seq<u8> {
    spec_u64_to_le_bytes(id) + seq![context.direction.spec_code()] + spec_u32_to_le_bytes(
        context.script,
    ) + language_bytes(context.language)
}

/// The bytes that stand for the axes: eight for each.
pub open spec fn axis_bytes(axes: Seq<Variation>) -> Seq<u8>
    decreases axes.len(),
{
    if axes.len() == 0 {
        Seq::empty()
    } else {
        axis_bytes(axes.drop_last()) + spec_u32_to_le_bytes(axes.last().tag)
            + spec_u32_to_le_bytes(canonical(axes.last().value))
    }
}

/// All the bytes of a key, in the order in which the hasher gets them.
pub open spec fn key_bytes(id: u64, context: RunContext, axes: Seq<Variation>) -> Seq<u8> {
    head_bytes(id, context) + axis_bytes(axes)
}

/// The length of a language's UTF-8 form can be written in eight bytes.
/// This holds of every string that fits in memory.
pub open spec fn language_fits(language: Option<Seq<char>>) -> bool {
    match language {
        None => true,
        Some(tag) => encode_utf8(tag).len() <= u64::MAX,
    }
}

/// The axes take eight bytes each.
pub proof fn lemma_axis_bytes_len(axes: Seq<Variation>)
    ensures
        axis_bytes(axes).len() == 8 * axes.len(),
    decreases axes.len(),
{
    if axes.len() > 0 {
        lemma_axis_bytes_len(axes.drop_last());
        lemma_four_bytes_decide_word(axes.last().tag, canonical(axes.last().value));
    }
}

/// The bytes of the axes are their writes, one after the other.
proof fn lemma_axis_writes_in_a_row(axes: Seq<Variation>)
    ensures
        axis_writes(axes).flatten() == axis_bytes(axes),
    decreases axes.len(),
{
    if axes.len() == 0 {
        assert(axis_writes(axes) =~= Seq::<Seq<u8>>::empty());
    } else {
        let before = axes.drop_last();
        lemma_axis_writes_in_a_row(before);
        let tag = spec_u32_to_le_bytes(axes.last().tag);
        let value = spec_u32_to_le_bytes(canonical(axes.last().value));
        assert(axis_writes(axes) =~= axis_writes(before).push(tag).push(value));
        axis_writes(before).lemma_flatten_push(tag);
        axis_writes(before).push(tag).lemma_flatten_push(value);
    }
}

/// The bytes of the head are its writes, one after the other.
proof fn lemma_head_writes_in_a_row(id: u64, context: RunContext)
    ensures
        head_writes(id, context).flatten() == head_bytes(id, context),
{
    let fixed = seq![
        spec_u64_to_le_bytes(id),
        seq![context.direction.spec_code()],
        spec_u32_to_le_bytes(context.script),
    ];
    let language = language_writes(context.language);
    lemma_flatten_concat(fixed, language);
    let none = Seq::<Seq<u8>>::empty();
    assert(fixed =~= none.push(fixed[0]).push(fixed[1]).push(fixed[2]));
    none.lemma_flatten_push(fixed[0]);
    none.push(fixed[0]).lemma_flatten_push(fixed[1]);
    none.push(fixed[0]).push(fixed[1]).lemma_flatten_push(fixed[2]);
    assert(none.flatten() =~= Seq::<u8>::empty());
    assert(fixed.flatten() =~= fixed[0] + fixed[1] + fixed[2]);
    match context.language {
        None => {
            assert(language =~= none.push(seq![0u8]));
            none.lemma_flatten_push(seq![0u8]);
            assert(language.flatten() =~= language_bytes(context.language));
        },
        Some(tag) => {
            let length = spec_u64_to_le_bytes(encode_utf8(tag).len() as u64);
            assert(language =~= none.push(seq![1u8]).push(length).push(encode_utf8(tag)));
            none.lemma_flatten_push(seq![1u8]);
            none.push(seq![1u8]).lemma_flatten_push(length);
            none.push(seq![1u8]).push(length).lemma_flatten_push(encode_utf8(tag));
            assert(language.flatten() =~= language_bytes(context.language));
        },
    }
    assert(head_writes(id, context).flatten() =~= head_bytes(id, context));
}

/// The bytes of a key are its writes, one after the other.
pub proof fn lemma_key_writes_in_a_row(id: u64, context: RunContext, axes: Seq<Variation>)
    ensures
        key_writes(id, context, axes).flatten() == key_bytes(id, context, axes),
{
    lemma_flatten_concat(head_writes(id, context), axis_writes(axes));
    lemma_head_writes_in_a_row(id, context);
    lemma_axis_writes_in_a_row(axes);
}

/// The bytes of the axes say what the axes are: two axis lists have the same
/// bytes if and only if they are the same settings in the same order.
pub proof fn lemma_axis_bytes_decide_axes(axes1: Seq<Variation>, axes2: Seq<Variation>)
    ensures
        axis_bytes(axes1) == axis_bytes(axes2) <==> same_axes(axes1, axes2),
    decreases axes1.len(),
{
    lemma_axis_bytes_len(axes1);
    lemma_axis_bytes_len(axes2);
    if axes1.len() == axes2.len() && axes1.len() > 0 {
        let before1 = axes1.drop_last();
        let before2 = axes2.drop_last();
        let tag1 = spec_u32_to_le_bytes(axes1.last().tag);
        let tag2 = spec_u32_to_le_bytes(axes2.last().tag);
        let value1 = spec_u32_to_le_bytes(canonical(axes1.last().value));
        let value2 = spec_u32_to_le_bytes(canonical(axes2.last().value));
        let n: int = 8 * (before1.len() as int);
        lemma_axis_bytes_decide_axes(before1, before2);
        lemma_axis_bytes_len(before1);
        lemma_axis_bytes_len(before2);
        lemma_four_bytes_decide_word(axes1.last().tag, axes2.last().tag);
        lemma_four_bytes_decide_word(canonical(axes1.last().value), canonical(axes2.last().value));
        lemma_canonical_decides_same_number(axes1.last().value, axes2.last().value);
        let b1 = axis_bytes(axes1);
        let b2 = axis_bytes(axes2);
        assert(b1.subrange(0, n) =~= axis_bytes(before1));
        assert(b2.subrange(0, n) =~= axis_bytes(before2));
        assert(b1.subrange(n, n + 4) =~= tag1);
        assert(b2.subrange(n, n + 4) =~= tag2);
        assert(b1.subrange(n + 4, n + 8) =~= value1);
        assert(b2.subrange(n + 4, n + 8) =~= value2);
        if same_axes(axes1, axes2) {
            assert(same_axes(before1, before2)) by {
                assert forall|i: int| 0 <= i < before1.len() implies (
                #[trigger] before1[i]).same_setting(before2[i]) by {
                    assert(axes1[i].same_setting(axes2[i]));
                }
            }
            assert(axes1[axes1.len() - 1].same_setting(axes2[axes1.len() - 1]));
            assert(b1 =~= b2);
        }
        if b1 == b2 {
            assert(same_axes(axes1, axes2)) by {
                assert forall|i: int| 0 <= i < axes1.len() implies (#[trigger] axes1[i]).same_setting(
                    axes2[i],
                ) by {
                    if i < before1.len() {
                        assert(before1[i].same_setting(before2[i]));
                    }
                }
            }
        }
    }
}

/// The bytes of a language say what the language is, even with other bytes
/// behind them.
proof fn lemma_language_bytes_decide_language(
    language1: Option<Seq<char>>,
    rest1: Seq<u8>,
    language2: Option<Seq<char>>,
    rest2: Seq<u8>,
)
    requires
        language_fits(language1),
        language_fits(language2),
        language_bytes(language1) + rest1 == language_bytes(language2) + rest2,
    ensures
        language1 == language2,
        rest1 == rest2,
{
    let b1 = language_bytes(language1) + rest1;
    let b2 = language_bytes(language2) + rest2;
    assert(b1[0] == b2[0]);
    match (language1, language2) {
        (Some(tag1), Some(tag2)) => {
            let n1: int = encode_utf8(tag1).len() as int;
            let n2: int = encode_utf8(tag2).len() as int;
            lemma_eight_bytes_decide_word(n1 as u64, n2 as u64);
            assert(b1.subrange(1, 9) =~= spec_u64_to_le_bytes(n1 as u64));
            assert(b2.subrange(1, 9) =~= spec_u64_to_le_bytes(n2 as u64));
            assert(n1 == n2);
            assert(b1.subrange(9, 9 + n1) =~= encode_utf8(tag1));
            assert(b2.subrange(9, 9 + n2) =~= encode_utf8(tag2));
            encode_utf8_decode_utf8(tag1);
            encode_utf8_decode_utf8(tag2);
            assert(b1.skip(9 + n1) =~= rest1);
            assert(b2.skip(9 + n2) =~= rest2);
        },
        (None, None) => {
            assert(b1.skip(1) =~= rest1);
            assert(b2.skip(1) =~= rest2);
        },
        _ => {},
    }
}

/// The bytes of a key say exactly what the key is made of: two keys have the
/// same bytes if and only if they come from the same identity, the same
/// direction, script and language, and axis lists that are the same settings
/// in the same order. So a hasher that takes its writes for one run of bytes
/// tells two keys apart as well as one that keeps the writes apart.
pub proof fn lemma_key_bytes_decide_identity(
    id1: u64,
    context1: RunContext,
    axes1: Seq<Variation>,
    id2: u64,
    context2: RunContext,
    axes2: Seq<Variation>,
)
    requires
        language_fits(context1.language),
        language_fits(context2.language),
    ensures
        key_bytes(id1, context1, axes1) == key_bytes(id2, context2, axes2) <==> {
            &&& id1 == id2
            &&& context1.direction == context2.direction
            &&& context1.script == context2.script
            &&& context1.language == context2.language
            &&& same_axes(axes1, axes2)
        },
{
    let b1 = key_bytes(id1, context1, axes1);
    let b2 = key_bytes(id2, context2, axes2);
    lemma_four_bytes_decide_word(context1.script, context2.script);
    lemma_eight_bytes_decide_word(id1, id2);
    lemma_axis_bytes_decide_axes(axes1, axes2);
    if b1 == b2 {
        let tail1 = language_bytes(context1.language) + axis_bytes(axes1);
        let tail2 = language_bytes(context2.language) + axis_bytes(axes2);
        assert(b1.subrange(0, 8) =~= spec_u64_to_le_bytes(id1));
        assert(b2.subrange(0, 8) =~= spec_u64_to_le_bytes(id2));
        assert(b1[8] == context1.direction.spec_code());
        assert(b2[8] == context2.direction.spec_code());
        assert(b1.subrange(9, 13) =~= spec_u32_to_le_bytes(context1.script));
        assert(b2.subrange(9, 13) =~= spec_u32_to_le_bytes(context2.script));
        assert(b1.skip(13) =~= tail1);
        assert(b2.skip(13) =~= tail2);
        lemma_language_bytes_decide_language(
            context1.language,
            axis_bytes(axes1),
            context2.language,
            axis_bytes(axes2),
        );
    }
}

} // verus!
