//! The fingerprint under which a plan is stored.
//!
//! A key is the 64-bit digest of a sequence of writes to a hasher. The
//! writes are, in this order: the font's identity, the run's direction, its
//! script, its language, and then for each variation axis in the font's own
//! order the axis tag and the canonical form of the axis value. The text of
//! the run is never written.

use crate::font::Font;
use crate::run::{RunContext, TextRun};
use crate::variation::{
    canonical, canonical_bits, is_nan, lemma_canonical_decides_same_number,
    lemma_same_number_is_equivalence, same_number, Variation, NEGATIVE_ZERO,
};
use std::collections::hash_map::DefaultHasher;
use std::hash::Hasher;
use vstd::bytes::{
    lemma_auto_spec_u32_to_from_le_bytes, lemma_auto_spec_u64_to_from_le_bytes,
    spec_u32_to_le_bytes, spec_u64_to_le_bytes, u32_to_le_bytes, u64_to_le_bytes,
};
use vstd::prelude::*;
use vstd::std_specs::hash::DefaultHasherAdditionalSpecFns;
use vstd::utf8::{encode_utf8, encode_utf8_decode_utf8};

verus! {

/// The key of a shape plan: a fingerprint of a font and a shaping context.
#[derive(Clone, Copy, Debug, Hash, PartialEq, Eq, Structural)]
pub struct ShapePlanKey {
    /// The digest of the key's writes.
    pub shape_plan_hash: u64,
}

/// The writes that stand for a language: a byte that tells whether there is
/// one, and if so the length of its UTF-8 form and that form itself.
pub open spec fn language_writes(language: Option<Seq<char>>) -> Seq<Seq<u8>> {
    match language {
        None => seq![seq![0u8]],
        Some(tag) => seq![
            seq![1u8],
            spec_u64_to_le_bytes(encode_utf8(tag).len() as u64),
            encode_utf8(tag),
        ],
    }
}

/// The writes that come before the axes: identity, direction, script and
/// language.
pub open spec fn head_writes(id: u64, context: RunContext) -> Seq<Seq<u8>> {
    seq![
        spec_u64_to_le_bytes(id),
        seq![context.direction.spec_code()],
        spec_u32_to_le_bytes(context.script),
    ] + language_writes(context.language)
}

/// The writes that stand for the axes: tag and canonical value of each, in
/// the order given. No axes, no writes.
pub open spec fn axis_writes(axes: Seq<Variation>) -> Seq<Seq<u8>> {
    Seq::new(
        2 * axes.len(),
        |i: int|
            if i % 2 == 0 {
                spec_u32_to_le_bytes(axes[i / 2].tag)
            } else {
                spec_u32_to_le_bytes(canonical(axes[i / 2].value))
            },
    )
}

/// All the writes of a key.
pub open spec fn key_writes(id: u64, context: RunContext, axes: Seq<Variation>) -> Seq<Seq<u8>> {
    head_writes(id, context) + axis_writes(axes)
}

/// The digest of a key's writes.
pub open spec fn fingerprint(id: u64, context: RunContext, axes: Seq<Variation>) -> u64 {
    DefaultHasher::spec_finish(key_writes(id, context, axes))
}

/// Two axis lists are the same settings: equally long, and at each place the
/// same axis with the same number.
pub open spec fn same_axes(a: Seq<Variation>, b: Seq<Variation>) -> bool {
    &&& a.len() == b.len()
    &&& forall|i: int| 0 <= i < a.len() ==> (#[trigger] a[i]).same_setting(b[i])
}

impl ShapePlanKey {
    /// The key of a font and a run.
    pub open spec fn of(font: &Font, run: &TextRun) -> ShapePlanKey {
        ShapePlanKey {
            shape_plan_hash: fingerprint(font.id, run.context(), font.variations@),
        }
    }

    /// Derives the key of a font and a run.
    ///
    /// Total: every font and every run have a key, and a font without axes
    /// simply contributes no axis writes.
    pub fn new(font: &Font, run: &TextRun) -> (key: ShapePlanKey)
        ensures
            key == ShapePlanKey::of(font, run),
    {
        let mut hasher = DefaultHasher::new();
        hasher.write(u64_to_le_bytes(font.id()).as_slice());
        hasher.write(vec![run.direction.code()].as_slice());
        hasher.write(u32_to_le_bytes(run.script).as_slice());
        match &run.language {
            None => {
                hasher.write(vec![0u8].as_slice());
            },
            Some(tag) => {
                let bytes = tag.as_str().as_bytes();
                hasher.write(vec![1u8].as_slice());
                hasher.write(u64_to_le_bytes(bytes.len() as u64).as_slice());
                hasher.write(bytes);
            },
        }
        assert(hasher@ =~~= head_writes(font.id, run.context()));
        let axes = font.variations();
        let mut i: usize = 0;
        while i < axes.len()
            invariant
                i <= axes.len(),
                axes@ == font.variations@,
                hasher@ == head_writes(font.id, run.context()) + axis_writes(
                    axes@.take(i as int),
                ),
            decreases axes.len() - i,
        {
            let axis = axes[i];
            hasher.write(u32_to_le_bytes(axis.tag).as_slice());
            hasher.write(u32_to_le_bytes(canonical_bits(axis.value)).as_slice());
            assert(axis_writes(axes@.take(i as int)).push(spec_u32_to_le_bytes(axis.tag)).push(
                spec_u32_to_le_bytes(canonical(axis.value)),
            ) =~= axis_writes(axes@.take(i + 1)));
            i += 1;
        }
        assert(axes@.take(i as int) =~= axes@);
        ShapePlanKey { shape_plan_hash: hasher.finish() }
    }
}

/// A 32-bit word is written as four bytes, and different words as different
/// bytes.
pub proof fn lemma_four_bytes_decide_word(a: u32, b: u32)
    ensures
        spec_u32_to_le_bytes(a).len() == 4,
        spec_u32_to_le_bytes(b).len() == 4,
        spec_u32_to_le_bytes(a) == spec_u32_to_le_bytes(b) <==> a == b,
{
    lemma_auto_spec_u32_to_from_le_bytes();
    assert(spec_u32_to_le_bytes(a).len() == 4 && spec_u32_to_le_bytes(b).len() == 4);
}

/// A 64-bit word is written as eight bytes, and different words as different
/// bytes.
pub proof fn lemma_eight_bytes_decide_word(a: u64, b: u64)
    ensures
        spec_u64_to_le_bytes(a).len() == 8,
        spec_u64_to_le_bytes(b).len() == 8,
        spec_u64_to_le_bytes(a) == spec_u64_to_le_bytes(b) <==> a == b,
{
    lemma_auto_spec_u64_to_from_le_bytes();
}

/// Two shaping contexts with the same language have the same language
/// writes, and two with the same language writes have the same language.
pub proof fn lemma_language_writes_decide_language(a: Option<Seq<char>>, b: Option<Seq<char>>)
    ensures
        language_writes(a) == language_writes(b) <==> a == b,
{
    if language_writes(a) == language_writes(b) {
        assert(language_writes(a)[0][0] == language_writes(b)[0][0]);
        match (a, b) {
            (Some(x), Some(y)) => {
                assert(language_writes(a)[2] == language_writes(b)[2]);
                encode_utf8_decode_utf8(x);
                encode_utf8_decode_utf8(y);
            },
            _ => {},
        }
    }
}

/// The writes of a key say exactly what the key is made of: two keys have
/// the same writes if and only if they come from the same identity, the same
/// direction, script and language, and axis lists that are the same settings
/// in the same order.
pub proof fn lemma_key_writes_decide_identity(
    id1: u64,
    context1: RunContext,
    axes1: Seq<Variation>,
    id2: u64,
    context2: RunContext,
    axes2: Seq<Variation>,
)
    ensures
        key_writes(id1, context1, axes1) == key_writes(id2, context2, axes2) <==> {
            &&& id1 == id2
            &&& context1.direction == context2.direction
            &&& context1.script == context2.script
            &&& context1.language == context2.language
            &&& same_axes(axes1, axes2)
        },
{
    let w1 = key_writes(id1, context1, axes1);
    let w2 = key_writes(id2, context2, axes2);
    let h1 = head_writes(id1, context1);
    let h2 = head_writes(id2, context2);
    if w1 == w2 {
        assert(w1[0] == w2[0]);
        lemma_eight_bytes_decide_word(id1, id2);
        assert(w1[1][0] == w2[1][0]);
        assert(w1[2] == w2[2]);
        lemma_four_bytes_decide_word(context1.script, context2.script);
        assert(w1[3][0] == w2[3][0]);
        assert(context1.language is Some <==> context2.language is Some);
        assert(h1.len() == h2.len());
        assert(language_writes(context1.language) =~= language_writes(context2.language)) by {
            if context1.language is Some {
                assert(w1[4] == w2[4]);
                assert(w1[5] == w2[5]);
            }
        }
        lemma_language_writes_decide_language(context1.language, context2.language);
        assert(w1.len() == w2.len());
        assert(axes1.len() == axes2.len());
        assert forall|i: int| 0 <= i < axes1.len() implies (#[trigger] axes1[i]).same_setting(
            axes2[i],
        ) by {
            let at = h1.len() + 2 * i;
            assert(w1[at] == w2[at]);
            assert(w1[at] == axis_writes(axes1)[2 * i]);
            assert(w2[at] == axis_writes(axes2)[2 * i]);
            lemma_four_bytes_decide_word(axes1[i].tag, axes2[i].tag);
            assert(w1[at + 1] == w2[at + 1]);
            assert(w1[at + 1] == axis_writes(axes1)[2 * i + 1]);
            assert(w2[at + 1] == axis_writes(axes2)[2 * i + 1]);
            lemma_four_bytes_decide_word(canonical(axes1[i].value), canonical(axes2[i].value));
            lemma_canonical_decides_same_number(axes1[i].value, axes2[i].value);
        }
    }
    if id1 == id2 && context1.direction == context2.direction && context1.script
        == context2.script && context1.language == context2.language && same_axes(axes1, axes2) {
        assert(axis_writes(axes1) =~= axis_writes(axes2)) by {
            assert forall|k: int| 0 <= k < 2 * axes1.len() implies axis_writes(axes1)[k]
                == axis_writes(axes2)[k] by {
                assert(axes1[k / 2].same_setting(axes2[k / 2]));
                lemma_canonical_decides_same_number(axes1[k / 2].value, axes2[k / 2].value);
            }
        }
        assert(h1 == h2);
        assert(w1 =~= w2);
    }
}

/// Fonts and runs that agree in identity, direction, script, language and
/// axis settings have the same key.
pub proof fn lemma_same_identity_same_key(
    id: u64,
    context1: RunContext,
    axes1: Seq<Variation>,
    context2: RunContext,
    axes2: Seq<Variation>,
)
    requires
        context1.direction == context2.direction,
        context1.script == context2.script,
        context1.language == context2.language,
        same_axes(axes1, axes2),
    ensures
        key_writes(id, context1, axes1) == key_writes(id, context2, axes2),
        fingerprint(id, context1, axes1) == fingerprint(id, context2, axes2),
{
    lemma_key_writes_decide_identity(id, context1, axes1, id, context2, axes2);
}

/// The text of a run is no part of its key: two runs of one font that agree
/// in direction, script and language have the same key, whatever they say.
pub proof fn lemma_text_is_no_part_of_key(font: &Font, run1: &TextRun, run2: &TextRun)
    requires
        run1.direction == run2.direction,
        run1.script == run2.script,
        run1.language_text() == run2.language_text(),
    ensures
        ShapePlanKey::of(font, run1) == ShapePlanKey::of(font, run2),
{
    lemma_same_identity_same_key(
        font.id,
        run1.context(),
        font.variations@,
        run2.context(),
        font.variations@,
    );
}

/// Only the number counts in a key, not its pattern: setting an axis to
/// another pattern of the same number keeps the key.
pub proof fn lemma_same_number_same_key(
    id: u64,
    context: RunContext,
    axes: Seq<Variation>,
    at: int,
    value: u32,
)
    requires
        0 <= at < axes.len(),
        same_number(axes[at].value, value),
    ensures
        fingerprint(id, context, axes) == fingerprint(
            id,
            context,
            axes.update(at, Variation { tag: axes[at].tag, value }),
        ),
{
    let other = axes.update(at, Variation { tag: axes[at].tag, value });
    assert(same_axes(axes, other)) by {
        assert forall|i: int| 0 <= i < axes.len() implies (#[trigger] axes[i]).same_setting(
            other[i],
        ) by {
            lemma_same_number_is_equivalence(axes[i].value, axes[i].value, axes[i].value);
        }
    }
    lemma_same_identity_same_key(id, context, axes, context, other);
}

/// The sign of a zero is no part of a key: an axis set to negative zero
/// gives the key that the same axis set to positive zero gives.
pub proof fn lemma_zero_sign_is_no_part_of_key(
    id: u64,
    context: RunContext,
    axes: Seq<Variation>,
    at: int,
)
    requires
        0 <= at < axes.len(),
        axes[at].value == 0,
    ensures
        fingerprint(id, context, axes) == fingerprint(
            id,
            context,
            axes.update(at, Variation { tag: axes[at].tag, value: NEGATIVE_ZERO }),
        ),
{
    lemma_same_number_same_key(id, context, axes, at, NEGATIVE_ZERO);
}

/// A NaN is one number in a key: an axis set to a NaN gives the same key
/// whichever NaN it is.
pub proof fn lemma_nan_payload_is_no_part_of_key(
    id: u64,
    context: RunContext,
    axes: Seq<Variation>,
    at: int,
    nan: u32,
)
    requires
        0 <= at < axes.len(),
        is_nan(axes[at].value),
        is_nan(nan),
    ensures
        fingerprint(id, context, axes) == fingerprint(
            id,
            context,
            axes.update(at, Variation { tag: axes[at].tag, value: nan }),
        ),
{
    lemma_same_number_same_key(id, context, axes, at, nan);
}

/// The hasher takes the two write sequences apart: they are different and
/// so are their digests, or they are the same. A digest has 64 bits, so some
/// different sequences share one; nothing here tells which.
pub open spec fn told_apart(a: Seq<Seq<u8>>, b: Seq<Seq<u8>>) -> bool {
    a != b ==> DefaultHasher::spec_finish(a) != DefaultHasher::spec_finish(b)
}

/// Every axis value is part of the key: setting one axis to a different
/// number changes the writes of the key.
///
/// The key itself is a 64-bit digest of the writes, so it changes too unless
/// the hasher maps both write sequences to one digest.
pub proof fn lemma_axis_value_changes_writes(
    id: u64,
    context: RunContext,
    axes: Seq<Variation>,
    at: int,
    value: u32,
)
    requires
        0 <= at < axes.len(),
        !same_number(axes[at].value, value),
    ensures
        key_writes(id, context, axes) != key_writes(
            id,
            context,
            axes.update(at, Variation { tag: axes[at].tag, value }),
        ),
{
    let other = axes.update(at, Variation { tag: axes[at].tag, value });
    assert(!axes[at].same_setting(other[at]));
    lemma_key_writes_decide_identity(id, context, axes, id, context, other);
}

/// Every axis value is part of the key: setting one axis to a different
/// number changes the key, wherever the hasher takes the old writes and the
/// new apart.
pub proof fn lemma_axis_value_changes_key(
    id: u64,
    context: RunContext,
    axes: Seq<Variation>,
    at: int,
    value: u32,
)
    requires
        0 <= at < axes.len(),
        !same_number(axes[at].value, value),
        told_apart(
            key_writes(id, context, axes),
            key_writes(id, context, axes.update(at, Variation { tag: axes[at].tag, value })),
        ),
    ensures
        fingerprint(id, context, axes) != fingerprint(
            id,
            context,
            axes.update(at, Variation { tag: axes[at].tag, value }),
        ),
{
    lemma_axis_value_changes_writes(id, context, axes, at, value);
}

/// The order of the axes is part of the key: exchanging two settings that
/// differ changes the writes of the key. A font must therefore list its axes
/// in one order for as long as its plans are to be found again.
pub proof fn lemma_axis_order_changes_writes(
    id: u64,
    context: RunContext,
    axes: Seq<Variation>,
    first: int,
    second: int,
)
    requires
        0 <= first < axes.len(),
        0 <= second < axes.len(),
        !axes[first].same_setting(axes[second]),
    ensures
        key_writes(id, context, axes) != key_writes(
            id,
            context,
            axes.update(first, axes[second]).update(second, axes[first]),
        ),
{
    let other = axes.update(first, axes[second]).update(second, axes[first]);
    assert(other[second] == axes[first]);
    lemma_same_number_is_equivalence(axes[first].value, axes[second].value, axes[first].value);
    assert(!axes[second].same_setting(other[second]));
    lemma_key_writes_decide_identity(id, context, axes, id, context, other);
}

/// An axis more or less changes the writes of the key, even where a font's
/// identity is the same.
pub proof fn lemma_axis_count_changes_writes(
    id: u64,
    context: RunContext,
    axes1: Seq<Variation>,
    axes2: Seq<Variation>,
)
    requires
        axes1.len() != axes2.len(),
    ensures
        key_writes(id, context, axes1) != key_writes(id, context, axes2),
{
    lemma_key_writes_decide_identity(id, context, axes1, id, context, axes2);
}

} // verus!
