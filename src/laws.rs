//! Properties of the serialization mapping, stated over the token views.
use vstd::prelude::*;
use crate::layer::{LayerView, LayoutView, PropertyView, empty_layout, empty_paint};
use crate::token::TokenView;
use crate::serialize::{
    bool_value, entry, layer_tokens, layout_tokens, offset_tokens, offset_value, optional_entry,
    paint_tokens, property_tokens, property_value,
};

verus! {

/// Holds where no token of `s` is a key.
pub open spec fn keyless(s: Seq<TokenView>) -> bool {
    forall|i: int| 0 <= i < s.len() ==> !(#[trigger] s[i] is Key)
}

proof fn lemma_concat_contains(a: Seq<TokenView>, b: Seq<TokenView>, x: TokenView)
    ensures
        (a + b).contains(x) <==> (a.contains(x) || b.contains(x)),
{
    if (a + b).contains(x) {
        let i = choose|i: int| 0 <= i < (a + b).len() && (a + b)[i] == x;
        if i < a.len() {
            assert(a[i] == x);
        } else {
            assert(b[i - a.len()] == x);
        }
    }
    if a.contains(x) {
        let i = choose|i: int| 0 <= i < a.len() && a[i] == x;
        assert((a + b)[i] == x);
    }
    if b.contains(x) {
        let i = choose|i: int| 0 <= i < b.len() && b[i] == x;
        assert((a + b)[i + a.len()] == x);
    }
}

/// The only key in an optional entry is its own, and only where it is set.
proof fn lemma_entry_keys(k: Seq<char>, v: Option<Seq<TokenView>>, key: Seq<char>)
    requires
        v matches Some(w) ==> keyless(w),
    ensures
        optional_entry(k, v).contains(TokenView::Key(key)) ==> (key == k && v is Some),
{
    reveal(optional_entry);
    if optional_entry(k, v).contains(TokenView::Key(key)) {
        let w = v.unwrap();
        lemma_concat_contains(seq![TokenView::Key(k)], w, TokenView::Key(key));
        if w.contains(TokenView::Key(key)) {
            let i = choose|i: int| 0 <= i < w.len() && w[i] == TokenView::Key(key);
            assert(!(w[i] is Key));
        }
    }
}

proof fn lemma_property_keyless(p: Option<PropertyView>)
    ensures
        property_value(p) matches Some(w) ==> keyless(w),
{
}

/// The keys of a layout's object are those of its set fields.
proof fn lemma_layout_keys(l: LayoutView, key: Seq<char>)
    ensures
        layout_tokens(l).contains(TokenView::Key(key)) ==> {
            ||| key == "line-join"@ && l.line_join is Some
            ||| key == "line-cap"@ && l.line_cap is Some
            ||| key == "icon-image"@ && l.icon_image is Some
            ||| key == "icon-size"@ && l.icon_size is Some
            ||| key == "text-anchor"@ && l.text_anchor is Some
            ||| key == "text-field"@ && l.text_field is Some
            ||| key == "text-offset"@ && l.text_offset is Some
            ||| key == "text-size"@ && l.text_size is Some
            ||| key == "icon-allow-overlap"@ && l.icon_allow_overlap is Some
            ||| key == "text-allow-overlap"@ && l.text_allow_overlap is Some
        },
{
    let x = TokenView::Key(key);
    let s0 = seq![TokenView::ObjectStart];
    let e1 = optional_entry("line-join"@, property_value(l.line_join));
    let e2 = optional_entry("line-cap"@, property_value(l.line_cap));
    let e3 = optional_entry("icon-image"@, property_value(l.icon_image));
    let e4 = optional_entry("icon-size"@, property_value(l.icon_size));
    let e5 = optional_entry("text-anchor"@, property_value(l.text_anchor));
    let e6 = optional_entry("text-field"@, property_value(l.text_field));
    let e7 = optional_entry("text-offset"@, offset_value(l.text_offset));
    let e8 = optional_entry("text-size"@, property_value(l.text_size));
    let e9 = optional_entry("icon-allow-overlap"@, bool_value(l.icon_allow_overlap));
    let e10 = optional_entry("text-allow-overlap"@, bool_value(l.text_allow_overlap));
    let s11 = seq![TokenView::ObjectEnd];
    lemma_concat_contains(s0, e1, x);
    lemma_concat_contains(s0 + e1, e2, x);
    lemma_concat_contains(s0 + e1 + e2, e3, x);
    lemma_concat_contains(s0 + e1 + e2 + e3, e4, x);
    lemma_concat_contains(s0 + e1 + e2 + e3 + e4, e5, x);
    lemma_concat_contains(s0 + e1 + e2 + e3 + e4 + e5, e6, x);
    lemma_concat_contains(s0 + e1 + e2 + e3 + e4 + e5 + e6, e7, x);
    lemma_concat_contains(s0 + e1 + e2 + e3 + e4 + e5 + e6 + e7, e8, x);
    lemma_concat_contains(s0 + e1 + e2 + e3 + e4 + e5 + e6 + e7 + e8, e9, x);
    lemma_concat_contains(s0 + e1 + e2 + e3 + e4 + e5 + e6 + e7 + e8 + e9, e10, x);
    lemma_concat_contains(s0 + e1 + e2 + e3 + e4 + e5 + e6 + e7 + e8 + e9 + e10, s11, x);
    lemma_property_keyless(l.line_join);
    lemma_property_keyless(l.line_cap);
    lemma_property_keyless(l.icon_image);
    lemma_property_keyless(l.icon_size);
    lemma_property_keyless(l.text_anchor);
    lemma_property_keyless(l.text_field);
    lemma_property_keyless(l.text_size);
    lemma_entry_keys("line-join"@, property_value(l.line_join), key);
    lemma_entry_keys("line-cap"@, property_value(l.line_cap), key);
    lemma_entry_keys("icon-image"@, property_value(l.icon_image), key);
    lemma_entry_keys("icon-size"@, property_value(l.icon_size), key);
    lemma_entry_keys("text-anchor"@, property_value(l.text_anchor), key);
    lemma_entry_keys("text-field"@, property_value(l.text_field), key);
    lemma_entry_keys("text-offset"@, offset_value(l.text_offset), key);
    lemma_entry_keys("text-size"@, property_value(l.text_size), key);
    lemma_entry_keys("icon-allow-overlap"@, bool_value(l.icon_allow_overlap), key);
    lemma_entry_keys("text-allow-overlap"@, bool_value(l.text_allow_overlap), key);
    if s0.contains(x) {
        let i = choose|i: int| 0 <= i < s0.len() && s0[i] == x;
    }
    if s11.contains(x) {
        let i = choose|i: int| 0 <= i < s11.len() && s11[i] == x;
    }
}

/// The kebab-case keys of a layout's fields are pairwise distinct: they
/// differ in length, first character or sixth character.
proof fn lemma_layout_keys_distinct()
    ensures
        "line-join"@ != "line-cap"@,
        "line-join"@ != "icon-image"@,
        "line-join"@ != "icon-size"@,
        "line-join"@ != "text-anchor"@,
        "line-join"@ != "text-field"@,
        "line-join"@ != "text-offset"@,
        "line-join"@ != "text-size"@,
        "line-join"@ != "icon-allow-overlap"@,
        "line-join"@ != "text-allow-overlap"@,
        "line-cap"@ != "icon-image"@,
        "line-cap"@ != "icon-size"@,
        "line-cap"@ != "text-anchor"@,
        "line-cap"@ != "text-field"@,
        "line-cap"@ != "text-offset"@,
        "line-cap"@ != "text-size"@,
        "line-cap"@ != "icon-allow-overlap"@,
        "line-cap"@ != "text-allow-overlap"@,
        "icon-image"@ != "icon-size"@,
        "icon-image"@ != "text-anchor"@,
        "icon-image"@ != "text-field"@,
        "icon-image"@ != "text-offset"@,
        "icon-image"@ != "text-size"@,
        "icon-image"@ != "icon-allow-overlap"@,
        "icon-image"@ != "text-allow-overlap"@,
        "icon-size"@ != "text-anchor"@,
        "icon-size"@ != "text-field"@,
        "icon-size"@ != "text-offset"@,
        "icon-size"@ != "text-size"@,
        "icon-size"@ != "icon-allow-overlap"@,
        "icon-size"@ != "text-allow-overlap"@,
        "text-anchor"@ != "text-field"@,
        "text-anchor"@ != "text-offset"@,
        "text-anchor"@ != "text-size"@,
        "text-anchor"@ != "icon-allow-overlap"@,
        "text-anchor"@ != "text-allow-overlap"@,
        "text-field"@ != "text-offset"@,
        "text-field"@ != "text-size"@,
        "text-field"@ != "icon-allow-overlap"@,
        "text-field"@ != "text-allow-overlap"@,
        "text-offset"@ != "text-size"@,
        "text-offset"@ != "icon-allow-overlap"@,
        "text-offset"@ != "text-allow-overlap"@,
        "text-size"@ != "icon-allow-overlap"@,
        "text-size"@ != "text-allow-overlap"@,
        "icon-allow-overlap"@ != "text-allow-overlap"@,
{
    reveal_strlit("line-join");
    reveal_strlit("line-cap");
    reveal_strlit("icon-image");
    reveal_strlit("icon-size");
    reveal_strlit("text-anchor");
    reveal_strlit("text-field");
    reveal_strlit("text-offset");
    reveal_strlit("text-size");
    reveal_strlit("icon-allow-overlap");
    reveal_strlit("text-allow-overlap");
    assert("line-join"@.len() == 9 && "line-join"@[0] == 'l' && "line-join"@[5] == 'j');
    assert("line-cap"@.len() == 8 && "line-cap"@[0] == 'l' && "line-cap"@[5] == 'c');
    assert("icon-image"@.len() == 10 && "icon-image"@[0] == 'i' && "icon-image"@[5] == 'i');
    assert("icon-size"@.len() == 9 && "icon-size"@[0] == 'i' && "icon-size"@[5] == 's');
    assert("text-anchor"@.len() == 11 && "text-anchor"@[0] == 't' && "text-anchor"@[5] == 'a');
    assert("text-field"@.len() == 10 && "text-field"@[0] == 't' && "text-field"@[5] == 'f');
    assert("text-offset"@.len() == 11 && "text-offset"@[0] == 't' && "text-offset"@[5] == 'o');
    assert("text-size"@.len() == 9 && "text-size"@[0] == 't' && "text-size"@[5] == 's');
    assert("icon-allow-overlap"@.len() == 18 && "icon-allow-overlap"@[0] == 'i' && "icon-allow-overlap"@[5] == 'a');
    assert("text-allow-overlap"@.len() == 18 && "text-allow-overlap"@[0] == 't' && "text-allow-overlap"@[5] == 'a');
}

/// A layout field left unset has no key in the layout's serialized object:
/// its kebab-case key appears nowhere in the layout's tokens.
pub proof fn lemma_unset_layout_field_has_no_key(l: LayoutView)
    ensures
        l.line_join is None ==> !layout_tokens(l).contains(TokenView::Key("line-join"@)),
        l.line_cap is None ==> !layout_tokens(l).contains(TokenView::Key("line-cap"@)),
        l.icon_image is None ==> !layout_tokens(l).contains(TokenView::Key("icon-image"@)),
        l.icon_size is None ==> !layout_tokens(l).contains(TokenView::Key("icon-size"@)),
        l.text_anchor is None ==> !layout_tokens(l).contains(TokenView::Key("text-anchor"@)),
        l.text_field is None ==> !layout_tokens(l).contains(TokenView::Key("text-field"@)),
        l.text_offset is None ==> !layout_tokens(l).contains(TokenView::Key("text-offset"@)),
        l.text_size is None ==> !layout_tokens(l).contains(TokenView::Key("text-size"@)),
        l.icon_allow_overlap is None ==> !layout_tokens(l).contains(
            TokenView::Key("icon-allow-overlap"@),
        ),
        l.text_allow_overlap is None ==> !layout_tokens(l).contains(
            TokenView::Key("text-allow-overlap"@),
        ),
{
    lemma_layout_keys_distinct();
    if l.line_join is None {
        lemma_layout_keys(l, "line-join"@);
    }
    if l.line_cap is None {
        lemma_layout_keys(l, "line-cap"@);
    }
    if l.icon_image is None {
        lemma_layout_keys(l, "icon-image"@);
    }
    if l.icon_size is None {
        lemma_layout_keys(l, "icon-size"@);
    }
    if l.text_anchor is None {
        lemma_layout_keys(l, "text-anchor"@);
    }
    if l.text_field is None {
        lemma_layout_keys(l, "text-field"@);
    }
    if l.text_offset is None {
        lemma_layout_keys(l, "text-offset"@);
    }
    if l.text_size is None {
        lemma_layout_keys(l, "text-size"@);
    }
    if l.icon_allow_overlap is None {
        lemma_layout_keys(l, "icon-allow-overlap"@);
    }
    if l.text_allow_overlap is None {
        lemma_layout_keys(l, "text-allow-overlap"@);
    }
}

/// A layer with neither layout nor paint serializes to exactly the three
/// entries `id`, `type` and `source`, in that order.
pub proof fn lemma_bare_layer_has_three_keys(id: Seq<char>, layer_type: Seq<char>, source: Seq<char>)
    ensures
        layer_tokens(
            LayerView { id, layer_type, source, layout: None, paint: None },
        ) == seq![
            TokenView::ObjectStart,
            TokenView::Key("id"@),
            TokenView::Str(id),
            TokenView::Key("type"@),
            TokenView::Str(layer_type),
            TokenView::Key("source"@),
            TokenView::Str(source),
            TokenView::ObjectEnd,
        ],
{
    reveal(optional_entry);
    assert(layer_tokens(LayerView { id, layer_type, source, layout: None, paint: None }) =~= seq![
        TokenView::ObjectStart,
        TokenView::Key("id"@),
        TokenView::Str(id),
        TokenView::Key("type"@),
        TokenView::Str(layer_type),
        TokenView::Key("source"@),
        TokenView::Str(source),
        TokenView::ObjectEnd,
    ]);
}

/// A layout or paint with every field absent serializes to an object with no
/// entries.
pub proof fn lemma_empty_records_are_empty_objects()
    ensures
        layout_tokens(empty_layout()) == seq![TokenView::ObjectStart, TokenView::ObjectEnd],
        paint_tokens(empty_paint()) == seq![TokenView::ObjectStart, TokenView::ObjectEnd],
{
    reveal(optional_entry);
    assert(layout_tokens(empty_layout()) =~= seq![TokenView::ObjectStart, TokenView::ObjectEnd]);
    assert(paint_tokens(empty_paint()) =~= seq![TokenView::ObjectStart, TokenView::ObjectEnd]);
}

/// Setting a layer's layout, even to one with every field absent, puts the
/// key `layout` with an empty object right after `source`; setting its paint
/// so puts the key `paint` with an empty object last.
pub proof fn lemma_set_empty_records_appear(l: LayerView)
    ensures
        l.layout == Some(empty_layout()) ==> layer_tokens(l).subrange(7, 10) == seq![
            TokenView::Key("layout"@),
            TokenView::ObjectStart,
            TokenView::ObjectEnd,
        ],
        l.paint == Some(empty_paint()) ==> {
            let t = layer_tokens(l);
            &&& t.len() >= 4
            &&& t.subrange(t.len() - 4, t.len() as int) == seq![
                TokenView::Key("paint"@),
                TokenView::ObjectStart,
                TokenView::ObjectEnd,
                TokenView::ObjectEnd,
            ]
        },
{
    reveal(optional_entry);
    lemma_empty_records_are_empty_objects();
    let t = layer_tokens(l);
    if l.layout == Some(empty_layout()) {
        assert(t.subrange(7, 10) =~= seq![
            TokenView::Key("layout"@),
            TokenView::ObjectStart,
            TokenView::ObjectEnd,
        ]);
    }
    if l.paint == Some(empty_paint()) {
        assert(t.subrange(t.len() - 4, t.len() as int) =~= seq![
            TokenView::Key("paint"@),
            TokenView::ObjectStart,
            TokenView::ObjectEnd,
            TokenView::ObjectEnd,
        ]);
    }
}

/// Layout values are untagged: a string is one bare string token, a number
/// one bare number token, a feature reference the sequence `[verb, name]`.
pub proof fn lemma_property_untagged(text: Seq<char>, bits: u64, verb: Seq<char>, name: Seq<char>)
    ensures
        property_tokens(PropertyView::Text(text)) == seq![TokenView::Str(text)],
        property_tokens(PropertyView::Number(bits)) == seq![TokenView::Number(bits)],
        property_tokens(PropertyView::Feature(verb, name)) == seq![
            TokenView::SeqStart,
            TokenView::Str(verb),
            TokenView::Str(name),
            TokenView::SeqEnd,
        ],
{
}

/// A text offset `(x, y)` appears in the layout's tokens as the key
/// `text-offset` followed by the sequence `[x, y]`, sign and order kept.
pub proof fn lemma_text_offset_sequence(l: LayoutView, x: i32, y: i32)
    requires
        l.text_offset == Some((x, y)),
    ensures
        exists|i: int|
            0 <= i && i + 5 <= layout_tokens(l).len() && #[trigger] layout_tokens(l).subrange(
                i,
                i + 5,
            ) == seq![
                TokenView::Key("text-offset"@),
                TokenView::SeqStart,
                TokenView::Int(x as int),
                TokenView::Int(y as int),
                TokenView::SeqEnd,
            ],
{
    reveal(optional_entry);
    let pre = seq![TokenView::ObjectStart]
        + optional_entry("line-join"@, property_value(l.line_join))
        + optional_entry("line-cap"@, property_value(l.line_cap))
        + optional_entry("icon-image"@, property_value(l.icon_image))
        + optional_entry("icon-size"@, property_value(l.icon_size))
        + optional_entry("text-anchor"@, property_value(l.text_anchor))
        + optional_entry("text-field"@, property_value(l.text_field));
    let e = entry("text-offset"@, offset_tokens((x, y)));
    let t = layout_tokens(l);
    let i = pre.len() as int;
    assert(t.subrange(i, i + 5) =~= e);
}

} // verus!
