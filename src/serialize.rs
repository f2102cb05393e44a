//! The serialization mapping from layers to document tokens: keys in
//! kebab-case, absent optional fields left out, layout values untagged.
use vstd::prelude::*;
use crate::layer::{
    Layer, LayerView, Layout, LayoutProperty, LayoutView, Paint, PaintView, PropertyView,
    option_property_view, option_string_view,
};
use crate::token::{Token, TokenView, tokens_view, push_token};

verus! {

/// A layout value, untagged: a bare string, a bare number, or the sequence
/// `[verb, name]`.
pub open spec fn property_tokens(p: PropertyView) -> Seq<TokenView> {
    match p {
        PropertyView::Text(s) => seq![TokenView::Str(s)],
        PropertyView::Number(bits) => seq![TokenView::Number(bits)],
        PropertyView::Feature(verb, name) => seq![
            TokenView::SeqStart,
            TokenView::Str(verb),
            TokenView::Str(name),
            TokenView::SeqEnd,
        ],
    }
}

/// An integer pair as the sequence `[x, y]`.
pub open spec fn offset_tokens(offset: (i32, i32)) -> Seq<TokenView> {
    seq![
        TokenView::SeqStart,
        TokenView::Int(offset.0 as int),
        TokenView::Int(offset.1 as int),
        TokenView::SeqEnd,
    ]
}

/// One object entry: the key, then the value's tokens.
pub open spec fn entry(key: Seq<char>, value: Seq<TokenView>) -> Seq<TokenView> {
    seq![TokenView::Key(key)] + value
}

/// The entry of an optional field: nothing where the field is absent.
#[verifier::opaque]
pub open spec fn optional_entry(key: Seq<char>, value: Option<Seq<TokenView>>) -> Seq<TokenView> {
    match value {
        Some(v) => entry(key, v),
        None => Seq::empty(),
    }
}

pub open spec fn property_value(p: Option<PropertyView>) -> Option<Seq<TokenView>> {
    match p {
        Some(v) => Some(property_tokens(v)),
        None => None,
    }
}

pub open spec fn offset_value(p: Option<(i32, i32)>) -> Option<Seq<TokenView>> {
    match p {
        Some(v) => Some(offset_tokens(v)),
        None => None,
    }
}

pub open spec fn bool_value(p: Option<bool>) -> Option<Seq<TokenView>> {
    match p {
        Some(b) => Some(seq![TokenView::Bool(b)]),
        None => None,
    }
}

pub open spec fn string_value(p: Option<Seq<char>>) -> Option<Seq<TokenView>> {
    match p {
        Some(s) => Some(seq![TokenView::Str(s)]),
        None => None,
    }
}

pub open spec fn uint_value(p: Option<u32>) -> Option<Seq<TokenView>> {
    match p {
        Some(n) => Some(seq![TokenView::Int(n as int)]),
        None => None,
    }
}

pub open spec fn number_value(p: Option<u64>) -> Option<Seq<TokenView>> {
    match p {
        Some(bits) => Some(seq![TokenView::Number(bits)]),
        None => None,
    }
}

/// A layout as an object: each set field under its kebab-case key, in field
/// order.
pub open spec fn layout_tokens(l: LayoutView) -> Seq<TokenView> {
    seq![TokenView::ObjectStart]
        + optional_entry("line-join"@, property_value(l.line_join))
        + optional_entry("line-cap"@, property_value(l.line_cap))
        + optional_entry("icon-image"@, property_value(l.icon_image))
        + optional_entry("icon-size"@, property_value(l.icon_size))
        + optional_entry("text-anchor"@, property_value(l.text_anchor))
        + optional_entry("text-field"@, property_value(l.text_field))
        + optional_entry("text-offset"@, offset_value(l.text_offset))
        + optional_entry("text-size"@, property_value(l.text_size))
        + optional_entry("icon-allow-overlap"@, bool_value(l.icon_allow_overlap))
        + optional_entry("text-allow-overlap"@, bool_value(l.text_allow_overlap))
        + seq![TokenView::ObjectEnd]
}

/// A paint as an object: each set field under its kebab-case key, in field
/// order.
pub open spec fn paint_tokens(p: PaintView) -> Seq<TokenView> {
    seq![TokenView::ObjectStart]
        + optional_entry("line-color"@, string_value(p.line_color))
        + optional_entry("line-width"@, uint_value(p.line_width))
        + optional_entry("text-halo-width"@, number_value(p.text_halo_width))
        + optional_entry("text-halo-color"@, string_value(p.text_halo_color))
        + seq![TokenView::ObjectEnd]
}

pub open spec fn layout_value(l: Option<LayoutView>) -> Option<Seq<TokenView>> {
    match l {
        Some(v) => Some(layout_tokens(v)),
        None => None,
    }
}

pub open spec fn paint_value(p: Option<PaintView>) -> Option<Seq<TokenView>> {
    match p {
        Some(v) => Some(paint_tokens(v)),
        None => None,
    }
}

/// A layer: `id`, `type` and `source` always, then `layout` and `paint`
/// where they are set.
pub open spec fn layer_tokens(l: LayerView) -> Seq<TokenView> {
    seq![TokenView::ObjectStart]
        + entry("id"@, seq![TokenView::Str(l.id)])
        + entry("type"@, seq![TokenView::Str(l.layer_type)])
        + entry("source"@, seq![TokenView::Str(l.source)])
        + optional_entry("layout"@, layout_value(l.layout))
        + optional_entry("paint"@, paint_value(l.paint))
        + seq![TokenView::ObjectEnd]
}

proof fn lemma_concat_assoc(a: Seq<TokenView>, b: Seq<TokenView>, c: Seq<TokenView>)
    ensures
        (a + b) + c == a + (b + c),
{
    assert((a + b) + c =~= a + (b + c));
}

fn push_offset_entry(out: &mut Vec<Token>, key: &str, offset: Option<(i32, i32)>)
    ensures
        tokens_view(final(out)@) == tokens_view(old(out)@) + optional_entry(
            key@,
            offset_value(offset),
        ),
{
    proof {
        reveal(optional_entry);
    }
    let ghost start = tokens_view(out@);
    if let Some(xy) = offset {
        push_key(out, key);
        push_token(out, Token::SeqStart);
        push_token(out, Token::Int(xy.0 as i64));
        push_token(out, Token::Int(xy.1 as i64));
        push_token(out, Token::SeqEnd);
    }
    assert(tokens_view(out@) =~= start + optional_entry(key@, offset_value(offset)));
}

fn push_uint_entry(out: &mut Vec<Token>, key: &str, n: Option<u32>)
    ensures
        tokens_view(final(out)@) == tokens_view(old(out)@) + optional_entry(key@, uint_value(n)),
{
    proof {
        reveal(optional_entry);
    }
    let ghost start = tokens_view(out@);
    if let Some(v) = n {
        push_key(out, key);
        push_token(out, Token::Int(v as i64));
    }
    assert(tokens_view(out@) =~= start + optional_entry(key@, uint_value(n)));
}

fn push_number_entry(out: &mut Vec<Token>, key: &str, bits: Option<u64>)
    ensures
        tokens_view(final(out)@) == tokens_view(old(out)@) + optional_entry(key@, number_value(bits)),
{
    proof {
        reveal(optional_entry);
    }
    let ghost start = tokens_view(out@);
    if let Some(v) = bits {
        push_key(out, key);
        push_token(out, Token::Number(v));
    }
    assert(tokens_view(out@) =~= start + optional_entry(key@, number_value(bits)));
}

fn push_key(out: &mut Vec<Token>, key: &str)
    ensures
        tokens_view(final(out)@) == tokens_view(old(out)@) + seq![TokenView::Key(key@)],
{
    proof {
        broadcast use vstd::string::group_string_axioms;
    }
    push_token(out, Token::Key(key.to_string()));
    assert(tokens_view(out@) =~= tokens_view(old(out)@) + seq![TokenView::Key(key@)]);
}

fn push_str(out: &mut Vec<Token>, s: &String)
    ensures
        tokens_view(final(out)@) == tokens_view(old(out)@) + seq![TokenView::Str(s@)],
{
    push_token(out, Token::Str(s.clone()));
    assert(tokens_view(out@) =~= tokens_view(old(out)@) + seq![TokenView::Str(s@)]);
}

fn push_property(out: &mut Vec<Token>, p: &LayoutProperty)
    ensures
        tokens_view(final(out)@) == tokens_view(old(out)@) + property_tokens(p@),
{
    let ghost start = tokens_view(out@);
    match p {
        LayoutProperty::String(s) => {
            push_str(out, s);
        },
        LayoutProperty::Number(bits) => {
            push_token(out, Token::Number(*bits));
        },
        LayoutProperty::FeatureProperty(pair) => {
            push_token(out, Token::SeqStart);
            push_str(out, &pair.0);
            push_str(out, &pair.1);
            push_token(out, Token::SeqEnd);
        },
    }
    assert(tokens_view(out@) =~= start + property_tokens(p@));
}

fn push_property_entry(out: &mut Vec<Token>, key: &str, p: &Option<LayoutProperty>)
    ensures
        tokens_view(final(out)@) == tokens_view(old(out)@) + optional_entry(
            key@,
            property_value(option_property_view(*p)),
        ),
{
    proof {
        reveal(optional_entry);
    }
    let ghost start = tokens_view(out@);
    if let Some(v) = p {
        push_key(out, key);
        push_property(out, v);
    }
    assert(tokens_view(out@) =~= start + optional_entry(key@, property_value(option_property_view(*p))));
}

fn push_bool_entry(out: &mut Vec<Token>, key: &str, b: Option<bool>)
    ensures
        tokens_view(final(out)@) == tokens_view(old(out)@) + optional_entry(key@, bool_value(b)),
{
    proof {
        reveal(optional_entry);
    }
    let ghost start = tokens_view(out@);
    if let Some(v) = b {
        push_key(out, key);
        push_token(out, Token::Bool(v));
    }
    assert(tokens_view(out@) =~= start + optional_entry(key@, bool_value(b)));
}

fn push_string_entry(out: &mut Vec<Token>, key: &str, s: &Option<String>)
    ensures
        tokens_view(final(out)@) == tokens_view(old(out)@) + optional_entry(
            key@,
            string_value(option_string_view(*s)),
        ),
{
    proof {
        reveal(optional_entry);
    }
    let ghost start = tokens_view(out@);
    if let Some(v) = s {
        push_key(out, key);
        push_str(out, v);
    }
    assert(tokens_view(out@) =~= start + optional_entry(key@, string_value(option_string_view(*s))));
}

impl LayoutProperty {
    /// Appends this value's tokens to `out`, untagged.
    pub fn write_tokens(&self, out: &mut Vec<Token>)
        ensures
            tokens_view(final(out)@) == tokens_view(old(out)@) + property_tokens(self@),
    {
        push_property(out, self);
    }

    /// This value's tokens, untagged.
    pub fn to_tokens(&self) -> (r: Vec<Token>)
        ensures
            tokens_view(r@) == property_tokens(self@),
    {
        let mut out: Vec<Token> = Vec::new();
        assert(tokens_view(out@) =~= Seq::empty());
        self.write_tokens(&mut out);
        assert(tokens_view(out@) =~= property_tokens(self@));
        out
    }
}

impl Layout {
    /// Appends this layout as an object to `out`: each set field under its
    /// kebab-case key, in field order; absent fields are left out.
    pub fn write_tokens(&self, out: &mut Vec<Token>)
        ensures
            tokens_view(final(out)@) == tokens_view(old(out)@) + layout_tokens(self@),
    {
        let ghost start = tokens_view(out@);
        let ghost l = self@;
        push_token(out, Token::ObjectStart);
        assert(tokens_view(out@) =~= start + seq![TokenView::ObjectStart]);
        let ghost mut acc = seq![TokenView::ObjectStart];
        push_property_entry(out, "line-join", &self.line_join);
        proof {
            let e = optional_entry("line-join"@, property_value(l.line_join));
            lemma_concat_assoc(start, acc, e);
            acc = acc + e;
        }
        push_property_entry(out, "line-cap", &self.line_cap);
        proof {
            let e = optional_entry("line-cap"@, property_value(l.line_cap));
            lemma_concat_assoc(start, acc, e);
            acc = acc + e;
        }
        push_property_entry(out, "icon-image", &self.icon_image);
        proof {
            let e = optional_entry("icon-image"@, property_value(l.icon_image));
            lemma_concat_assoc(start, acc, e);
            acc = acc + e;
        }
        push_property_entry(out, "icon-size", &self.icon_size);
        proof {
            let e = optional_entry("icon-size"@, property_value(l.icon_size));
            lemma_concat_assoc(start, acc, e);
            acc = acc + e;
        }
        push_property_entry(out, "text-anchor", &self.text_anchor);
        proof {
            let e = optional_entry("text-anchor"@, property_value(l.text_anchor));
            lemma_concat_assoc(start, acc, e);
            acc = acc + e;
        }
        push_property_entry(out, "text-field", &self.text_field);
        proof {
            let e = optional_entry("text-field"@, property_value(l.text_field));
            lemma_concat_assoc(start, acc, e);
            acc = acc + e;
        }
        push_offset_entry(out, "text-offset", self.text_offset);
        proof {
            let e = optional_entry("text-offset"@, offset_value(l.text_offset));
            lemma_concat_assoc(start, acc, e);
            acc = acc + e;
        }
        push_property_entry(out, "text-size", &self.text_size);
        proof {
            let e = optional_entry("text-size"@, property_value(l.text_size));
            lemma_concat_assoc(start, acc, e);
            acc = acc + e;
        }
        push_bool_entry(out, "icon-allow-overlap", self.icon_allow_overlap);
        proof {
            let e = optional_entry("icon-allow-overlap"@, bool_value(l.icon_allow_overlap));
            lemma_concat_assoc(start, acc, e);
            acc = acc + e;
        }
        push_bool_entry(out, "text-allow-overlap", self.text_allow_overlap);
        proof {
            let e = optional_entry("text-allow-overlap"@, bool_value(l.text_allow_overlap));
            lemma_concat_assoc(start, acc, e);
            acc = acc + e;
        }
        push_token(out, Token::ObjectEnd);
        proof {
            let e = seq![TokenView::ObjectEnd];
            lemma_concat_assoc(start, acc, e);
            acc = acc + e;
        }
        assert(acc == layout_tokens(l));
    }

    /// The document tokens of this layout, as an object.
    pub fn to_tokens(&self) -> (r: Vec<Token>)
        ensures
            tokens_view(r@) == layout_tokens(self@),
    {
        let mut out: Vec<Token> = Vec::new();
        assert(tokens_view(out@) =~= Seq::empty());
        self.write_tokens(&mut out);
        assert(tokens_view(out@) =~= layout_tokens(self@));
        out
    }
}

impl Paint {
    /// Appends this paint as an object to `out`: each set field under its
    /// kebab-case key, in field order; absent fields are left out.
    pub fn write_tokens(&self, out: &mut Vec<Token>)
        ensures
            tokens_view(final(out)@) == tokens_view(old(out)@) + paint_tokens(self@),
    {
        let ghost start = tokens_view(out@);
        let ghost p = self@;
        push_token(out, Token::ObjectStart);
        assert(tokens_view(out@) =~= start + seq![TokenView::ObjectStart]);
        let ghost mut acc = seq![TokenView::ObjectStart];
        push_string_entry(out, "line-color", &self.line_color);
        proof {
            let e = optional_entry("line-color"@, string_value(p.line_color));
            lemma_concat_assoc(start, acc, e);
            acc = acc + e;
        }
        push_uint_entry(out, "line-width", self.line_width);
        proof {
            let e = optional_entry("line-width"@, uint_value(p.line_width));
            lemma_concat_assoc(start, acc, e);
            acc = acc + e;
        }
        push_number_entry(out, "text-halo-width", self.text_halo_width);
        proof {
            let e = optional_entry("text-halo-width"@, number_value(p.text_halo_width));
            lemma_concat_assoc(start, acc, e);
            acc = acc + e;
        }
        push_string_entry(out, "text-halo-color", &self.text_halo_color);
        proof {
            let e = optional_entry("text-halo-color"@, string_value(p.text_halo_color));
            lemma_concat_assoc(start, acc, e);
            acc = acc + e;
        }
        push_token(out, Token::ObjectEnd);
        proof {
            let e = seq![TokenView::ObjectEnd];
            lemma_concat_assoc(start, acc, e);
            acc = acc + e;
        }
        assert(acc == paint_tokens(p));
    }

    /// The document tokens of this paint, as an object.
    pub fn to_tokens(&self) -> (r: Vec<Token>)
        ensures
            tokens_view(r@) == paint_tokens(self@),
    {
        let mut out: Vec<Token> = Vec::new();
        assert(tokens_view(out@) =~= Seq::empty());
        self.write_tokens(&mut out);
        assert(tokens_view(out@) =~= paint_tokens(self@));
        out
    }
}

impl Layer {
    /// Appends this layer as an object to `out`: `id`, `type`, `source`,
    /// then `layout` and `paint` where they are set.
    pub fn write_tokens(&self, out: &mut Vec<Token>)
        ensures
            tokens_view(final(out)@) == tokens_view(old(out)@) + layer_tokens(self@),
    {
        let ghost start = tokens_view(out@);
        let ghost l = self@;
        push_token(out, Token::ObjectStart);
        push_key(out, "id");
        push_str(out, &self.id);
        push_key(out, "type");
        push_str(out, &self.layer_type);
        push_key(out, "source");
        push_str(out, &self.source);
        let ghost mut acc = seq![TokenView::ObjectStart]
            + entry("id"@, seq![TokenView::Str(l.id)])
            + entry("type"@, seq![TokenView::Str(l.layer_type)])
            + entry("source"@, seq![TokenView::Str(l.source)]);
        assert(tokens_view(out@) =~= start + acc);
        let ghost mid = tokens_view(out@);
        if let Some(layout) = &self.layout {
            push_key(out, "layout");
            layout.write_tokens(out);
        }
        proof {
            reveal(optional_entry);
            let e = optional_entry("layout"@, layout_value(l.layout));
            assert(tokens_view(out@) =~= mid + e);
            lemma_concat_assoc(start, acc, e);
            acc = acc + e;
        }
        let ghost mid2 = tokens_view(out@);
        if let Some(paint) = &self.paint {
            push_key(out, "paint");
            paint.write_tokens(out);
        }
        proof {
            reveal(optional_entry);
            let e = optional_entry("paint"@, paint_value(l.paint));
            assert(tokens_view(out@) =~= mid2 + e);
            lemma_concat_assoc(start, acc, e);
            acc = acc + e;
        }
        push_token(out, Token::ObjectEnd);
        proof {
            let e = seq![TokenView::ObjectEnd];
            lemma_concat_assoc(start, acc, e);
            acc = acc + e;
        }
        assert(acc == layer_tokens(l));
    }

    /// The document tokens of this layer.
    pub fn to_tokens(&self) -> (r: Vec<Token>)
        ensures
            tokens_view(r@) == layer_tokens(self@),
    {
        let mut out: Vec<Token> = Vec::new();
        assert(tokens_view(out@) =~= Seq::empty());
        self.write_tokens(&mut out);
        assert(tokens_view(out@) =~= layer_tokens(self@));
        out
    }
}

} // verus!
