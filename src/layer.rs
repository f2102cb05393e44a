//! The layer records and their mathematical views.
use vstd::prelude::*;

verus! {

broadcast use vstd::string::group_string_axioms;

/// A value of a layout field: a literal string, a literal number, or a
/// feature-property reference `(verb, name)` such as `("get", "icon")`.
///
/// A number is held as the bit pattern of an IEEE-754 double
/// (`f64::to_bits`); the library carries it through unchanged.
#[derive(Debug)]
pub enum LayoutProperty {
    String(String),
    Number(u64),
    FeatureProperty((String, String)),
}

/// What a [`LayoutProperty`] is, with strings as character sequences.
pub enum PropertyView {
    Text(Seq<char>),
    Number(u64),
    Feature(Seq<char>, Seq<char>),
}

impl View for LayoutProperty {
    type V = PropertyView;

    open spec fn view(&self) -> PropertyView {
        match self {
            LayoutProperty::String(s) => PropertyView::Text(s@),
            LayoutProperty::Number(bits) => PropertyView::Number(*bits),
            LayoutProperty::FeatureProperty(pair) => PropertyView::Feature(pair.0@, pair.1@),
        }
    }
}

pub open spec fn option_property_view(p: Option<LayoutProperty>) -> Option<PropertyView> {
    match p {
        Some(v) => Some(v@),
        None => None,
    }
}

pub open spec fn option_string_view(s: Option<String>) -> Option<Seq<char>> {
    match s {
        Some(v) => Some(v@),
        None => None,
    }
}

impl LayoutProperty {
    /// A number given by the bit pattern of a double.
    pub fn from_bits(bits: u64) -> (r: LayoutProperty)
        ensures
            r@ == PropertyView::Number(bits),
    {
        LayoutProperty::Number(bits)
    }
}

impl Clone for LayoutProperty {
    fn clone(&self) -> (r: LayoutProperty)
        ensures
            r@ == self@,
    {
        match self {
            LayoutProperty::String(s) => LayoutProperty::String(s.clone()),
            LayoutProperty::Number(bits) => LayoutProperty::Number(*bits),
            LayoutProperty::FeatureProperty(pair) => LayoutProperty::FeatureProperty(
                (pair.0.clone(), pair.1.clone()),
            ),
        }
    }
}

impl<'a> From<&'a str> for LayoutProperty {
    fn from(value: &'a str) -> (r: LayoutProperty)
        ensures
            r@ == PropertyView::Text(value@),
    {
        LayoutProperty::String(value.to_string())
    }
}

/// Equality of `String` values is not decided by their characters in
/// specifications, so the conversion claims no value equality here; its
/// own `ensures` gives the view of the result.
impl<'a> vstd::std_specs::convert::FromSpecImpl<&'a str> for LayoutProperty {
    open spec fn obeys_from_spec() -> bool {
        false
    }

    open spec fn from_spec(value: &'a str) -> LayoutProperty {
        arbitrary()
    }
}

impl From<String> for LayoutProperty {
    fn from(value: String) -> (r: LayoutProperty)
        ensures
            r@ == PropertyView::Text(value@),
    {
        LayoutProperty::String(value)
    }
}

impl vstd::std_specs::convert::FromSpecImpl<String> for LayoutProperty {
    open spec fn obeys_from_spec() -> bool {
        true
    }

    open spec fn from_spec(value: String) -> LayoutProperty {
        LayoutProperty::String(value)
    }
}

impl From<(String, String)> for LayoutProperty {
    fn from(value: (String, String)) -> (r: LayoutProperty)
        ensures
            r@ == PropertyView::Feature(value.0@, value.1@),
    {
        LayoutProperty::FeatureProperty(value)
    }
}

impl vstd::std_specs::convert::FromSpecImpl<(String, String)> for LayoutProperty {
    open spec fn obeys_from_spec() -> bool {
        true
    }

    open spec fn from_spec(value: (String, String)) -> LayoutProperty {
        LayoutProperty::FeatureProperty(value)
    }
}

impl<'a, 'b> From<(&'a str, &'b str)> for LayoutProperty {
    fn from(value: (&'a str, &'b str)) -> (r: LayoutProperty)
        ensures
            r@ == PropertyView::Feature(value.0@, value.1@),
    {
        LayoutProperty::FeatureProperty((value.0.to_string(), value.1.to_string()))
    }
}

/// As for `&str`, the conversion's own `ensures` gives the view of the result.
impl<'a, 'b> vstd::std_specs::convert::FromSpecImpl<(&'a str, &'b str)> for LayoutProperty {
    open spec fn obeys_from_spec() -> bool {
        false
    }

    open spec fn from_spec(value: (&'a str, &'b str)) -> LayoutProperty {
        arbitrary()
    }
}

fn clone_property(p: &Option<LayoutProperty>) -> (r: Option<LayoutProperty>)
    ensures
        option_property_view(r) == option_property_view(*p),
{
    match p {
        Some(v) => Some(v.clone()),
        None => None,
    }
}

fn clone_string(s: &Option<String>) -> (r: Option<String>)
    ensures
        option_string_view(r) == option_string_view(*s),
{
    match s {
        Some(v) => Some(v.clone()),
        None => None,
    }
}

/// Rendering hints on geometry and placement; every field is optional.
#[derive(Debug)]
pub struct Layout {
    pub line_join: Option<LayoutProperty>,
    pub line_cap: Option<LayoutProperty>,
    pub icon_image: Option<LayoutProperty>,
    pub icon_size: Option<LayoutProperty>,
    pub text_anchor: Option<LayoutProperty>,
    pub text_field: Option<LayoutProperty>,
    pub text_offset: Option<(i32, i32)>,
    pub text_size: Option<LayoutProperty>,
    pub icon_allow_overlap: Option<bool>,
    pub text_allow_overlap: Option<bool>,
}

pub struct LayoutView {
    pub line_join: Option<PropertyView>,
    pub line_cap: Option<PropertyView>,
    pub icon_image: Option<PropertyView>,
    pub icon_size: Option<PropertyView>,
    pub text_anchor: Option<PropertyView>,
    pub text_field: Option<PropertyView>,
    pub text_offset: Option<(i32, i32)>,
    pub text_size: Option<PropertyView>,
    pub icon_allow_overlap: Option<bool>,
    pub text_allow_overlap: Option<bool>,
}

impl View for Layout {
    type V = LayoutView;

    open spec fn view(&self) -> LayoutView {
        LayoutView {
            line_join: option_property_view(self.line_join),
            line_cap: option_property_view(self.line_cap),
            icon_image: option_property_view(self.icon_image),
            icon_size: option_property_view(self.icon_size),
            text_anchor: option_property_view(self.text_anchor),
            text_field: option_property_view(self.text_field),
            text_offset: self.text_offset,
            text_size: option_property_view(self.text_size),
            icon_allow_overlap: self.icon_allow_overlap,
            text_allow_overlap: self.text_allow_overlap,
        }
    }
}

/// The layout with every field absent.
pub open spec fn empty_layout() -> LayoutView {
    LayoutView {
        line_join: None,
        line_cap: None,
        icon_image: None,
        icon_size: None,
        text_anchor: None,
        text_field: None,
        text_offset: None,
        text_size: None,
        icon_allow_overlap: None,
        text_allow_overlap: None,
    }
}

impl Clone for Layout {
    fn clone(&self) -> (r: Layout)
        ensures
            r@ == self@,
    {
        Layout {
            line_join: clone_property(&self.line_join),
            line_cap: clone_property(&self.line_cap),
            icon_image: clone_property(&self.icon_image),
            icon_size: clone_property(&self.icon_size),
            text_anchor: clone_property(&self.text_anchor),
            text_field: clone_property(&self.text_field),
            text_offset: self.text_offset,
            text_size: clone_property(&self.text_size),
            icon_allow_overlap: self.icon_allow_overlap,
            text_allow_overlap: self.text_allow_overlap,
        }
    }
}

impl Default for Layout {
    fn default() -> (r: Layout)
        ensures
            r@ == empty_layout(),
    {
        Layout {
            line_join: None,
            line_cap: None,
            icon_image: None,
            icon_size: None,
            text_anchor: None,
            text_field: None,
            text_offset: None,
            text_size: None,
            icon_allow_overlap: None,
            text_allow_overlap: None,
        }
    }
}

/// Paint hints on visual appearance; every field is optional.
///
/// `text_halo_width` holds the bit pattern of an IEEE-754 double.
#[derive(Debug)]
pub struct Paint {
    pub line_color: Option<String>,
    pub line_width: Option<u32>,
    pub text_halo_width: Option<u64>,
    pub text_halo_color: Option<String>,
}

pub struct PaintView {
    pub line_color: Option<Seq<char>>,
    pub line_width: Option<u32>,
    pub text_halo_width: Option<u64>,
    pub text_halo_color: Option<Seq<char>>,
}

impl View for Paint {
    type V = PaintView;

    open spec fn view(&self) -> PaintView {
        PaintView {
            line_color: option_string_view(self.line_color),
            line_width: self.line_width,
            text_halo_width: self.text_halo_width,
            text_halo_color: option_string_view(self.text_halo_color),
        }
    }
}

/// The paint with every field absent.
pub open spec fn empty_paint() -> PaintView {
    PaintView { line_color: None, line_width: None, text_halo_width: None, text_halo_color: None }
}

impl Clone for Paint {
    fn clone(&self) -> (r: Paint)
        ensures
            r@ == self@,
    {
        Paint {
            line_color: clone_string(&self.line_color),
            line_width: self.line_width,
            text_halo_width: self.text_halo_width,
            text_halo_color: clone_string(&self.text_halo_color),
        }
    }
}

impl Default for Paint {
    fn default() -> (r: Paint)
        ensures
            r@ == empty_paint(),
    {
        Paint { line_color: None, line_width: None, text_halo_width: None, text_halo_color: None }
    }
}

/// One renderable layer of a style document. `layer_type` names the rendering
/// mode ("line", "symbol", ...) and is written under the key `type`.
#[derive(Debug)]
pub struct Layer {
    pub id: String,
    pub layer_type: String,
    pub source: String,
    pub layout: Option<Layout>,
    pub paint: Option<Paint>,
}

pub struct LayerView {
    pub id: Seq<char>,
    pub layer_type: Seq<char>,
    pub source: Seq<char>,
    pub layout: Option<LayoutView>,
    pub paint: Option<PaintView>,
}

impl View for Layer {
    type V = LayerView;

    open spec fn view(&self) -> LayerView {
        LayerView {
            id: self.id@,
            layer_type: self.layer_type@,
            source: self.source@,
            layout: match self.layout {
                Some(l) => Some(l@),
                None => None,
            },
            paint: match self.paint {
                Some(p) => Some(p@),
                None => None,
            },
        }
    }
}

impl Clone for Layer {
    fn clone(&self) -> (r: Layer)
        ensures
            r@ == self@,
    {
        Layer {
            id: self.id.clone(),
            layer_type: self.layer_type.clone(),
            source: self.source.clone(),
            layout: match &self.layout {
                Some(l) => Some(l.clone()),
                None => None,
            },
            paint: match &self.paint {
                Some(p) => Some(p.clone()),
                None => None,
            },
        }
    }
}

impl Layer {
    /// A layer with the given identifier, type and source, and neither layout
    /// nor paint. Nothing is validated: any strings are accepted.
    pub fn new(id: &str, layer_type: &str, source: &str) -> (r: Layer)
        ensures
            r@ == (LayerView {
                id: id@,
                layer_type: layer_type@,
                source: source@,
                layout: None,
                paint: None,
            }),
    {
        Layer {
            id: id.to_string(),
            layer_type: layer_type.to_string(),
            source: source.to_string(),
            layout: None,
            paint: None,
        }
    }
}

} // verus!
