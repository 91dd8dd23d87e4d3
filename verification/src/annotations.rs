//! The encoder for an annotation dictionary, and the owning encoder for
//! the annotations array of a page.

use vstd::prelude::*;

use crate::action::Action;
use crate::border::BorderStyle;
use crate::filespec::FileSpec;
use crate::flags::AnnotationFlags;
use crate::sink::real_items;
use crate::sink::real_array;
use crate::sink::ArraySink;
use crate::sink::DictSink;
use crate::tokens::AnnotationIcon;
use crate::tokens::AnnotationType;
use crate::tokens::HighlightEffect;
use crate::value::last_write;
use crate::value::dict_obj;
use crate::value::items_obj;
use crate::value::Date;
use crate::value::Key;
use crate::value::Name;
use crate::value::ObjValue;
use crate::value::Pair;
use crate::value::Real;
use crate::value::TextStr;
use crate::value::Value;

verus! {

/// The location and dimensions of an annotation on the page: two corners
/// of its bounding box, passed through as supplied, without
/// normalization.
#[derive(Debug, Clone, Copy, PartialEq, Eq, Structural, Hash)]
pub struct Rect {
    pub x1: Real,
    pub y1: Real,
    pub x2: Real,
    pub y2: Real,
}

/// The model of a rectangle write: its four bounds as a numeric array.
pub open spec fn rect_items(rect: Rect) -> Seq<ObjValue> {
    seq![
        ObjValue::Real(rect.x1.bits),
        ObjValue::Real(rect.y1.bits),
        ObjValue::Real(rect.x2.bits),
        ObjValue::Real(rect.y2.bits),
    ]
}

/// The model of a border write: the two radii and the width, and, only
/// when a dash pattern was supplied, a fourth element holding the nested
/// dash array.
pub open spec fn border_items(h_radius: Real, v_radius: Real, width: Real, dash_pattern: Option<
    Seq<Real>,
>) -> Seq<ObjValue> {
    let bare = seq![
        ObjValue::Real(h_radius.bits),
        ObjValue::Real(v_radius.bits),
        ObjValue::Real(width.bits),
    ];
    match dash_pattern {
        Option::None => bare,
        Option::Some(dashes) => bare.push(ObjValue::Array(real_items(dashes))),
    }
}

/// Law: a border write holds exactly three numeric elements, and with a
/// dash pattern exactly four, the fourth being the nested array of the
/// dash and gap lengths; omitting the pattern omits the fourth element
/// entirely.
pub proof fn lemma_border_items_shape(
    h_radius: Real,
    v_radius: Real,
    width: Real,
    dash_pattern: Option<Seq<Real>>,
)
    ensures
        dash_pattern is None ==> border_items(h_radius, v_radius, width, dash_pattern).len() == 3,
        dash_pattern matches Option::Some(dashes) ==> {
            let written = border_items(h_radius, v_radius, width, dash_pattern);
            &&& written.len() == 4
            &&& written[3] == ObjValue::Array(real_items(dashes))
            &&& real_items(dashes).len() == dashes.len()
        },
        border_items(h_radius, v_radius, width, dash_pattern)[0] == ObjValue::Real(h_radius.bits),
        border_items(h_radius, v_radius, width, dash_pattern)[1] == ObjValue::Real(v_radius.bits),
        border_items(h_radius, v_radius, width, dash_pattern)[2] == ObjValue::Real(width.bits),
{
}

/// Encoder for one annotation dictionary.
///
/// Construction writes the fixed type discriminator. Every setter appends
/// exactly one entry — a scalar, a numeric array, or a nested compound
/// value committed whole — and a later write for the same key is the
/// authoritative one ([`last_write`]). Which setters are semantically
/// valid depends on the annotation kind set with [`Annotation::subtype`];
/// that is a documented precondition of the consumer, not checked here.
pub struct Annotation {
    dict: DictSink,
}

impl View for Annotation {
    type V = Seq<(Key, ObjValue)>;

    closed spec fn view(&self) -> Seq<(Key, ObjValue)> {
        self.dict@
    }
}

impl Annotation {
    /// Opens an annotation dictionary, writing its type discriminator.
    pub fn new() -> (encoder: Annotation)
        ensures
            encoder@ == seq![(Key::Type, ObjValue::Name("Annot"@))],
    {
        let mut dict = DictSink::new();
        dict.write_pair(Key::Type, Value::Name(Name("Annot".to_owned())));
        Annotation { dict }
    }

    /// Writes the annotation kind, telling the viewer the type of this
    /// particular annotation.
    pub fn subtype(&mut self, kind: AnnotationType)
        ensures
            final(self)@ == old(self)@.push((Key::Subtype, ObjValue::Name(kind.token()))),
    {
        self.dict.write_pair(Key::Subtype, Value::Name(Name(kind.to_token().to_owned())));
    }

    /// Writes the location and dimensions of the annotation on the page,
    /// as the four bounds in the order supplied.
    pub fn rect(&mut self, rect: Rect)
        ensures
            final(self)@ == old(self)@.push((Key::Rect, ObjValue::Array(rect_items(rect)))),
    {
        let mut array = ArraySink::new();
        array.write_item(Value::Real(rect.x1));
        array.write_item(Value::Real(rect.y1));
        array.write_item(Value::Real(rect.x2));
        array.write_item(Value::Real(rect.y2));
        proof {
            assert(array@ =~= rect_items(rect));
        }
        let value = array.finish();
        self.dict.write_pair(Key::Rect, value);
    }

    /// Writes the content or alt-text, depending on the annotation kind.
    pub fn contents(&mut self, text: TextStr)
        ensures
            final(self)@ == old(self)@.push((Key::Contents, ObjValue::Text(text.0@))),
    {
        self.dict.write_pair(Key::Contents, Value::Text(text));
    }

    /// Writes the text that uniquely identifies the annotation on the
    /// page.
    pub fn name(&mut self, text: TextStr)
        ensures
            final(self)@ == old(self)@.push((Key::NM, ObjValue::Text(text.0@))),
    {
        self.dict.write_pair(Key::NM, Value::Text(text));
    }

    /// Writes the date the annotation was last modified.
    pub fn modified(&mut self, date: Date)
        ensures
            final(self)@ == old(self)@.push((Key::M, ObjValue::Date(date))),
    {
        self.dict.write_pair(Key::M, Value::Date(date));
    }

    /// Writes the flag set's integer bit pattern.
    pub fn flags(&mut self, flags: AnnotationFlags)
        ensures
            final(self)@ == old(self)@.push((Key::F, ObjValue::Int(flags@ as int))),
    {
        let bits = flags.bits();
        self.dict.write_pair(Key::F, Value::Int(bits as i64));
    }

    /// Writes the look of the border around the annotation: its two
    /// radii and its width, and, when supplied, the dash pattern of a
    /// dashed border as a nested array of dash and gap lengths. Without
    /// a pattern the array holds exactly the three numbers.
    pub fn border(&mut self, h_radius: Real, v_radius: Real, width: Real, dash_pattern: Option<
        Vec<Real>,
    >)
        ensures
            dash_pattern is None ==> final(self)@ == old(self)@.push(
                (Key::Border, ObjValue::Array(border_items(h_radius, v_radius, width, Option::None))),
            ),
            dash_pattern matches Option::Some(dashes) ==> final(self)@ == old(self)@.push(
                (
                    Key::Border,
                    ObjValue::Array(border_items(h_radius, v_radius, width, Option::Some(dashes@))),
                ),
            ),
    {
        let mut array = ArraySink::new();
        array.write_item(Value::Real(h_radius));
        array.write_item(Value::Real(v_radius));
        array.write_item(Value::Real(width));
        match dash_pattern {
            Option::None => {
                proof {
                    assert(array@ =~= border_items(h_radius, v_radius, width, Option::None));
                }
            },
            Option::Some(dashes) => {
                let nested = real_array(&dashes);
                array.write_item(nested);
                proof {
                    assert(array@ =~= border_items(
                        h_radius,
                        v_radius,
                        width,
                        Option::Some(dashes@),
                    ));
                }
            },
        }
        let value = array.finish();
        self.dict.write_pair(Key::Border, value);
    }

    /// Writes the elaborate border settings that take precedence over the
    /// plain border entry for some annotation kinds, as a finished border
    /// style dictionary.
    pub fn border_style(&mut self, style: BorderStyle)
        ensures
            final(self)@ == old(self)@.push((Key::BS, ObjValue::Dict(style@))),
    {
        let value = style.finish();
        self.dict.write_pair(Key::BS, value);
    }

    /// Writes an explicitly transparent color — an empty numeric array,
    /// distinct from leaving the color unspecified. This sets the
    /// annotation's background color and its popup title bar color.
    pub fn color_transparent(&mut self)
        ensures
            final(self)@ == old(self)@.push(
                (Key::C, ObjValue::Array(Seq::<ObjValue>::empty())),
            ),
    {
        let array = ArraySink::new();
        let value = array.finish();
        self.dict.write_pair(Key::C, value);
    }

    /// Writes a grayscale color: a one-component numeric array. This sets
    /// the annotation's background color and its popup title bar color.
    pub fn color_gray(&mut self, gray: Real)
        ensures
            final(self)@ == old(self)@.push(
                (Key::C, ObjValue::Array(seq![ObjValue::Real(gray.bits)])),
            ),
    {
        let mut array = ArraySink::new();
        array.write_item(Value::Real(gray));
        let value = array.finish();
        self.dict.write_pair(Key::C, value);
    }

    /// Writes an RGB color: a three-component numeric array. This sets
    /// the annotation's background color and its popup title bar color.
    pub fn color_rgb(&mut self, r: Real, g: Real, b: Real)
        ensures
            final(self)@ == old(self)@.push(
                (
                    Key::C,
                    ObjValue::Array(
                        seq![ObjValue::Real(r.bits), ObjValue::Real(g.bits), ObjValue::Real(b.bits)],
                    ),
                ),
            ),
    {
        let mut array = ArraySink::new();
        array.write_item(Value::Real(r));
        array.write_item(Value::Real(g));
        array.write_item(Value::Real(b));
        proof {
            assert(array@ =~= seq![
                ObjValue::Real(r.bits),
                ObjValue::Real(g.bits),
                ObjValue::Real(b.bits),
            ]);
        }
        let value = array.finish();
        self.dict.write_pair(Key::C, value);
    }

    /// Writes a CMYK color: a four-component numeric array. This sets the
    /// annotation's background color and its popup title bar color. The
    /// component count alone tells the color spaces apart.
    pub fn color_cmyk(&mut self, c: Real, m: Real, y: Real, k: Real)
        ensures
            final(self)@ == old(self)@.push(
                (
                    Key::C,
                    ObjValue::Array(
                        seq![
                            ObjValue::Real(c.bits),
                            ObjValue::Real(m.bits),
                            ObjValue::Real(y.bits),
                            ObjValue::Real(k.bits),
                        ],
                    ),
                ),
            ),
    {
        let mut array = ArraySink::new();
        array.write_item(Value::Real(c));
        array.write_item(Value::Real(m));
        array.write_item(Value::Real(y));
        array.write_item(Value::Real(k));
        proof {
            assert(array@ =~= seq![
                ObjValue::Real(c.bits),
                ObjValue::Real(m.bits),
                ObjValue::Real(y.bits),
                ObjValue::Real(k.bits),
            ]);
        }
        let value = array.finish();
        self.dict.write_pair(Key::C, value);
    }

    /// Writes the action to perform, as a finished action dictionary.
    /// Only meaningful when the annotation kind is the link variant; that
    /// is a documented precondition, not checked here.
    pub fn action(&mut self, action: Action)
        ensures
            final(self)@ == old(self)@.push((Key::A, ObjValue::Dict(action@))),
    {
        let value = action.finish();
        self.dict.write_pair(Key::A, value);
    }

    /// Writes the effect used to convey that the user is pressing a link
    /// annotation, as its table token. Only meaningful for the link
    /// variant.
    pub fn highlight(&mut self, effect: HighlightEffect)
        ensures
            final(self)@ == old(self)@.push((Key::H, ObjValue::Name(effect.token()))),
    {
        self.dict.write_pair(Key::H, Value::Name(Name(effect.to_token().to_owned())));
    }

    /// Writes the annotation author's name, shown in the title bar of
    /// markup annotations.
    pub fn author(&mut self, text: TextStr)
        ensures
            final(self)@ == old(self)@.push((Key::T, ObjValue::Text(text.0@))),
    {
        self.dict.write_pair(Key::T, Value::Text(text));
    }

    /// Writes the subject of the annotation.
    pub fn subject(&mut self, text: TextStr)
        ensures
            final(self)@ == old(self)@.push((Key::Subj, ObjValue::Text(text.0@))),
    {
        self.dict.write_pair(Key::Subj, Value::Text(text));
    }

    /// Writes the region in which a link should be activated, as one flat
    /// numeric array. By convention its length is a multiple of eight —
    /// two coordinates for each corner of each quadrilateral — but no
    /// length validation is performed here.
    pub fn quad_points(&mut self, coordinates: Vec<Real>)
        ensures
            final(self)@ == old(self)@.push(
                (Key::QuadPoints, ObjValue::Array(real_items(coordinates@))),
            ),
    {
        let value = real_array(&coordinates);
        self.dict.write_pair(Key::QuadPoints, value);
    }

    /// Writes the start and end point of a line annotation, as a
    /// four-component numeric array.
    pub fn line_to(&mut self, x1: Real, y1: Real, x2: Real, y2: Real)
        ensures
            final(self)@ == old(self)@.push(
                (
                    Key::LL,
                    ObjValue::Array(
                        seq![
                            ObjValue::Real(x1.bits),
                            ObjValue::Real(y1.bits),
                            ObjValue::Real(x2.bits),
                            ObjValue::Real(y2.bits),
                        ],
                    ),
                ),
            ),
    {
        let mut array = ArraySink::new();
        array.write_item(Value::Real(x1));
        array.write_item(Value::Real(y1));
        array.write_item(Value::Real(x2));
        array.write_item(Value::Real(y2));
        proof {
            assert(array@ =~= seq![
                ObjValue::Real(x1.bits),
                ObjValue::Real(y1.bits),
                ObjValue::Real(x2.bits),
                ObjValue::Real(y2.bits),
            ]);
        }
        let value = array.finish();
        self.dict.write_pair(Key::LL, value);
    }

    /// Writes which file the annotation references, as a finished file
    /// specification.
    pub fn file(&mut self, file_spec: FileSpec)
        ensures
            final(self)@ == old(self)@.push((Key::FS, ObjValue::Dict(file_spec@))),
    {
        let value = file_spec.finish();
        self.dict.write_pair(Key::FS, value);
    }

    /// Writes the icon entry with one of the predefined icon names. Which
    /// names are allowed for which annotation kinds is the consumer's
    /// concern.
    pub fn icon_predefined(&mut self, icon: AnnotationIcon)
        ensures
            final(self)@ == old(self)@.push((Key::Name, ObjValue::Name(icon.token()))),
    {
        self.dict.write_pair(Key::Name, Value::Name(Name(icon.to_token().to_owned())));
    }

    /// Writes the icon entry with a custom icon name. It shares its key
    /// with [`Annotation::icon_predefined`]: the later of the two writes
    /// is the authoritative one.
    pub fn icon_custom(&mut self, name: Name)
        ensures
            final(self)@ == old(self)@.push((Key::Name, ObjValue::Name(name.0@))),
    {
        self.dict.write_pair(Key::Name, Value::Name(name));
    }

    /// The entries written so far, in call order.
    pub fn pairs(&self) -> (pairs: &Vec<Pair>)
        ensures
            dict_obj(pairs@) == self@,
    {
        self.dict.pairs()
    }

    /// The authoritative value of a key: the last write for it, if any.
    pub fn lookup(&self, key: Key) -> (found: Option<&Value>)
        ensures
            match found {
                Some(value) => last_write(self@, key) == Some(value.obj()),
                None => last_write(self@, key) is None,
            },
    {
        self.dict.lookup(key)
    }

    /// Finalizes the encoder: its dictionary becomes one immutable value
    /// for the parent slot.
    pub fn finish(self) -> (value: Value)
        ensures
            value.obj() == ObjValue::Dict(self@),
    {
        self.dict.finish()
    }
}

/// Encoder for the annotations array of a page: it owns the array-shaped
/// slot and takes one finished annotation per element.
///
/// Elements are strictly appended, in call order. An annotation is passed
/// by value, so it must be complete before it is pushed and can never be
/// touched again afterwards: writing into an element after a later
/// element has begun is an ownership error the compiler rejects, not a
/// silent corruption.
pub struct Annotations {
    array: ArraySink,
}

impl View for Annotations {
    type V = Seq<ObjValue>;

    closed spec fn view(&self) -> Seq<ObjValue> {
        self.array@
    }
}

impl Annotations {
    /// Opens an empty annotations array.
    pub fn new() -> (encoder: Annotations)
        ensures
            encoder@ == Seq::<ObjValue>::empty(),
    {
        Annotations { array: ArraySink::new() }
    }

    /// Appends one finished annotation at the next array position. Every
    /// element already present keeps its position and its content.
    pub fn push(&mut self, annotation: Annotation)
        ensures
            final(self)@ == old(self)@.push(ObjValue::Dict(annotation@)),
    {
        let value = annotation.finish();
        self.array.write_item(value);
    }

    /// The elements written so far, in order.
    pub fn items(&self) -> (items: &Vec<Value>)
        ensures
            items_obj(items@) == self@,
    {
        self.array.items()
    }

    /// Finalizes the collection: the array becomes one immutable value.
    pub fn finish(self) -> (value: Value)
        ensures
            value.obj() == ObjValue::Array(self@),
    {
        self.array.finish()
    }
}

/// Law: pushing two annotations in turn keeps the collection's earlier
/// elements untouched and in place, and appends the two, in call order,
/// behind them.
pub proof fn lemma_push_preserves_order(
    before: Seq<ObjValue>,
    first: Seq<(Key, ObjValue)>,
    second: Seq<(Key, ObjValue)>,
)
    ensures
        ({
            let after = before.push(ObjValue::Dict(first)).push(ObjValue::Dict(second));
            &&& after.len() == before.len() + 2
            &&& forall|i: int| 0 <= i < before.len() ==> after[i] == before[i]
            &&& after[before.len() as int] == ObjValue::Dict(first)
            &&& after[before.len() as int + 1] == ObjValue::Dict(second)
        }),
{
}

} // verus!
