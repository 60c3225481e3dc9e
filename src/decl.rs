//! The raw record declaration that the generator consumes: the shape of the
//! declared type, its fields, their attributes and their written types.
use vstd::prelude::*;

verus! {

/// A generic argument inside angle brackets: a type, or anything else
/// (a lifetime, a constant, an associated binding).
pub enum GenericArg {
    Type(TypeExpr),
    Other,
}

/// The arguments that follow one segment of a path.
pub enum PathArgs {
    /// No arguments: `Vec`.
    Plain,
    /// Angle-bracketed arguments: `Option<F>`.
    Angle(Vec<GenericArg>),
    /// Parenthesized arguments: `Fn(u8) -> u8`.
    Paren,
}

/// One segment of a type path, such as `Option<F>` in `std::option::Option<F>`.
pub struct PathSegment {
    pub ident: String,
    pub args: PathArgs,
}

/// The structure of a written type, as far as the generator looks into it.
pub enum TypeShape {
    /// A path type, by its segments.
    Path(Vec<PathSegment>),
    /// Any other type: a reference, a tuple, an array.
    Other,
}

/// A written type: its source text, which the emitted code repeats, and
/// its structure.
pub struct TypeExpr {
    pub text: String,
    pub shape: TypeShape,
}

/// The body of an attribute.
pub enum AttrBody {
    /// `#[path]`
    Word,
    /// `#[path(tokens)]`, with the tokens as text.
    List(String),
    /// `#[path = value]`, with the value as text.
    NameValue(String),
}

/// An attribute attached to a field: its path as text (`circuit`) and its body.
pub struct Attribute {
    pub path: String,
    pub body: AttrBody,
}

/// A field of a named-field record as declared.
pub struct RawField {
    pub name: String,
    pub ty: TypeExpr,
    pub attrs: Vec<Attribute>,
}

/// The shape of a declared type.
pub enum DeclShape {
    /// A struct with named fields, in declaration order.
    NamedStruct(Vec<RawField>),
    /// A struct with positional fields.
    TupleStruct,
    /// A struct without fields.
    UnitStruct,
    /// A choice type.
    Enum,
    /// A union.
    Union,
}

/// A record declaration: its name, its generic parameters and where clause
/// as text, and its shape.
pub struct RecordDecl {
    pub record_name: String,
    pub generics: String,
    pub where_clause: String,
    pub shape: DeclShape,
}

pub enum AttrBodyModel {
    Word,
    List(Seq<char>),
    NameValue(Seq<char>),
}

pub struct AttrModel {
    pub path: Seq<char>,
    pub body: AttrBodyModel,
}

/// What the generator reads of a declared field. `inner_type` is the text of
/// the type wrapped by an optional wrapper, or `None` where the declared type
/// is not one.
pub struct FieldDeclModel {
    pub name: Seq<char>,
    pub attrs: Seq<AttrModel>,
    pub declared_type: Seq<char>,
    pub inner_type: Option<Seq<char>>,
}

pub enum ShapeModel {
    NamedStruct(Seq<FieldDeclModel>),
    TupleStruct,
    UnitStruct,
    Enum,
    Union,
}

pub struct DeclModel {
    pub record_name: Seq<char>,
    pub generics: Seq<char>,
    pub where_clause: Seq<char>,
    pub shape: ShapeModel,
}

/// The type wrapped by an optional wrapper: the last segment of a path type
/// is named `Option` and has a single angle-bracketed argument, which is a
/// type. The result is that argument's text.
pub open spec fn optional_inner(ty: TypeExpr) -> Option<Seq<char>> {
    match ty.shape {
        TypeShape::Path(segs) => {
            if segs@.len() > 0 && segs@.last().ident@ == "Option"@ {
                match segs@.last().args {
                    PathArgs::Angle(args) => {
                        if args@.len() == 1 {
                            match args@[0] {
                                GenericArg::Type(inner) => Some(inner.text@),
                                GenericArg::Other => None,
                            }
                        } else {
                            None
                        }
                    },
                    _ => None,
                }
            } else {
                None
            }
        },
        TypeShape::Other => None,
    }
}

impl View for Attribute {
    type V = AttrModel;

    open spec fn view(&self) -> AttrModel {
        AttrModel {
            path: self.path@,
            body: match self.body {
                AttrBody::Word => AttrBodyModel::Word,
                AttrBody::List(t) => AttrBodyModel::List(t@),
                AttrBody::NameValue(v) => AttrBodyModel::NameValue(v@),
            },
        }
    }
}

impl View for RawField {
    type V = FieldDeclModel;

    open spec fn view(&self) -> FieldDeclModel {
        FieldDeclModel {
            name: self.name@,
            attrs: self.attrs@.map_values(|a: Attribute| a@),
            declared_type: self.ty.text@,
            inner_type: optional_inner(self.ty),
        }
    }
}

impl View for RecordDecl {
    type V = DeclModel;

    open spec fn view(&self) -> DeclModel {
        DeclModel {
            record_name: self.record_name@,
            generics: self.generics@,
            where_clause: self.where_clause@,
            shape: match self.shape {
                DeclShape::NamedStruct(fields) => ShapeModel::NamedStruct(
                    fields@.map_values(|f: RawField| f@),
                ),
                DeclShape::TupleStruct => ShapeModel::TupleStruct,
                DeclShape::UnitStruct => ShapeModel::UnitStruct,
                DeclShape::Enum => ShapeModel::Enum,
                DeclShape::Union => ShapeModel::Union,
            },
        }
    }
}

/// The text of the type that `ty` wraps, where `ty` is an optional wrapper.
pub fn get_inner_type(ty: &TypeExpr) -> (r: Option<String>)
    ensures
        r matches Some(s) ==> optional_inner(*ty) == Some(s@),
        r is None ==> optional_inner(*ty) is None,
{
    match &ty.shape {
        TypeShape::Path(segs) => {
            if segs.len() == 0 {
                return None;
            }
            let seg = &segs[segs.len() - 1];
            let option_word = "Option".to_owned();
            if seg.ident != option_word {
                return None;
            }
            match &seg.args {
                PathArgs::Angle(args) => {
                    if args.len() != 1 {
                        return None;
                    }
                    match &args[0] {
                        GenericArg::Type(inner) => Some(inner.text.clone()),
                        GenericArg::Other => None,
                    }
                },
                _ => None,
            }
        },
        TypeShape::Other => None,
    }
}

} // verus!
