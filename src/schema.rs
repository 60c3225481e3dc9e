//! The schema of a record: parsing a declaration into fields with roles, and
//! analysing each field's optional storage type.
use crate::decl::{
    AttrBody, AttrModel, AttrBodyModel, Attribute, DeclModel, DeclShape, FieldDeclModel,
    RawField, RecordDecl, ShapeModel, TypeExpr, optional_inner, get_inner_type,
};
use vstd::prelude::*;

verus! {

/// Whether a field's value is publicly known when proofs are checked
/// (`Exposed`) or held by the prover alone (`Hidden`).
#[derive(Clone, Copy, Debug, PartialEq, Eq, Structural)]
pub enum Role {
    Exposed,
    Hidden,
}

/// Why a record declaration cannot be turned into artifacts.
pub enum SchemaError {
    /// The declaration is not a struct with named fields.
    UnsupportedShape,
    /// A `circuit` attribute on the named field is not in list form.
    InvalidAnnotation(String),
    /// The named field's type is not an optional wrapper around a path type.
    ExpectedOptionalField(String),
}

pub enum SchemaErrorModel {
    UnsupportedShape,
    InvalidAnnotation(Seq<char>),
    ExpectedOptionalField(Seq<char>),
}

impl View for SchemaError {
    type V = SchemaErrorModel;

    open spec fn view(&self) -> SchemaErrorModel {
        match self {
            SchemaError::UnsupportedShape => SchemaErrorModel::UnsupportedShape,
            SchemaError::InvalidAnnotation(n) => SchemaErrorModel::InvalidAnnotation(n@),
            SchemaError::ExpectedOptionalField(n) => SchemaErrorModel::ExpectedOptionalField(n@),
        }
    }
}

/// The parts of a record's signature that every artifact repeats unchanged.
pub struct RecordHeader {
    pub record_name: String,
    pub generics: String,
    pub where_clause: String,
}

pub struct HeaderModel {
    pub record_name: Seq<char>,
    pub generics: Seq<char>,
    pub where_clause: Seq<char>,
}

impl View for RecordHeader {
    type V = HeaderModel;

    open spec fn view(&self) -> HeaderModel {
        HeaderModel {
            record_name: self.record_name@,
            generics: self.generics@,
            where_clause: self.where_clause@,
        }
    }
}

impl RecordHeader {
    /// A copy of the header.
    pub fn duplicate(&self) -> (r: RecordHeader)
        ensures
            r@ == self@,
    {
        RecordHeader {
            record_name: self.record_name.clone(),
            generics: self.generics.clone(),
            where_clause: self.where_clause.clone(),
        }
    }
}

/// A field after parsing: its name, its declared type and its role.
pub struct ParsedField {
    pub name: String,
    pub ty: TypeExpr,
    pub role: Role,
}

pub struct ParsedFieldModel {
    pub name: Seq<char>,
    pub declared_type: Seq<char>,
    pub inner_type: Option<Seq<char>>,
    pub role: Role,
}

impl View for ParsedField {
    type V = ParsedFieldModel;

    open spec fn view(&self) -> ParsedFieldModel {
        ParsedFieldModel {
            name: self.name@,
            declared_type: self.ty.text@,
            inner_type: optional_inner(self.ty),
            role: self.role,
        }
    }
}

/// A parsed record: its header and its fields in declaration order.
pub struct ParsedSchema {
    pub header: RecordHeader,
    pub fields: Vec<ParsedField>,
}

pub struct ParsedModel {
    pub header: HeaderModel,
    pub fields: Seq<ParsedFieldModel>,
}

impl View for ParsedSchema {
    type V = ParsedModel;

    open spec fn view(&self) -> ParsedModel {
        ParsedModel {
            header: self.header@,
            fields: self.fields@.map_values(|f: ParsedField| f@),
        }
    }
}

/// A field descriptor: its name, its declared type, the type that the
/// declared type wraps, and its role.
pub struct FieldDescriptor {
    pub name: String,
    pub declared_type: String,
    pub inner_type: String,
    pub role: Role,
}

pub struct FieldModel {
    pub name: Seq<char>,
    pub declared_type: Seq<char>,
    pub inner_type: Seq<char>,
    pub role: Role,
}

impl View for FieldDescriptor {
    type V = FieldModel;

    open spec fn view(&self) -> FieldModel {
        FieldModel {
            name: self.name@,
            declared_type: self.declared_type@,
            inner_type: self.inner_type@,
            role: self.role,
        }
    }
}

/// A schema descriptor: the record's header and its field descriptors in
/// declaration order.
pub struct Schema {
    pub header: RecordHeader,
    pub fields: Vec<FieldDescriptor>,
}

pub struct SchemaModel {
    pub header: HeaderModel,
    pub fields: Seq<FieldModel>,
}

impl View for Schema {
    type V = SchemaModel;

    open spec fn view(&self) -> SchemaModel {
        SchemaModel { header: self.header@, fields: self.fields@.map_values(|f: FieldDescriptor| f@) }
    }
}

/// Whether the attribute is a `circuit` annotation.
pub open spec fn is_annotation(a: AttrModel) -> bool {
    a.path == "circuit"@
}

/// Whether some `circuit` annotation among `attrs` is not in list form.
pub open spec fn has_malformed_annotation(attrs: Seq<AttrModel>) -> bool {
    exists|k: int| 0 <= k < attrs.len() && is_annotation(#[trigger] attrs[k]) && !(attrs[k].body is List)
}

/// Whether some `circuit` annotation among `attrs` is `circuit(input)`.
pub open spec fn has_input_annotation(attrs: Seq<AttrModel>) -> bool {
    exists|k: int|
        0 <= k < attrs.len() && is_annotation(#[trigger] attrs[k]) && attrs[k].body
            == AttrBodyModel::List("input"@)
}

/// The role that a field's attributes give it: `None` where a `circuit`
/// annotation is not in list form, wherever it stands; otherwise exposed
/// where one of them is `circuit(input)`, and hidden where none is.
pub open spec fn role_of(attrs: Seq<AttrModel>) -> Option<Role> {
    if has_malformed_annotation(attrs) {
        None
    } else if has_input_annotation(attrs) {
        Some(Role::Exposed)
    } else {
        Some(Role::Hidden)
    }
}

/// The position of the first field from `i` on whose annotation is
/// malformed, or the number of fields where there is none.
pub open spec fn first_invalid_annotation(fs: Seq<FieldDeclModel>, i: int) -> int
    decreases fs.len() - i,
{
    if i < 0 || i >= fs.len() {
        fs.len() as int
    } else if role_of(fs[i].attrs) is None {
        i
    } else {
        first_invalid_annotation(fs, i + 1)
    }
}

/// The position of the first field from `i` on whose declared type is not an
/// optional wrapper, or the number of fields where there is none.
pub open spec fn first_non_optional(fs: Seq<ParsedFieldModel>, i: int) -> int
    decreases fs.len() - i,
{
    if i < 0 || i >= fs.len() {
        fs.len() as int
    } else if fs[i].inner_type is None {
        i
    } else {
        first_non_optional(fs, i + 1)
    }
}

pub open spec fn field_decl_models(fields: Seq<RawField>) -> Seq<FieldDeclModel> {
    fields.map_values(|f: RawField| f@)
}

pub open spec fn parsed_field_model(f: FieldDeclModel) -> ParsedFieldModel {
    ParsedFieldModel {
        name: f.name,
        declared_type: f.declared_type,
        inner_type: f.inner_type,
        role: role_of(f.attrs).unwrap(),
    }
}

/// What parsing a declaration gives: a named-field struct is accepted unless
/// a field's annotation is malformed, and the first such field is named.
pub open spec fn parse_model(d: DeclModel) -> Result<ParsedModel, SchemaErrorModel> {
    match d.shape {
        ShapeModel::NamedStruct(fs) => {
            let k = first_invalid_annotation(fs, 0);
            if k < fs.len() {
                Err(SchemaErrorModel::InvalidAnnotation(fs[k].name))
            } else {
                Ok(
                    ParsedModel {
                        header: HeaderModel {
                            record_name: d.record_name,
                            generics: d.generics,
                            where_clause: d.where_clause,
                        },
                        fields: fs.map_values(|f: FieldDeclModel| parsed_field_model(f)),
                    },
                )
            }
        },
        _ => Err(SchemaErrorModel::UnsupportedShape),
    }
}

pub open spec fn field_model(f: ParsedFieldModel) -> FieldModel {
    FieldModel {
        name: f.name,
        declared_type: f.declared_type,
        inner_type: f.inner_type.unwrap(),
        role: f.role,
    }
}

/// What analysing a parsed record gives: every field's inner type, unless a
/// declared type is not an optional wrapper, and the first such field is named.
pub open spec fn analyze_model(p: ParsedModel) -> Result<SchemaModel, SchemaErrorModel> {
    let k = first_non_optional(p.fields, 0);
    if k < p.fields.len() {
        Err(SchemaErrorModel::ExpectedOptionalField(p.fields[k].name))
    } else {
        Ok(
            SchemaModel {
                header: p.header,
                fields: p.fields.map_values(|f: ParsedFieldModel| field_model(f)),
            },
        )
    }
}

/// The role that a field's attributes give it, or `None` where a `circuit`
/// annotation is malformed.
pub fn field_role(attrs: &Vec<Attribute>) -> (r: Option<Role>)
    ensures
        r == role_of(attrs@.map_values(|a: Attribute| a@)),
{
    let ghost models = attrs@.map_values(|a: Attribute| a@);
    let circuit_word = "circuit".to_owned();
    let input_word = "input".to_owned();
    let mut exposed = false;
    let mut i: usize = 0;
    while i < attrs.len()
        invariant
            i <= attrs.len(),
            models == attrs@.map_values(|a: Attribute| a@),
            circuit_word@ == "circuit"@,
            input_word@ == "input"@,
            forall|k: int|
                0 <= k < i && is_annotation(#[trigger] models[k]) ==> models[k].body is List,
            exposed <==> exists|k: int|
                0 <= k < i && is_annotation(#[trigger] models[k]) && models[k].body
                    == AttrBodyModel::List("input"@),
        decreases attrs.len() - i,
    {
        let a = &attrs[i];
        assert(models[i as int] == a@);
        if a.path == circuit_word {
            match &a.body {
                AttrBody::List(tokens) => {
                    if *tokens == input_word {
                        exposed = true;
                    }
                },
                _ => {
                    assert(has_malformed_annotation(models));
                    return None;
                },
            }
        }
        i = i + 1;
    }
    if exposed {
        Some(Role::Exposed)
    } else {
        Some(Role::Hidden)
    }
}

/// A field without any `circuit` attribute is hidden.
pub proof fn lemma_unannotated_field_is_hidden(attrs: Seq<AttrModel>)
    requires
        forall|k: int| 0 <= k < attrs.len() ==> !is_annotation(#[trigger] attrs[k]),
    ensures
        role_of(attrs) == Some(Role::Hidden),
{
}

/// A field that carries the annotation `circuit(input)` is exposed, where
/// none of its `circuit` annotations is malformed.
pub proof fn lemma_input_annotation_is_exposed(attrs: Seq<AttrModel>, k: int)
    requires
        0 <= k < attrs.len(),
        attrs[k].path == "circuit"@,
        attrs[k].body == AttrBodyModel::List("input"@),
        !has_malformed_annotation(attrs),
    ensures
        role_of(attrs) == Some(Role::Exposed),
{
    assert(is_annotation(attrs[k]));
}

pub(crate) proof fn lemma_first_non_optional(fs: Seq<ParsedFieldModel>, i: int)
    requires
        0 <= i <= fs.len(),
    ensures
        i <= first_non_optional(fs, i) <= fs.len(),
        forall|j: int| i <= j < first_non_optional(fs, i) ==> #[trigger] fs[j].inner_type is Some,
        first_non_optional(fs, i) < fs.len() ==> fs[first_non_optional(fs, i)].inner_type is None,
    decreases fs.len() - i,
{
    if i < fs.len() && fs[i].inner_type is Some {
        lemma_first_non_optional(fs, i + 1);
    }
}

/// Whether no two of the declared fields share a name.
pub open spec fn decl_names_distinct(fs: Seq<FieldDeclModel>) -> bool {
    forall|i: int, j: int| 0 <= i < j < fs.len() ==> #[trigger] fs[i].name != #[trigger] fs[j].name
}

/// Whether no two of the parsed fields share a name.
pub open spec fn parsed_names_distinct(fs: Seq<ParsedFieldModel>) -> bool {
    forall|i: int, j: int| 0 <= i < j < fs.len() ==> #[trigger] fs[i].name != #[trigger] fs[j].name
}

/// Whether no two of the schema's fields share a name.
pub open spec fn names_distinct(fs: Seq<FieldModel>) -> bool {
    forall|i: int, j: int| 0 <= i < j < fs.len() ==> #[trigger] fs[i].name != #[trigger] fs[j].name
}

/// Whether the declaration is not a named-field struct, or one whose fields
/// have distinct names.
pub open spec fn decl_well_named(d: DeclModel) -> bool {
    match d.shape {
        ShapeModel::NamedStruct(fs) => decl_names_distinct(fs),
        _ => true,
    }
}

/// What parsing the fields `fs` gives: the field descriptors, or the name of
/// the first field whose annotation is malformed.
pub open spec fn field_info_result(
    fs: Seq<FieldDeclModel>,
    r: Result<Vec<ParsedField>, SchemaError>,
) -> bool {
    let k = first_invalid_annotation(fs, 0);
    match r {
        Ok(out) => {
            &&& k == fs.len()
            &&& out@.map_values(|f: ParsedField| f@) == fs.map_values(
                |f: FieldDeclModel| parsed_field_model(f),
            )
            &&& parsed_names_distinct(out@.map_values(|f: ParsedField| f@))
        },
        Err(e) => k < fs.len() && e@ == SchemaErrorModel::InvalidAnnotation(fs[k].name),
    }
}

/// Parses the fields of a named-field struct, in declaration order, giving
/// each its role. The first field whose annotation is malformed is named in
/// the error.
pub fn get_field_info(fields: Vec<RawField>) -> (r: Result<Vec<ParsedField>, SchemaError>)
    requires
        decl_names_distinct(field_decl_models(fields@)),
    ensures
        field_info_result(field_decl_models(fields@), r),
{
    let ghost orig = fields@;
    let ghost fs = field_decl_models(fields@);
    let len: usize = fields.len();
    let ghost n = len as int;
    let mut rest = fields;
    let mut out: Vec<ParsedField> = Vec::new();
    let mut i: usize = 0;
    while i < len
        invariant
            i <= n,
            i + rest@.len() == n,
            n == orig.len(),
            orig == fields@,
            n == len,
            fs.len() == n,
            fs == field_decl_models(orig),
            rest@ == orig.subrange(i as int, n),
            out@.len() == i,
            forall|j: int| 0 <= j < i ==> #[trigger] out@[j]@ == parsed_field_model(fs[j]),
            first_invalid_annotation(fs, 0) == first_invalid_annotation(fs, i as int),
        decreases len - i,
    {
        let f = rest.remove(0);
        assert(f == orig[i as int]);
        assert(fs[i as int] == f@);
        match field_role(&f.attrs) {
            None => {
                let e = SchemaError::InvalidAnnotation(f.name);
                return Err(e);
            },
            Some(role) => {
                out.push(ParsedField { name: f.name, ty: f.ty, role });
            },
        }
        assert(rest@ =~= orig.subrange(i + 1, n));
        i = i + 1;
    }
    assert(out@.map_values(|f: ParsedField| f@) =~= fs.map_values(
        |f: FieldDeclModel| parsed_field_model(f),
    ));
    Ok(out)
}

/// Parses a record declaration into its header and fields. Only a struct
/// with named fields is accepted.
pub fn parse_schema(decl: RecordDecl) -> (r: Result<ParsedSchema, SchemaError>)
    requires
        decl_well_named(decl@),
    ensures
        match r {
            Ok(p) => parse_model(decl@) == Ok::<ParsedModel, SchemaErrorModel>(p@),
            Err(e) => parse_model(decl@) == Err::<ParsedModel, SchemaErrorModel>(e@),
        },
        r matches Ok(p) ==> parsed_names_distinct(p@.fields),
{
    let ghost d = decl@;
    let header = RecordHeader {
        record_name: decl.record_name,
        generics: decl.generics,
        where_clause: decl.where_clause,
    };
    match decl.shape {
        DeclShape::NamedStruct(fields) => {
            let fields = get_field_info(fields)?;
            let r = ParsedSchema { header, fields };
            assert(parse_model(d) == Ok::<ParsedModel, SchemaErrorModel>(r@));
            Ok(r)
        },
        _ => Err(SchemaError::UnsupportedShape),
    }
}

/// Gives every parsed field the type that its declared type wraps. The first
/// field whose declared type is not an optional wrapper is named in the error.
pub fn analyze_schema(parsed: &ParsedSchema) -> (r: Result<Schema, SchemaError>)
    requires
        parsed_names_distinct(parsed@.fields),
    ensures
        r matches Ok(s) ==> names_distinct(s@.fields),
        match r {
            Ok(s) => analyze_model(parsed@) == Ok::<SchemaModel, SchemaErrorModel>(s@),
            Err(e) => analyze_model(parsed@) == Err::<SchemaModel, SchemaErrorModel>(e@),
        },
{
    let ghost fs = parsed@.fields;
    let mut out: Vec<FieldDescriptor> = Vec::new();
    let mut i: usize = 0;
    while i < parsed.fields.len()
        invariant
            i <= parsed.fields@.len(),
            fs == parsed.fields@.map_values(|f: ParsedField| f@),
            out@.len() == i,
            forall|j: int| 0 <= j < i ==> #[trigger] out@[j]@ == field_model(fs[j]),
            first_non_optional(fs, 0) == first_non_optional(fs, i as int),
        decreases parsed.fields.len() - i,
    {
        let f = &parsed.fields[i];
        assert(fs[i as int] == f@);
        match get_inner_type(&f.ty) {
            None => {
                return Err(SchemaError::ExpectedOptionalField(f.name.clone()));
            },
            Some(inner) => {
                out.push(
                    FieldDescriptor {
                        name: f.name.clone(),
                        declared_type: f.ty.text.clone(),
                        inner_type: inner,
                        role: f.role,
                    },
                );
            },
        }
        i = i + 1;
    }
    let s = Schema { header: parsed.header.duplicate(), fields: out };
    assert(s@.fields =~= fs.map_values(|f: ParsedFieldModel| field_model(f)));
    Ok(s)
}

} // verus!
