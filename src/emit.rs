//! The three artifacts emitted from a schema: the allocation routine, the
//! builder type and the witness extraction, and the pipeline that produces
//! them from a record declaration.
use crate::decl::RecordDecl;
use crate::decl::DeclModel;
use crate::schema::{
    HeaderModel, RecordHeader, Role, Schema, SchemaError, SchemaErrorModel, SchemaModel,
    FieldModel, analyze_model, analyze_schema, parse_model, parse_schema, first_non_optional,
    lemma_first_non_optional, role_of, decl_well_named,
};

use vstd::prelude::*;

verus! {

/// One registration statement of the allocation routine: the field whose
/// current value is registered, as a public input where the field is
/// exposed and as a private variable where it is hidden.
pub struct Registration {
    pub field: String,
    pub role: Role,
}

pub struct RegistrationModel {
    pub field: Seq<char>,
    pub role: Role,
}

impl View for Registration {
    type V = RegistrationModel;

    open spec fn view(&self) -> RegistrationModel {
        RegistrationModel { field: self.field@, role: self.role }
    }
}

/// The allocation routine: one registration per field, in the order in
/// which the constraint system is to number them.
pub struct AllocationRoutine {
    pub header: RecordHeader,
    pub registrations: Vec<Registration>,
}

pub struct AllocationModel {
    pub header: HeaderModel,
    pub registrations: Seq<RegistrationModel>,
}

impl View for AllocationRoutine {
    type V = AllocationModel;

    open spec fn view(&self) -> AllocationModel {
        AllocationModel {
            header: self.header@,
            registrations: self.registrations@.map_values(|r: Registration| r@),
        }
    }
}

/// One slot of the builder: the field, its optional storage type, the type
/// its setter takes, and the message its completeness check fails with.
pub struct Slot {
    pub field: String,
    pub declared_type: String,
    pub inner_type: String,
    pub missing_message: String,
}

pub struct SlotModel {
    pub field: Seq<char>,
    pub declared_type: Seq<char>,
    pub inner_type: Seq<char>,
    pub missing_message: Seq<char>,
}

impl View for Slot {
    type V = SlotModel;

    open spec fn view(&self) -> SlotModel {
        SlotModel {
            field: self.field@,
            declared_type: self.declared_type@,
            inner_type: self.inner_type@,
            missing_message: self.missing_message@,
        }
    }
}

/// The builder type: its name, and one slot per field in declaration order,
/// which is also the order in which `build` checks them.
pub struct BuilderType {
    pub name: String,
    pub header: RecordHeader,
    pub slots: Vec<Slot>,
}

pub struct BuilderModel {
    pub name: Seq<char>,
    pub header: HeaderModel,
    pub slots: Seq<SlotModel>,
}

impl View for BuilderType {
    type V = BuilderModel;

    open spec fn view(&self) -> BuilderModel {
        BuilderModel {
            name: self.name@,
            header: self.header@,
            slots: self.slots@.map_values(|s: Slot| s@),
        }
    }
}

/// The witness extraction: the fields whose values it lists, in order.
pub struct WitnessRoutine {
    pub header: RecordHeader,
    pub fields: Vec<String>,
}

pub struct WitnessModel {
    pub header: HeaderModel,
    pub fields: Seq<Seq<char>>,
}

impl View for WitnessRoutine {
    type V = WitnessModel;

    open spec fn view(&self) -> WitnessModel {
        WitnessModel { header: self.header@, fields: self.fields@.map_values(|f: String| f@) }
    }
}

/// The three artifacts generated for one record.
pub struct Artifacts {
    pub allocation: AllocationRoutine,
    pub builder: BuilderType,
    pub witness: WitnessRoutine,
}

pub struct ArtifactsModel {
    pub allocation: AllocationModel,
    pub builder: BuilderModel,
    pub witness: WitnessModel,
}

impl View for Artifacts {
    type V = ArtifactsModel;

    open spec fn view(&self) -> ArtifactsModel {
        ArtifactsModel {
            allocation: self.allocation@,
            builder: self.builder@,
            witness: self.witness@,
        }
    }
}

/// The message with which building fails when the named field is unset.
pub open spec fn missing_message(field: Seq<char>) -> Seq<char> {
    field + " field is missing"@
}

pub open spec fn allocation_model(s: SchemaModel) -> AllocationModel {
    AllocationModel {
        header: s.header,
        registrations: s.fields.map_values(
            |f: FieldModel| RegistrationModel { field: f.name, role: f.role },
        ),
    }
}

pub open spec fn slot_model(f: FieldModel) -> SlotModel {
    SlotModel {
        field: f.name,
        declared_type: f.declared_type,
        inner_type: f.inner_type,
        missing_message: missing_message(f.name),
    }
}

pub open spec fn builder_model(s: SchemaModel) -> BuilderModel {
    BuilderModel {
        name: s.header.record_name + "Builder"@,
        header: s.header,
        slots: s.fields.map_values(|f: FieldModel| slot_model(f)),
    }
}

pub open spec fn witness_model(s: SchemaModel) -> WitnessModel {
    WitnessModel { header: s.header, fields: s.fields.map_values(|f: FieldModel| f.name) }
}

/// What generation gives for a declaration: the parser's or the analyser's
/// error, or the three artifacts of the schema.
pub open spec fn derive_model(d: DeclModel) -> Result<ArtifactsModel, SchemaErrorModel> {
    match parse_model(d) {
        Err(e) => Err(e),
        Ok(p) => match analyze_model(p) {
            Err(e) => Err(e),
            Ok(s) => Ok(
                ArtifactsModel {
                    allocation: allocation_model(s),
                    builder: builder_model(s),
                    witness: witness_model(s),
                },
            ),
        },
    }
}

/// The allocation routine of a schema: one registration per field, in
/// field order, with the field's role.
pub fn emit_allocation(schema: &Schema) -> (r: AllocationRoutine)
    ensures
        r@ == allocation_model(schema@),
{
    let ghost fs = schema@.fields;
    let mut regs: Vec<Registration> = Vec::new();
    let mut i: usize = 0;
    while i < schema.fields.len()
        invariant
            i <= schema.fields@.len(),
            fs == schema@.fields,
            regs@.len() == i,
            forall|j: int|
                0 <= j < i ==> #[trigger] regs@[j]@ == (RegistrationModel {
                    field: fs[j].name,
                    role: fs[j].role,
                }),
        decreases schema.fields.len() - i,
    {
        let f = &schema.fields[i];
        assert(fs[i as int] == f@);
        regs.push(Registration { field: f.name.clone(), role: f.role });
        i = i + 1;
    }
    let r = AllocationRoutine { header: schema.header.duplicate(), registrations: regs };
    assert(r@.registrations =~= allocation_model(schema@).registrations);
    r
}

/// The builder type of a schema: named after the record with `Builder`
/// appended, with one slot per field in field order.
pub fn emit_builder(schema: &Schema) -> (r: BuilderType)
    ensures
        r@ == builder_model(schema@),
{
    let ghost fs = schema@.fields;
    let mut slots: Vec<Slot> = Vec::new();
    let mut i: usize = 0;
    while i < schema.fields.len()
        invariant
            i <= schema.fields@.len(),
            fs == schema@.fields,
            slots@.len() == i,
            forall|j: int| 0 <= j < i ==> #[trigger] slots@[j]@ == slot_model(fs[j]),
        decreases schema.fields.len() - i,
    {
        let f = &schema.fields[i];
        assert(fs[i as int] == f@);
        slots.push(
            Slot {
                field: f.name.clone(),
                declared_type: f.declared_type.clone(),
                inner_type: f.inner_type.clone(),
                missing_message: f.name.clone().concat(" field is missing"),
            },
        );
        i = i + 1;
    }
    let name = schema.header.record_name.clone().concat("Builder");
    let r = BuilderType { name, header: schema.header.duplicate(), slots };
    assert(r@.slots =~= builder_model(schema@).slots);
    r
}

/// The witness extraction of a schema: every field, in field order,
/// whatever its role.
pub fn emit_witness(schema: &Schema) -> (r: WitnessRoutine)
    ensures
        r@ == witness_model(schema@),
{
    let ghost fs = schema@.fields;
    let mut names: Vec<String> = Vec::new();
    let mut i: usize = 0;
    while i < schema.fields.len()
        invariant
            i <= schema.fields@.len(),
            fs == schema@.fields,
            names@.len() == i,
            forall|j: int| 0 <= j < i ==> #[trigger] names@[j]@ == fs[j].name,
        decreases schema.fields.len() - i,
    {
        let f = &schema.fields[i];
        assert(fs[i as int] == f@);
        names.push(f.name.clone());
        i = i + 1;
    }
    let r = WitnessRoutine { header: schema.header.duplicate(), fields: names };
    assert(r@.fields =~= witness_model(schema@).fields);
    r
}

/// Generates the three artifacts of a record declaration: parses it,
/// analyses every field's type, and emits the allocation routine, the
/// builder and the witness extraction from the one schema. Any error aborts
/// the whole generation.
pub fn zkcircuit_derive(decl: RecordDecl) -> (r: Result<Artifacts, SchemaError>)
    requires
        decl_well_named(decl@),
    ensures
        r matches Ok(a) ==> forall|i: int, j: int|
            0 <= i < j < a@.allocation.registrations.len() ==> (
            #[trigger] a@.allocation.registrations[i]).field != (
            #[trigger] a@.allocation.registrations[j]).field,
        match r {
            Ok(a) => derive_model(decl@) == Ok::<ArtifactsModel, SchemaErrorModel>(a@),
            Err(e) => derive_model(decl@) == Err::<ArtifactsModel, SchemaErrorModel>(e@),
        },
{
    let parsed = parse_schema(decl)?;
    let schema = analyze_schema(&parsed)?;
    Ok(
        Artifacts {
            allocation: emit_allocation(&schema),
            builder: emit_builder(&schema),
            witness: emit_witness(&schema),
        },
    )
}


/// The allocation routine generated for a named-field struct registers each
/// declared field exactly once, in declaration order, with the role that
/// its annotation gives it.
pub proof fn lemma_allocation_follows_declaration(d: DeclModel)
    requires
        derive_model(d) is Ok,
    ensures
        d.shape is NamedStruct,
        (derive_model(d)->Ok_0).allocation.registrations.len() == (d.shape->NamedStruct_0).len(),
        forall|i: int|
            0 <= i < (d.shape->NamedStruct_0).len() ==> (#[trigger] (derive_model(
                d,
            )->Ok_0).allocation.registrations[i]).field == (d.shape->NamedStruct_0)[i].name,
        forall|i: int|
            0 <= i < (d.shape->NamedStruct_0).len() ==> (#[trigger] (derive_model(
                d,
            )->Ok_0).allocation.registrations[i]).role == role_of(
                (d.shape->NamedStruct_0)[i].attrs,
            )->Some_0,
{
}

/// A declaration that parses, but has a field whose declared type is not an
/// optional wrapper, gives no artifact: generation fails naming the earliest
/// such field.
pub proof fn lemma_non_optional_field_rejected(d: DeclModel, i: int)
    requires
        parse_model(d) is Ok,
        d.shape is NamedStruct,
        0 <= i < (d.shape->NamedStruct_0).len(),
        (d.shape->NamedStruct_0)[i].inner_type is None,
    ensures
        first_non_optional((parse_model(d)->Ok_0).fields, 0) <= i,
        (d.shape->NamedStruct_0)[first_non_optional(
            (parse_model(d)->Ok_0).fields,
            0,
        )].inner_type is None,
        forall|j: int|
            0 <= j < first_non_optional((parse_model(d)->Ok_0).fields, 0) ==> (#[trigger] (
            d.shape->NamedStruct_0)[j]).inner_type is Some,
        derive_model(d) == Err::<ArtifactsModel, SchemaErrorModel>(
            SchemaErrorModel::ExpectedOptionalField(
                (d.shape->NamedStruct_0)[first_non_optional(
                    (parse_model(d)->Ok_0).fields,
                    0,
                )].name,
            ),
        ),
{
    let fs = d.shape->NamedStruct_0;
    let pf = (parse_model(d)->Ok_0).fields;
    assert(pf.len() == fs.len());
    lemma_first_non_optional(pf, 0);
    assert(pf[i].inner_type is None);
    let k = first_non_optional(pf, 0);
    assert forall|j: int| 0 <= j < k implies (#[trigger] fs[j]).inner_type is Some by {
        assert(pf[j].inner_type is Some);
    }
}

} // verus!
