//! A schema-driven generator for constraint-system records.
//!
//! A record declaration is parsed into a schema of fields, each field's
//! optional storage type is analysed, and three artifacts are emitted from
//! the schema: an allocation routine, a builder and a witness extraction.
//! The `witness` module models what the emitted builder and extraction do
//! at run time, generically over the value type.
pub mod decl;
pub mod emit;
pub mod schema;
pub mod witness;

pub use decl::{
    get_inner_type, AttrBody, Attribute, DeclShape, GenericArg, PathArgs, PathSegment, RawField,
    RecordDecl, TypeExpr, TypeShape,
};
pub use emit::{
    emit_allocation, emit_builder, emit_witness, zkcircuit_derive, AllocationRoutine, Artifacts,
    BuilderType, Registration, Slot, WitnessRoutine,
};
pub use schema::{
    analyze_schema, field_role, get_field_info, parse_schema, FieldDescriptor, ParsedField,
    ParsedSchema, RecordHeader, Role, Schema, SchemaError,
};
pub use witness::{first_missing, Assignment, MissingFieldError, Record, RecordBuilder, Witness};
