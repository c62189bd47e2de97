//! Synthesis of the builder for a record type.
//!
//! From a [`TypeDescriptor`] four pieces of Rust source are made, each a
//! complete item: the constructor `builder()` on the described type, the
//! definition of the builder type, one setter per field, and the validating
//! `build()`. A [`GeneratedUnit`] holds them, and its source text is the
//! pieces one after another.
//!
//! Every piece is specified by a spec function that gives its exact text.

use crate::descriptor::{
    admitted, distinct_names, extract, extracted, field_views, DefinitionView, DescriptorView,
    FieldDescriptor, FieldView, ShapeError, TypeDefinition, TypeDescriptor,
};
use crate::text::{append_all, concat, text_views};
use vstd::prelude::*;
use vstd::string::StringExecFns;

verus! {

/// The name of the builder type for a type called `target`.
pub open spec fn builder_name(target: Seq<char>) -> Seq<char> {
    target + "Builder"@
}

/// The type of the slot that holds a value of type `ty`, or nothing.
pub open spec fn slot_type(ty: Seq<char>) -> Seq<char> {
    "Option<"@ + ty + ">"@
}

/// The builder's field for `field`: the same name, the type wrapped in a slot.
pub open spec fn slot(field: FieldView) -> FieldView {
    FieldView { name: field.name, ty: slot_type(field.ty) }
}

/// The builder type for `target`, as a record of its own: one slot per field
/// of `target`, in the same order.
pub open spec fn builder_descriptor(target: DescriptorView) -> DescriptorView {
    DescriptorView {
        name: builder_name(target.name),
        fields: Seq::new(target.fields.len(), |i: int| slot(target.fields[i])),
    }
}

/// One line per field: `line` applied to each of `fields`, in order.
pub open spec fn lines(fields: Seq<FieldView>, line: spec_fn(FieldView) -> Seq<char>) -> Seq<
    Seq<char>,
> {
    Seq::new(fields.len(), |i: int| line(fields[i]))
}

/// The declaration of `field` inside a record definition.
pub open spec fn field_line(field: FieldView) -> Seq<char> {
    "    "@ + field.name + ": "@ + field.ty + ",\n"@
}

/// The definition of the record `record`.
pub open spec fn record_text(record: DescriptorView) -> Seq<char> {
    "pub struct "@ + record.name + " {\n"@ + concat(
        lines(record.fields, |f: FieldView| field_line(f)),
    ) + "}\n"@
}

/// The definition of the builder type for `target`.
pub open spec fn builder_type_text(target: DescriptorView) -> Seq<char> {
    record_text(builder_descriptor(target))
}

/// The initialiser that leaves the slot of `field` empty.
pub open spec fn empty_slot_line(field: FieldView) -> Seq<char> {
    "            "@ + field.name + ": None,\n"@
}

/// The constructor: `builder()` on the described type, which returns a builder
/// with every slot empty.
pub open spec fn constructor_text(target: DescriptorView) -> Seq<char> {
    "impl "@ + target.name + " {\n    pub fn builder() -> "@ + builder_name(target.name)
        + " {\n        "@ + builder_name(target.name) + " {\n"@ + concat(
        lines(target.fields, |f: FieldView| empty_slot_line(f)),
    ) + "        }\n    }\n}\n"@
}

/// The setter for `field` on the builder called `builder`: it is named like
/// the field, fills the field's slot with its argument, and hands the builder
/// back.
pub open spec fn setter_text(builder: Seq<char>, field: FieldView) -> Seq<char> {
    "impl "@ + builder + " {\n    pub fn "@ + field.name + "(&mut self, "@ + field.name + ": "@
        + field.ty + ") -> &mut Self {\n        self."@ + field.name + " = Some("@ + field.name
        + ");\n        self\n    }\n}\n"@
}

/// The setters for `target`, one per field, in declaration order.
pub open spec fn setter_texts(target: DescriptorView) -> Seq<Seq<char>> {
    Seq::new(
        target.fields.len(),
        |i: int| setter_text(builder_name(target.name), target.fields[i]),
    )
}

/// The statement of `build()` that copies the value out of the slot of
/// `field`, or leaves `build()` with an error that names the field.
pub open spec fn slot_check_text(field: FieldView) -> Seq<char> {
    "        let "@ + field.name + " = match &self."@ + field.name + " {\n            Some("@
        + field.name + ") => "@ + field.name
        + ".clone(),\n            None => return Err(format!(\"Missing \\\"{}\\\" field\", \""@
        + field.name + "\").into()),\n        };\n"@
}

/// The initialiser of `field` in the instance that `build()` returns.
pub open spec fn field_init_line(field: FieldView) -> Seq<char> {
    "            "@ + field.name + ",\n"@
}

/// The validating `build()`: it checks the slots in declaration order, fails
/// at the first empty one, and otherwise returns an instance of the described
/// type made of copies of the slots' values.
pub open spec fn build_text(target: DescriptorView) -> Seq<char> {
    "impl "@ + builder_name(target.name) + " {\n    pub fn build(&self) -> Result<"@ + target.name
        + ", Box<dyn std::error::Error>> {\n"@ + concat(
        lines(target.fields, |f: FieldView| slot_check_text(f)),
    ) + "        Ok("@ + target.name + " {\n"@ + concat(
        lines(target.fields, |f: FieldView| field_init_line(f)),
    ) + "        })\n    }\n}\n"@
}

/// The code generated for one type.
#[derive(Debug, Clone, PartialEq, Eq)]
pub struct GeneratedUnit {
    /// The constructor `builder()` on the described type.
    pub constructor: String,
    /// The definition of the builder type.
    pub builder_type: String,
    /// One setter per field, in declaration order.
    pub setters: Vec<String>,
    /// The validating `build()`.
    pub build: String,
}

/// The mathematical value of a [`GeneratedUnit`].
pub ghost struct UnitView {
    pub constructor: Seq<char>,
    pub builder_type: Seq<char>,
    pub setters: Seq<Seq<char>>,
    pub build: Seq<char>,
}

impl View for GeneratedUnit {
    type V = UnitView;

    open spec fn view(&self) -> UnitView {
        UnitView {
            constructor: self.constructor@,
            builder_type: self.builder_type@,
            setters: text_views(self.setters@),
            build: self.build@,
        }
    }
}

impl UnitView {
    /// The source text of the unit: constructor, builder type, setters and
    /// `build()`, in this order.
    pub open spec fn source_text(self) -> Seq<char> {
        self.constructor + self.builder_type + concat(self.setters) + self.build
    }
}

/// The unit generated for `target`.
pub open spec fn synthesized(target: DescriptorView) -> UnitView {
    UnitView {
        constructor: constructor_text(target),
        builder_type: builder_type_text(target),
        setters: setter_texts(target),
        build: build_text(target),
    }
}

/// What generation makes of a definition: the unit for its descriptor, or the
/// error that refuses its shape.
pub open spec fn generated(definition: DefinitionView) -> Result<UnitView, ShapeError> {
    match extracted(definition) {
        Ok(target) => Ok(synthesized(target)),
        Err(error) => Err(error),
    }
}

/// The name of the builder type for the type called `target`.
pub fn builder_type_name(target: &str) -> (name: String)
    ensures
        name@ == builder_name(target@),
{
    let mut name = String::from_str(target);
    name.append("Builder");
    name
}

/// The builder's field for `field`.
pub fn slot_descriptor(field: &FieldDescriptor) -> (wrapped: FieldDescriptor)
    ensures
        wrapped@ == slot(field@),
{
    let mut ty = String::from_str("Option<");
    ty.append(field.ty.as_str());
    ty.append(">");
    FieldDescriptor { name: field.name.clone(), ty }
}

/// Derives the builder type of `target` as a record of its own.
pub fn derive_builder_descriptor(target: &TypeDescriptor) -> (builder: TypeDescriptor)
    ensures
        builder@ == builder_descriptor(target@),
        builder.fields@.len() == target.fields@.len(),
{
    let mut fields: Vec<FieldDescriptor> = Vec::new();
    let mut i: usize = 0;
    while i < target.fields.len()
        invariant
            i <= target.fields.len(),
            fields@.len() == i,
            forall|j: int| 0 <= j < i ==> (#[trigger] fields@[j])@ == slot(target@.fields[j]),
        decreases target.fields.len() - i,
    {
        fields.push(slot_descriptor(&target.fields[i]));
        i += 1;
    }
    let builder = TypeDescriptor { name: builder_type_name(target.name.as_str()), fields };
    assert(builder@.fields =~= builder_descriptor(target@).fields);
    builder
}

fn field_declaration(field: &FieldDescriptor) -> (line: String)
    ensures
        line@ == field_line(field@),
{
    let mut line = String::from_str("    ");
    line.append(field.name.as_str());
    line.append(": ");
    line.append(field.ty.as_str());
    line.append(",\n");
    line
}

/// One text per field: what `write` returns for each of `fields`, in order.
fn written<F: Fn(&FieldDescriptor) -> String>(
    fields: &Vec<FieldDescriptor>,
    write: F,
    Ghost(line): Ghost<spec_fn(FieldView) -> Seq<char>>,
) -> (texts: Vec<String>)
    requires
        forall|field: &FieldDescriptor| call_requires(write, (field,)),
        forall|field: &FieldDescriptor, text: String|
            call_ensures(write, (field,), text) ==> text@ == line(field@),
    ensures
        text_views(texts@) == lines(field_views(fields@), line),
        texts@.len() == fields@.len(),
{
    let mut texts: Vec<String> = Vec::new();
    let mut i: usize = 0;
    while i < fields.len()
        invariant
            i <= fields.len(),
            texts@.len() == i,
            forall|j: int| 0 <= j < i ==> (#[trigger] texts@[j])@ == line(fields@[j]@),
            forall|field: &FieldDescriptor| call_requires(write, (field,)),
            forall|field: &FieldDescriptor, text: String|
                call_ensures(write, (field,), text) ==> text@ == line(field@),
        decreases fields.len() - i,
    {
        texts.push(write(&fields[i]));
        i += 1;
    }
    assert(text_views(texts@) =~= lines(field_views(fields@), line));
    texts
}

/// Writes the definition of the record `record`.
pub fn record_definition(record: &TypeDescriptor) -> (text: String)
    ensures
        text@ == record_text(record@),
{
    let mut text = String::from_str("pub struct ");
    text.append(record.name.as_str());
    text.append(" {\n");
    let lines = written(&record.fields, field_declaration, Ghost(|f: FieldView| field_line(f)));
    append_all(&mut text, &lines);
    text.append("}\n");
    text
}

/// Synthesizes the definition of the builder type for `target`.
pub fn synthesize_builder_type(target: &TypeDescriptor) -> (text: String)
    ensures
        text@ == builder_type_text(target@),
{
    let builder = derive_builder_descriptor(target);
    record_definition(&builder)
}

fn empty_slot(field: &FieldDescriptor) -> (line: String)
    ensures
        line@ == empty_slot_line(field@),
{
    let mut line = String::from_str("            ");
    line.append(field.name.as_str());
    line.append(": None,\n");
    line
}

/// Synthesizes the constructor `builder()` for `target`.
pub fn synthesize_constructor(target: &TypeDescriptor) -> (text: String)
    ensures
        text@ == constructor_text(target@),
{
    let builder = builder_type_name(target.name.as_str());
    let mut text = String::from_str("impl ");
    text.append(target.name.as_str());
    text.append(" {\n    pub fn builder() -> ");
    text.append(builder.as_str());
    text.append(" {\n        ");
    text.append(builder.as_str());
    text.append(" {\n");
    let lines = written(&target.fields, empty_slot, Ghost(|f: FieldView| empty_slot_line(f)));
    append_all(&mut text, &lines);
    text.append("        }\n    }\n}\n");
    text
}

/// Synthesizes the setter for `field` on the builder type called `builder`.
pub fn synthesize_setter(builder: &str, field: &FieldDescriptor) -> (text: String)
    ensures
        text@ == setter_text(builder@, field@),
{
    let mut text = String::from_str("impl ");
    text.append(builder);
    text.append(" {\n    pub fn ");
    text.append(field.name.as_str());
    text.append("(&mut self, ");
    text.append(field.name.as_str());
    text.append(": ");
    text.append(field.ty.as_str());
    text.append(") -> &mut Self {\n        self.");
    text.append(field.name.as_str());
    text.append(" = Some(");
    text.append(field.name.as_str());
    text.append(");\n        self\n    }\n}\n");
    text
}

/// Synthesizes the setters for `target`: one per field, in declaration order.
pub fn synthesize_setters(target: &TypeDescriptor) -> (setters: Vec<String>)
    ensures
        text_views(setters@) == setter_texts(target@),
        setters@.len() == target.fields@.len(),
{
    let builder = builder_type_name(target.name.as_str());
    let setter = |field: &FieldDescriptor| -> (text: String)
        ensures
            text@ == setter_text(builder@, field@),
        { synthesize_setter(builder.as_str(), field) };
    let setters = written(
        &target.fields,
        setter,
        Ghost(|f: FieldView| setter_text(builder_name(target@.name), f)),
    );
    assert(text_views(setters@) =~= setter_texts(target@));
    setters
}

fn slot_check(field: &FieldDescriptor) -> (text: String)
    ensures
        text@ == slot_check_text(field@),
{
    let mut text = String::from_str("        let ");
    text.append(field.name.as_str());
    text.append(" = match &self.");
    text.append(field.name.as_str());
    text.append(" {\n            Some(");
    text.append(field.name.as_str());
    text.append(") => ");
    text.append(field.name.as_str());
    text.append(
        ".clone(),\n            None => return Err(format!(\"Missing \\\"{}\\\" field\", \"",
    );
    text.append(field.name.as_str());
    text.append("\").into()),\n        };\n");
    text
}

fn field_init(field: &FieldDescriptor) -> (line: String)
    ensures
        line@ == field_init_line(field@),
{
    let mut line = String::from_str("            ");
    line.append(field.name.as_str());
    line.append(",\n");
    line
}

/// Synthesizes the validating `build()` for `target`.
pub fn synthesize_build(target: &TypeDescriptor) -> (text: String)
    ensures
        text@ == build_text(target@),
{
    let builder = builder_type_name(target.name.as_str());
    let mut text = String::from_str("impl ");
    text.append(builder.as_str());
    text.append(" {\n    pub fn build(&self) -> Result<");
    text.append(target.name.as_str());
    text.append(", Box<dyn std::error::Error>> {\n");
    let lines = written(&target.fields, slot_check, Ghost(|f: FieldView| slot_check_text(f)));
    append_all(&mut text, &lines);
    text.append("        Ok(");
    text.append(target.name.as_str());
    text.append(" {\n");
    let lines = written(&target.fields, field_init, Ghost(|f: FieldView| field_init_line(f)));
    append_all(&mut text, &lines);
    text.append("        })\n    }\n}\n");
    text
}

/// Synthesizes the whole unit for `target`.
pub fn synthesize(target: &TypeDescriptor) -> (unit: GeneratedUnit)
    ensures
        unit@ == synthesized(target@),
        unit.setters@.len() == target.fields@.len(),
{
    GeneratedUnit {
        constructor: synthesize_constructor(target),
        builder_type: synthesize_builder_type(target),
        setters: synthesize_setters(target),
        build: synthesize_build(target),
    }
}

/// Generates the builder for `definition`, or refuses its shape. Only a
/// record with at least one named field has a builder; nothing is synthesized
/// for a type that is refused.
pub fn generate(definition: TypeDefinition) -> (outcome: Result<GeneratedUnit, ShapeError>)
    ensures
        outcome is Ok <==> definition@.shape is Record && definition@.shape->Record_0.len() > 0,
        outcome matches Ok(unit) ==> unit.setters@.len() == definition@.shape->Record_0.len(),
        match outcome {
            Ok(unit) => generated(definition@) == Ok::<UnitView, ShapeError>(unit@),
            Err(error) => generated(definition@) == Err::<UnitView, ShapeError>(error),
        },
{
    match extract(definition) {
        Ok(target) => Ok(synthesize(&target)),
        Err(error) => Err(error),
    }
}

impl GeneratedUnit {
    /// The source text of the unit.
    pub fn source(&self) -> (text: String)
        ensures
            text@ == self@.source_text(),
    {
        let mut text = self.constructor.clone();
        text.append(self.builder_type.as_str());
        append_all(&mut text, &self.setters);
        text.append(self.build.as_str());
        text
    }
}

/// For a record with N named fields, N at least one, generation yields one
/// constructor, one builder type with N slots, N setters and one `build()`:
/// the builder type is named after the record and has, field by field and in
/// declaration order, the field's name with the field's type wrapped in a
/// slot; the setters come in declaration order, one per field. Where the
/// record's field names are unique, so are the builder's.
pub proof fn lemma_generation_is_complete(definition: DefinitionView)
    requires
        definition.shape is Record,
        definition.shape->Record_0.len() > 0,
    ensures
        generated(definition) is Ok,
        ({
            let fields = definition.shape->Record_0;
            let target = DescriptorView { name: definition.name, fields };
            let builder = builder_descriptor(target);
            let unit = generated(definition)->Ok_0;
            &&& unit.constructor == constructor_text(target)
            &&& unit.builder_type == record_text(builder)
            &&& builder.name == definition.name + "Builder"@
            &&& builder.fields.len() == fields.len()
            &&& forall|i: int|
                0 <= i < fields.len() ==> #[trigger] builder.fields[i] == (FieldView {
                    name: fields[i].name,
                    ty: "Option<"@ + fields[i].ty + ">"@,
                })
            &&& distinct_names(fields) ==> builder.well_formed()
            &&& unit.setters.len() == fields.len()
            &&& forall|i: int|
                0 <= i < fields.len() ==> #[trigger] unit.setters[i] == setter_text(
                    builder.name,
                    fields[i],
                )
            &&& unit.build == build_text(target)
        }),
{
}

/// For everything but a record with at least one named field, generation
/// yields the error for that shape, and no code. A type without fields is
/// refused whether it is declared without a field list or with an empty one.
pub proof fn lemma_generation_refuses_other_shapes(definition: DefinitionView)
    requires
        !admitted(definition.shape),
    ensures
        generated(definition) is Err,
        definition.shape is Tuple ==> generated(definition)->Err_0 == ShapeError::TupleShaped,
        definition.shape is Unit ==> generated(definition)->Err_0 == ShapeError::FieldLess,
        definition.shape is Record ==> generated(definition)->Err_0 == ShapeError::FieldLess,
        definition.shape is Enum ==> generated(definition)->Err_0 == ShapeError::NotRecord,
        definition.shape is Union ==> generated(definition)->Err_0 == ShapeError::NotRecord,
{
}

} // verus!
