//! Structural descriptions of types, and the validation that admits a type
//! to builder generation.
//!
//! A [`TypeDefinition`] is what a host hands over: the name of a type and its
//! shape, exactly as declared. [`extract`] turns the definition of a plain
//! record with at least one named field into a [`TypeDescriptor`] and refuses
//! everything else with a [`ShapeError`]: a type without fields, a record with
//! positional fields, a type that is no record.

use vstd::prelude::*;
use vstd::string::StringExecFns;

verus! {

/// One named field of a record: its name and its declared type. The type is
/// kept as written and never looked into.
#[derive(Debug, Clone, PartialEq, Eq)]
pub struct FieldDescriptor {
    pub name: String,
    pub ty: String,
}

/// The mathematical value of a [`FieldDescriptor`].
pub ghost struct FieldView {
    pub name: Seq<char>,
    pub ty: Seq<char>,
}

impl View for FieldDescriptor {
    type V = FieldView;

    open spec fn view(&self) -> FieldView {
        FieldView { name: self.name@, ty: self.ty@ }
    }
}

/// The views of `fields`, in the same order.
pub open spec fn field_views(fields: Seq<FieldDescriptor>) -> Seq<FieldView> {
    Seq::new(fields.len(), |i: int| fields[i]@)
}

/// Whether no two of `fields` share a name.
pub open spec fn distinct_names(fields: Seq<FieldView>) -> bool {
    forall|i: int, j: int|
        0 <= i < j < fields.len() ==> (#[trigger] fields[i]).name != (#[trigger] fields[j]).name
}

/// How a type is declared.
#[derive(Debug, Clone, PartialEq, Eq)]
pub enum Shape {
    /// A record with a list of named fields, in declaration order. The list
    /// may be empty; the record then has no fields.
    Record(Vec<FieldDescriptor>),
    /// A record with positional fields.
    Tuple,
    /// A record declared without a field list. It has no fields.
    Unit,
    /// A type with variants.
    Enum,
    /// An untagged union.
    Union,
}

/// The mathematical value of a [`Shape`].
pub ghost enum ShapeView {
    Record(Seq<FieldView>),
    Tuple,
    Unit,
    Enum,
    Union,
}

impl View for Shape {
    type V = ShapeView;

    open spec fn view(&self) -> ShapeView {
        match self {
            Shape::Record(fields) => ShapeView::Record(field_views(fields@)),
            Shape::Tuple => ShapeView::Tuple,
            Shape::Unit => ShapeView::Unit,
            Shape::Enum => ShapeView::Enum,
            Shape::Union => ShapeView::Union,
        }
    }
}

/// A type as a host presents it: its name and its shape.
#[derive(Debug, Clone, PartialEq, Eq)]
pub struct TypeDefinition {
    pub name: String,
    pub shape: Shape,
}

/// The mathematical value of a [`TypeDefinition`].
pub ghost struct DefinitionView {
    pub name: Seq<char>,
    pub shape: ShapeView,
}

impl View for TypeDefinition {
    type V = DefinitionView;

    open spec fn view(&self) -> DefinitionView {
        DefinitionView { name: self.name@, shape: self.shape@ }
    }
}

/// A plain record with named fields, as the generator sees it: the type's name
/// and its fields, of which there is at least one, in declaration order.
#[derive(Debug, Clone, PartialEq, Eq)]
pub struct TypeDescriptor {
    pub name: String,
    pub fields: Vec<FieldDescriptor>,
}

/// The mathematical value of a [`TypeDescriptor`].
pub ghost struct DescriptorView {
    pub name: Seq<char>,
    pub fields: Seq<FieldView>,
}

impl DescriptorView {
    /// The invariant of a descriptor: the record has a field, and, as the
    /// language of the described type guarantees, field names are unique.
    pub open spec fn well_formed(self) -> bool {
        &&& self.fields.len() > 0
        &&& distinct_names(self.fields)
    }
}

impl View for TypeDescriptor {
    type V = DescriptorView;

    open spec fn view(&self) -> DescriptorView {
        DescriptorView { name: self.name@, fields: field_views(self.fields@) }
    }
}

/// Why a type cannot have a builder generated.
#[derive(Debug, Clone, Copy, PartialEq, Eq, Structural)]
pub enum ShapeError {
    /// The type is not a record at all: it has variants, or is a union.
    NotRecord,
    /// The record's fields are positional.
    TupleShaped,
    /// The record has no fields: it is declared without a field list, or
    /// with an empty one.
    FieldLess,
}

impl ShapeError {
    /// The text of the diagnostic for this error.
    pub open spec fn message_text(self) -> Seq<char> {
        match self {
            ShapeError::NotRecord => "Must be struct type"@,
            ShapeError::TupleShaped =>
                "Unnamed fields of a tuple struct or tuple variant are not supported"@,
            ShapeError::FieldLess => "Unit struct or unit variant are not supported"@,
        }
    }

    /// The diagnostic for this error, for a host to report at the type's
    /// location.
    pub fn message(&self) -> (text: String)
        ensures
            text@ == self.message_text(),
    {
        match self {
            ShapeError::NotRecord => String::from_str("Must be struct type"),
            ShapeError::TupleShaped => String::from_str(
                "Unnamed fields of a tuple struct or tuple variant are not supported",
            ),
            ShapeError::FieldLess => String::from_str(
                "Unit struct or unit variant are not supported",
            ),
        }
    }
}

/// Whether a type of this shape is admitted: it is a record with at least
/// one named field.
pub open spec fn admitted(shape: ShapeView) -> bool {
    shape matches ShapeView::Record(fields) && fields.len() > 0
}

/// What [`extract`] makes of a definition: the descriptor of a record with
/// at least one named field, name and fields unchanged and in the declared
/// order, and for everything else the error that names what is wrong. A
/// record without fields is refused however it is declared.
pub open spec fn extracted(definition: DefinitionView) -> Result<DescriptorView, ShapeError> {
    match definition.shape {
        ShapeView::Record(fields) => if fields.len() > 0 {
            Ok(DescriptorView { name: definition.name, fields })
        } else {
            Err(ShapeError::FieldLess)
        },
        ShapeView::Tuple => Err(ShapeError::TupleShaped),
        ShapeView::Unit => Err(ShapeError::FieldLess),
        ShapeView::Enum => Err(ShapeError::NotRecord),
        ShapeView::Union => Err(ShapeError::NotRecord),
    }
}

/// Validates the shape of `definition` and extracts its descriptor.
///
/// Fields are neither sorted nor deduplicated: the descriptor lists them as
/// declared.
pub fn extract(definition: TypeDefinition) -> (outcome: Result<TypeDescriptor, ShapeError>)
    ensures
        outcome is Ok <==> definition@.shape is Record && definition@.shape->Record_0.len() > 0,
        match outcome {
            Ok(descriptor) => extracted(definition@) == Ok::<DescriptorView, ShapeError>(
                descriptor@,
            ),
            Err(error) => extracted(definition@) == Err::<DescriptorView, ShapeError>(error),
        },
{
    match definition.shape {
        Shape::Record(fields) => if fields.len() > 0 {
            Ok(TypeDescriptor { name: definition.name, fields })
        } else {
            Err(ShapeError::FieldLess)
        },
        Shape::Tuple => Err(ShapeError::TupleShaped),
        Shape::Unit => Err(ShapeError::FieldLess),
        Shape::Enum => Err(ShapeError::NotRecord),
        Shape::Union => Err(ShapeError::NotRecord),
    }
}

} // verus!
