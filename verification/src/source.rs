//! From the source text of a type definition to the source text of its
//! builder.
//!
//! Reading the definition is the parser's work; everything after it is
//! [`expand`], which is specified for every result that the parser can hand
//! over.

use crate::descriptor::{DefinitionView, FieldDescriptor, Shape, ShapeError, TypeDefinition};
use crate::synth::{generate, generated};
use quote::ToTokens;
use vstd::prelude::*;

verus! {

/// Why no builder was derived.
#[derive(Debug, Clone, PartialEq, Eq)]
pub enum DeriveError {
    /// The source is not the definition of a type. The text is the parser's
    /// message.
    Syntax(String),
    /// The source defines a type whose shape is refused.
    Shape(ShapeError),
}

/// The mathematical value of a [`DeriveError`].
pub ghost enum DeriveErrorView {
    Syntax(Seq<char>),
    Shape(ShapeError),
}

impl View for DeriveError {
    type V = DeriveErrorView;

    open spec fn view(&self) -> DeriveErrorView {
        match self {
            DeriveError::Syntax(message) => DeriveErrorView::Syntax(message@),
            DeriveError::Shape(error) => DeriveErrorView::Shape(*error),
        }
    }
}

impl DeriveErrorView {
    /// The text of the diagnostic for this error.
    pub open spec fn message_text(self) -> Seq<char> {
        match self {
            DeriveErrorView::Syntax(message) => message,
            DeriveErrorView::Shape(error) => error.message_text(),
        }
    }
}

impl DeriveError {
    /// The diagnostic for this error.
    pub fn message(&self) -> (text: String)
        ensures
            text@ == self@.message_text(),
    {
        match self {
            DeriveError::Syntax(message) => message.clone(),
            DeriveError::Shape(error) => error.message(),
        }
    }
}

/// The mathematical value of what was read from a source text.
pub open spec fn reading_view(reading: Result<TypeDefinition, String>) -> Result<
    DefinitionView,
    Seq<char>,
> {
    match reading {
        Ok(definition) => Ok(definition@),
        Err(message) => Err(message@),
    }
}

/// The mathematical value of the outcome of a derivation.
pub open spec fn outcome_view(outcome: Result<String, DeriveError>) -> Result<
    Seq<char>,
    DeriveErrorView,
> {
    match outcome {
        Ok(code) => Ok(code@),
        Err(error) => Err(error@),
    }
}

/// What is derived from a reading: from a definition, the source text of the
/// unit generated for it, or the error that refuses its shape; from a
/// parser's message, the syntax error that carries it.
pub open spec fn expansion(reading: Result<DefinitionView, Seq<char>>) -> Result<
    Seq<char>,
    DeriveErrorView,
> {
    match reading {
        Ok(definition) => match generated(definition) {
            Ok(unit) => Ok(unit.source_text()),
            Err(error) => Err(DeriveErrorView::Shape(error)),
        },
        Err(message) => Err(DeriveErrorView::Syntax(message)),
    }
}

/// Parses `source` as the definition of one struct, enum or union with
/// `syn::parse_str::<syn::DeriveInput>` and hands over what was declared: the
/// name of the type (`Ident::to_string`), which of the five shapes it has,
/// and for a struct with named fields each field's name and the tokens of its
/// type, printed (`ToTokens::to_token_stream`, then `to_string`). The parser
/// gives every named field its name. A source that does not parse gives the
/// parser's message (`syn::Error::to_string`).
///
/// Nothing is claimed of the result. The text of a field's type is what the
/// token printer in use makes of it, and a compiler's macro expansion prints
/// with other spacing than an ordinary process does.
#[verifier::external_body]
fn read_definition(source: &str) -> (reading: Result<TypeDefinition, String>) {
    let item = syn::parse_str::<syn::DeriveInput>(source).map_err(|e| e.to_string())?;
    let field = |f: syn::Field| FieldDescriptor {
        name: f.ident.unwrap().to_string(),
        ty: f.ty.to_token_stream().to_string(),
    };
    let shape = match item.data {
        syn::Data::Struct(record) => match record.fields {
            syn::Fields::Named(f) => Shape::Record(f.named.into_iter().map(field).collect()),
            syn::Fields::Unnamed(_) => Shape::Tuple,
            syn::Fields::Unit => Shape::Unit,
        },
        syn::Data::Enum(_) => Shape::Enum,
        syn::Data::Union(_) => Shape::Union,
    };
    Ok(TypeDefinition { name: item.ident.to_string(), shape })
}

/// Derives the builder from what was read of a source text.
pub fn expand(reading: Result<TypeDefinition, String>) -> (outcome: Result<String, DeriveError>)
    ensures
        outcome_view(outcome) == expansion(reading_view(reading)),
{
    match reading {
        Ok(definition) => match generate(definition) {
            Ok(unit) => Ok(unit.source()),
            Err(error) => Err(DeriveError::Shape(error)),
        },
        Err(message) => Err(DeriveError::Syntax(message)),
    }
}

/// Derives the builder for the type that `source` defines: the source text of
/// the generated unit, or the reason why there is none.
///
/// The outcome is the expansion of what the parser read from `source`,
/// whatever that was.
pub fn derive(source: &str) -> (outcome: Result<String, DeriveError>)
    ensures
        exists|reading: Result<DefinitionView, Seq<char>>|
            outcome_view(outcome) == #[trigger] expansion(reading),
{
    let reading = read_definition(source);
    let outcome = expand(reading);
    assert(outcome_view(outcome) == expansion(reading_view(reading)));
    outcome
}

} // verus!
