//! The generator's decisions for a type definition: which shapes can get a
//! mapper, and the document names of their fields or variants.

use vstd::prelude::*;

verus! {

/// The kebab-case form of an identifier, as `stringcase::kebab_case` gives it.
pub uninterp spec fn kebab_of(s: Seq<char>) -> Seq<char>;

/// Relies on `stringcase::kebab_case`: lowercase words joined by hyphens; the
/// result depends on the characters of the input alone.
#[verifier::external_body]
fn kebab_case(s: &str) -> (r: String)
    ensures
        r@ == kebab_of(s@),
{
    stringcase::kebab_case(s)
}

/// The shape of a type definition, with the identifiers of its fields or
/// variants where it has named ones.
pub enum TypeData {
    NamedStruct(Vec<String>),
    UnnamedStruct,
    UnitStruct,
    Enum(Vec<String>),
    Union,
}

/// A type definition that a mapper is asked for.
pub struct TypeDef {
    pub ident: String,
    pub data: TypeData,
}

/// The shapes that no mapper can be derived for.
#[derive(Clone, Copy, Debug, PartialEq, Eq, Structural)]
pub enum GenerateError {
    UnnamedStruct,
    UnitStruct,
    Union,
}

pub open spec fn generate_error_message(e: GenerateError) -> Seq<char> {
    match e {
        GenerateError::UnnamedStruct => "`KdlConfig` cannot be derived for unnamed structs"@,
        GenerateError::UnitStruct => "`KdlConfig` cannot be derived for unit structs"@,
        GenerateError::Union => "`KdlConfig` cannot be derived for unions"@,
    }
}

impl GenerateError {
    /// The compile-time error text for this shape.
    pub fn message(&self) -> (r: String)
        ensures
            r@ == generate_error_message(*self),
    {
        match self {
            GenerateError::UnnamedStruct => String::from_str(
                "`KdlConfig` cannot be derived for unnamed structs",
            ),
            GenerateError::UnitStruct => String::from_str(
                "`KdlConfig` cannot be derived for unit structs",
            ),
            GenerateError::Union => String::from_str("`KdlConfig` cannot be derived for unions"),
        }
    }
}

/// What a mapper is generated from: the identifiers of the type and of its
/// fields or variants, and the document name of each.
pub enum MapperPlan {
    Record { ident: String, rust_names: Vec<String>, kdl_names: Vec<String> },
    Enumeration { ident: String, variants: Vec<String>, kdl_names: Vec<String> },
}

/// `kdl` holds the kebab-case form of each identifier in `rust`, in order.
pub open spec fn kebab_names(kdl: Seq<String>, rust: Seq<String>) -> bool {
    &&& kdl.len() == rust.len()
    &&& forall|i: int| 0 <= i < rust.len() ==> (#[trigger] kdl[i])@ == kebab_of(rust[i]@)
}

/// The kebab-case form of each identifier, in order.
pub fn to_kebab_names(names: &Vec<String>) -> (r: Vec<String>)
    ensures
        kebab_names(r@, names@),
{
    let mut r: Vec<String> = Vec::new();
    let mut i: usize = 0;
    while i < names.len()
        invariant
            0 <= i <= names@.len(),
            r@.len() == i,
            forall|k: int| 0 <= k < i ==> (#[trigger] r@[k])@ == kebab_of(names@[k]@),
        decreases names@.len() - i,
    {
        r.push(kebab_case(names[i].as_str()));
        i = i + 1;
    }
    r
}

/// Decides what mapper to derive for `input`. A struct with named fields
/// gets a record mapper and an enumeration a variant mapper, each under the
/// kebab-case names of its fields or variants. A tuple struct, a unit struct
/// and a union are refused, each with its own error.
pub fn generate(input: TypeDef) -> (r: Result<MapperPlan, GenerateError>)
    ensures
        match input.data {
            TypeData::NamedStruct(fields) => match r {
                Ok(MapperPlan::Record { ident, rust_names, kdl_names }) => {
                    &&& ident@ == input.ident@
                    &&& rust_names@ == fields@
                    &&& kebab_names(kdl_names@, fields@)
                },
                _ => false,
            },
            TypeData::Enum(variants) => match r {
                Ok(MapperPlan::Enumeration { ident, variants: vs, kdl_names }) => {
                    &&& ident@ == input.ident@
                    &&& vs@ == variants@
                    &&& kebab_names(kdl_names@, variants@)
                },
                _ => false,
            },
            TypeData::UnnamedStruct => r == Err::<MapperPlan, GenerateError>(
                GenerateError::UnnamedStruct,
            ),
            TypeData::UnitStruct => r == Err::<MapperPlan, GenerateError>(
                GenerateError::UnitStruct,
            ),
            TypeData::Union => r == Err::<MapperPlan, GenerateError>(GenerateError::Union),
        },
{
    let TypeDef { ident, data } = input;
    match data {
        TypeData::NamedStruct(fields) => {
            let kdl_names = to_kebab_names(&fields);
            Ok(MapperPlan::Record { ident, rust_names: fields, kdl_names })
        },
        TypeData::Enum(variants) => {
            let kdl_names = to_kebab_names(&variants);
            Ok(MapperPlan::Enumeration { ident, variants, kdl_names })
        },
        TypeData::UnnamedStruct => Err(GenerateError::UnnamedStruct),
        TypeData::UnitStruct => Err(GenerateError::UnitStruct),
        TypeData::Union => Err(GenerateError::Union),
    }
}

/// The three refused shapes get three different errors, each with its own
/// message.
pub proof fn lemma_refusals_distinct(a: GenerateError, b: GenerateError)
    requires
        a != b,
    ensures
        generate_error_message(a) != generate_error_message(b),
{
    reveal_strlit("`KdlConfig` cannot be derived for unnamed structs");
    reveal_strlit("`KdlConfig` cannot be derived for unit structs");
    reveal_strlit("`KdlConfig` cannot be derived for unions");
    assert(generate_error_message(a).len() != generate_error_message(b).len());
}

} // verus!
