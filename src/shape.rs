//! The model of one enum definition: its variants, their field shapes, its
//! generics and attributes. Types, attributes and other syntax that the
//! generator never looks into are held as text.
use vstd::prelude::*;

verus! {

/// How the fields of a variant are written.
#[derive(Clone, Copy, Debug, PartialEq, Eq, Structural)]
pub enum Shape {
    /// `V`
    Unit,
    /// `V(T0, T1, ..)`
    Positional,
    /// `V { a: T0, b: T1, .. }`
    Named,
}

/// One field: its identifier (used for named fields only) and its type.
#[derive(Debug)]
pub struct Field {
    pub ident: String,
    pub ty: String,
}

/// One variant of the enum.
#[derive(Debug)]
pub struct Variant {
    /// Outer attributes of the variant, each as written (`#[doc = ".."]`).
    pub attrs: Vec<String>,
    pub name: String,
    pub shape: Shape,
    pub fields: Vec<Field>,
    /// The discriminant expression after `=`, if any, passed on unchanged.
    pub discriminant: Option<String>,
}

/// One generic parameter.
#[derive(Debug)]
pub struct GenericParam {
    pub is_lifetime: bool,
    /// The parameter as a type argument (`'a`, `T`, `N`).
    pub name: String,
    /// The parameter as declared on the type (`T: Clone = u8`).
    pub declaration: String,
    /// The parameter as declared on an impl block: without its default.
    pub impl_declaration: String,
}

/// One path of a `derive` list.
#[derive(Debug)]
pub struct DeriveItem {
    /// The path as written (`std::clone::Clone`).
    pub path: String,
    /// Its last segment (`Clone`).
    pub name: String,
}

/// An outer attribute of the enum.
#[derive(Debug)]
pub enum Attribute {
    /// `#[derive(..)]`, with its paths in order.
    Derive(Vec<DeriveItem>),
    /// Any other attribute, as written.
    Other(String),
}

/// An enum definition: the subject of all generation.
#[derive(Debug)]
pub struct SumType {
    pub attrs: Vec<Attribute>,
    /// The visibility as written (`pub`, `pub(crate)`, or empty).
    pub vis: String,
    pub name: String,
    pub generics: Vec<GenericParam>,
    /// The where clause as written, or empty.
    pub where_clause: String,
    pub variants: Vec<Variant>,
}

impl Variant {
    /// The number of fields.
    pub open spec fn arity(&self) -> nat {
        self.fields@.len()
    }
}

/// The length of the run of lifetime parameters at the start of `g`.
pub open spec fn lifetime_prefix(g: Seq<GenericParam>) -> nat
    decreases g.len(),
{
    if g.len() > 0 && g[0].is_lifetime {
        1 + lifetime_prefix(g.drop_first())
    } else {
        0
    }
}

} // verus!
