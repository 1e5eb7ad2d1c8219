//! The generated functions, described as data: one match over the subject's
//! variants, with one arm per listed variant and a fallback arm.
use vstd::prelude::*;
use crate::naming::{decimal, push_decimal};
use crate::shape::{Shape, SumType, Variant};
use crate::text::{cat, collapse, collapsed, lemma_views_push, views};

verus! {

/// How a value is held: owned, behind a shared reference, or behind a
/// mutable reference.
#[derive(Clone, Copy, Debug, PartialEq, Eq, Structural)]
pub enum Access {
    Owned,
    Shared,
    Exclusive,
}

/// How each arm matches its variant.
#[derive(Clone, Copy, Debug, PartialEq, Eq, Structural)]
pub enum Pattern {
    /// Whatever the fields hold (`E::V(_, _)`, `E::V { .. }`).
    Wild,
    /// Binding every field (`E::V(e0, e1)`, `E::V { a, b }`).
    Bind,
}

/// What a matching arm yields.
#[derive(Clone, Copy, Debug, PartialEq, Eq, Structural)]
pub enum Body {
    /// `true`.
    Yes,
    /// The variant of the same name in the target enum, which has no fields.
    Tag,
    /// The bound fields, collapsed.
    Payload,
    /// The bound fields, collapsed, in `Some`.
    Present,
    /// The variant of the same name in the target enum, built from the
    /// bound fields.
    View,
}

/// What the match yields for a variant that has no arm.
#[derive(Clone, Copy, Debug, PartialEq, Eq, Structural)]
pub enum Fallback {
    /// There is no such variant: every variant has an arm.
    Total,
    /// `false`.
    No,
    /// A panic: the caller asked for the wrong variant.
    Abort,
    /// `None`.
    Absent,
}

/// A generated method of the subject enum.
#[derive(Debug)]
pub struct Function {
    pub name: String,
    /// How `self` is taken.
    pub receiver: Access,
    /// Whether a reference receiver carries the view lifetime.
    pub receiver_lifetime: bool,
    /// The return type, as text.
    pub output: String,
    /// The enum named in `Tag` and `View` bodies.
    pub target: String,
    pub pattern: Pattern,
    pub body: Body,
    /// The variants that have an arm, by index, in arm order.
    pub arms: Vec<usize>,
    pub fallback: Fallback,
}

impl Function {
    /// Every arm names a variant of `t`.
    pub open spec fn fits(&self, t: SumType) -> bool {
        forall|k: int| 0 <= k < self.arms@.len() ==> (#[trigger] self.arms@[k]) < t.variants@.len()
    }
}

/// The fresh lifetime of the view types.
pub const VIEW_LIFETIME: &'static str = "'reb";

/// `ty` held as `access` says.
pub open spec fn wrapped(ty: Seq<char>, access: Access) -> Seq<char> {
    match access {
        Access::Owned => ty,
        Access::Shared => "&"@ + ty,
        Access::Exclusive => "&mut "@ + ty,
    }
}

/// The field types of `v`, each held as `access` says.
pub open spec fn field_types(v: Variant, access: Access) -> Seq<Seq<char>> {
    Seq::new(v.fields@.len(), |k: int| wrapped(v.fields@[k].ty@, access))
}

/// The collapsed type of `v`: its one field's type, or the tuple of its
/// field types, each component held as `access` says.
pub open spec fn collapsed_type(v: Variant, access: Access) -> Seq<char> {
    collapsed(field_types(v, access))
}

/// The name a pattern binds field `k` of `v` to: the field's own name for a
/// named field, else `e` and its position.
pub open spec fn binding(v: Variant, k: int) -> Seq<char> {
    if v.shape == Shape::Named {
        v.fields@[k].ident@
    } else {
        "e"@ + decimal(k as nat)
    }
}

pub open spec fn bindings(v: Variant) -> Seq<Seq<char>> {
    Seq::new(v.fields@.len(), |k: int| binding(v, k))
}

pub fn wrap_type(ty: &String, access: Access) -> (r: String)
    ensures
        r@ == wrapped(ty@, access),
{
    match access {
        Access::Owned => ty.clone(),
        Access::Shared => cat("&", ty.as_str()),
        Access::Exclusive => cat("&mut ", ty.as_str()),
    }
}

pub fn field_type_list(v: &Variant, access: Access) -> (r: Vec<String>)
    ensures
        views(r@) == field_types(*v, access),
{
    let mut r: Vec<String> = Vec::new();
    let mut k: usize = 0;
    while k < v.fields.len()
        invariant
            k <= v.fields@.len(),
            views(r@) =~= field_types(*v, access).take(k as int),
        decreases v.fields@.len() - k,
    {
        let w = wrap_type(&v.fields[k].ty, access);
        assert(w@ == field_types(*v, access)[k as int]);
        proof {
            lemma_views_push(r@, w);
        }
        r.push(w);
        k = k + 1;
        assert(views(r@) =~= field_types(*v, access).take(k as int));
    }
    assert(field_types(*v, access).take(k as int) =~= field_types(*v, access));
    r
}

/// The collapsed type of a variant, the payload type of its accessors.
pub fn variant_type(v: &Variant, access: Access) -> (r: String)
    ensures
        r@ == collapsed_type(*v, access),
{
    collapse(&field_type_list(v, access))
}

pub fn binding_list(v: &Variant) -> (r: Vec<String>)
    ensures
        views(r@) == bindings(*v),
{
    let mut r: Vec<String> = Vec::new();
    let mut k: usize = 0;
    while k < v.fields.len()
        invariant
            k <= v.fields@.len(),
            views(r@) =~= bindings(*v).take(k as int),
        decreases v.fields@.len() - k,
    {
        let b = if v.shape == Shape::Named {
            v.fields[k].ident.clone()
        } else {
            let mut e = String::from_str("e");
            push_decimal(&mut e, k);
            e
        };
        assert(b@ == bindings(*v)[k as int]);
        proof {
            lemma_views_push(r@, b);
        }
        r.push(b);
        k = k + 1;
        assert(views(r@) =~= bindings(*v).take(k as int));
    }
    assert(bindings(*v).take(k as int) =~= bindings(*v));
    r
}

} // verus!
