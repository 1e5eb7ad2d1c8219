//! The accessor methods generated on an enum: one predicate, unwrap or get
//! per variant, and the whole-enum conversions `to_tag`, `as_ref`, `as_mut`.
use vstd::prelude::*;
use crate::generics::{angled, arguments_with, insert_lifetime, lemma_arguments_with, new_lifetime, render_generics, GenericForm};
use crate::item::{collapsed_type, variant_type, Access, Body, Fallback, Function, Pattern};
use crate::naming::{snake_case, variant_snake_case_name};
use crate::shape::{SumType, Variant};
use crate::text::cat;

verus! {

/// The return type of a per-variant accessor.
pub open spec fn output_of(v: Variant, wrap: Access, body: Body) -> Seq<char> {
    match body {
        Body::Yes => "bool"@,
        Body::Present => "Option<"@ + collapsed_type(v, wrap) + ">"@,
        _ => collapsed_type(v, wrap),
    }
}

/// The fallback of a per-variant accessor: a predicate says `false`, a get
/// says `None`, an unwrap panics.
pub open spec fn fallback_of(body: Body) -> Fallback {
    match body {
        Body::Yes => Fallback::No,
        Body::Present => Fallback::Absent,
        _ => Fallback::Abort,
    }
}

/// A predicate only tells the variant; the others bind its fields.
pub open spec fn pattern_of(body: Body) -> Pattern {
    if body == Body::Yes {
        Pattern::Wild
    } else {
        Pattern::Bind
    }
}

/// `f` is the accessor of variant `i` of `t` with the given name prefix,
/// receiver, payload wrapping and arm body: one arm, for that variant.
pub open spec fn per_variant(
    t: SumType,
    i: int,
    f: Function,
    prefix: Seq<char>,
    receiver: Access,
    lifetime: bool,
    wrap: Access,
    body: Body,
) -> bool {
    &&& f.name@ == prefix + snake_case(t.variants@[i].name@)
    &&& f.receiver == receiver
    &&& f.receiver_lifetime == lifetime
    &&& f.output@ == output_of(t.variants@[i], wrap, body)
    &&& f.pattern == pattern_of(body)
    &&& f.body == body
    &&& f.arms@.len() == 1
    &&& f.arms@[0] == i
    &&& f.fallback == fallback_of(body)
}

/// `fs` holds, in variant order, one accessor of each variant of `t`.
pub open spec fn per_variant_all(
    t: SumType,
    fs: Seq<Function>,
    prefix: Seq<char>,
    receiver: Access,
    lifetime: bool,
    wrap: Access,
    body: Body,
) -> bool {
    &&& fs.len() == t.variants@.len()
    &&& forall|i: int|
        0 <= i < fs.len() ==> per_variant(t, i, #[trigger] fs[i], prefix, receiver, lifetime, wrap, body)
}

/// One arm for each variant of `t`, in variant order.
pub open spec fn all_arms(arms: Seq<usize>, t: SumType) -> bool {
    &&& arms.len() == t.variants@.len()
    &&& forall|k: int| 0 <= k < arms.len() ==> arms[k] == k
}

/// A method over all variants of `t`, one arm each and no fallback.
pub open spec fn whole(
    t: SumType,
    f: Function,
    name: Seq<char>,
    receiver: Access,
    output: Seq<char>,
    target: Seq<char>,
    pattern: Pattern,
    body: Body,
) -> bool {
    &&& f.name@ == name
    &&& f.receiver == receiver
    &&& !f.receiver_lifetime
    &&& f.output@ == output
    &&& f.target@ == target
    &&& f.pattern == pattern
    &&& f.body == body
    &&& all_arms(f.arms@, t)
    &&& f.fallback == Fallback::Total
}

pub open spec fn tag_name(t: SumType) -> Seq<char> {
    t.name@ + "Tag"@
}

pub open spec fn view_name(t: SumType, mutable: bool) -> Seq<char> {
    t.name@ + if mutable { "Mut"@ } else { "Ref"@ }
}

/// The view type of `t` with an elided lifetime: `NameRef<'_, T>`.
pub open spec fn view_type_elided(t: SumType, mutable: bool) -> Seq<char> {
    view_name(t, mutable) + angled(arguments_with(t.generics@, "'_"@))
}

fn per_variant_functions(
    t: &SumType,
    prefix: &str,
    receiver: Access,
    lifetime: bool,
    wrap: Access,
    body: Body,
) -> (r: Vec<Function>)
    requires
        body == Body::Yes || body == Body::Payload || body == Body::Present,
    ensures
        per_variant_all(*t, r@, prefix@, receiver, lifetime, wrap, body),
{
    let mut r: Vec<Function> = Vec::new();
    let mut i: usize = 0;
    while i < t.variants.len()
        invariant
            i <= t.variants@.len(),
            body == Body::Yes || body == Body::Payload || body == Body::Present,
            r@.len() == i,
            forall|j: int|
                0 <= j < i ==> per_variant(*t, j, #[trigger] r@[j], prefix@, receiver, lifetime, wrap, body),
        decreases t.variants@.len() - i,
    {
        let v = &t.variants[i];
        let snake = variant_snake_case_name(&v.name);
        let name = cat(prefix, snake.as_str());
        let output = match body {
            Body::Yes => String::from_str("bool"),
            Body::Present => {
                let mut s = String::from_str("Option<");
                let ty = variant_type(v, wrap);
                s.append(ty.as_str());
                s.append(">");
                s
            },
            _ => variant_type(v, wrap),
        };
        let pattern = if body == Body::Yes { Pattern::Wild } else { Pattern::Bind };
        let fallback = match body {
            Body::Yes => Fallback::No,
            Body::Present => Fallback::Absent,
            _ => Fallback::Abort,
        };
        let f = Function {
            name,
            receiver,
            receiver_lifetime: lifetime,
            output,
            target: String::new(),
            pattern,
            body,
            arms: vec![i],
            fallback,
        };
        r.push(f);
        i = i + 1;
    }
    r
}

/// `is_<variant>(&self) -> bool`, one per variant.
pub fn is_functions(t: &SumType) -> (r: Vec<Function>)
    ensures
        per_variant_all(*t, r@, "is_"@, Access::Shared, false, Access::Owned, Body::Yes),
{
    per_variant_functions(t, "is_", Access::Shared, false, Access::Owned, Body::Yes)
}

/// `unwrap_<variant>(self)`, handing back the fields; panics on another
/// variant.
pub fn unwrap_functions(t: &SumType) -> (r: Vec<Function>)
    ensures
        per_variant_all(*t, r@, "unwrap_"@, Access::Owned, false, Access::Owned, Body::Payload),
{
    per_variant_functions(t, "unwrap_", Access::Owned, false, Access::Owned, Body::Payload)
}

/// `unwrap_ref_<variant>(&self)`, a shared reference to each field.
pub fn unwrap_ref_functions(t: &SumType) -> (r: Vec<Function>)
    ensures
        per_variant_all(*t, r@, "unwrap_ref_"@, Access::Shared, false, Access::Shared, Body::Payload),
{
    per_variant_functions(t, "unwrap_ref_", Access::Shared, false, Access::Shared, Body::Payload)
}

/// `unwrap_mut_<variant>(&mut self)`, a mutable reference to each field.
pub fn unwrap_mut_functions(t: &SumType) -> (r: Vec<Function>)
    ensures
        per_variant_all(*t, r@, "unwrap_mut_"@, Access::Exclusive, false, Access::Exclusive, Body::Payload),
{
    per_variant_functions(t, "unwrap_mut_", Access::Exclusive, false, Access::Exclusive, Body::Payload)
}

/// `get_<variant>(self)`, the fields in `Some`, or `None` on another variant.
pub fn get_functions(t: &SumType) -> (r: Vec<Function>)
    ensures
        per_variant_all(*t, r@, "get_"@, Access::Owned, false, Access::Owned, Body::Present),
{
    per_variant_functions(t, "get_", Access::Owned, false, Access::Owned, Body::Present)
}

/// `get_ref_<variant>(&self)`, shared references to the fields in `Some`.
pub fn get_ref_functions(t: &SumType) -> (r: Vec<Function>)
    ensures
        per_variant_all(*t, r@, "get_ref_"@, Access::Shared, false, Access::Shared, Body::Present),
{
    per_variant_functions(t, "get_ref_", Access::Shared, false, Access::Shared, Body::Present)
}

/// `get_mut_<variant>(&mut self)`, mutable references to the fields in
/// `Some`, or `None` on another variant, as `get_<variant>` does.
pub fn get_mut_functions(t: &SumType) -> (r: Vec<Function>)
    ensures
        per_variant_all(*t, r@, "get_mut_"@, Access::Exclusive, false, Access::Exclusive, Body::Present),
{
    per_variant_functions(t, "get_mut_", Access::Exclusive, false, Access::Exclusive, Body::Present)
}

/// `unwrap_<variant>(&'reb self)` on a view enum: the references it holds.
pub fn view_unwrap_functions(t: &SumType, receiver: Access) -> (r: Vec<Function>)
    ensures
        per_variant_all(*t, r@, "unwrap_"@, receiver, true, Access::Owned, Body::Payload),
{
    per_variant_functions(t, "unwrap_", receiver, true, Access::Owned, Body::Payload)
}

/// `get_<variant>(&'reb self)` on a view enum: the references it holds, in
/// `Some`.
pub fn view_get_functions(t: &SumType, receiver: Access) -> (r: Vec<Function>)
    ensures
        per_variant_all(*t, r@, "get_"@, receiver, true, Access::Owned, Body::Present),
{
    per_variant_functions(t, "get_", receiver, true, Access::Owned, Body::Present)
}

fn all_variant_arms(t: &SumType) -> (r: Vec<usize>)
    ensures
        all_arms(r@, *t),
{
    let mut r: Vec<usize> = Vec::new();
    let mut i: usize = 0;
    while i < t.variants.len()
        invariant
            i <= t.variants@.len(),
            r@.len() == i,
            forall|k: int| 0 <= k < i ==> r@[k] == k,
        decreases t.variants@.len() - i,
    {
        r.push(i);
        i = i + 1;
    }
    r
}

/// `to_tag(&self) -> <tag>`: the tag variant of the same name.
pub fn to_tag_function(t: &SumType, tag: &String) -> (r: Function)
    ensures
        whole(*t, r, "to_tag"@, Access::Shared, tag@, tag@, Pattern::Wild, Body::Tag),
{
    Function {
        name: String::from_str("to_tag"),
        receiver: Access::Shared,
        receiver_lifetime: false,
        output: tag.clone(),
        target: tag.clone(),
        pattern: Pattern::Wild,
        body: Body::Tag,
        arms: all_variant_arms(t),
        fallback: Fallback::Total,
    }
}

/// `as_ref(&self) -> NameRef<'_, ..>` or `as_mut(&mut self) -> NameMut<'_, ..>`:
/// the view variant of the same name, holding a reference to each field.
pub fn as_view_function(t: &SumType, mutable: bool) -> (r: Function)
    ensures
        whole(
            *t,
            r,
            if mutable { "as_mut"@ } else { "as_ref"@ },
            if mutable { Access::Exclusive } else { Access::Shared },
            view_type_elided(*t, mutable),
            view_name(*t, mutable),
            Pattern::Bind,
            Body::View,
        ),
{
    let view = cat(t.name.as_str(), if mutable { "Mut" } else { "Ref" });
    let elided = new_lifetime("'_");
    let g = insert_lifetime(&t.generics, elided);
    let args = render_generics(&g, GenericForm::Arguments);
    proof {
        lemma_arguments_with(t.generics@, elided);
    }
    let output = cat(view.as_str(), args.as_str());
    let f = Function {
        name: String::from_str(if mutable { "as_mut" } else { "as_ref" }),
        receiver: if mutable { Access::Exclusive } else { Access::Shared },
        receiver_lifetime: false,
        output,
        target: view,
        pattern: Pattern::Bind,
        body: Body::View,
        arms: all_variant_arms(t),
        fallback: Fallback::Total,
    };
    f
}

} // verus!
