//! The companion enums: the tag enum, with one unit variant per variant, and
//! the view enums, whose fields are references into a value of the subject.
use vstd::prelude::*;
use crate::accessors::{tag_name, view_name};
use crate::generics::{insert_lifetime, lemma_lifetime_prefix_bound, lifetime_param, new_lifetime, with_lifetime};
use crate::item::VIEW_LIFETIME;
use crate::shape::{lifetime_prefix, Attribute, DeriveItem, Field, Shape, SumType, Variant};
use crate::text::{cat, copy_strings, same_text};

verus! {

pub open spec fn str_views(s: Seq<&str>) -> Seq<Seq<char>> {
    s.map_values(|x: &str| x@)
}

/// The derive paths of `items` whose last segment is not in `drop`.
pub open spec fn kept_derives(items: Seq<DeriveItem>, drop: Seq<Seq<char>>) -> Seq<DeriveItem> {
    items.filter(|d: DeriveItem| !drop.contains(d.name@))
}

/// `b` is `a` with the derives named in `drop` taken out of it; any other
/// attribute is kept as it is.
pub open spec fn filtered(a: Attribute, b: Attribute, drop: Seq<Seq<char>>) -> bool {
    match (a, b) {
        (Attribute::Derive(x), Attribute::Derive(y)) => y@ == kept_derives(x@, drop),
        (Attribute::Other(x), Attribute::Other(y)) => x == y,
        _ => false,
    }
}

/// The capabilities that a type holding mutable references cannot have.
pub open spec fn copy_capabilities() -> Seq<Seq<char>> {
    seq!["Clone"@, "Copy"@]
}

/// What a companion variant keeps of the subject's variant: attributes,
/// name and discriminant.
pub open spec fn same_header(a: Variant, b: Variant) -> bool {
    &&& b.attrs@ == a.attrs@
    &&& b.name == a.name
    &&& b.discriminant == a.discriminant
}

/// `b` is `a` with each field's type `T` made `&'reb T`, or `&'reb mut T`.
pub open spec fn view_variant(a: Variant, b: Variant, mutable: bool) -> bool {
    &&& same_header(a, b)
    &&& b.shape == a.shape
    &&& b.fields@.len() == a.fields@.len()
    &&& forall|k: int|
        0 <= k < a.fields@.len() ==> {
            &&& (#[trigger] b.fields@[k]).ident == a.fields@[k].ident
            &&& b.fields@[k].ty@ == (if mutable { "&'reb mut "@ } else { "&'reb "@ }) + a.fields@[k].ty@
        }
}

/// `v` is the view enum of `t`.
pub open spec fn is_view_of(t: SumType, v: SumType, mutable: bool) -> bool {
    let n = lifetime_prefix(t.generics@) as int;
    let drop = if mutable { copy_capabilities() } else { seq![] };
    &&& v.attrs@.len() == t.attrs@.len()
    &&& forall|i: int| 0 <= i < t.attrs@.len() ==> filtered(t.attrs@[i], #[trigger] v.attrs@[i], drop)
    &&& v.vis == t.vis
    &&& v.name@ == view_name(t, mutable)
    &&& v.generics@.len() == t.generics@.len() + 1
    &&& lifetime_param(v.generics@[n], "'reb"@)
    &&& v.generics@ == with_lifetime(t.generics@, v.generics@[n])
    &&& v.where_clause == t.where_clause
    &&& v.variants@.len() == t.variants@.len()
    &&& forall|i: int|
        0 <= i < t.variants@.len() ==> view_variant(t.variants@[i], #[trigger] v.variants@[i], mutable)
}

/// The derives every tag enum has.
pub open spec fn tag_capabilities() -> Seq<Seq<char>> {
    seq!["Clone"@, "Copy"@, "Debug"@, "PartialEq"@, "Eq"@, "Hash"@]
}

/// `g` is the tag enum of `t`.
pub open spec fn is_tag_of(t: SumType, g: SumType) -> bool {
    &&& g.attrs@.len() == 1
    &&& g.attrs@[0] matches Attribute::Derive(items) && items@.len() == tag_capabilities().len() && (forall|k: int|
        0 <= k < items@.len() ==> (#[trigger] items@[k]).path@ == tag_capabilities()[k] && items@[k].name@ == tag_capabilities()[k])
    &&& g.vis == t.vis
    &&& g.name@ == tag_name(t)
    &&& g.generics@.len() == 0
    &&& g.where_clause@.len() == 0
    &&& g.variants@.len() == t.variants@.len()
    &&& forall|i: int|
        0 <= i < t.variants@.len() ==> {
            &&& same_header(t.variants@[i], #[trigger] g.variants@[i])
            &&& g.variants@[i].shape == Shape::Unit
            &&& g.variants@[i].fields@.len() == 0
        }
}

fn copy_discriminant(d: &Option<String>) -> (r: Option<String>)
    ensures
        r == *d,
{
    match d {
        Some(s) => Some(s.clone()),
        None => None,
    }
}

fn copy_derive(d: &DeriveItem) -> (r: DeriveItem)
    ensures
        r == *d,
{
    DeriveItem { path: d.path.clone(), name: d.name.clone() }
}

fn is_listed(name: &String, drop: &[&str]) -> (r: bool)
    ensures
        r == str_views(drop@).contains(name@),
{
    let mut j: usize = 0;
    while j < drop.len()
        invariant
            j <= drop@.len(),
            forall|k: int| 0 <= k < j ==> drop@[k]@ != name@,
        decreases drop@.len() - j,
    {
        if same_text(name.as_str(), drop[j]) {
            assert(str_views(drop@)[j as int] == name@);
            return true;
        }
        j = j + 1;
    }
    assert forall|k: int| 0 <= k < str_views(drop@).len() implies str_views(drop@)[k] != name@ by {
        assert(str_views(drop@)[k] == drop@[k]@);
    }
    false
}

/// The attributes with the derives named in `drop` taken out.
pub fn filter_derive_attributes(attrs: &Vec<Attribute>, drop: &[&str]) -> (r: Vec<Attribute>)
    ensures
        r@.len() == attrs@.len(),
        forall|i: int| 0 <= i < attrs@.len() ==> filtered(attrs@[i], #[trigger] r@[i], str_views(drop@)),
{
    let ghost dv = str_views(drop@);
    let mut r: Vec<Attribute> = Vec::new();
    let mut i: usize = 0;
    while i < attrs.len()
        invariant
            i <= attrs@.len(),
            dv == str_views(drop@),
            r@.len() == i,
            forall|j: int| 0 <= j < i ==> filtered(attrs@[j], #[trigger] r@[j], dv),
        decreases attrs@.len() - i,
    {
        let a = match &attrs[i] {
            Attribute::Derive(items) => {
                let mut kept: Vec<DeriveItem> = Vec::new();
                let mut k: usize = 0;
                while k < items.len()
                    invariant
                        k <= items@.len(),
                        kept@ == kept_derives(items@.take(k as int), dv),
                        dv == str_views(drop@),
                    decreases items@.len() - k,
                {
                    proof {
                        reveal(Seq::filter);
                        assert(items@.take(k + 1).drop_last() =~= items@.take(k as int));
                    }
                    if !is_listed(&items[k].name, drop) {
                        kept.push(copy_derive(&items[k]));
                    }
                    k = k + 1;
                }
                assert(items@.take(k as int) =~= items@);
                Attribute::Derive(kept)
            },
            Attribute::Other(s) => Attribute::Other(s.clone()),
        };
        r.push(a);
        i = i + 1;
    }
    r
}

/// The variants of `t` with every field type made a reference of the view
/// lifetime.
fn view_variants(t: &SumType, mutable: bool) -> (r: Vec<Variant>)
    ensures
        r@.len() == t.variants@.len(),
        forall|i: int| 0 <= i < t.variants@.len() ==> view_variant(t.variants@[i], #[trigger] r@[i], mutable),
{
    let prefix = if mutable { cat(VIEW_LIFETIME, " mut ") } else { cat(VIEW_LIFETIME, " ") };
    let prefix = cat("&", prefix.as_str());
    assert(prefix@ =~= if mutable { "&'reb mut "@ } else { "&'reb "@ }) by {
        reveal_strlit("&");
        reveal_strlit("'reb");
        reveal_strlit(" mut ");
        reveal_strlit(" ");
        reveal_strlit("&'reb mut ");
        reveal_strlit("&'reb ");
    }
    let mut r: Vec<Variant> = Vec::new();
    let mut i: usize = 0;
    while i < t.variants.len()
        invariant
            i <= t.variants@.len(),
            prefix@ == if mutable { "&'reb mut "@ } else { "&'reb "@ },
            r@.len() == i,
            forall|j: int| 0 <= j < i ==> view_variant(t.variants@[j], #[trigger] r@[j], mutable),
        decreases t.variants@.len() - i,
    {
        let v = &t.variants[i];
        let mut fields: Vec<Field> = Vec::new();
        let mut k: usize = 0;
        while k < v.fields.len()
            invariant
                k <= v.fields@.len(),
                fields@.len() == k,
                prefix@ == if mutable { "&'reb mut "@ } else { "&'reb "@ },
                forall|j: int|
                    0 <= j < k ==> {
                        &&& (#[trigger] fields@[j]).ident == v.fields@[j].ident
                        &&& fields@[j].ty@ == prefix@ + v.fields@[j].ty@
                    },
            decreases v.fields@.len() - k,
        {
            fields.push(Field { ident: v.fields[k].ident.clone(), ty: cat(prefix.as_str(), v.fields[k].ty.as_str()) });
            k = k + 1;
        }
        r.push(Variant {
            attrs: copy_strings(&v.attrs),
            name: v.name.clone(),
            shape: v.shape,
            fields,
            discriminant: copy_discriminant(&v.discriminant),
        });
        i = i + 1;
    }
    r
}

/// The view enum of `t`: `NameRef` holding shared references, or `NameMut`
/// holding mutable references, with one more lifetime, and the attributes
/// of `t` less `Clone` and `Copy` for `NameMut`.
pub fn view_type(t: &SumType, mutable: bool) -> (r: SumType)
    ensures
        is_view_of(*t, r, mutable),
{
    let drop: Vec<&str> = if mutable { vec!["Clone", "Copy"] } else { Vec::new() };
    let attrs = filter_derive_attributes(&t.attrs, drop.as_slice());
    assert(str_views(drop@) =~= if mutable { copy_capabilities() } else { seq![] });
    let lifetime = new_lifetime(VIEW_LIFETIME);
    let generics = insert_lifetime(&t.generics, lifetime);
    proof {
        lemma_lifetime_prefix_bound(t.generics@);
        reveal_strlit("'reb");
    }
    SumType {
        attrs,
        vis: t.vis.clone(),
        name: cat(t.name.as_str(), if mutable { "Mut" } else { "Ref" }),
        generics,
        where_clause: t.where_clause.clone(),
        variants: view_variants(t, mutable),
    }
}

fn derive_item(name: &str) -> (r: DeriveItem)
    ensures
        r.path@ == name@,
        r.name@ == name@,
{
    DeriveItem { path: String::from_str(name), name: String::from_str(name) }
}

/// The tag enum of `t`: `NameTag`, one unit variant per variant, deriving
/// `Clone, Copy, Debug, PartialEq, Eq, Hash`.
pub fn tag_type(t: &SumType) -> (r: SumType)
    ensures
        is_tag_of(*t, r),
{
    let mut items: Vec<DeriveItem> = Vec::new();
    items.push(derive_item("Clone"));
    items.push(derive_item("Copy"));
    items.push(derive_item("Debug"));
    items.push(derive_item("PartialEq"));
    items.push(derive_item("Eq"));
    items.push(derive_item("Hash"));
    let mut variants: Vec<Variant> = Vec::new();
    let mut i: usize = 0;
    while i < t.variants.len()
        invariant
            i <= t.variants@.len(),
            variants@.len() == i,
            forall|j: int|
                0 <= j < i ==> {
                    &&& same_header(t.variants@[j], #[trigger] variants@[j])
                    &&& variants@[j].shape == Shape::Unit
                    &&& variants@[j].fields@.len() == 0
                },
        decreases t.variants@.len() - i,
    {
        let v = &t.variants[i];
        variants.push(Variant {
            attrs: copy_strings(&v.attrs),
            name: v.name.clone(),
            shape: Shape::Unit,
            fields: Vec::new(),
            discriminant: copy_discriminant(&v.discriminant),
        });
        i = i + 1;
    }
    let r = SumType {
        attrs: vec![Attribute::Derive(items)],
        vis: t.vis.clone(),
        name: cat(t.name.as_str(), "Tag"),
        generics: Vec::new(),
        where_clause: String::new(),
        variants,
    };
    r
}

} // verus!
