//! The whole generation pass: the requested accessors on the enum, then the
//! tag enum, the shared view enum and the mutable view enum, each with its
//! own methods, all as text after the enum's own definition.
use vstd::prelude::*;
use crate::accessors::{
    all_arms, as_view_function, get_functions, get_mut_functions, get_ref_functions, is_functions, per_variant,
    per_variant_all, tag_name, to_tag_function, unwrap_functions, unwrap_mut_functions, unwrap_ref_functions,
    view_name, view_type_elided, whole,
};
use crate::companion::{is_tag_of, is_view_of, tag_type, view_type};
use crate::item::{Access, Body, Function, Pattern};
use crate::options::{parse_options, recognized, requested, OptionError, Options};
use crate::render::{enum_text, impl_text, render_enum, render_impl};
use crate::shape::SumType;
use crate::text::{cat, views};

verus! {

/// The methods generated on the enum itself, by operation.
pub struct Accessors {
    pub is_fns: Vec<Function>,
    pub unwrap_fns: Vec<Function>,
    pub unwrap_ref_fns: Vec<Function>,
    pub unwrap_mut_fns: Vec<Function>,
    pub to_tag_fns: Vec<Function>,
    pub as_ref_fns: Vec<Function>,
    pub as_mut_fns: Vec<Function>,
    pub get_fns: Vec<Function>,
    pub get_ref_fns: Vec<Function>,
    pub get_mut_fns: Vec<Function>,
}

/// A companion enum and its methods, by operation.
pub struct Companion {
    pub definition: SumType,
    pub is_fns: Vec<Function>,
    pub unwrap_fns: Vec<Function>,
    pub to_tag_fns: Vec<Function>,
    pub get_fns: Vec<Function>,
}

/// Everything one pass generates.
pub struct Expansion {
    pub accessors: Accessors,
    pub tag: Option<Companion>,
    pub ref_view: Option<Companion>,
    pub mut_view: Option<Companion>,
}

/// The per-variant accessors when requested, else none.
pub open spec fn group(
    wanted: bool,
    fs: Seq<Function>,
    t: SumType,
    prefix: Seq<char>,
    receiver: Access,
    lifetime: bool,
    wrap: Access,
    body: Body,
) -> bool {
    if wanted {
        per_variant_all(t, fs, prefix, receiver, lifetime, wrap, body)
    } else {
        fs.len() == 0
    }
}

/// The one whole-enum method when requested, else none.
pub open spec fn single(
    wanted: bool,
    fs: Seq<Function>,
    t: SumType,
    name: Seq<char>,
    receiver: Access,
    output: Seq<char>,
    target: Seq<char>,
    pattern: Pattern,
    body: Body,
) -> bool {
    if wanted {
        fs.len() == 1 && whole(t, fs[0], name, receiver, output, target, pattern, body)
    } else {
        fs.len() == 0
    }
}

pub open spec fn accessors_of(o: Options, t: SumType, a: Accessors) -> bool {
    &&& group(o.is, a.is_fns@, t, "is_"@, Access::Shared, false, Access::Owned, Body::Yes)
    &&& group(o.unwrap, a.unwrap_fns@, t, "unwrap_"@, Access::Owned, false, Access::Owned, Body::Payload)
    &&& group(o.unwrap_ref, a.unwrap_ref_fns@, t, "unwrap_ref_"@, Access::Shared, false, Access::Shared, Body::Payload)
    &&& group(o.unwrap_mut, a.unwrap_mut_fns@, t, "unwrap_mut_"@, Access::Exclusive, false, Access::Exclusive, Body::Payload)
    &&& single(o.to_tag, a.to_tag_fns@, t, "to_tag"@, Access::Shared, tag_name(t), tag_name(t), Pattern::Wild, Body::Tag)
    &&& single(o.as_ref, a.as_ref_fns@, t, "as_ref"@, Access::Shared, view_type_elided(t, false), view_name(t, false), Pattern::Bind, Body::View)
    &&& single(o.as_mut, a.as_mut_fns@, t, "as_mut"@, Access::Exclusive, view_type_elided(t, true), view_name(t, true), Pattern::Bind, Body::View)
    &&& group(o.get, a.get_fns@, t, "get_"@, Access::Owned, false, Access::Owned, Body::Present)
    &&& group(o.get_ref, a.get_ref_fns@, t, "get_ref_"@, Access::Shared, false, Access::Shared, Body::Present)
    &&& group(o.get_mut, a.get_mut_fns@, t, "get_mut_"@, Access::Exclusive, false, Access::Exclusive, Body::Present)
}

/// The methods on the enum, in the order they are written out.
pub open spec fn accessor_list(a: Accessors) -> Seq<Function> {
    a.is_fns@ + a.unwrap_fns@ + a.unwrap_ref_fns@ + a.unwrap_mut_fns@ + a.to_tag_fns@ + a.as_ref_fns@ + a.as_mut_fns@
        + a.get_fns@ + a.get_ref_fns@ + a.get_mut_fns@
}

/// The tag enum of `t`, with predicates when they are requested.
pub open spec fn tag_companion_of(o: Options, t: SumType, c: Companion) -> bool {
    &&& is_tag_of(t, c.definition)
    &&& group(o.is, c.is_fns@, c.definition, "is_"@, Access::Shared, false, Access::Owned, Body::Yes)
    &&& c.unwrap_fns@.len() == 0
    &&& c.to_tag_fns@.len() == 0
    &&& c.get_fns@.len() == 0
}

/// A view enum of `t`, with those of the predicates, unwraps, `to_tag` and
/// gets that are requested; its accessors take `self` by a reference of the
/// view lifetime and hand back the references it holds.
pub open spec fn view_companion_of(o: Options, t: SumType, c: Companion, mutable: bool) -> bool {
    let receiver = if mutable { Access::Exclusive } else { Access::Shared };
    &&& is_view_of(t, c.definition, mutable)
    &&& group(o.is, c.is_fns@, c.definition, "is_"@, Access::Shared, false, Access::Owned, Body::Yes)
    &&& group(o.unwrap, c.unwrap_fns@, c.definition, "unwrap_"@, receiver, true, Access::Owned, Body::Payload)
    &&& single(o.to_tag, c.to_tag_fns@, c.definition, "to_tag"@, Access::Shared, tag_name(t), tag_name(t), Pattern::Wild, Body::Tag)
    &&& group(o.get, c.get_fns@, c.definition, "get_"@, receiver, true, Access::Owned, Body::Present)
}

pub open spec fn companion_list(c: Companion) -> Seq<Function> {
    c.is_fns@ + c.unwrap_fns@ + c.to_tag_fns@ + c.get_fns@
}

/// `e` is what options `o` ask for on `t`.
pub open spec fn expansion_of(o: Options, t: SumType, e: Expansion) -> bool {
    &&& accessors_of(o, t, e.accessors)
    &&& if o.tag_enum { e.tag matches Some(c) && tag_companion_of(o, t, c) } else { e.tag is None }
    &&& if o.ref_enum { e.ref_view matches Some(c) && view_companion_of(o, t, c, false) } else { e.ref_view is None }
    &&& if o.mut_enum { e.mut_view matches Some(c) && view_companion_of(o, t, c, true) } else { e.mut_view is None }
}

pub open spec fn companion_text(c: Option<Companion>) -> Seq<char> {
    match c {
        Some(c) => enum_text(c.definition) + impl_text(c.definition, companion_list(c)),
        None => seq![],
    }
}

/// The generated text: the impl block on the enum, then each companion
/// enum with its impl block.
pub open spec fn expansion_text(t: SumType, e: Expansion) -> Seq<char> {
    impl_text(t, accessor_list(e.accessors)) + companion_text(e.tag) + companion_text(e.ref_view) + companion_text(
        e.mut_view,
    )
}

/// Every arm of every function names a variant of `t`.
pub open spec fn all_fit(fs: Seq<Function>, t: SumType) -> bool {
    forall|k: int| 0 <= k < fs.len() ==> (#[trigger] fs[k]).fits(t)
}

proof fn lemma_group_fits(
    wanted: bool,
    fs: Seq<Function>,
    t: SumType,
    prefix: Seq<char>,
    receiver: Access,
    lifetime: bool,
    wrap: Access,
    body: Body,
)
    requires
        group(wanted, fs, t, prefix, receiver, lifetime, wrap, body),
    ensures
        all_fit(fs, t),
{
    if wanted {
        assert forall|k: int| 0 <= k < fs.len() implies (#[trigger] fs[k]).fits(t) by {
            assert(per_variant(t, k, fs[k], prefix, receiver, lifetime, wrap, body));
            assert(fs[k].arms@[0] == k);
        }
    }
}

proof fn lemma_single_fits(
    wanted: bool,
    fs: Seq<Function>,
    t: SumType,
    name: Seq<char>,
    receiver: Access,
    output: Seq<char>,
    target: Seq<char>,
    pattern: Pattern,
    body: Body,
)
    requires
        single(wanted, fs, t, name, receiver, output, target, pattern, body),
    ensures
        all_fit(fs, t),
{
    if wanted {
        assert(all_arms(fs[0].arms@, t));
        assert(fs[0].fits(t));
    }
}

proof fn lemma_concat_fits(a: Seq<Function>, b: Seq<Function>, t: SumType)
    requires
        all_fit(a, t),
        all_fit(b, t),
    ensures
        all_fit(a + b, t),
{
    assert forall|k: int| 0 <= k < (a + b).len() implies (#[trigger] (a + b)[k]).fits(t) by {
        if k < a.len() {
            assert((a + b)[k] == a[k]);
        } else {
            assert((a + b)[k] == b[k - a.len()]);
        }
    }
}

/// The methods generated on the enum itself.
pub fn build_accessors(o: &Options, t: &SumType) -> (r: Accessors)
    ensures
        accessors_of(*o, *t, r),
{
    let tag = cat(t.name.as_str(), "Tag");
    Accessors {
        is_fns: if o.is { is_functions(t) } else { Vec::new() },
        unwrap_fns: if o.unwrap { unwrap_functions(t) } else { Vec::new() },
        unwrap_ref_fns: if o.unwrap_ref { unwrap_ref_functions(t) } else { Vec::new() },
        unwrap_mut_fns: if o.unwrap_mut { unwrap_mut_functions(t) } else { Vec::new() },
        to_tag_fns: if o.to_tag { vec![to_tag_function(t, &tag)] } else { Vec::new() },
        as_ref_fns: if o.as_ref { vec![as_view_function(t, false)] } else { Vec::new() },
        as_mut_fns: if o.as_mut { vec![as_view_function(t, true)] } else { Vec::new() },
        get_fns: if o.get { get_functions(t) } else { Vec::new() },
        get_ref_fns: if o.get_ref { get_ref_functions(t) } else { Vec::new() },
        get_mut_fns: if o.get_mut { get_mut_functions(t) } else { Vec::new() },
    }
}

/// The tag enum of `t` and its predicates.
pub fn build_tag(o: &Options, t: &SumType) -> (r: Companion)
    ensures
        tag_companion_of(*o, *t, r),
{
    let definition = tag_type(t);
    let is_fns = if o.is { is_functions(&definition) } else { Vec::new() };
    Companion { definition, is_fns, unwrap_fns: Vec::new(), to_tag_fns: Vec::new(), get_fns: Vec::new() }
}

/// A view enum of `t` and its methods.
pub fn build_view(o: &Options, t: &SumType, mutable: bool) -> (r: Companion)
    ensures
        view_companion_of(*o, *t, r, mutable),
{
    let definition = view_type(t, mutable);
    let receiver = if mutable { Access::Exclusive } else { Access::Shared };
    let tag = cat(t.name.as_str(), "Tag");
    let is_fns = if o.is { is_functions(&definition) } else { Vec::new() };
    let unwrap_fns = if o.unwrap {
        crate::accessors::view_unwrap_functions(&definition, receiver)
    } else {
        Vec::new()
    };
    let to_tag_fns = if o.to_tag { vec![to_tag_function(&definition, &tag)] } else { Vec::new() };
    let get_fns = if o.get { crate::accessors::view_get_functions(&definition, receiver) } else { Vec::new() };
    Companion { definition, is_fns, unwrap_fns, to_tag_fns, get_fns }
}

/// Everything that options `o` ask for on `t`.
pub fn expand(o: &Options, t: &SumType) -> (r: Expansion)
    ensures
        expansion_of(*o, *t, r),
{
    Expansion {
        accessors: build_accessors(o, t),
        tag: if o.tag_enum { Some(build_tag(o, t)) } else { None },
        ref_view: if o.ref_enum { Some(build_view(o, t, false)) } else { None },
        mut_view: if o.mut_enum { Some(build_view(o, t, true)) } else { None },
    }
}

/// The text of a companion enum: the tag enum when `mutable` is `None`, else
/// the view enum of that mutability.
fn render_companion(
    c: Option<Companion>,
    Ghost(o): Ghost<Options>,
    Ghost(t): Ghost<SumType>,
    Ghost(mutable): Ghost<Option<bool>>,
) -> (r: String)
    requires
        c matches Some(c) ==> match mutable {
            None => tag_companion_of(o, t, c),
            Some(m) => view_companion_of(o, t, c, m),
        },
    ensures
        r@ == companion_text(c),
{
    match c {
        Some(c) => {
            let ghost list = companion_list(c);
            let Companion { definition, mut is_fns, mut unwrap_fns, mut to_tag_fns, mut get_fns } = c;
            proof {
                match mutable {
                    None => {
                        lemma_group_fits(o.is, is_fns@, definition, "is_"@, Access::Shared, false, Access::Owned, Body::Yes);
                    },
                    Some(m) => {
                        let receiver = if m { Access::Exclusive } else { Access::Shared };
                        lemma_group_fits(o.is, is_fns@, definition, "is_"@, Access::Shared, false, Access::Owned, Body::Yes);
                        lemma_group_fits(o.unwrap, unwrap_fns@, definition, "unwrap_"@, receiver, true, Access::Owned, Body::Payload);
                        lemma_single_fits(o.to_tag, to_tag_fns@, definition, "to_tag"@, Access::Shared, tag_name(t), tag_name(t), Pattern::Wild, Body::Tag);
                        lemma_group_fits(o.get, get_fns@, definition, "get_"@, receiver, true, Access::Owned, Body::Present);
                    },
                }
                lemma_concat_fits(is_fns@, unwrap_fns@, definition);
                lemma_concat_fits(is_fns@ + unwrap_fns@, to_tag_fns@, definition);
                lemma_concat_fits(is_fns@ + unwrap_fns@ + to_tag_fns@, get_fns@, definition);
            }
            let mut all: Vec<Function> = Vec::new();
            all.append(&mut is_fns);
            all.append(&mut unwrap_fns);
            all.append(&mut to_tag_fns);
            all.append(&mut get_fns);
            assert(all@ =~= list);
            let mut out = render_enum(&definition);
            let i = render_impl(&definition, &all);
            out.append(i.as_str());
            out
        },
        None => String::new(),
    }
}

/// The text of `e`: the impl block on `t`, then each companion enum with its
/// impl block.
fn render_expansion(t: &SumType, e: Expansion, Ghost(o): Ghost<Options>) -> (r: String)
    requires
        expansion_of(o, *t, e),
    ensures
        r@ == expansion_text(*t, e),
{
    let ghost list = accessor_list(e.accessors);
    let Expansion { accessors, tag, ref_view, mut_view } = e;
    let Accessors {
        mut is_fns,
        mut unwrap_fns,
        mut unwrap_ref_fns,
        mut unwrap_mut_fns,
        mut to_tag_fns,
        mut as_ref_fns,
        mut as_mut_fns,
        mut get_fns,
        mut get_ref_fns,
        mut get_mut_fns,
    } = accessors;
    proof {
        let tt = *t;
        lemma_group_fits(o.is, is_fns@, tt, "is_"@, Access::Shared, false, Access::Owned, Body::Yes);
        lemma_group_fits(o.unwrap, unwrap_fns@, tt, "unwrap_"@, Access::Owned, false, Access::Owned, Body::Payload);
        lemma_group_fits(o.unwrap_ref, unwrap_ref_fns@, tt, "unwrap_ref_"@, Access::Shared, false, Access::Shared, Body::Payload);
        lemma_group_fits(o.unwrap_mut, unwrap_mut_fns@, tt, "unwrap_mut_"@, Access::Exclusive, false, Access::Exclusive, Body::Payload);
        lemma_single_fits(o.to_tag, to_tag_fns@, tt, "to_tag"@, Access::Shared, tag_name(tt), tag_name(tt), Pattern::Wild, Body::Tag);
        lemma_single_fits(o.as_ref, as_ref_fns@, tt, "as_ref"@, Access::Shared, view_type_elided(tt, false), view_name(tt, false), Pattern::Bind, Body::View);
        lemma_single_fits(o.as_mut, as_mut_fns@, tt, "as_mut"@, Access::Exclusive, view_type_elided(tt, true), view_name(tt, true), Pattern::Bind, Body::View);
        lemma_group_fits(o.get, get_fns@, tt, "get_"@, Access::Owned, false, Access::Owned, Body::Present);
        lemma_group_fits(o.get_ref, get_ref_fns@, tt, "get_ref_"@, Access::Shared, false, Access::Shared, Body::Present);
        lemma_group_fits(o.get_mut, get_mut_fns@, tt, "get_mut_"@, Access::Exclusive, false, Access::Exclusive, Body::Present);
        let s1 = is_fns@ + unwrap_fns@;
        lemma_concat_fits(is_fns@, unwrap_fns@, tt);
        let s2 = s1 + unwrap_ref_fns@;
        lemma_concat_fits(s1, unwrap_ref_fns@, tt);
        let s3 = s2 + unwrap_mut_fns@;
        lemma_concat_fits(s2, unwrap_mut_fns@, tt);
        let s4 = s3 + to_tag_fns@;
        lemma_concat_fits(s3, to_tag_fns@, tt);
        let s5 = s4 + as_ref_fns@;
        lemma_concat_fits(s4, as_ref_fns@, tt);
        let s6 = s5 + as_mut_fns@;
        lemma_concat_fits(s5, as_mut_fns@, tt);
        let s7 = s6 + get_fns@;
        lemma_concat_fits(s6, get_fns@, tt);
        let s8 = s7 + get_ref_fns@;
        lemma_concat_fits(s7, get_ref_fns@, tt);
        lemma_concat_fits(s8, get_mut_fns@, tt);
    }
    let mut all: Vec<Function> = Vec::new();
    all.append(&mut is_fns);
    all.append(&mut unwrap_fns);
    all.append(&mut unwrap_ref_fns);
    all.append(&mut unwrap_mut_fns);
    all.append(&mut to_tag_fns);
    all.append(&mut as_ref_fns);
    all.append(&mut as_mut_fns);
    all.append(&mut get_fns);
    all.append(&mut get_ref_fns);
    all.append(&mut get_mut_fns);
    assert(all@ =~= list);
    let mut out = render_impl(t, &all);
    let s = render_companion(tag, Ghost(o), Ghost(*t), Ghost(None));
    out.append(s.as_str());
    let s = render_companion(ref_view, Ghost(o), Ghost(*t), Ghost(Some(false)));
    out.append(s.as_str());
    let s = render_companion(mut_view, Ghost(o), Ghost(*t), Ghost(Some(true)));
    out.append(s.as_str());
    out
}

/// Generates, after the enum's own definition `item`, what `tokens`
/// request for the enum `t`. A token that names nothing known fails the
/// whole pass, and nothing is generated.
pub fn generate_enum_helper(tokens: &Vec<String>, t: &SumType, item: &String) -> (r: Result<String, OptionError>)
    ensures
        r is Ok <==> (forall|i: int| 0 <= i < tokens@.len() ==> recognized(#[trigger] tokens@[i]@)),
        r matches Err(OptionError::Unrecognized(i)) ==> {
            &&& i < tokens@.len()
            &&& !recognized(tokens@[i as int]@)
            &&& forall|j: int| 0 <= j < i ==> recognized(#[trigger] tokens@[j]@)
        },
        r matches Ok(s) ==> exists|e: Expansion|
            #[trigger] expansion_of(requested(views(tokens@)), *t, e) && s@ == item@ + expansion_text(*t, e),
{
    let o = match parse_options(tokens) {
        Ok(o) => o,
        Err(e) => {
            return Err(e);
        },
    };
    let e = expand(&o, t);
    let ghost e0 = e;
    let text = render_expansion(t, e, Ghost(o));
    let mut out = item.clone();
    out.append(text.as_str());
    assert(expansion_of(requested(views(tokens@)), *t, e0));
    Ok(out)
}

} // verus!
