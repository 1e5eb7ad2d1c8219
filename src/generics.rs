//! Generic parameter lists: their three written forms, and the insertion of
//! one more lifetime after the existing ones.
use vstd::prelude::*;
use crate::shape::{lifetime_prefix, GenericParam};
use crate::text::{join, joined, lemma_views_push, views};

verus! {

/// Where a generic parameter list is written.
#[derive(Clone, Copy, Debug, PartialEq, Eq, Structural)]
pub enum GenericForm {
    /// On the type definition: `<'a, T: Clone = u8>`.
    Definition,
    /// On an impl block: `<'a, T: Clone>`.
    Impl,
    /// As type arguments: `<'a, T>`.
    Arguments,
}

pub open spec fn param_text(p: GenericParam, form: GenericForm) -> Seq<char> {
    match form {
        GenericForm::Definition => p.declaration@,
        GenericForm::Impl => p.impl_declaration@,
        GenericForm::Arguments => p.name@,
    }
}

/// A parameter list in `form`: nothing when it is empty, else the
/// parameters between angle brackets.
pub open spec fn generics_text(g: Seq<GenericParam>, form: GenericForm) -> Seq<char> {
    angled(Seq::new(g.len(), |k: int| param_text(g[k], form)))
}

/// Nothing for no parts, else the parts between angle brackets.
pub open spec fn angled(parts: Seq<Seq<char>>) -> Seq<char> {
    if parts.len() == 0 {
        seq![]
    } else {
        "<"@ + joined(parts, ", "@) + ">"@
    }
}

/// The type arguments of `g` with the lifetime `lt` placed right after the
/// leading lifetimes.
pub open spec fn arguments_with(g: Seq<GenericParam>, lt: Seq<char>) -> Seq<Seq<char>> {
    let a = Seq::new(g.len(), |k: int| g[k].name@);
    let n = lifetime_prefix(g) as int;
    a.take(n).push(lt) + a.skip(n)
}

/// `g` with `p` placed right after its leading lifetimes.
pub open spec fn with_lifetime(g: Seq<GenericParam>, p: GenericParam) -> Seq<GenericParam> {
    let n = lifetime_prefix(g) as int;
    g.take(n).push(p) + g.skip(n)
}

/// A lifetime parameter named `name`.
pub open spec fn lifetime_param(p: GenericParam, name: Seq<char>) -> bool {
    &&& p.is_lifetime
    &&& p.name@ == name
    &&& p.declaration@ == name
    &&& p.impl_declaration@ == name
}

pub fn new_lifetime(name: &str) -> (r: GenericParam)
    ensures
        lifetime_param(r, name@),
{
    GenericParam {
        is_lifetime: true,
        name: String::from_str(name),
        declaration: String::from_str(name),
        impl_declaration: String::from_str(name),
    }
}

pub fn copy_param(p: &GenericParam) -> (r: GenericParam)
    ensures
        r == *p,
{
    GenericParam {
        is_lifetime: p.is_lifetime,
        name: p.name.clone(),
        declaration: p.declaration.clone(),
        impl_declaration: p.impl_declaration.clone(),
    }
}

pub proof fn lemma_lifetime_prefix_bound(g: Seq<GenericParam>)
    ensures
        lifetime_prefix(g) <= g.len(),
    decreases g.len(),
{
    if g.len() > 0 {
        lemma_lifetime_prefix_bound(g.drop_first());
    }
}

/// The type arguments of `g` with `p` inserted are those of `g` with the
/// name of `p` inserted.
pub proof fn lemma_arguments_with(g: Seq<GenericParam>, p: GenericParam)
    ensures
        Seq::new(with_lifetime(g, p).len(), |k: int| param_text(with_lifetime(g, p)[k], GenericForm::Arguments))
            == arguments_with(g, p.name@),
{
    lemma_lifetime_prefix_bound(g);
    let w = with_lifetime(g, p);
    let lhs = Seq::new(w.len(), |k: int| param_text(w[k], GenericForm::Arguments));
    let rhs = arguments_with(g, p.name@);
    let n = lifetime_prefix(g) as int;
    assert(lhs.len() == rhs.len());
    assert forall|k: int| 0 <= k < lhs.len() implies lhs[k] == rhs[k] by {
        if k < n {
            assert(w[k] == g[k]);
        } else if k == n {
            assert(w[k] == p);
        } else {
            assert(w[k] == g[k - 1]);
        }
    }
    assert(lhs =~= rhs);
}

proof fn lemma_lifetime_prefix(g: Seq<GenericParam>, i: int)
    requires
        0 <= i <= g.len(),
        forall|j: int| 0 <= j < i ==> (#[trigger] g[j]).is_lifetime,
        i == g.len() || !g[i].is_lifetime,
    ensures
        lifetime_prefix(g) == i,
    decreases i,
{
    if i > 0 {
        assert forall|j: int| 0 <= j < i - 1 implies (#[trigger] g.drop_first()[j]).is_lifetime by {
            assert(g.drop_first()[j] == g[j + 1]);
        }
        lemma_lifetime_prefix(g.drop_first(), i - 1);
    }
}

/// `g` with `p` placed right after its leading lifetimes.
pub fn insert_lifetime(g: &Vec<GenericParam>, p: GenericParam) -> (r: Vec<GenericParam>)
    ensures
        r@ == with_lifetime(g@, p),
{
    let mut r: Vec<GenericParam> = Vec::new();
    let mut i: usize = 0;
    while i < g.len() && g[i].is_lifetime
        invariant
            i <= g@.len(),
            forall|j: int| 0 <= j < i ==> (#[trigger] g@[j]).is_lifetime,
            r@ == g@.take(i as int),
        decreases g@.len() - i,
    {
        r.push(copy_param(&g[i]));
        i = i + 1;
        assert(r@ =~= g@.take(i as int));
    }
    proof {
        lemma_lifetime_prefix(g@, i as int);
    }
    let n = i;
    r.push(p);
    while i < g.len()
        invariant
            n <= i <= g@.len(),
            n == lifetime_prefix(g@),
            r@ == g@.take(n as int).push(p) + g@.subrange(n as int, i as int),
        decreases g@.len() - i,
    {
        r.push(copy_param(&g[i]));
        i = i + 1;
        assert(r@ =~= g@.take(n as int).push(p) + g@.subrange(n as int, i as int));
    }
    assert(g@.subrange(n as int, i as int) =~= g@.skip(n as int));
    r
}

/// The parameter list `g` written in `form` (`<'a, T>`), or nothing.
pub fn render_generics(g: &Vec<GenericParam>, form: GenericForm) -> (r: String)
    ensures
        r@ == generics_text(g@, form),
{
    if g.len() == 0 {
        return String::new();
    }
    let ghost target = Seq::new(g@.len(), |k: int| param_text(g@[k], form));
    let mut parts: Vec<String> = Vec::new();
    let mut k: usize = 0;
    while k < g.len()
        invariant
            k <= g@.len(),
            target == Seq::new(g@.len(), |k: int| param_text(g@[k], form)),
            views(parts@) =~= target.take(k as int),
        decreases g@.len() - k,
    {
        let s = match form {
            GenericForm::Definition => g[k].declaration.clone(),
            GenericForm::Impl => g[k].impl_declaration.clone(),
            GenericForm::Arguments => g[k].name.clone(),
        };
        proof {
            lemma_views_push(parts@, s);
        }
        parts.push(s);
        k = k + 1;
        assert(views(parts@) =~= target.take(k as int));
    }
    assert(target.take(k as int) =~= target);
    let mut out = String::from_str("<");
    let inner = join(&parts, ", ");
    out.append(inner.as_str());
    out.append(">");
    out
}

} // verus!
