//! The generated definitions as source text.
use vstd::prelude::*;
use crate::generics::{generics_text, render_generics, GenericForm};
use crate::item::{binding_list, bindings, Access, Body, Fallback, Function, Pattern};
use crate::shape::{Attribute, Shape, SumType, Variant};
use crate::text::{cat, collapse, collapsed, concat, join, joined, lemma_concat_push, lemma_views_push, views};

verus! {

/// A visibility followed by a space, or nothing.
pub open spec fn vis_prefix(vis: Seq<char>) -> Seq<char> {
    if vis.len() == 0 { seq![] } else { vis + " "@ }
}

/// A where clause preceded by a space, or nothing.
pub open spec fn where_part(w: Seq<char>) -> Seq<char> {
    if w.len() == 0 { seq![] } else { " "@ + w }
}

/// `Owner::V`, `Owner::V(e0, e1)` or `Owner::V { a, b }`: the variant with
/// every field bound, as a pattern, or built from those bindings.
pub open spec fn constructor(owner: Seq<char>, v: Variant) -> Seq<char> {
    owner + "::"@ + v.name@ + match v.shape {
        Shape::Unit => seq![],
        Shape::Positional => "("@ + joined(bindings(v), ", "@) + ")"@,
        Shape::Named => " { "@ + joined(bindings(v), ", "@) + " }"@,
    }
}

/// `Owner::V`, `Owner::V(_, _)` or `Owner::V { .. }`.
pub open spec fn wildcard(owner: Seq<char>, v: Variant) -> Seq<char> {
    owner + "::"@ + v.name@ + match v.shape {
        Shape::Unit => seq![],
        Shape::Positional => "("@ + joined(Seq::new(v.fields@.len(), |k: int| "_"@), ", "@) + ")"@,
        Shape::Named => " { .. }"@,
    }
}

pub open spec fn pattern_text(owner: Seq<char>, v: Variant, p: Pattern) -> Seq<char> {
    match p {
        Pattern::Wild => wildcard(owner, v),
        Pattern::Bind => constructor(owner, v),
    }
}

pub open spec fn body_text(f: Function, v: Variant) -> Seq<char> {
    match f.body {
        Body::Yes => "true"@,
        Body::Tag => f.target@ + "::"@ + v.name@,
        Body::Payload => collapsed(bindings(v)),
        Body::Present => "Some("@ + collapsed(bindings(v)) + ")"@,
        Body::View => constructor(f.target@, v),
    }
}

/// The arm of variant `i` of `t` in `f`.
pub open spec fn arm_text(t: SumType, f: Function, i: int) -> Seq<char> {
    "            "@ + pattern_text(t.name@, t.variants@[i], f.pattern) + " => "@ + body_text(f, t.variants@[i]) + ",\n"@
}

pub open spec fn fallback_text(fb: Fallback) -> Seq<char> {
    match fb {
        Fallback::Total => seq![],
        Fallback::No => "            _ => false,\n"@,
        Fallback::Abort => "            _ => panic!(),\n"@,
        Fallback::Absent => "            _ => None,\n"@,
    }
}

pub open spec fn receiver_text(f: Function) -> Seq<char> {
    match f.receiver {
        Access::Owned => "self"@,
        Access::Shared => if f.receiver_lifetime { "&'reb self"@ } else { "&self"@ },
        Access::Exclusive => if f.receiver_lifetime { "&'reb mut self"@ } else { "&mut self"@ },
    }
}

/// A method of `t`: a match on `self` with the arms of `f` and its fallback.
pub open spec fn function_text(t: SumType, f: Function) -> Seq<char> {
    "    "@ + vis_prefix(t.vis@) + "fn "@ + f.name@ + "("@ + receiver_text(f) + ") -> "@ + f.output@
        + " {\n        match self {\n"@
        + concat(Seq::new(f.arms@.len(), |k: int| arm_text(t, f, f.arms@[k] as int)))
        + fallback_text(f.fallback) + "        }\n    }\n"@
}

/// The impl block of `t` holding `fs`, or nothing when there is none.
pub open spec fn impl_text(t: SumType, fs: Seq<Function>) -> Seq<char> {
    if fs.len() == 0 {
        seq![]
    } else {
        "impl"@ + generics_text(t.generics@, GenericForm::Impl) + " "@ + t.name@
            + generics_text(t.generics@, GenericForm::Arguments) + where_part(t.where_clause@) + " {\n"@
            + concat(Seq::new(fs.len(), |k: int| function_text(t, fs[k]))) + "}\n"@
    }
}

pub open spec fn attribute_text(a: Attribute) -> Seq<char> {
    match a {
        Attribute::Derive(items) => "#[derive("@ + joined(Seq::new(items@.len(), |k: int| items@[k].path@), ", "@)
            + ")]\n"@,
        Attribute::Other(s) => s@ + "\n"@,
    }
}

pub open spec fn fields_text(v: Variant) -> Seq<char> {
    match v.shape {
        Shape::Unit => seq![],
        Shape::Positional => "("@ + joined(Seq::new(v.fields@.len(), |k: int| v.fields@[k].ty@), ", "@) + ")"@,
        Shape::Named => " { "@ + joined(
            Seq::new(v.fields@.len(), |k: int| v.fields@[k].ident@ + ": "@ + v.fields@[k].ty@),
            ", "@,
        ) + " }"@,
    }
}

pub open spec fn discriminant_text(d: Option<String>) -> Seq<char> {
    match d {
        Some(s) => " = "@ + s@,
        None => seq![],
    }
}

pub open spec fn variant_text(v: Variant) -> Seq<char> {
    concat(Seq::new(v.attrs@.len(), |k: int| "    "@ + v.attrs@[k]@ + "\n"@)) + "    "@ + v.name@ + fields_text(v)
        + discriminant_text(v.discriminant) + ",\n"@
}

/// The definition of `t`.
pub open spec fn enum_text(t: SumType) -> Seq<char> {
    concat(Seq::new(t.attrs@.len(), |k: int| attribute_text(t.attrs@[k]))) + vis_prefix(t.vis@) + "enum "@
        + t.name@ + generics_text(t.generics@, GenericForm::Definition) + where_part(t.where_clause@) + " {\n"@
        + concat(Seq::new(t.variants@.len(), |k: int| variant_text(t.variants@[k]))) + "}\n"@
}

fn render_vis(vis: &String) -> (r: String)
    ensures
        r@ == vis_prefix(vis@),
{
    if vis.unicode_len() == 0 {
        String::new()
    } else {
        cat(vis.as_str(), " ")
    }
}

fn render_where(w: &String) -> (r: String)
    ensures
        r@ == where_part(w@),
{
    if w.unicode_len() == 0 {
        String::new()
    } else {
        cat(" ", w.as_str())
    }
}

/// The variant built from, or matched into, its bindings.
pub fn render_constructor(owner: &str, v: &Variant) -> (r: String)
    ensures
        r@ == constructor(owner@, *v),
{
    let mut out = cat(owner, "::");
    out.append(v.name.as_str());
    match v.shape {
        Shape::Unit => {},
        Shape::Positional => {
            let b = join(&binding_list(v), ", ");
            out.append("(");
            out.append(b.as_str());
            out.append(")");
        },
        Shape::Named => {
            let b = join(&binding_list(v), ", ");
            out.append(" { ");
            out.append(b.as_str());
            out.append(" }");
        },
    }
    out
}

/// The pattern that matches a variant whatever its fields hold.
pub fn render_wildcard(owner: &str, v: &Variant) -> (r: String)
    ensures
        r@ == wildcard(owner@, *v),
{
    let mut out = cat(owner, "::");
    out.append(v.name.as_str());
    match v.shape {
        Shape::Unit => {},
        Shape::Positional => {
            let ghost target = Seq::new(v.fields@.len(), |k: int| "_"@);
            let mut parts: Vec<String> = Vec::new();
            let mut k: usize = 0;
            while k < v.fields.len()
                invariant
                    k <= v.fields@.len(),
                    target == Seq::new(v.fields@.len(), |k: int| "_"@),
                    views(parts@) =~= target.take(k as int),
                decreases v.fields@.len() - k,
            {
                let s = String::from_str("_");
                proof {
                    lemma_views_push(parts@, s);
                }
                parts.push(s);
                k = k + 1;
                assert(views(parts@) =~= target.take(k as int));
            }
            assert(target.take(k as int) =~= target);
            let b = join(&parts, ", ");
            out.append("(");
            out.append(b.as_str());
            out.append(")");
        },
        Shape::Named => {
            out.append(" { .. }");
        },
    }
    out
}

fn render_body(f: &Function, v: &Variant) -> (r: String)
    ensures
        r@ == body_text(*f, *v),
{
    match f.body {
        Body::Yes => String::from_str("true"),
        Body::Tag => {
            let mut out = cat(f.target.as_str(), "::");
            out.append(v.name.as_str());
            out
        },
        Body::Payload => collapse(&binding_list(v)),
        Body::Present => {
            let mut out = String::from_str("Some(");
            let c = collapse(&binding_list(v));
            out.append(c.as_str());
            out.append(")");
            out
        },
        Body::View => render_constructor(f.target.as_str(), v),
    }
}

/// One match arm of `f`: its pattern and its body.
pub fn render_arm(t: &SumType, f: &Function, i: usize) -> (r: String)
    requires
        i < t.variants@.len(),
    ensures
        r@ == arm_text(*t, *f, i as int),
{
    let v = &t.variants[i];
    let pat = match f.pattern {
        Pattern::Wild => render_wildcard(t.name.as_str(), v),
        Pattern::Bind => render_constructor(t.name.as_str(), v),
    };
    let mut out = String::from_str("            ");
    out.append(pat.as_str());
    out.append(" => ");
    let b = render_body(f, v);
    out.append(b.as_str());
    out.append(",\n");
    out
}

fn render_receiver(f: &Function) -> (r: &'static str)
    ensures
        r@ == receiver_text(*f),
{
    match f.receiver {
        Access::Owned => "self",
        Access::Shared => if f.receiver_lifetime { "&'reb self" } else { "&self" },
        Access::Exclusive => if f.receiver_lifetime { "&'reb mut self" } else { "&mut self" },
    }
}

pub fn render_function(t: &SumType, f: &Function) -> (r: String)
    requires
        f.fits(*t),
    ensures
        r@ == function_text(*t, *f),
{
    let mut out = String::from_str("    ");
    let vis = render_vis(&t.vis);
    out.append(vis.as_str());
    out.append("fn ");
    out.append(f.name.as_str());
    out.append("(");
    out.append(render_receiver(f));
    out.append(") -> ");
    out.append(f.output.as_str());
    out.append(" {\n        match self {\n");
    let ghost head = out@;
    let ghost arms = Seq::new(f.arms@.len(), |k: int| arm_text(*t, *f, f.arms@[k] as int));
    let mut k: usize = 0;
    while k < f.arms.len()
        invariant
            f.fits(*t),
            k <= f.arms@.len(),
            arms == Seq::new(f.arms@.len(), |k: int| arm_text(*t, *f, f.arms@[k] as int)),
            out@ == head + concat(arms.take(k as int)),
        decreases f.arms@.len() - k,
    {
        let a = render_arm(t, f, f.arms[k]);
        proof {
            lemma_concat_push(arms.take(k as int), a@);
            assert(arms.take(k as int).push(a@) =~= arms.take(k + 1));
        }
        out.append(a.as_str());
        k = k + 1;
    }
    assert(arms.take(k as int) =~= arms);
    let fb = match f.fallback {
        Fallback::Total => "",
        Fallback::No => "            _ => false,\n",
        Fallback::Abort => "            _ => panic!(),\n",
        Fallback::Absent => "            _ => None,\n",
    };
    proof {
        if f.fallback == Fallback::Total {
            reveal_strlit("");
        }
    }
    out.append(fb);
    out.append("        }\n    }\n");
    out
}

/// The impl block of `t` holding `fs`, or nothing when `fs` is empty.
pub fn render_impl(t: &SumType, fs: &Vec<Function>) -> (r: String)
    requires
        forall|k: int| 0 <= k < fs@.len() ==> (#[trigger] fs@[k]).fits(*t),
    ensures
        r@ == impl_text(*t, fs@),
{
    if fs.len() == 0 {
        return String::new();
    }
    let mut out = String::from_str("impl");
    let g = render_generics(&t.generics, GenericForm::Impl);
    out.append(g.as_str());
    out.append(" ");
    out.append(t.name.as_str());
    let a = render_generics(&t.generics, GenericForm::Arguments);
    out.append(a.as_str());
    let w = render_where(&t.where_clause);
    out.append(w.as_str());
    out.append(" {\n");
    let ghost head = out@;
    let ghost parts = Seq::new(fs@.len(), |k: int| function_text(*t, fs@[k]));
    let mut k: usize = 0;
    while k < fs.len()
        invariant
            forall|k: int| 0 <= k < fs@.len() ==> (#[trigger] fs@[k]).fits(*t),
            k <= fs@.len(),
            parts == Seq::new(fs@.len(), |k: int| function_text(*t, fs@[k])),
            out@ == head + concat(parts.take(k as int)),
        decreases fs@.len() - k,
    {
        let s = render_function(t, &fs[k]);
        proof {
            lemma_concat_push(parts.take(k as int), s@);
            assert(parts.take(k as int).push(s@) =~= parts.take(k + 1));
        }
        out.append(s.as_str());
        k = k + 1;
    }
    assert(parts.take(k as int) =~= parts);
    out.append("}\n");
    out
}

fn render_attribute(a: &Attribute) -> (r: String)
    ensures
        r@ == attribute_text(*a),
{
    match a {
        Attribute::Derive(items) => {
            let ghost target = Seq::new(items@.len(), |k: int| items@[k].path@);
            let mut parts: Vec<String> = Vec::new();
            let mut k: usize = 0;
            while k < items.len()
                invariant
                    k <= items@.len(),
                    target == Seq::new(items@.len(), |k: int| items@[k].path@),
                    views(parts@) =~= target.take(k as int),
                decreases items@.len() - k,
            {
                let s = items[k].path.clone();
                proof {
                    lemma_views_push(parts@, s);
                }
                parts.push(s);
                k = k + 1;
                assert(views(parts@) =~= target.take(k as int));
            }
            assert(target.take(k as int) =~= target);
            let mut out = String::from_str("#[derive(");
            let j = join(&parts, ", ");
            out.append(j.as_str());
            out.append(")]\n");
            out
        },
        Attribute::Other(s) => cat(s.as_str(), "\n"),
    }
}

fn render_fields(v: &Variant) -> (r: String)
    ensures
        r@ == fields_text(*v),
{
    match v.shape {
        Shape::Unit => String::new(),
        Shape::Positional => {
            let ghost target = Seq::new(v.fields@.len(), |k: int| v.fields@[k].ty@);
            let mut parts: Vec<String> = Vec::new();
            let mut k: usize = 0;
            while k < v.fields.len()
                invariant
                    k <= v.fields@.len(),
                    target == Seq::new(v.fields@.len(), |k: int| v.fields@[k].ty@),
                    views(parts@) =~= target.take(k as int),
                decreases v.fields@.len() - k,
            {
                let s = v.fields[k].ty.clone();
                proof {
                    lemma_views_push(parts@, s);
                }
                parts.push(s);
                k = k + 1;
                assert(views(parts@) =~= target.take(k as int));
            }
            assert(target.take(k as int) =~= target);
            let mut out = String::from_str("(");
            let j = join(&parts, ", ");
            out.append(j.as_str());
            out.append(")");
            out
        },
        Shape::Named => {
            let ghost target = Seq::new(v.fields@.len(), |k: int| v.fields@[k].ident@ + ": "@ + v.fields@[k].ty@);
            let mut parts: Vec<String> = Vec::new();
            let mut k: usize = 0;
            while k < v.fields.len()
                invariant
                    k <= v.fields@.len(),
                    target == Seq::new(v.fields@.len(), |k: int| v.fields@[k].ident@ + ": "@ + v.fields@[k].ty@),
                    views(parts@) =~= target.take(k as int),
                decreases v.fields@.len() - k,
            {
                let mut s = cat(v.fields[k].ident.as_str(), ": ");
                s.append(v.fields[k].ty.as_str());
                proof {
                    lemma_views_push(parts@, s);
                }
                parts.push(s);
                k = k + 1;
                assert(views(parts@) =~= target.take(k as int));
            }
            assert(target.take(k as int) =~= target);
            let mut out = String::from_str(" { ");
            let j = join(&parts, ", ");
            out.append(j.as_str());
            out.append(" }");
            out
        },
    }
}

fn render_variant(v: &Variant) -> (r: String)
    ensures
        r@ == variant_text(*v),
{
    let mut out = String::new();
    let ghost parts = Seq::new(v.attrs@.len(), |k: int| "    "@ + v.attrs@[k]@ + "\n"@);
    let mut k: usize = 0;
    while k < v.attrs.len()
        invariant
            k <= v.attrs@.len(),
            parts == Seq::new(v.attrs@.len(), |k: int| "    "@ + v.attrs@[k]@ + "\n"@),
            out@ == concat(parts.take(k as int)),
        decreases v.attrs@.len() - k,
    {
        let mut s = cat("    ", v.attrs[k].as_str());
        s.append("\n");
        proof {
            lemma_concat_push(parts.take(k as int), s@);
            assert(parts.take(k as int).push(s@) =~= parts.take(k + 1));
        }
        out.append(s.as_str());
        k = k + 1;
    }
    assert(parts.take(k as int) =~= parts);
    out.append("    ");
    out.append(v.name.as_str());
    let f = render_fields(v);
    out.append(f.as_str());
    match &v.discriminant {
        Some(d) => {
            out.append(" = ");
            out.append(d.as_str());
        },
        None => {},
    }
    out.append(",\n");
    out
}

/// The definition of `t`.
pub fn render_enum(t: &SumType) -> (r: String)
    ensures
        r@ == enum_text(*t),
{
    let mut out = String::new();
    let ghost attrs = Seq::new(t.attrs@.len(), |k: int| attribute_text(t.attrs@[k]));
    let mut k: usize = 0;
    while k < t.attrs.len()
        invariant
            k <= t.attrs@.len(),
            attrs == Seq::new(t.attrs@.len(), |k: int| attribute_text(t.attrs@[k])),
            out@ == concat(attrs.take(k as int)),
        decreases t.attrs@.len() - k,
    {
        let s = render_attribute(&t.attrs[k]);
        proof {
            lemma_concat_push(attrs.take(k as int), s@);
            assert(attrs.take(k as int).push(s@) =~= attrs.take(k + 1));
        }
        out.append(s.as_str());
        k = k + 1;
    }
    assert(attrs.take(k as int) =~= attrs);
    let vis = render_vis(&t.vis);
    out.append(vis.as_str());
    out.append("enum ");
    out.append(t.name.as_str());
    let g = render_generics(&t.generics, GenericForm::Definition);
    out.append(g.as_str());
    let w = render_where(&t.where_clause);
    out.append(w.as_str());
    out.append(" {\n");
    let ghost head = out@;
    let ghost vs = Seq::new(t.variants@.len(), |k: int| variant_text(t.variants@[k]));
    let mut k: usize = 0;
    while k < t.variants.len()
        invariant
            k <= t.variants@.len(),
            vs == Seq::new(t.variants@.len(), |k: int| variant_text(t.variants@[k])),
            out@ == head + concat(vs.take(k as int)),
        decreases t.variants@.len() - k,
    {
        let s = render_variant(&t.variants[k]);
        proof {
            lemma_concat_push(vs.take(k as int), s@);
            assert(vs.take(k as int).push(s@) =~= vs.take(k + 1));
        }
        out.append(s.as_str());
        k = k + 1;
    }
    assert(vs.take(k as int) =~= vs);
    out.append("}\n");
    out
}

} // verus!
