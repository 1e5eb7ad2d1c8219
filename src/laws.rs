//! What the generated methods do when they run, and the laws that follow for
//! everything one pass generates.
//!
//! A generated method is one match on `self`; every arm matches one variant
//! whatever its fields hold. Its outcome on a value of variant `v` is the
//! body of the arm for `v`, or the fallback when there is none. A body that
//! hands out fields hands out the fields of the matched value itself, by
//! position: moved out when `self` is taken by value, else references into
//! `self` of the receiver's kind.
use vstd::prelude::*;
use crate::accessors::{per_variant, whole};
use crate::companion::{is_tag_of, is_view_of, view_variant};
use crate::expand::{expansion_of, Expansion};
use crate::item::{collapsed_type, field_types, Access, Body, Fallback, Function};
use crate::naming::{ascii_lower, snake_case, snake_case_marked};
use crate::options::Options;
use crate::shape::SumType;

verus! {

/// The outcome of running a generated method.
pub enum Outcome {
    /// A `bool`.
    Truth(bool),
    /// The tag of the variant with this index.
    TagOf(nat),
    /// The fields at these positions of the matched value, in this order,
    /// collapsed.
    Fields(Seq<nat>),
    /// The same, in `Some`.
    Present(Seq<nat>),
    /// `None`.
    Absent,
    /// A panic.
    Abort,
    /// The view variant with this index, holding a reference to each field
    /// at these positions of the matched value.
    ViewOf(nat, Seq<nat>),
}

/// The positions `0..n` in order.
pub open spec fn positions(n: nat) -> Seq<nat> {
    Seq::new(n, |k: int| k as nat)
}

/// Whether `f` has an arm for variant `v`.
pub open spec fn has_arm(f: Function, v: int) -> bool {
    exists|k: int| 0 <= k < f.arms@.len() && f.arms@[k] == v
}

/// The outcome of `f`, a method of `t`, on a value of variant `v`.
pub open spec fn run(f: Function, t: SumType, v: int) -> Outcome {
    let n = t.variants@[v].arity();
    if has_arm(f, v) {
        match f.body {
            Body::Yes => Outcome::Truth(true),
            Body::Tag => Outcome::TagOf(v as nat),
            Body::Payload => Outcome::Fields(positions(n)),
            Body::Present => Outcome::Present(positions(n)),
            Body::View => Outcome::ViewOf(v as nat, positions(n)),
        }
    } else {
        match f.fallback {
            Fallback::No => Outcome::Truth(false),
            Fallback::Absent => Outcome::Absent,
            _ => Outcome::Abort,
        }
    }
}

proof fn lemma_single_arm(f: Function, i: int, v: int)
    requires
        f.arms@.len() == 1,
        f.arms@[0] == i,
    ensures
        has_arm(f, v) == (v == i),
{
    if v == i {
        assert(f.arms@[0] == v);
    }
}

proof fn lemma_all_arms(f: Function, t: SumType, v: int)
    requires
        crate::accessors::all_arms(f.arms@, t),
        0 <= v < t.variants@.len(),
    ensures
        has_arm(f, v),
{
    assert(f.arms@[v] == v);
}

/// Projecting a value to its tag and asking the tag enum's predicate of
/// variant `j` gives `true` exactly when `j` is the value's own variant.
pub proof fn law_tag_then_predicate(o: Options, t: SumType, e: Expansion, v: int, j: int)
    requires
        expansion_of(o, t, e),
        o.tag_enum && o.to_tag && o.is,
        0 <= v < t.variants@.len(),
        0 <= j < t.variants@.len(),
    ensures
        e.tag matches Some(c) && {
            let to_tag = e.accessors.to_tag_fns@[0];
            let is_j = c.is_fns@[j];
            &&& run(to_tag, t, v) == Outcome::TagOf(v as nat)
            &&& is_j.name@ == "is_"@ + snake_case(t.variants@[j].name@)
            &&& run(is_j, c.definition, v) == Outcome::Truth(v == j)
        },
{
    let c = e.tag.unwrap();
    lemma_all_arms(e.accessors.to_tag_fns@[0], t, v);
    assert(per_variant(c.definition, j, c.is_fns@[j], "is_"@, Access::Shared, false, Access::Owned, Body::Yes));
    lemma_single_arm(c.is_fns@[j], j, v);
    assert(is_tag_of(t, c.definition));
    assert(c.definition.variants@[j].name == t.variants@[j].name);
}

/// `unwrap_ref_<variant>` on a value of that variant gives one shared
/// reference to each of its fields, in declared order, and its type has one
/// component `&T` per field type `T`.
pub proof fn law_unwrap_ref_fields(o: Options, t: SumType, e: Expansion, i: int)
    requires
        expansion_of(o, t, e),
        o.unwrap_ref,
        0 <= i < t.variants@.len(),
    ensures
        ({
            let f = e.accessors.unwrap_ref_fns@[i];
            let n = t.variants@[i].arity();
            &&& f.receiver == Access::Shared
            &&& run(f, t, i) == Outcome::Fields(positions(n))
            &&& positions(n).len() == n
            &&& forall|k: int| 0 <= k < n ==> #[trigger] positions(n)[k] == k
            &&& f.output@ == collapsed_type(t.variants@[i], Access::Shared)
            &&& field_types(t.variants@[i], Access::Shared).len() == n
            &&& forall|k: int|
                0 <= k < n ==> #[trigger] field_types(t.variants@[i], Access::Shared)[k] == "&"@
                    + t.variants@[i].fields@[k].ty@
        }),
{
    let f = e.accessors.unwrap_ref_fns@[i];
    assert(per_variant(t, i, f, "unwrap_ref_"@, Access::Shared, false, Access::Shared, Body::Payload));
    lemma_single_arm(f, i, i);
}

/// `get_<variant>` gives the fields in `Some` on a value of that variant and
/// `None` on any other; `unwrap_<variant>` on a value of that variant gives
/// the same fields and does not panic.
pub proof fn law_get_and_unwrap(o: Options, t: SumType, e: Expansion, i: int, v: int)
    requires
        expansion_of(o, t, e),
        o.get && o.unwrap,
        0 <= i < t.variants@.len(),
        0 <= v < t.variants@.len(),
    ensures
        run(e.accessors.get_fns@[i], t, v) == if v == i {
            Outcome::Present(positions(t.variants@[i].arity()))
        } else {
            Outcome::Absent
        },
        run(e.accessors.unwrap_fns@[i], t, i) == Outcome::Fields(positions(t.variants@[i].arity())),
{
    let g = e.accessors.get_fns@[i];
    let u = e.accessors.unwrap_fns@[i];
    assert(per_variant(t, i, g, "get_"@, Access::Owned, false, Access::Owned, Body::Present));
    assert(per_variant(t, i, u, "unwrap_"@, Access::Owned, false, Access::Owned, Body::Payload));
    lemma_single_arm(g, i, v);
    lemma_single_arm(u, i, i);
}

/// Viewing a value through `as_ref` and unwrapping the view gives, for each
/// field of the value, a reference to that very field: the view adds nothing
/// and loses nothing.
pub proof fn law_view_round_trip(o: Options, t: SumType, e: Expansion, v: int)
    requires
        expansion_of(o, t, e),
        o.as_ref && o.ref_enum && o.unwrap,
        0 <= v < t.variants@.len(),
    ensures
        e.ref_view matches Some(c) && {
            let n = t.variants@[v].arity();
            let unwrap = c.unwrap_fns@[v];
            &&& run(e.accessors.as_ref_fns@[0], t, v) matches Outcome::ViewOf(w, held) && w == v && {
                &&& run(unwrap, c.definition, w as int) matches Outcome::Fields(out) && {
                    &&& out.len() == n
                    &&& forall|k: int| 0 <= k < n ==> held[#[trigger] out[k] as int] == k
                }
            }
            &&& unwrap.output@ == collapsed_type(c.definition.variants@[v], Access::Owned)
            &&& forall|k: int|
                0 <= k < n ==> #[trigger] c.definition.variants@[v].fields@[k].ty@ == "&'reb "@
                    + t.variants@[v].fields@[k].ty@
        },
{
    let c = e.ref_view.unwrap();
    lemma_all_arms(e.accessors.as_ref_fns@[0], t, v);
    assert(is_view_of(t, c.definition, false));
    assert(view_variant(t.variants@[v], c.definition.variants@[v], false));
    let unwrap = c.unwrap_fns@[v];
    assert(per_variant(c.definition, v, unwrap, "unwrap_"@, Access::Shared, true, Access::Owned, Body::Payload));
    lemma_single_arm(unwrap, v, v);
}

/// `get_mut_<variant>` and `as_mut` take `self` by mutable reference and
/// hand out mutable references to the fields of `self` itself, not to
/// copies: a write through them changes the value itself.
pub proof fn law_mutation_through_references(o: Options, t: SumType, e: Expansion, i: int)
    requires
        expansion_of(o, t, e),
        o.get_mut && o.as_mut,
        0 <= i < t.variants@.len(),
    ensures
        ({
            let g = e.accessors.get_mut_fns@[i];
            let m = e.accessors.as_mut_fns@[0];
            let n = t.variants@[i].arity();
            &&& g.receiver == Access::Exclusive
            &&& g.output@ == "Option<"@ + collapsed_type(t.variants@[i], Access::Exclusive) + ">"@
            &&& run(g, t, i) == Outcome::Present(positions(n))
            &&& m.receiver == Access::Exclusive
            &&& run(m, t, i) == Outcome::ViewOf(i as nat, positions(n))
        }),
{
    let g = e.accessors.get_mut_fns@[i];
    assert(per_variant(t, i, g, "get_mut_"@, Access::Exclusive, false, Access::Exclusive, Body::Present));
    lemma_single_arm(g, i, i);
    lemma_all_arms(e.accessors.as_mut_fns@[0], t, i);
}

proof fn lemma_lower_keeps_separator(c: char)
    ensures
        (ascii_lower(c) == '_') == (c == '_'),
{
    if 'A' <= c <= 'Z' {
        assert(('A' as u32) <= (c as u32) <= ('Z' as u32));
        assert(ascii_lower(c) as u32 == c as u32 + 32);
    }
}

proof fn lemma_snake_case_len(s: Seq<char>, upper: Seq<bool>)
    requires
        upper.len() == s.len(),
    ensures
        snake_case_marked(s, upper).len() >= s.len(),
    decreases s.len(),
{
    if s.len() > 0 {
        lemma_snake_case_len(s.drop_last(), upper.take(s.len() - 1));
    }
}

/// The word of a prefix of `s` is a prefix of the word of `s`.
proof fn lemma_snake_case_prefix(s: Seq<char>, upper: Seq<bool>, m: int)
    requires
        upper.len() == s.len(),
        0 <= m <= s.len(),
    ensures
        snake_case_marked(s.take(m), upper.take(m)).len() <= snake_case_marked(s, upper).len(),
        snake_case_marked(s, upper).take(snake_case_marked(s.take(m), upper.take(m)).len() as int)
            == snake_case_marked(s.take(m), upper.take(m)),
    decreases s.len(),
{
    let r = snake_case_marked(s, upper);
    if m == s.len() {
        assert(s.take(m) =~= s);
        assert(upper.take(m) =~= upper);
        assert(r.take(r.len() as int) =~= r);
    } else {
        let d = s.drop_last();
        let du = upper.take(s.len() - 1);
        assert(d.take(m) =~= s.take(m));
        assert(du.take(m) =~= upper.take(m));
        lemma_snake_case_prefix(d, du, m);
        let a = snake_case_marked(s.take(m), upper.take(m));
        let p = snake_case_marked(d, du);
        assert(r.take(p.len() as int) =~= p);
        assert(r.take(a.len() as int) =~= p.take(a.len() as int));
    }
}

/// For an identifier that does not begin with `_`, the snake-case word does
/// not begin with `_` either; and each uppercase character after the first
/// lands, lowered, right after a `_` that was put there for it, and that `_`
/// is the only one in front of it unless the identifier itself already had
/// `_` there. This holds whichever characters are marked uppercase, and so
/// for `snake_case(s)`, which marks those with the Unicode `Uppercase`
/// property.
pub proof fn law_snake_case_separators(s: Seq<char>, upper: Seq<bool>)
    requires
        upper.len() == s.len(),
        s.len() > 0 ==> s[0] != '_',
    ensures
        snake_case_marked(s, upper).len() > 0 ==> snake_case_marked(s, upper)[0] != '_',
        forall|i: int|
            0 < i < s.len() && #[trigger] upper[i] ==> {
                let r = snake_case_marked(s, upper);
                let j = snake_case_marked(s.take(i + 1), upper.take(i + 1)).len() - 1;
                &&& 2 <= j < r.len()
                &&& r[j] == ascii_lower(s[i])
                &&& r[j - 1] == '_'
                &&& s[i - 1] != '_' ==> r[j - 2] != '_'
            },
{
    let r = snake_case_marked(s, upper);
    if s.len() > 0 {
        lemma_snake_case_prefix(s, upper, 1);
        let one = s.take(1);
        let u1 = upper.take(1);
        assert(one.drop_last() =~= Seq::<char>::empty());
        assert(one.last() == s[0]);
        lemma_lower_keeps_separator(s[0]);
        assert(snake_case_marked(one.drop_last(), u1.take(0)).len() == 0);
        if upper[0] {
            assert(snake_case_marked(one, u1) == seq![ascii_lower(s[0])]);
        } else {
            assert(snake_case_marked(one, u1) =~= seq![s[0]]);
        }
        assert(snake_case_marked(one, u1)[0] != '_');
        assert(r[0] == snake_case_marked(one, u1)[0]);
    }
    assert forall|i: int|
        0 < i < s.len() && #[trigger] upper[i] implies {
            let j = snake_case_marked(s.take(i + 1), upper.take(i + 1)).len() - 1;
            &&& 2 <= j < r.len()
            &&& r[j] == ascii_lower(s[i])
            &&& r[j - 1] == '_'
            &&& s[i - 1] != '_' ==> r[j - 2] != '_'
        } by {
        let q = s.take(i + 1);
        let uq = upper.take(i + 1);
        let p = s.take(i);
        let up = upper.take(i);
        assert(q.drop_last() =~= p);
        assert(uq.take(i) =~= up);
        assert(q.last() == s[i]);
        lemma_snake_case_len(p, up);
        lemma_snake_case_prefix(s, upper, i + 1);
        let a = snake_case_marked(p, up);
        let b = snake_case_marked(q, uq);
        assert(b == a + seq!['_', ascii_lower(s[i])]);
        let j = b.len() - 1;
        assert(r[j] == b[j]);
        assert(r[j - 1] == b[j - 1]);
        assert(r[j - 2] == b[j - 2]);
        assert(p.drop_last() =~= s.take(i - 1));
        assert(up.take(i - 1) =~= upper.take(i - 1));
        assert(p.last() == s[i - 1]);
        lemma_lower_keeps_separator(s[i - 1]);
    }
}

} // verus!
