//! The list of requested operations and companion types.
use vstd::prelude::*;
use crate::text::{same_text, views};

verus! {

/// Which companion types and which operations are requested.
#[derive(Clone, Copy, Debug, PartialEq, Eq, Structural)]
pub struct Options {
    pub tag_enum: bool,
    pub ref_enum: bool,
    pub mut_enum: bool,
    pub is: bool,
    pub unwrap: bool,
    pub unwrap_ref: bool,
    pub unwrap_mut: bool,
    pub to_tag: bool,
    pub as_ref: bool,
    pub as_mut: bool,
    pub get: bool,
    pub get_ref: bool,
    pub get_mut: bool,
}

/// A token that names a companion type or an operation.
pub open spec fn recognized(t: Seq<char>) -> bool {
    ||| t == "TagEnum"@
    ||| t == "RefEnum"@
    ||| t == "MutEnum"@
    ||| t == "is"@
    ||| t == "unwrap"@
    ||| t == "unwrap_ref"@
    ||| t == "unwrap_mut"@
    ||| t == "to_tag"@
    ||| t == "as_ref"@
    ||| t == "as_mut"@
    ||| t == "get"@
    ||| t == "get_ref"@
    ||| t == "get_mut"@
}

/// The options that `tokens` request, in whatever order and however often.
pub open spec fn requested(tokens: Seq<Seq<char>>) -> Options {
    Options {
        tag_enum: tokens.contains("TagEnum"@),
        ref_enum: tokens.contains("RefEnum"@),
        mut_enum: tokens.contains("MutEnum"@),
        is: tokens.contains("is"@),
        unwrap: tokens.contains("unwrap"@),
        unwrap_ref: tokens.contains("unwrap_ref"@),
        unwrap_mut: tokens.contains("unwrap_mut"@),
        to_tag: tokens.contains("to_tag"@),
        as_ref: tokens.contains("as_ref"@),
        as_mut: tokens.contains("as_mut"@),
        get: tokens.contains("get"@),
        get_ref: tokens.contains("get_ref"@),
        get_mut: tokens.contains("get_mut"@),
    }
}

/// A token that names nothing known.
#[derive(Clone, Copy, Debug, PartialEq, Eq, Structural)]
pub enum OptionError {
    /// The token at this position.
    Unrecognized(usize),
}

proof fn lemma_contains_push(s: Seq<Seq<char>>, x: Seq<char>, y: Seq<char>)
    ensures
        s.push(x).contains(y) == (s.contains(y) || x == y),
{
    if s.push(x).contains(y) {
        let k = choose|k: int| 0 <= k < s.push(x).len() && s.push(x)[k] == y;
        if k < s.len() {
            assert(s[k] == y);
        }
    }
    if s.contains(y) {
        let k = choose|k: int| 0 <= k < s.len() && s[k] == y;
        assert(s.push(x)[k] == y);
    }
    if x == y {
        assert(s.push(x)[s.len() as int] == y);
    }
}

/// `o` with the request of token `x` added.
pub open spec fn add_token(o: Options, x: Seq<char>) -> Options {
    Options {
        tag_enum: o.tag_enum || x == "TagEnum"@,
        ref_enum: o.ref_enum || x == "RefEnum"@,
        mut_enum: o.mut_enum || x == "MutEnum"@,
        is: o.is || x == "is"@,
        unwrap: o.unwrap || x == "unwrap"@,
        unwrap_ref: o.unwrap_ref || x == "unwrap_ref"@,
        unwrap_mut: o.unwrap_mut || x == "unwrap_mut"@,
        to_tag: o.to_tag || x == "to_tag"@,
        as_ref: o.as_ref || x == "as_ref"@,
        as_mut: o.as_mut || x == "as_mut"@,
        get: o.get || x == "get"@,
        get_ref: o.get_ref || x == "get_ref"@,
        get_mut: o.get_mut || x == "get_mut"@,
    }
}

proof fn lemma_requested_push(s: Seq<Seq<char>>, x: Seq<char>)
    ensures
        requested(s.push(x)) == add_token(requested(s), x),
{
    lemma_contains_push(s, x, "TagEnum"@);
    lemma_contains_push(s, x, "RefEnum"@);
    lemma_contains_push(s, x, "MutEnum"@);
    lemma_contains_push(s, x, "is"@);
    lemma_contains_push(s, x, "unwrap"@);
    lemma_contains_push(s, x, "unwrap_ref"@);
    lemma_contains_push(s, x, "unwrap_mut"@);
    lemma_contains_push(s, x, "to_tag"@);
    lemma_contains_push(s, x, "as_ref"@);
    lemma_contains_push(s, x, "as_mut"@);
    lemma_contains_push(s, x, "get"@);
    lemma_contains_push(s, x, "get_ref"@);
    lemma_contains_push(s, x, "get_mut"@);
}

/// `o` with the request of `t` added, or nothing when `t` names nothing known.
fn add_request(o: Options, t: &str) -> (r: Option<Options>)
    ensures
        recognized(t@) ==> r == Some(add_token(o, t@)),
        !recognized(t@) ==> r is None,
{
    let tag_enum = same_text(t, "TagEnum");
    let ref_enum = same_text(t, "RefEnum");
    let mut_enum = same_text(t, "MutEnum");
    let is = same_text(t, "is");
    let unwrap = same_text(t, "unwrap");
    let unwrap_ref = same_text(t, "unwrap_ref");
    let unwrap_mut = same_text(t, "unwrap_mut");
    let to_tag = same_text(t, "to_tag");
    let as_ref = same_text(t, "as_ref");
    let as_mut = same_text(t, "as_mut");
    let get = same_text(t, "get");
    let get_ref = same_text(t, "get_ref");
    let get_mut = same_text(t, "get_mut");
    if !(tag_enum || ref_enum || mut_enum || is || unwrap || unwrap_ref || unwrap_mut || to_tag || as_ref || as_mut
        || get || get_ref || get_mut) {
        return None;
    }
    Some(Options {
        tag_enum: o.tag_enum || tag_enum,
        ref_enum: o.ref_enum || ref_enum,
        mut_enum: o.mut_enum || mut_enum,
        is: o.is || is,
        unwrap: o.unwrap || unwrap,
        unwrap_ref: o.unwrap_ref || unwrap_ref,
        unwrap_mut: o.unwrap_mut || unwrap_mut,
        to_tag: o.to_tag || to_tag,
        as_ref: o.as_ref || as_ref,
        as_mut: o.as_mut || as_mut,
        get: o.get || get,
        get_ref: o.get_ref || get_ref,
        get_mut: o.get_mut || get_mut,
    })
}

/// The options requested by `tokens`; the position of the first token that
/// names nothing known is an error.
pub fn parse_options(tokens: &Vec<String>) -> (r: Result<Options, OptionError>)
    ensures
        r is Ok <==> (forall|i: int| 0 <= i < tokens@.len() ==> recognized(#[trigger] tokens@[i]@)),
        r matches Ok(o) ==> o == requested(views(tokens@)),
        r matches Err(OptionError::Unrecognized(i)) ==> {
            &&& i < tokens@.len()
            &&& !recognized(tokens@[i as int]@)
            &&& forall|j: int| 0 <= j < i ==> recognized(#[trigger] tokens@[j]@)
        },
{
    let mut o = Options {
        tag_enum: false,
        ref_enum: false,
        mut_enum: false,
        is: false,
        unwrap: false,
        unwrap_ref: false,
        unwrap_mut: false,
        to_tag: false,
        as_ref: false,
        as_mut: false,
        get: false,
        get_ref: false,
        get_mut: false,
    };
    let ghost all = views(tokens@);
    assert(o == requested(all.take(0)));
    let mut i: usize = 0;
    while i < tokens.len()
        invariant
            i <= tokens@.len(),
            all == views(tokens@),
            o == requested(all.take(i as int)),
            forall|j: int| 0 <= j < i ==> recognized(#[trigger] tokens@[j]@),
        decreases tokens@.len() - i,
    {
        let t = tokens[i].as_str();
        match add_request(o, t) {
            Some(next) => {
                proof {
                    assert(all.take(i + 1) =~= all.take(i as int).push(t@));
                    lemma_requested_push(all.take(i as int), t@);
                }
                o = next;
            },
            None => {
                return Err(OptionError::Unrecognized(i));
            },
        }
        i = i + 1;
    }
    assert(all.take(i as int) =~= all);
    Ok(o)
}

} // verus!
