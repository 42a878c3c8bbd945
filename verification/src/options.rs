//! What the caller configures: derives, imports and decorations.

use vstd::prelude::*;
use crate::text::holds_text;
use crate::text::lemma_texts_push;
use crate::text::lemma_texts_take;
use crate::text::str_equal;
use crate::text::texts;

verus! {

/// A line written as it is above a definition or a field, except for the
/// schemas it names. One model serves both places.
#[derive(Clone, Debug, PartialEq, Eq)]
pub struct Decoration {
    pub text: String,
    pub exceptions: Vec<String>,
}

/// A symbol brought into scope at the top of the output.
#[derive(Clone, Debug, PartialEq, Eq)]
pub struct Import {
    pub path: String,
    pub name: String,
}

/// The configuration of one run.
#[derive(Clone, Debug, PartialEq, Eq)]
pub struct Options {
    /// Derives added after `Debug` on every record and union.
    pub derivatives: Vec<String>,
    /// Imports, in the order in which they are declared.
    pub imports: Vec<Import>,
    /// Decorations of records and unions.
    pub container_attrs: Vec<Decoration>,
    /// Decorations of the fields of records.
    pub field_attrs: Vec<Decoration>,
}

/// Whether a decoration is left off the schema called `schema`.
pub open spec fn exempts(d: Decoration, schema: Seq<char>) -> bool {
    holds_text(d.exceptions@, schema)
}

/// The decorations that apply to the schema called `schema`, in order.
pub open spec fn active_decorations(decorations: Seq<Decoration>, schema: Seq<char>) -> Seq<
    Seq<char>,
>
    decreases decorations.len(),
{
    if decorations.len() == 0 {
        Seq::empty()
    } else {
        let before = active_decorations(decorations.drop_last(), schema);
        if exempts(decorations.last(), schema) {
            before
        } else {
            before.push(decorations.last().text@)
        }
    }
}

/// The derives of every record and union: `Debug`, then the configured ones.
pub open spec fn derives_of(options: Options) -> Seq<Seq<char>> {
    seq!["Debug"@] + texts(options.derivatives@)
}

/// The imports as pairs of path and symbol.
pub open spec fn import_pairs(imports: Seq<Import>) -> Seq<(Seq<char>, Seq<char>)> {
    Seq::new(imports.len(), |i: int| (imports[i].path@, imports[i].name@))
}

/// Whether `needle` is among `v`.
pub fn contains_text(v: &Vec<String>, needle: &str) -> (r: bool)
    ensures
        r == holds_text(v@, needle@),
{
    let mut i: usize = 0;
    while i < v.len()
        invariant
            0 <= i <= v.len(),
            forall|k: int| 0 <= k < i ==> (#[trigger] v@[k])@ != needle@,
        decreases v.len() - i,
    {
        if str_equal(v[i].as_str(), needle) {
            return true;
        }
        i += 1;
    }
    false
}

/// A copy of `v`.
pub fn clone_texts(v: &Vec<String>) -> (r: Vec<String>)
    ensures
        texts(r@) == texts(v@),
{
    let mut r: Vec<String> = Vec::new();
    let mut i: usize = 0;
    while i < v.len()
        invariant
            0 <= i <= v.len(),
            texts(r@) == texts(v@.take(i as int)),
        decreases v.len() - i,
    {
        let s = v[i].clone();
        proof {
            lemma_texts_push(r@, s);
            lemma_texts_take(v@, i as int);
        }
        r.push(s);
        i += 1;
    }
    assert(v@.take(v.len() as int) =~= v@);
    r
}

impl Options {
    /// No derives beyond `Debug`, no imports, no decorations.
    pub fn new() -> (r: Options)
        ensures
            r.derivatives@.len() == 0,
            r.imports@.len() == 0,
            r.container_attrs@.len() == 0,
            r.field_attrs@.len() == 0,
    {
        Options {
            derivatives: Vec::new(),
            imports: Vec::new(),
            container_attrs: Vec::new(),
            field_attrs: Vec::new(),
        }
    }

    /// `Debug`, then the configured derives.
    pub fn derives(&self) -> (r: Vec<String>)
        ensures
            texts(r@) == derives_of(*self),
    {
        let mut r: Vec<String> = Vec::new();
        r.push("Debug".to_owned());
        let mut i: usize = 0;
        while i < self.derivatives.len()
            invariant
                0 <= i <= self.derivatives.len(),
                texts(r@) == seq!["Debug"@] + texts(self.derivatives@.take(i as int)),
            decreases self.derivatives.len() - i,
        {
            let s = self.derivatives[i].clone();
            proof {
                lemma_texts_push(r@, s);
                lemma_texts_take(self.derivatives@, i as int);
                assert((seq!["Debug"@] + texts(self.derivatives@.take(i as int))).push(s@)
                    =~= seq!["Debug"@] + texts(self.derivatives@.take(i as int)).push(s@));
            }
            r.push(s);
            i += 1;
        }
        assert(self.derivatives@.take(self.derivatives.len() as int) =~= self.derivatives@);
        r
    }
}

/// The decorations among `decorations` that apply to `schema`.
pub fn decorations_for(decorations: &Vec<Decoration>, schema: &str) -> (r: Vec<String>)
    ensures
        texts(r@) == active_decorations(decorations@, schema@),
{
    let mut r: Vec<String> = Vec::new();
    let mut i: usize = 0;
    while i < decorations.len()
        invariant
            0 <= i <= decorations.len(),
            texts(r@) == active_decorations(decorations@.take(i as int), schema@),
        decreases decorations.len() - i,
    {
        let is_exception = contains_text(&decorations[i].exceptions, schema);
        proof {
            assert(decorations@.take(i + 1).drop_last() =~= decorations@.take(i as int));
            assert(decorations@.take(i + 1).last() == decorations@[i as int]);
        }
        if !is_exception {
            let s = decorations[i].text.clone();
            proof {
                lemma_texts_push(r@, s);
            }
            r.push(s);
        }
        i += 1;
    }
    assert(decorations@.take(decorations.len() as int) =~= decorations@);
    r
}

} // verus!
