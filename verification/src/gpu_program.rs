//! Compiled shader programs as the software backend models them: a name,
//! the two stage sources, and the reflection tables (sampler uniforms and
//! uniform blocks) resolved once at construction.

use vstd::prelude::*;

verus! {

/// Identifies a program owned by a [`crate::server::GraphicsServer`].
#[derive(Clone, Copy, Debug, PartialEq, Eq, Structural, Hash)]
pub struct ProgramId {
    /// Index of the program in the server's program list.
    pub index: usize,
}

/// An opaque handle to one sampler uniform of one program; invalid for any
/// other program (lifetimes are coupled one to one).
#[derive(Clone, Copy, Debug, PartialEq, Eq, Structural)]
pub struct UniformLocation {
    /// The program the handle was resolved from.
    pub program: ProgramId,
    /// Index of the sampler in that program's reflection table.
    pub index: usize,
}

/// One compiled program as the software backend stores it.
#[derive(Clone, Debug)]
pub struct GpuProgram {
    /// Human-readable name used in diagnostics.
    pub name: String,
    /// Vertex stage source text (opaque to the model).
    pub vertex_source: String,
    /// Fragment stage source text (opaque to the model).
    pub fragment_source: String,
    /// Names of the sampler uniforms, in reflection order.
    pub samplers: Vec<String>,
    /// Names of the uniform blocks, in reflection order.
    pub blocks: Vec<String>,
}

/// Position of the first string of `names` that reads `name`, if any.
pub open spec fn spec_name_index(names: Seq<Seq<char>>, name: Seq<char>) -> Option<int>
    decreases names.len(),
{
    if names.len() == 0 {
        Option::None
    } else if names[0] == name {
        Option::Some(0int)
    } else {
        match spec_name_index(names.skip(1), name) {
            Option::Some(i) => Option::Some(i + 1),
            Option::None => Option::None,
        }
    }
}

/// The views of a list of strings.
pub open spec fn names_view(names: Seq<String>) -> Seq<Seq<char>> {
    names.map_values(|s: String| s@)
}

/// Finds the first string of `names` that reads `name`.
pub fn find_name(names: &Vec<String>, name: &str) -> (r: Option<usize>)
    ensures
        match r {
            Option::Some(i) => spec_name_index(names_view(names@), name@) == Option::Some(i as int),
            Option::None => spec_name_index(names_view(names@), name@) == Option::<int>::None,
        },
{
    let key: String = name.to_owned();
    let mut i: usize = 0;
    while i < names.len()
        invariant
            i <= names@.len(),
            key@ == name@,
            forall|j: int| 0 <= j < i ==> names@[j]@ != name@,
        decreases names@.len() - i,
    {
        if names[i] == key {
            proof {
                lemma_name_index_found(names_view(names@), name@, i as int);
            }
            return Option::Some(i);
        }
        i = i + 1;
    }
    proof {
        lemma_name_index_missing(names_view(names@), name@);
    }
    Option::None
}

/// If `name` first occurs at position `i` of `names`, the search spec
/// returns `i`.
proof fn lemma_name_index_found(names: Seq<Seq<char>>, name: Seq<char>, i: int)
    requires
        0 <= i < names.len(),
        names[i] == name,
        forall|j: int| 0 <= j < i ==> names[j] != name,
    ensures
        spec_name_index(names, name) == Option::Some(i),
    decreases i,
{
    if i == 0 {
    } else {
        assert(names.skip(1)[i - 1] == names[i]);
        assert(forall|j: int| 0 <= j < i - 1 ==> names.skip(1)[j] == names[j + 1]);
        lemma_name_index_found(names.skip(1), name, i - 1);
    }
}

/// If `name` occurs nowhere in `names`, the search spec returns nothing.
proof fn lemma_name_index_missing(names: Seq<Seq<char>>, name: Seq<char>)
    requires
        forall|j: int| 0 <= j < names.len() ==> names[j] != name,
    ensures
        spec_name_index(names, name) == Option::<int>::None,
    decreases names.len(),
{
    if names.len() > 0 {
        assert(forall|j: int| 0 <= j < names.skip(1).len() ==> names.skip(1)[j] == names[j + 1]);
        lemma_name_index_missing(names.skip(1), name);
    }
}

} // verus!
