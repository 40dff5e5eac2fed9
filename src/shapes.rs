use vstd::prelude::*;

verus! {

/// The three kinds of obstacle a scene can hold.
#[derive(Clone, Copy, Debug, PartialEq, Eq, Structural)]
pub enum ShapeKind {
    Circle,
    Line,
    Medium,
}

/// The identity of one obstacle of a scene: its kind, and a key that two
/// obstacles share exactly when their defining points coincide (a line's two
/// endpoints, a medium's two corners, a circle's centre and radius).
/// Thickness and other attributes do not enter the key.
#[derive(Clone, Copy, Debug, PartialEq, Eq, Structural)]
pub struct ShapeTag {
    pub kind: ShapeKind,
    pub key: u64,
}

impl ShapeTag {
    /// Whether two obstacles are the same one: same kind and same key.
    pub open spec fn same_as(self, other: ShapeTag) -> bool {
        self.kind == other.kind && self.key == other.key
    }

    pub fn compare(&self, other: &ShapeTag) -> (r: bool)
        ensures
            r == self.same_as(*other),
    {
        self.kind == other.kind && self.key == other.key
    }
}

/// Comparing obstacles is reflexive and symmetric, and it coincides with
/// equality of the tags, so it looks at nothing but kind and key.
pub proof fn lemma_compare_equivalence(a: ShapeTag, b: ShapeTag)
    ensures
        a.same_as(a),
        a.same_as(b) == b.same_as(a),
        a.same_as(b) == (a == b),
{
}

/// Given, for each obstacle of the scene in order, whether the marching
/// cursor lies in it, returns the position of the first obstacle that holds
/// the cursor: earlier obstacles take priority.
pub fn touching_object(contains: &Vec<bool>) -> (r: Option<usize>)
    ensures
        match r {
            Some(i) => i < contains@.len() && contains@[i as int]
                && forall|j: int| 0 <= j < i ==> !contains@[j],
            None => forall|j: int| 0 <= j < contains@.len() ==> !contains@[j],
        },
{
    let mut i: usize = 0;
    while i < contains.len()
        invariant
            i <= contains@.len(),
            forall|j: int| 0 <= j < i ==> !contains@[j],
        decreases contains@.len() - i,
    {
        if contains[i] {
            return Some(i);
        }
        i = i + 1;
    }
    None
}

} // verus!
