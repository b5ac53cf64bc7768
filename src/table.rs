//! The table that the generated accessor returns.
use vstd::prelude::*;

verus! {

/// The accessor's table for fields `names` at byte offsets `offsets`: the
/// i-th entry pairs the i-th name with the i-th offset, so the table keeps
/// the fields' declaration order and has one entry per field.
pub fn field_offset_table(names: &Vec<String>, offsets: &Vec<usize>) -> (r: Vec<(String, usize)>)
    requires
        names.len() == offsets.len(),
    ensures
        r.len() == names.len(),
        forall|i: int|
            0 <= i < r.len() ==> #[trigger] r@[i].0@ == names@[i]@ && r@[i].1 == offsets@[i],
{
    let mut r: Vec<(String, usize)> = Vec::new();
    let mut i: usize = 0;
    while i < names.len()
        invariant
            i <= names.len(),
            names.len() == offsets.len(),
            r.len() == i,
            forall|j: int|
                0 <= j < i ==> #[trigger] r@[j].0@ == names@[j]@ && r@[j].1 == offsets@[j],
        decreases names.len() - i,
    {
        r.push((names[i].clone(), offsets[i]));
        i += 1;
    }
    r
}

} // verus!
