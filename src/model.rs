//! The models whose admissible parameter ranges can be asked for by name.
use vstd::prelude::*;

verus! {

/// The parameter-constraint table that a model name selects.
#[derive(Clone, Copy, Debug, PartialEq, Eq, Structural)]
pub enum ConstraintModel {
    Heston,
    Cgmy,
    Merton,
    /// The table of the general time-changed jump-diffusion parameters.
    All,
}

/// The table that a model name selects: the three named models, and the
/// general table for any other name.
pub open spec fn model_named(name: Seq<char>) -> ConstraintModel {
    if name == "heston"@ {
        ConstraintModel::Heston
    } else if name == "cgmy"@ {
        ConstraintModel::Cgmy
    } else if name == "merton"@ {
        ConstraintModel::Merton
    } else {
        ConstraintModel::All
    }
}

/// Whether two strings hold the same characters.
pub fn same_text(a: &str, b: &str) -> (r: bool)
    ensures
        r == (a@ == b@),
{
    let n = a.unicode_len();
    if n != b.unicode_len() {
        return false;
    }
    let mut i: usize = 0;
    while i < n
        invariant
            i <= n,
            n == a@.len(),
            n == b@.len(),
            forall|j: int| 0 <= j < i ==> a@[j] == b@[j],
        decreases n - i,
    {
        if a.get_char(i) != b.get_char(i) {
            return false;
        }
        i = i + 1;
    }
    assert(a@ =~= b@);
    true
}

impl ConstraintModel {
    /// The table that a model name selects.
    pub fn from_name(name: &str) -> (r: ConstraintModel)
        ensures
            r == model_named(name@),
    {
        if same_text(name, "heston") {
            ConstraintModel::Heston
        } else if same_text(name, "cgmy") {
            ConstraintModel::Cgmy
        } else if same_text(name, "merton") {
            ConstraintModel::Merton
        } else {
            ConstraintModel::All
        }
    }

    /// The table that an optional model name selects; the general table
    /// where no name is given.
    pub fn from_path_parameter(name: Option<&str>) -> (r: ConstraintModel)
        ensures
            r == match name {
                Some(n) => model_named(n@),
                None => ConstraintModel::All,
            },
    {
        match name {
            Some(n) => ConstraintModel::from_name(n),
            None => ConstraintModel::All,
        }
    }
}

} // verus!
