//! The Flavor context: validation of the categorized column-name lists and
//! derivation of the union and shift-projection lists.

use vstd::prelude::*;
use vstd::string::StringExecFns;

verus! {

/// The character-level views of a sequence of column names.
pub open spec fn views_of(v: Seq<String>) -> Seq<Seq<char>> {
    v.map_values(|s: String| s@)
}

/// No name of `a` occurs in `b`.
pub open spec fn disjoint_names(a: Seq<Seq<char>>, b: Seq<Seq<char>>) -> bool {
    forall|i: int| 0 <= i < a.len() ==> !b.contains(#[trigger] a[i])
}

/// Every name of `a` occurs in `b`.
pub open spec fn covered_names(a: Seq<Seq<char>>, b: Seq<Seq<char>>) -> bool {
    forall|i: int| 0 <= i < a.len() ==> b.contains(#[trigger] a[i])
}

/// The shift projection: each name, in order, with the shift suffix appended.
pub open spec fn shifted_names(a: Seq<Seq<char>>) -> Seq<Seq<char>> {
    a.map_values(|n: Seq<char>| n + "_shift"@)
}

/// The inputs from which a context can be built: a non-empty flavor name,
/// disjoint fixed and witness lists, and shift targets drawn from their union.
pub open spec fn valid_inputs(
    name: Seq<char>,
    fixed: Seq<Seq<char>>,
    witness: Seq<Seq<char>>,
    to_be_shifted: Seq<Seq<char>>,
) -> bool {
    &&& name.len() > 0
    &&& disjoint_names(fixed, witness)
    &&& covered_names(to_be_shifted, fixed + witness)
}

/// Why a set of input lists was rejected.
#[derive(Clone, Copy, Debug, PartialEq, Eq, Structural)]
pub enum ValidationError {
    /// The flavor name is empty.
    EmptyName,
    /// Some column name occurs both in `fixed` and in `witness`.
    OverlappingColumns,
    /// Some entry of `to_be_shifted` names no fixed or witness column.
    UnknownShiftTarget,
}

/// A validated, fully derived Flavor context. Insertion order of every list
/// is kept: it determines the generated field and layout order.
pub struct FlavorContext {
    pub name: String,
    pub relation_file_names: Vec<String>,
    pub lookups: Vec<String>,
    pub fixed: Vec<String>,
    pub witness: Vec<String>,
    pub witness_without_inverses: Vec<String>,
    pub to_be_shifted: Vec<String>,
    pub all_cols: Vec<String>,
    pub shifted: Vec<String>,
    pub all_cols_and_shifts: Vec<String>,
}

impl FlavorContext {
    /// The context invariants: validated inputs and correctly derived lists.
    pub open spec fn wf(self) -> bool {
        &&& valid_inputs(
            self.name@,
            views_of(self.fixed@),
            views_of(self.witness@),
            views_of(self.to_be_shifted@),
        )
        &&& views_of(self.all_cols@) == views_of(self.fixed@) + views_of(self.witness@)
        &&& views_of(self.shifted@) == shifted_names(views_of(self.to_be_shifted@))
        &&& views_of(self.all_cols_and_shifts@) == views_of(self.all_cols@) + views_of(
            self.shifted@,
        )
    }
}

/// Whether `x` occurs in `v`.
fn contains_name(v: &[String], x: &String) -> (r: bool)
    ensures
        r == views_of(v@).contains(x@),
{
    let mut i: usize = 0;
    while i < v.len()
        invariant
            0 <= i <= v@.len(),
            forall|k: int| 0 <= k < i ==> views_of(v@)[k] != x@,
        decreases v@.len() - i,
    {
        if v[i] == *x {
            assert(views_of(v@)[i as int] == x@);
            return true;
        }
        i += 1;
    }
    false
}

/// Whether no name of `a` occurs in `b`.
fn names_disjoint(a: &[String], b: &[String]) -> (r: bool)
    ensures
        r == disjoint_names(views_of(a@), views_of(b@)),
{
    let mut i: usize = 0;
    while i < a.len()
        invariant
            0 <= i <= a@.len(),
            forall|k: int| 0 <= k < i ==> !views_of(b@).contains(#[trigger] views_of(a@)[k]),
        decreases a@.len() - i,
    {
        if contains_name(b, &a[i]) {
            assert(views_of(b@).contains(views_of(a@)[i as int]));
            return false;
        }
        i += 1;
    }
    true
}

/// A copy of a column-name list.
pub(crate) fn copy_cols(v: &[String]) -> (r: Vec<String>)
    ensures
        r@ == v@,
{
    let mut out: Vec<String> = Vec::new();
    assert(out@ =~= v@.take(0));
    let mut i: usize = 0;
    while i < v.len()
        invariant
            0 <= i <= v@.len(),
            out@ == v@.take(i as int),
        decreases v@.len() - i,
    {
        out.push(v[i].clone());
        assert(out@ =~= v@.take(i as int + 1));
        i += 1;
    }
    assert(out@ =~= v@);
    out
}

/// The concatenation of two column-name lists, in order.
fn concat_cols(a: &[String], b: &[String]) -> (r: Vec<String>)
    ensures
        r@ == a@ + b@,
        views_of(r@) == views_of(a@) + views_of(b@),
{
    let mut out = copy_cols(a);
    assert(out@ =~= a@ + b@.take(0));
    let mut i: usize = 0;
    while i < b.len()
        invariant
            0 <= i <= b@.len(),
            out@ == a@ + b@.take(i as int),
        decreases b@.len() - i,
    {
        out.push(b[i].clone());
        assert(out@ =~= a@ + b@.take(i as int + 1));
        i += 1;
    }
    assert(out@ =~= a@ + b@);
    assert(views_of(out@) =~= views_of(a@) + views_of(b@));
    out
}

/// The shift projection of a column-name list: each name suffixed in order.
fn shift_cols(v: &[String]) -> (r: Vec<String>)
    ensures
        views_of(r@) == shifted_names(views_of(v@)),
{
    let mut out: Vec<String> = Vec::new();
    let mut i: usize = 0;
    while i < v.len()
        invariant
            0 <= i <= v@.len(),
            out@.len() == i,
            forall|k: int| 0 <= k < i ==> #[trigger] out@[k]@ == v@[k]@ + "_shift"@,
        decreases v@.len() - i,
    {
        out.push(v[i].clone().concat("_shift"));
        i += 1;
    }
    proof {
        assert forall|k: int| 0 <= k < v@.len() implies views_of(out@)[k] == shifted_names(
            views_of(v@),
        )[k] by {
            assert(out@[k]@ == v@[k]@ + "_shift"@);
        }
        assert(views_of(out@) =~= shifted_names(views_of(v@)));
    }
    out
}

/// All-columns uniqueness: when the fixed names and the witness names are
/// each free of duplicates and the two lists are disjoint, their
/// concatenation has no duplicate names.
pub proof fn lemma_all_cols_no_duplicates(fixed: Seq<Seq<char>>, witness: Seq<Seq<char>>)
    requires
        fixed.no_duplicates(),
        witness.no_duplicates(),
        disjoint_names(fixed, witness),
    ensures
        (fixed + witness).no_duplicates(),
{
    let all = fixed + witness;
    assert forall|i: int, j: int|
        0 <= i < all.len() && 0 <= j < all.len() && i != j implies all[i] != all[j] by {
        if i < fixed.len() && j >= fixed.len() {
            assert(witness.contains(witness[j - fixed.len()]));
            assert(all[i] == fixed[i]);
        } else if j < fixed.len() && i >= fixed.len() {
            assert(witness.contains(witness[i - fixed.len()]));
            assert(all[j] == fixed[j]);
        }
    }
}

/// Derivation correctness: in a valid context the all-columns list is the
/// order-preserving concatenation of the fixed and the witness lists, free
/// of duplicates whenever each input list is, and the shifted list mirrors
/// the to-be-shifted list in length and position.
pub proof fn lemma_derivation_correctness(c: FlavorContext)
    requires
        c.wf(),
        views_of(c.fixed@).no_duplicates(),
        views_of(c.witness@).no_duplicates(),
    ensures
        views_of(c.all_cols@) == views_of(c.fixed@) + views_of(c.witness@),
        views_of(c.all_cols@).no_duplicates(),
        c.all_cols@.len() == c.fixed@.len() + c.witness@.len(),
        c.shifted@.len() == c.to_be_shifted@.len(),
        forall|i: int|
            0 <= i < c.to_be_shifted@.len() ==> #[trigger] views_of(c.shifted@)[i] == views_of(
                c.to_be_shifted@,
            )[i] + "_shift"@,
{
    lemma_all_cols_no_duplicates(views_of(c.fixed@), views_of(c.witness@));
}

/// Validates the categorized column-name lists and derives the union and
/// shift-projection lists, all-or-nothing: on any violation the error says
/// which rule failed and no context is produced.
pub fn build(
    name: &str,
    relation_file_names: &[String],
    lookups: &[String],
    fixed: &[String],
    witness: &[String],
    witness_without_inverses: &[String],
    to_be_shifted: &[String],
) -> (r: Result<FlavorContext, ValidationError>)
    ensures
        r is Ok <==> valid_inputs(
            name@,
            views_of(fixed@),
            views_of(witness@),
            views_of(to_be_shifted@),
        ),
        r == Err::<FlavorContext, ValidationError>(ValidationError::EmptyName) <==> name@.len()
            == 0,
        r == Err::<FlavorContext, ValidationError>(ValidationError::OverlappingColumns) <==> (
        name@.len() > 0 && !disjoint_names(views_of(fixed@), views_of(witness@))),
        r == Err::<FlavorContext, ValidationError>(ValidationError::UnknownShiftTarget) <==> (
        name@.len() > 0 && disjoint_names(views_of(fixed@), views_of(witness@))
            && !covered_names(views_of(to_be_shifted@), views_of(fixed@) + views_of(witness@))),
        r matches Ok(c) ==> {
            &&& c.name@ == name@
            &&& c.relation_file_names@ == relation_file_names@
            &&& c.lookups@ == lookups@
            &&& c.fixed@ == fixed@
            &&& c.witness@ == witness@
            &&& c.witness_without_inverses@ == witness_without_inverses@
            &&& c.to_be_shifted@ == to_be_shifted@
            &&& views_of(c.all_cols@) == views_of(fixed@) + views_of(witness@)
            &&& views_of(c.shifted@) == shifted_names(views_of(to_be_shifted@))
            &&& views_of(c.all_cols_and_shifts@) == views_of(c.all_cols@) + views_of(c.shifted@)
            &&& c.wf()
        },
{
    if name.is_empty() {
        return Err(ValidationError::EmptyName);
    }
    if !names_disjoint(fixed, witness) {
        return Err(ValidationError::OverlappingColumns);
    }
    let all_cols = concat_cols(fixed, witness);
    let mut i: usize = 0;
    while i < to_be_shifted.len()
        invariant
            0 <= i <= to_be_shifted@.len(),
            name@.len() > 0,
            disjoint_names(views_of(fixed@), views_of(witness@)),
            views_of(all_cols@) == views_of(fixed@) + views_of(witness@),
            forall|k: int|
                0 <= k < i ==> views_of(all_cols@).contains(#[trigger] views_of(to_be_shifted@)[k]),
        decreases to_be_shifted@.len() - i,
    {
        if !contains_name(all_cols.as_slice(), &to_be_shifted[i]) {
            assert(!(views_of(fixed@) + views_of(witness@)).contains(
                views_of(to_be_shifted@)[i as int],
            ));
            return Err(ValidationError::UnknownShiftTarget);
        }
        i += 1;
    }
    let shifted = shift_cols(to_be_shifted);
    let all_cols_and_shifts = concat_cols(all_cols.as_slice(), shifted.as_slice());
    Ok(
        FlavorContext {
            name: name.to_owned(),
            relation_file_names: copy_cols(relation_file_names),
            lookups: copy_cols(lookups),
            fixed: copy_cols(fixed),
            witness: copy_cols(witness),
            witness_without_inverses: copy_cols(witness_without_inverses),
            to_be_shifted: copy_cols(to_be_shifted),
            all_cols,
            shifted,
            all_cols_and_shifts,
        },
    )
}

} // verus!
