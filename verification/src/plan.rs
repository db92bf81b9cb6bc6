//! Planning a run: for each file name, the destination it is routed to.
//!
//! A plan is what a dry run reports, and exactly what a real run carries
//! out: the surrounding program moves each file to its planned destination
//! under the source directory.

use vstd::prelude::*;
use crate::classify::{OrganizeMode, classify, classify_spec};

verus! {

/// One file of a run: its name and the destination it is routed to,
/// relative to the source directory.
pub struct PlannedMove {
    /// The file's name, as it was handed in.
    pub file_name: String,
    /// The destination subdirectory the file is routed to.
    pub category: String,
    /// The destination path relative to the source directory:
    /// the category, a separator, and the file's name.
    pub destination: String,
}

/// The destination path of a file relative to the source directory.
pub open spec fn destination_spec(name: Seq<char>, mode: OrganizeMode) -> Seq<char> {
    classify_spec(name, mode) + "/"@ + name
}

/// Whether `p` is the planned move of the file `name` under `mode`.
pub open spec fn planned_for(p: PlannedMove, name: Seq<char>, mode: OrganizeMode) -> bool {
    &&& p.file_name@ == name
    &&& p.category@ == classify_spec(name, mode)
    &&& p.destination@ == destination_spec(name, mode)
}

/// The destination path of a file relative to the source directory.
pub fn destination_of(name: &str, mode: OrganizeMode) -> (r: String)
    ensures
        r@ == destination_spec(name@, mode),
{
    let mut d = classify(name, mode);
    d.append("/");
    d.append(name);
    d
}

/// The plan of one run: each file name, in the order handed in, with the
/// destination it is routed to under `mode`.
pub fn plan_moves(names: &Vec<String>, mode: OrganizeMode) -> (r: Vec<PlannedMove>)
    ensures
        r@.len() == names@.len(),
        forall|i: int| 0 <= i < names@.len() ==> planned_for(r@[i], names@[i]@, mode),
{
    let mut r: Vec<PlannedMove> = Vec::new();
    let mut i: usize = 0;
    while i < names.len()
        invariant
            i <= names@.len(),
            r@.len() == i,
            forall|j: int| 0 <= j < i ==> planned_for(r@[j], names@[j]@, mode),
        decreases names@.len() - i,
    {
        let name = &names[i];
        let category = classify(name.as_str(), mode);
        let destination = destination_of(name.as_str(), mode);
        r.push(PlannedMove { file_name: name.clone(), category, destination });
        i = i + 1;
    }
    r
}

/// Law: planning is deterministic. Two plans over the same file names and
/// the same mode report the same destinations, so a dry run repeated, or a
/// dry run followed by a real run, reports identical destinations.
pub proof fn lemma_plan_idempotent(
    r1: Seq<PlannedMove>,
    r2: Seq<PlannedMove>,
    names: Seq<Seq<char>>,
    mode: OrganizeMode,
)
    requires
        r1.len() == names.len(),
        r2.len() == names.len(),
        forall|i: int| 0 <= i < names.len() ==> planned_for(#[trigger] r1[i], names[i], mode),
        forall|i: int| 0 <= i < names.len() ==> planned_for(#[trigger] r2[i], names[i], mode),
    ensures
        r1.len() == r2.len(),
        forall|i: int| 0 <= i < r1.len() ==> {
            &&& (#[trigger] r1[i]).file_name@ == r2[i].file_name@
            &&& r1[i].category@ == r2[i].category@
            &&& r1[i].destination@ == r2[i].destination@
        },
{
}

} // verus!
