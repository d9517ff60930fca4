//! The roster of people, as it is loaded.

use vstd::prelude::*;
use crate::interaction::Interaction;

verus! {

/// One person of the roster: a name, a number where the person has one, and
/// the conversation that the person opens with, if any.
#[derive(Debug, PartialEq, Eq)]
pub struct NpcJson {
    pub id: Option<u32>,
    pub name: String,
    pub main_interaction: Option<Interaction>,
}

/// Every conversation of the roster is well formed.
pub open spec fn roster_well_formed(npcs: Seq<NpcJson>) -> bool {
    forall|i: int|
        0 <= i < npcs.len() ==> match (#[trigger] npcs[i]).main_interaction {
            Some(root) => root@.well_formed(),
            None => true,
        }
}

/// Whether every conversation of the roster is well formed.
pub fn is_roster_well_formed(npcs: &Vec<NpcJson>) -> (ok: bool)
    ensures
        ok == roster_well_formed(npcs@),
{
    let mut index: usize = 0;
    while index < npcs.len()
        invariant
            index <= npcs.len(),
            roster_well_formed(npcs@.take(index as int)),
        decreases npcs.len() - index,
    {
        let ok = match &npcs[index].main_interaction {
            Some(root) => root.is_well_formed(),
            None => true,
        };
        if !ok {
            return false;
        }
        proof {
            let before = npcs@.take(index as int);
            let now = npcs@.take(index + 1);
            assert forall|i: int| 0 <= i < now.len() implies match (#[trigger] now[i]).main_interaction {
                Some(root) => root@.well_formed(),
                None => true,
            } by {
                if i < index {
                    assert(now[i] == before[i]);
                }
            }
        }
        index = index + 1;
    }
    assert(npcs@.take(index as int) == npcs@);
    true
}

} // verus!
