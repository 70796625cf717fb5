//! Break policies and the choice of the break type used for manual breaks.

use vstd::prelude::*;

verus! {

#[derive(Clone, Debug, PartialEq, Eq)]
pub struct RoleProperties {
    pub role: String,
    pub default_timezone: String,
}

#[derive(Clone, Debug, PartialEq, Eq)]
pub struct RoleOverrides {
    pub role_properties: RoleProperties,
}

/// The policies active for a role.
#[derive(Clone, Debug, PartialEq, Eq)]
pub struct ActivePolicy {
    pub time_policy: String,
    pub break_policy: String,
    pub role_overrides: RoleOverrides,
}

/// A break type of the company. Length limits are the platform's concern
/// and are not kept here.
#[derive(Clone, Debug, PartialEq, Eq)]
pub struct BreakType {
    pub id: String,
    pub deleted: bool,
    pub description: String,
    pub enforce_min_length: bool,
    pub enforce_max_length: bool,
}

#[derive(Clone, Debug, PartialEq, Eq)]
pub struct EligibleBreakType {
    pub allow_manual: bool,
    pub break_type_id: String,
}

#[derive(Clone, Debug, PartialEq, Eq)]
pub struct BreakPolicy {
    pub id: String,
    pub break_types: Vec<BreakType>,
    pub eligible_break_types: Vec<EligibleBreakType>,
}

/// Some eligible break type that allows manual breaks has the id `id`.
pub open spec fn manual_allowed(eligible: Seq<EligibleBreakType>, id: Seq<char>) -> bool {
    exists|j: int|
        0 <= j < eligible.len() && (#[trigger] eligible[j]).allow_manual
            && eligible[j].break_type_id@ == id
}

/// The break type `bt` may be used for manual breaks.
pub open spec fn is_manual(eligible: Seq<EligibleBreakType>, bt: BreakType) -> bool {
    !bt.deleted && manual_allowed(eligible, bt.id@)
}

/// Index of the first manual break type at or after `i`, or -1.
pub open spec fn manual_index(
    types: Seq<BreakType>,
    eligible: Seq<EligibleBreakType>,
    i: int,
) -> int
    decreases types.len() - i,
{
    if i < 0 || i >= types.len() {
        -1
    } else if is_manual(eligible, types[i]) {
        i
    } else {
        manual_index(types, eligible, i + 1)
    }
}

impl BreakPolicy {
    pub open spec fn manual_index_spec(&self) -> int {
        manual_index(self.break_types@, self.eligible_break_types@, 0)
    }

    fn allows_manual(&self, id: &String) -> (r: bool)
        ensures
            r == manual_allowed(self.eligible_break_types@, id@),
    {
        let mut j: usize = 0;
        while j < self.eligible_break_types.len()
            invariant
                j <= self.eligible_break_types.len(),
                forall|k: int|
                    0 <= k < j ==> !((#[trigger] self.eligible_break_types@[k]).allow_manual
                        && self.eligible_break_types@[k].break_type_id@ == id@),
            decreases self.eligible_break_types.len() - j,
        {
            let e = &self.eligible_break_types[j];
            if e.allow_manual && e.break_type_id == *id {
                return true;
            }
            j = j + 1;
        }
        false
    }

    /// The first break type that is not deleted and that an eligible entry
    /// allows for manual breaks.
    pub fn manual_break_type(&self) -> (r: Option<&BreakType>)
        ensures
            r is None <==> self.manual_index_spec() < 0,
            r matches Some(bt) ==> *bt == self.break_types@[self.manual_index_spec()],
    {
        let mut i: usize = 0;
        while i < self.break_types.len()
            invariant
                i <= self.break_types.len(),
                manual_index(self.break_types@, self.eligible_break_types@, 0) == manual_index(
                    self.break_types@,
                    self.eligible_break_types@,
                    i as int,
                ),
            decreases self.break_types.len() - i,
        {
            let bt = &self.break_types[i];
            if !bt.deleted && self.allows_manual(&bt.id) {
                return Some(bt);
            }
            i = i + 1;
        }
        None
    }
}

} // verus!
