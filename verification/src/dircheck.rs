//! Heuristic check that a chosen directory looks like an existing game
//! installation: it should hold three known subdirectories and two known
//! files.

use vstd::prelude::*;

verus! {

/// One listed entry of the candidate directory, reduced to what the check
/// reads: its name and whether it is a directory.
pub struct DirEntryInfo {
    pub name: String,
    pub is_dir: bool,
}

/// The number of known entries that must all be present.
pub const REQUIRED_CONDITIONS: u64 = 5;

/// The entry is one of the five the check is after: a subdirectory named
/// `characters`, `game` or `renpy`, or a file named `DDLC.py` or `DDLC.sh`.
pub open spec fn entry_condition_met(e: DirEntryInfo) -> bool {
    if e.is_dir {
        e.name@ == "characters"@ || e.name@ == "game"@ || e.name@ == "renpy"@
    } else {
        e.name@ == "DDLC.py"@ || e.name@ == "DDLC.sh"@
    }
}

/// How many listed entries meet a condition.
pub open spec fn count_met(s: Seq<DirEntryInfo>) -> int
    decreases s.len(),
{
    if s.len() == 0 {
        0
    } else {
        count_met(s.drop_last()) + if entry_condition_met(s.last()) {
            1int
        } else {
            0int
        }
    }
}

/// Listing more entries never lowers the count.
proof fn lemma_count_met_prefix(s: Seq<DirEntryInfo>, i: int)
    requires
        0 <= i <= s.len(),
    ensures
        count_met(s) >= count_met(s.take(i)),
    decreases s.len() - i,
{
    if i < s.len() {
        lemma_count_met_prefix(s, i + 1);
        assert(s.take(i + 1).drop_last() =~= s.take(i));
    } else {
        assert(s.take(i) =~= s);
    }
}

/// The entry's name is exactly the given literal.
fn name_is(name: &String, lit: &str) -> (r: bool)
    ensures
        r == (name@ == lit@),
{
    let other: String = lit.to_owned();
    *name == other
}

/// Decides whether a directory listing looks like a game installation: all
/// five known entries are present (a directory's names are unique, so five
/// met conditions mean all five entries).
pub fn is_valid_ddlc_listing(entries: &Vec<DirEntryInfo>) -> (r: bool)
    ensures
        r == (count_met(entries@) >= REQUIRED_CONDITIONS),
{
    let n = entries.len();
    let mut cnt: u64 = 0;
    let mut i: usize = 0;
    while i < n
        invariant
            n == entries@.len(),
            0 <= i <= n,
            cnt == count_met(entries@.take(i as int)),
            cnt < REQUIRED_CONDITIONS,
        decreases n - i,
    {
        let e = &entries[i];
        let met = if e.is_dir {
            name_is(&e.name, "characters") || name_is(&e.name, "game") || name_is(&e.name, "renpy")
        } else {
            name_is(&e.name, "DDLC.py") || name_is(&e.name, "DDLC.sh")
        };
        proof {
            assert(entries@.take(i + 1).drop_last() =~= entries@.take(i as int));
            assert(entries@.take(i + 1).last() == entries@[i as int]);
        }
        if met {
            cnt = cnt + 1;
        }
        if cnt == REQUIRED_CONDITIONS {
            proof {
                lemma_count_met_prefix(entries@, i + 1);
            }
            return true;
        }
        i = i + 1;
    }
    proof {
        assert(entries@.take(n as int) =~= entries@);
    }
    false
}

} // verus!
