//! Archive extraction: stored-path safety and per-entry progress.
//!
//! The surrounding program walks the archive's entries in index order and
//! performs the directory creation and file writes; which entries may touch
//! the filesystem at all, and what progress each one reports, is decided
//! here. The path-safety check is the one non-negotiable invariant:
//! extraction must never write outside the destination tree, whatever the
//! archive claims.

use vstd::prelude::*;
use vstd::slice::slice_to_vec;
use crate::errors::ExtractionError;
use crate::events::Fraction;

verus! {

/// The byte separates path components: `/` as archives store them, and `\`,
/// which hosts with Windows path rules follow just as well.
pub open spec fn is_separator(b: u8) -> bool {
    b == 47u8 || b == 92u8
}

/// A parent-directory component starts at byte `i` of the stored path: two
/// dots delimited by the path's ends or by separators.
pub open spec fn has_dotdot_at(s: Seq<u8>, i: int) -> bool {
    &&& 0 <= i
    &&& i + 2 <= s.len()
    &&& s[i] == 46u8
    &&& s[i + 1] == 46u8
    &&& (i == 0 || is_separator(s[i - 1]))
    &&& (i + 2 == s.len() || is_separator(s[i + 2]))
}

/// Some component of the stored path is `..`.
pub open spec fn has_parent_component(s: Seq<u8>) -> bool {
    exists|i: int| has_dotdot_at(s, i)
}

/// A stored path may be used under the destination directory only if it is
/// relative — it starts with neither separator and carries no drive prefix
/// (a `:` as its second byte) — and contains no parent-directory component.
pub open spec fn path_is_safe(s: Seq<u8>) -> bool {
    &&& !(s.len() > 0 && is_separator(s[0]))
    &&& !(s.len() >= 2 && s[1] == 58u8)
    &&& !has_parent_component(s)
}

/// Decides `path_is_safe` for a stored path given as its bytes.
pub fn check_entry_path(name: &[u8]) -> (r: bool)
    ensures
        r == path_is_safe(name@),
{
    let n = name.len();
    if n > 0 && (name[0] == 47u8 || name[0] == 92u8) {
        return false;
    }
    if n >= 2 && name[1] == 58u8 {
        return false;
    }
    let mut i: usize = 0;
    while i < n
        invariant
            n == name@.len(),
            i <= n,
            forall|j: int| 0 <= j < i ==> !has_dotdot_at(name@, j),
        decreases n - i,
    {
        if n - i >= 2 && name[i] == 46u8 && name[i + 1] == 46u8 && (i == 0 || name[i - 1] == 47u8
            || name[i - 1] == 92u8) && (n - i == 2 || name[i + 2] == 47u8 || name[i + 2] == 92u8) {
            assert(has_dotdot_at(name@, i as int));
            return false;
        }
        assert(!has_dotdot_at(name@, i as int));
        i = i + 1;
    }
    assert forall|j: int| !has_dotdot_at(name@, j) by {
        if has_dotdot_at(name@, j) {
            assert(0 <= j < n);
        }
    }
    true
}

/// What may be done on the filesystem for one validated archive entry.
#[derive(Clone, Copy, Debug, PartialEq, Eq, Structural)]
pub enum EntryAction {
    /// Create the entry's directory, and any missing ancestors, idempotently.
    MakeDir,
    /// Create missing parent directories, then create or truncate the file
    /// and stream the entry's decompressed bytes into it.
    WriteFile,
}

/// Validates one entry's stored path before anything touches the
/// filesystem. An unsafe path yields `UnsafeFilepath` carrying that path,
/// and no action: the whole extraction is then abandoned, not just the one
/// entry.
pub fn plan_entry(name: &[u8], is_dir: bool) -> (r: Result<EntryAction, ExtractionError>)
    ensures
        path_is_safe(name@) ==> r == Ok::<EntryAction, ExtractionError>(
            if is_dir {
                EntryAction::MakeDir
            } else {
                EntryAction::WriteFile
            },
        ),
        !path_is_safe(name@) ==> (r matches Err(ExtractionError::UnsafeFilepath(p)) && p@
            == name@),
{
    if check_entry_path(name) {
        if is_dir {
            Ok(EntryAction::MakeDir)
        } else {
            Ok(EntryAction::WriteFile)
        }
    } else {
        Err(ExtractionError::UnsafeFilepath(slice_to_vec(name)))
    }
}

/// Per-call counter over an archive's entries, processed in index order.
#[derive(Clone, Copy, Debug, PartialEq, Eq, Structural)]
pub struct ExtractionProgress {
    pub total_entries: u64,
    pub index: u64,
}

impl ExtractionProgress {
    pub open spec fn wf(self) -> bool {
        self.index <= self.total_entries
    }

    /// Every entry has been processed.
    pub open spec fn is_complete(self) -> bool {
        self.index == self.total_entries
    }

    /// Exec mirror of `is_complete`.
    pub fn is_done(&self) -> (r: bool)
        ensures
            r == self.is_complete(),
    {
        self.index == self.total_entries
    }

    /// Entries remain and cancellation was not requested.
    pub fn should_continue(&self, abort: bool) -> (r: bool)
        ensures
            r == (!abort && !self.is_complete()),
    {
        !abort && !self.is_done()
    }

    /// Accounts for one processed entry; the reported fraction is exactly
    /// `(index + 1) / total_entries`.
    pub fn advance(&mut self) -> (f: Fraction)
        requires
            old(self).wf(),
            !old(self).is_complete(),
        ensures
            final(self).wf(),
            final(self).total_entries == old(self).total_entries,
            final(self).index == old(self).index + 1,
            f == (Fraction {
                num: (old(self).index + 1) as u64,
                den: old(self).total_entries,
            }),
            f.wf(),
            f.is_one() <==> final(self).is_complete(),
    {
        self.index = self.index + 1;
        Fraction::new(self.index, self.total_entries)
    }
}

/// Opens an extraction at the first checkpoint of the stage.
///
/// A cancellation that was requested before the stage began is honored as a
/// success with nothing extracted; an unreadable entry index fails before
/// any entry can be planned, because no counter ever exists to walk with.
pub fn start_extraction(abort: bool, entry_count: Option<u64>) -> (r: Result<
    Option<ExtractionProgress>,
    ExtractionError,
>)
    ensures
        abort ==> r == Ok::<Option<ExtractionProgress>, ExtractionError>(None),
        !abort ==> match entry_count {
            None => r == Err::<Option<ExtractionProgress>, ExtractionError>(
                ExtractionError::CorruptArchive,
            ),
            Some(n) => r == Ok::<Option<ExtractionProgress>, ExtractionError>(
                Some(ExtractionProgress { total_entries: n, index: 0 }),
            ),
        },
{
    if abort {
        return Ok(None);
    }
    match entry_count {
        None => Err(ExtractionError::CorruptArchive),
        Some(n) => Ok(Some(ExtractionProgress { total_entries: n, index: 0 })),
    }
}

/// Law: an archive with `n` entries processed in index order reports exactly
/// the fractions `1/n, 2/n, …, n/n`, in that order.
pub fn simulate_extraction_progress(n: u64) -> (fs: Vec<Fraction>)
    ensures
        fs@.len() == n,
        forall|k: int| 0 <= k < n ==> fs@[k] == (Fraction { num: (k + 1) as u64, den: n }),
{
    let mut p = ExtractionProgress { total_entries: n, index: 0 };
    let mut fs: Vec<Fraction> = Vec::new();
    while !p.is_done()
        invariant
            p.wf(),
            p.total_entries == n,
            fs@.len() == p.index,
            forall|k: int| 0 <= k < fs@.len() ==> fs@[k] == (Fraction { num: (k + 1) as u64, den: n }),
        decreases n - p.index,
    {
        let f = p.advance();
        fs.push(f);
    }
    fs
}

} // verus!
