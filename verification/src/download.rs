//! Accounting for a chunked, range-partitioned download.
//!
//! One asset is fetched through HTTP byte-range requests. The surrounding
//! program performs the requests and the file writes; everything that can go
//! wrong in the arithmetic — the window bounds, short reads, progress and
//! termination — is decided here.

use vstd::prelude::*;
use crate::errors::DownloadError;
use crate::events::Fraction;

verus! {

/// Upper bound on one ranged request's window: eight mebibytes and one byte.
pub const MAX_CHUNK_SIZE: u64 = 8 * 1024 * 1024 + 1;

pub open spec fn spec_min(a: int, b: int) -> int {
    if a < b {
        a
    } else {
        b
    }
}

/// Rounded-up division, used to state how many requests a transfer takes.
pub open spec fn spec_ceil_div(a: int, b: int) -> int {
    (a + b - 1) / b
}

/// Per-call state of one chunked transfer.
///
/// `low_bound` and `high_bound` delimit the next request window
/// `[low_bound, high_bound)`; `total_downloaded` counts the bytes already
/// written and, while the transfer is active, always equals `low_bound`, so
/// consecutive windows tile the asset without gaps or overlaps.
#[derive(Clone, Copy, Debug, PartialEq, Eq, Structural)]
pub struct DownloadTransfer {
    pub content_length: u64,
    pub chunk_size: u64,
    pub low_bound: u64,
    pub high_bound: u64,
    pub total_downloaded: u64,
}

impl DownloadTransfer {
    /// Every byte has been downloaded.
    pub open spec fn is_complete(self) -> bool {
        self.total_downloaded == self.content_length
    }

    /// Invariant held at every iteration boundary.
    pub open spec fn wf(self) -> bool {
        &&& self.content_length < u64::MAX
        &&& self.chunk_size <= self.content_length
        &&& (self.content_length > 0 ==> self.chunk_size >= 1)
        &&& self.total_downloaded <= self.content_length
        &&& self.high_bound == spec_min(
            self.low_bound + self.chunk_size,
            self.content_length + 1,
        )
        &&& (!self.is_complete() ==> self.total_downloaded == self.low_bound)
    }

    /// Begins a transfer over `content_length` bytes with request windows of
    /// at most `requested_chunk` bytes.
    pub fn with_chunk(content_length: u64, requested_chunk: u64) -> (t: DownloadTransfer)
        requires
            1 <= requested_chunk,
            content_length < u64::MAX,
        ensures
            t.wf(),
            t.content_length == content_length,
            t.chunk_size == spec_min(requested_chunk as int, content_length as int),
            t.low_bound == 0,
            t.total_downloaded == 0,
    {
        let chunk_size = if requested_chunk < content_length {
            requested_chunk
        } else {
            content_length
        };
        DownloadTransfer {
            content_length,
            chunk_size,
            low_bound: 0,
            high_bound: chunk_size,
            total_downloaded: 0,
        }
    }

    /// Exec mirror of `is_complete`; decides when the request loop stops.
    pub fn is_done(&self) -> (r: bool)
        ensures
            r == self.is_complete(),
    {
        self.total_downloaded == self.content_length
    }

    /// The transfer still has work and cancellation was not requested.
    pub fn should_continue(&self, abort: bool) -> (r: bool)
        ensures
            r == (!abort && !self.is_complete()),
    {
        !abort && !self.is_done()
    }

    /// The byte window `[low, high)` that the next ranged request asks for.
    pub fn current_range(&self) -> (r: (u64, u64))
        requires
            self.wf(),
            !self.is_complete(),
        ensures
            r == (self.low_bound, self.high_bound),
            r.0 < r.1 <= self.content_length + 1,
    {
        (self.low_bound, self.high_bound)
    }

    /// Accounts for one answered request that delivered `received` bytes.
    ///
    /// A server may return fewer bytes than the window asked for; the next
    /// window then starts exactly after the bytes actually received, never a
    /// full chunk later.
    pub fn record_chunk(&mut self, received: u64)
        requires
            old(self).wf(),
            !old(self).is_complete(),
            received <= old(self).high_bound - old(self).low_bound,
            old(self).total_downloaded + received <= old(self).content_length,
        ensures
            final(self).wf(),
            final(self).content_length == old(self).content_length,
            final(self).chunk_size == old(self).chunk_size,
            final(self).total_downloaded == old(self).total_downloaded + received,
            final(self).is_complete() <==> old(self).total_downloaded + received
                == old(self).content_length,
            !final(self).is_complete() ==> final(self).low_bound == old(self).low_bound
                + received,
            !final(self).is_complete() ==> final(self).high_bound == spec_min(
                old(self).high_bound + received,
                old(self).content_length + 1,
            ),
            final(self).is_complete() ==> final(self).low_bound == old(self).low_bound,
    {
        self.total_downloaded = self.total_downloaded + received;
        if self.total_downloaded >= self.content_length {
            return ;
        }
        let bound_inc = if received < self.chunk_size {
            received
        } else {
            self.chunk_size
        };
        self.low_bound = self.low_bound + bound_inc;
        let cap = self.content_length + 1;
        self.high_bound = if bound_inc >= cap - self.high_bound {
            cap
        } else {
            self.high_bound + bound_inc
        };
    }

    /// The fraction to report after an answered request, or nothing for an
    /// empty asset (an empty asset is complete before any request).
    pub fn progress(&self) -> (r: Option<Fraction>)
        requires
            self.wf(),
        ensures
            self.content_length == 0 ==> r is None,
            self.content_length > 0 ==> r == Some(
                Fraction { num: self.total_downloaded, den: self.content_length },
            ),
            r matches Some(f) ==> f.wf() && (f.is_one() <==> self.is_complete()),
    {
        if self.content_length == 0 {
            None
        } else {
            Some(Fraction::new(self.total_downloaded, self.content_length))
        }
    }
}

/// Opens a transfer at the first checkpoint of a download.
///
/// A cancellation that was requested before the stage began is honored as a
/// success with nothing transferred, never as an error; an absent or
/// unusable content length fails before any ranged request can be issued,
/// because no transfer state ever exists to ask a range of.
pub fn start_transfer(abort: bool, content_length: Option<u64>) -> (r: Result<
    Option<DownloadTransfer>,
    DownloadError,
>)
    ensures
        abort ==> r == Ok::<Option<DownloadTransfer>, DownloadError>(None),
        !abort ==> match content_length {
            None => r == Err::<Option<DownloadTransfer>, DownloadError>(
                DownloadError::InvalidContentLen,
            ),
            Some(len) => if len < u64::MAX {
                r matches Ok(Some(t)) && t.wf() && t.content_length == len
                    && t.total_downloaded == 0 && t.low_bound == 0 && t.chunk_size == spec_min(
                    MAX_CHUNK_SIZE as int,
                    len as int,
                )
            } else {
                r == Err::<Option<DownloadTransfer>, DownloadError>(
                    DownloadError::InvalidContentLen,
                )
            },
        },
{
    if abort {
        return Ok(None);
    }
    match content_length {
        None => Err(DownloadError::InvalidContentLen),
        Some(len) => {
            if len == u64::MAX {
                Err(DownloadError::InvalidContentLen)
            } else {
                Ok(Some(DownloadTransfer::with_chunk(len, MAX_CHUNK_SIZE)))
            }
        },
    }
}

/// Accepts exactly the successful HTTP status codes on a ranged request.
pub fn check_status(code: u16) -> (r: Result<(), DownloadError>)
    ensures
        r == if 200 <= code < 300 {
            Ok::<(), DownloadError>(())
        } else {
            Err::<(), DownloadError>(DownloadError::InvalidStatusCode(code))
        },
{
    if 200 <= code && code < 300 {
        Ok(())
    } else {
        Err(DownloadError::InvalidStatusCode(code))
    }
}

/// The byte is a decimal digit.
pub open spec fn is_digit(b: u8) -> bool {
    48 <= b <= 57
}

/// Every byte of the sequence is a decimal digit.
pub open spec fn all_digits(s: Seq<u8>) -> bool {
    forall|i: int| 0 <= i < s.len() ==> is_digit(#[trigger] s[i])
}

/// The number that a sequence of decimal digits denotes.
pub open spec fn decimal_value(s: Seq<u8>) -> int
    decreases s.len(),
{
    if s.len() == 0 {
        0
    } else {
        decimal_value(s.drop_last()) * 10 + (s.last() - 48)
    }
}

/// A digit string denotes a non-negative number.
proof fn lemma_decimal_value_nonneg(s: Seq<u8>)
    requires
        all_digits(s),
    ensures
        decimal_value(s) >= 0,
    decreases s.len(),
{
    if s.len() > 0 {
        assert(all_digits(s.drop_last()));
        lemma_decimal_value_nonneg(s.drop_last());
    }
}

/// Appending digits never shrinks the denoted number.
proof fn lemma_decimal_value_prefix(s: Seq<u8>, i: int)
    requires
        all_digits(s),
        0 <= i <= s.len(),
    ensures
        decimal_value(s) >= decimal_value(s.take(i)),
    decreases s.len() - i,
{
    if i < s.len() {
        lemma_decimal_value_prefix(s, i + 1);
        let t = s.take(i + 1);
        assert(t.drop_last() =~= s.take(i));
        lemma_decimal_value_nonneg(s.take(i));
        assert(t.last() == s[i]);
        assert(is_digit(s[i]));
        assert(decimal_value(t) == decimal_value(s.take(i)) * 10 + (s[i] - 48));
        assert(decimal_value(t) >= decimal_value(s.take(i)));
    } else {
        assert(s.take(i) =~= s);
    }
}

/// Parses the decimal content length announced by a length-probing
/// response: the denoted number if the bytes are one or more decimal digits
/// and the number fits in a `u64`, nothing otherwise.
pub fn parse_content_length(s: &[u8]) -> (r: Option<u64>)
    ensures
        (s@.len() > 0 && all_digits(s@) && decimal_value(s@) <= u64::MAX) ==> r == Some(
            decimal_value(s@) as u64,
        ),
        !(s@.len() > 0 && all_digits(s@) && decimal_value(s@) <= u64::MAX) ==> r is None,
{
    let n = s.len();
    if n == 0 {
        return None;
    }
    let mut acc: u64 = 0;
    let mut i: usize = 0;
    while i < n
        invariant
            n == s@.len(),
            0 <= i <= n,
            all_digits(s@.take(i as int)),
            acc == decimal_value(s@.take(i as int)),
        decreases n - i,
    {
        let b = s[i];
        if b < 48 || b > 57 {
            assert(!is_digit(s@[i as int]));
            return None;
        }
        let d = (b - 48) as u64;
        proof {
            assert(s@.take(i + 1).drop_last() =~= s@.take(i as int));
            assert(s@.take(i + 1).last() == s@[i as int]);
            assert(all_digits(s@.take(i + 1)));
        }
        let widened = match acc.checked_mul(10) {
            Some(w) => w.checked_add(d),
            None => None,
        };
        match widened {
            Some(w) => {
                acc = w;
            },
            None => {
                proof {
                    if all_digits(s@) {
                        lemma_decimal_value_prefix(s@, i + 1);
                    }
                }
                return None;
            },
        }
        i = i + 1;
    }
    proof {
        assert(s@.take(n as int) =~= s@);
    }
    Some(acc)
}

/// If `(k - 1) * b < a <= k * b`, then `k` is exactly the rounded-up
/// quotient of `a` by `b`.
proof fn lemma_ceil_div_unique(a: int, b: int, k: int)
    requires
        b >= 1,
        k >= 1,
        (k - 1) * b < a,
        a <= k * b,
    ensures
        spec_ceil_div(a, b) == k,
{
    let r = a + b - 1 - k * b;
    assert((k - 1) * b == k * b - b) by (nonlinear_arith);
    vstd::arithmetic::div_mod::lemma_fundamental_div_mod_converse(a + b - 1, b, k, r);
}

/// Law: when the server answers every request with all the bytes that exist
/// in the requested window, the served ranges tile `[0, content_length)`
/// exactly — the first starts at zero, each next starts where the previous
/// ended, every range is non-empty, the last ends at `content_length` — and
/// the transfer takes exactly `content_length / chunk` requests, rounded up.
pub fn simulate_full_transfer(content_length: u64, requested_chunk: u64) -> (served: Vec<
    (u64, u64),
>)
    requires
        1 <= requested_chunk,
        content_length < u64::MAX,
    ensures
        content_length == 0 ==> served@.len() == 0,
        content_length > 0 ==> served@.len() == spec_ceil_div(
            content_length as int,
            spec_min(requested_chunk as int, content_length as int),
        ),
        content_length > 0 ==> served@[0].0 == 0,
        content_length > 0 ==> served@[served@.len() - 1].1 == content_length,
        forall|k: int|
            0 <= k < served@.len() ==> (#[trigger] served@[k]).0 < served@[k].1 <= content_length,
        forall|k: int| 0 <= k < served@.len() - 1 ==> (#[trigger] served@[k]).1 == served@[k + 1].0,
{
    let ghost c: int = spec_min(requested_chunk as int, content_length as int);
    let mut t = DownloadTransfer::with_chunk(content_length, requested_chunk);
    let mut served: Vec<(u64, u64)> = Vec::new();
    while !t.is_done()
        invariant
            t.wf(),
            t.content_length == content_length,
            t.chunk_size == c,
            content_length < u64::MAX,
            t.total_downloaded == spec_min(served@.len() * c, content_length as int),
            served@.len() > 0 ==> (served@.len() - 1) * c < content_length,
            served@.len() == 0 ==> t.total_downloaded == 0,
            served@.len() > 0 ==> served@[0].0 == 0,
            served@.len() > 0 ==> served@[served@.len() - 1].1 == t.total_downloaded,
            forall|k: int|
                0 <= k < served@.len() ==> (#[trigger] served@[k]).0 < served@[k].1
                    <= content_length,
            forall|k: int|
                0 <= k < served@.len() - 1 ==> (#[trigger] served@[k]).1 == served@[k + 1].0,
        decreases content_length - t.total_downloaded,
    {
        let ghost n: int = served@.len() as int;
        let (low, high) = t.current_range();
        let end = if high < content_length {
            high
        } else {
            content_length
        };
        let received = end - low;
        assert((n + 1) * c == n * c + c) by (nonlinear_arith);
        served.push((low, end));
        t.record_chunk(received);
    }
    proof {
        if content_length > 0 {
            let n = served@.len() as int;
            assert(n * c >= content_length);
            lemma_ceil_div_unique(content_length as int, c, n);
        }
    }
    served
}

/// Law: within one transfer the reported progress never decreases as bytes
/// accumulate, and a fraction equal to one is reported exactly when every
/// byte has been downloaded.
pub proof fn lemma_progress_law(before: DownloadTransfer, after: DownloadTransfer)
    requires
        before.wf(),
        after.wf(),
        after.content_length == before.content_length,
        after.total_downloaded >= before.total_downloaded,
        before.content_length > 0,
    ensures
        spec_progress(before) matches Some(f1) && spec_progress(after) matches Some(f2) && f1.den
            == f2.den && f1.num <= f2.num,
        spec_progress(after) matches Some(f2) && (f2.is_one() <==> after.is_complete()),
{
}

/// What `DownloadTransfer::progress` reports, as a pure function of state.
pub open spec fn spec_progress(t: DownloadTransfer) -> Option<Fraction> {
    if t.content_length == 0 {
        None
    } else {
        Some(Fraction { num: t.total_downloaded, den: t.content_length })
    }
}

} // verus!
