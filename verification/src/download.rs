//! The verifiable part of a streamed asset download: deciding whether a
//! response status is acceptable, reading the declared total size, and
//! accounting for progress as chunks arrive.
//!
//! The embedding application performs the network reads and file writes;
//! after each written chunk it records the chunk here and forwards the
//! reported fraction to its progress callback.

use vstd::prelude::*;
use crate::error::Error;
use crate::version::{decimal_string, digits_val, run_end, scan_run, spec_decimal, to_char_vec};

verus! {

/// A download is accepted exactly when its status code is a success:
/// in the 200 class.
pub open spec fn spec_status_ok(status: u16) -> bool {
    200 <= status <= 299
}

/// Accepts a download response by its numeric status code: the 200 class
/// passes, anything else fails with that code rendered in decimal.
pub fn check_download_status(status: u16) -> (r: Result<(), Error>)
    ensures
        r is Ok <==> spec_status_ok(status),
        (r matches Err(e) ==> e matches Error::Http(c) && c@ == spec_decimal(status as nat)),
{
    if 200 <= status && status <= 299 {
        Ok(())
    } else {
        Err(Error::Http(decimal_string(status as u64)))
    }
}

/// The total size a `content-length` header declares: its value when the
/// header is present, non-empty, all digits and within range, and 0 (size
/// unknown) otherwise.
pub open spec fn spec_total_size(h: Option<Seq<char>>) -> u64 {
    match h {
        Some(s) => {
            if s.len() > 0 && run_end(s, 0) == s.len() && digits_val(s) <= u64::MAX {
                digits_val(s) as u64
            } else {
                0
            }
        },
        None => 0,
    }
}

/// Reads the declared total size out of an optional `content-length`
/// header value.
pub fn parse_total_size(header: Option<&str>) -> (r: u64)
    ensures
        r == spec_total_size(
            (match header {
                Some(s) => Some(s@),
                None => None,
            }),
        ),
{
    match header {
        Some(s) => {
            let v = to_char_vec(s);
            if v.len() == 0 {
                return 0;
            }
            let (end, value, fits) = scan_run(&v, 0);
            proof {
                assert(v@.subrange(0, v@.len() as int) =~= v@);
            }
            if end == v.len() && fits {
                value
            } else {
                0
            }
        },
        None => 0,
    }
}

/// Progress accounting for one download: how many bytes arrived against
/// the declared total. A total of 0 means the size is unknown.
pub struct ProgressTracker {
    /// The declared total size; 0 when unknown.
    pub total: u64,
    /// Bytes recorded so far, never beyond a known total.
    pub downloaded: u64,
}

impl ProgressTracker {
    /// The tracker's invariant: the recorded count never exceeds the
    /// total (and stays 0 while the total is unknown).
    pub open spec fn wf(&self) -> bool {
        self.downloaded <= self.total
    }

    /// The fraction reported after each chunk, as a numerator and a
    /// positive denominator: bytes over total when the total is known,
    /// and 0 while it is unknown.
    pub open spec fn spec_fraction(&self) -> (u64, u64) {
        if self.total == 0 {
            (0, 1)
        } else {
            (self.downloaded, self.total)
        }
    }

    /// A fresh tracker for a download of the declared size.
    pub fn new(total_size: u64) -> (r: Self)
        ensures
            r.total == total_size,
            r.downloaded == 0,
            r.wf(),
    {
        ProgressTracker { total: total_size, downloaded: 0 }
    }

    /// Records one written chunk: the count grows by the chunk's size,
    /// saturating at a known total.
    pub fn record_chunk(&mut self, n: u64)
        requires
            old(self).wf(),
        ensures
            final(self).total == old(self).total,
            final(self).downloaded == (if old(self).downloaded + n <= old(self).total {
                old(self).downloaded + n
            } else {
                old(self).total as int
            }),
            final(self).wf(),
    {
        if n <= self.total - self.downloaded {
            self.downloaded = self.downloaded + n;
        } else {
            self.downloaded = self.total;
        }
    }

    /// The fraction to report after the chunk just recorded.
    pub fn fraction(&self) -> (r: (u64, u64))
        requires
            self.wf(),
        ensures
            r == self.spec_fraction(),
            r.0 <= r.1,
            0 < r.1,
    {
        if self.total == 0 {
            (0, 1)
        } else {
            (self.downloaded, self.total)
        }
    }

    /// The terminal fraction, exactly 1, reported unconditionally once
    /// the stream ends — also when the total size was unknown.
    pub fn final_fraction(&self) -> (r: (u64, u64))
        ensures
            r == (1u64, 1u64),
    {
        (1, 1)
    }
}

/// Progress is monotone: recording a chunk never lowers the reported
/// fraction (compared cross-multiplied), and no reported fraction ever
/// exceeds the terminal fraction of exactly 1.
pub proof fn lemma_progress_monotone(pre: ProgressTracker, post: ProgressTracker, n: u64)
    requires
        pre.wf(),
        post.total == pre.total,
        post.downloaded == (if pre.downloaded + n <= pre.total {
            pre.downloaded + n
        } else {
            pre.total as int
        }),
    ensures
        pre.spec_fraction().0 * post.spec_fraction().1 <= post.spec_fraction().0
            * pre.spec_fraction().1,
        post.spec_fraction().0 <= post.spec_fraction().1,
{
    let a = pre.spec_fraction().0 as int;
    let b = post.spec_fraction().0 as int;
    let d = pre.spec_fraction().1 as int;
    assert(post.spec_fraction().1 == d);
    assert(a <= b);
    assert(a * d <= b * d) by (nonlinear_arith)
        requires
            a <= b,
            d >= 0,
    ;
}

} // verus!
