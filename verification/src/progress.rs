//! Progress of one download: bytes received so far against the size that
//! was announced, and the percentage shown for them.

use vstd::prelude::*;

verus! {

/// The percentage reported for `downloaded` bytes of `total`, rounded down.
pub open spec fn percent_of(downloaded: nat, total: nat) -> nat
    recommends
        total > 0,
{
    (downloaded * 100 / total) as nat
}

/// The percentage never falls when more bytes have arrived.
pub proof fn lemma_percent_monotonic(earlier: nat, later: nat, total: nat)
    requires
        total > 0,
        earlier <= later,
    ensures
        percent_of(earlier, total) <= percent_of(later, total),
{
    assert(earlier * 100 / total <= later * 100 / total) by (nonlinear_arith)
        requires
            total > 0,
            earlier <= later,
    ;
    assert(0 <= earlier * 100 / total) by (nonlinear_arith)
        requires
            total > 0,
    ;
}

/// Once every announced byte has arrived the percentage is 100.
pub proof fn lemma_percent_complete(total: nat)
    requires
        total > 0,
    ensures
        percent_of(total, total) == 100,
{
    assert(total * 100 / total == 100) by (nonlinear_arith)
        requires
            total > 0,
    ;
}

/// The bytes that have arrived with the first `count` chunks of the given
/// lengths.
pub open spec fn downloaded_after(chunks: Seq<nat>, count: int) -> nat
    decreases count,
{
    if count <= 0 || count > chunks.len() {
        0
    } else {
        downloaded_after(chunks, count - 1) + chunks[count - 1]
    }
}

/// The percentages reported in the course of a download whose chunks have
/// the given lengths: one after each chunk.
pub open spec fn reported_percentages(total: nat, chunks: Seq<nat>) -> Seq<nat> {
    Seq::new(chunks.len(), |i: int| percent_of(downloaded_after(chunks, i + 1), total))
}

/// With more chunks counted, no fewer bytes have arrived.
pub proof fn lemma_downloaded_grows(chunks: Seq<nat>, fewer: int, more: int)
    requires
        0 <= fewer <= more <= chunks.len(),
    ensures
        downloaded_after(chunks, fewer) <= downloaded_after(chunks, more),
    decreases more - fewer,
{
    if fewer < more {
        lemma_downloaded_grows(chunks, fewer, more - 1);
    }
}

/// The percentages reported in the course of a download never decrease.
pub proof fn lemma_reports_never_decrease(total: nat, chunks: Seq<nat>, i: int, j: int)
    requires
        total > 0,
        0 <= i <= j < chunks.len(),
    ensures
        reported_percentages(total, chunks)[i] <= reported_percentages(total, chunks)[j],
{
    lemma_downloaded_grows(chunks, i + 1, j + 1);
    lemma_percent_monotonic(
        downloaded_after(chunks, i + 1),
        downloaded_after(chunks, j + 1),
        total,
    );
}

/// When the chunks add up to the announced size, the last percentage
/// reported is 100.
pub proof fn lemma_reports_end_at_hundred(total: nat, chunks: Seq<nat>)
    requires
        total > 0,
        chunks.len() > 0,
        downloaded_after(chunks, chunks.len() as int) == total,
    ensures
        reported_percentages(total, chunks).last() == 100,
{
    lemma_percent_complete(total);
}

/// The counters of one download. They live as long as the download does.
#[derive(Clone, Copy, Debug, PartialEq, Eq, Structural)]
pub struct DownloadProgress {
    /// Bytes appended to the destination so far.
    pub downloaded: u64,
    /// The size announced for the artifact.
    pub total: u64,
}

impl DownloadProgress {
    /// The percentage that these counters stand for.
    pub open spec fn spec_percent(self) -> nat {
        percent_of(self.downloaded as nat, self.total as nat)
    }

    /// The counters of a download of which nothing has arrived yet.
    pub fn new(total: u64) -> (progress: DownloadProgress)
        ensures
            progress == (DownloadProgress { downloaded: 0, total }),
    {
        DownloadProgress { downloaded: 0, total }
    }

    /// The percentage to show: `downloaded * 100 / total`, rounded down. It
    /// passes 100 when more arrives than was announced.
    pub fn percent(&self) -> (percent: u128)
        requires
            self.total > 0,
        ensures
            percent == self.spec_percent(),
    {
        let scaled: u128 = (self.downloaded as u128) * 100;
        proof {
            assert(0 <= scaled as int / self.total as int) by (nonlinear_arith)
                requires
                    self.total > 0,
                    scaled >= 0,
            ;
        }
        scaled / (self.total as u128)
    }

    /// Counts a chunk of `len` bytes that was appended to the destination
    /// and gives the percentage to report for it, which is never below the
    /// one before.
    pub fn record_chunk(&mut self, len: usize) -> (percent: u128)
        requires
            old(self).total > 0,
            old(self).downloaded + len <= u64::MAX,
        ensures
            final(self).total == old(self).total,
            final(self).downloaded == old(self).downloaded + len,
            percent == final(self).spec_percent(),
            percent >= old(self).spec_percent(),
    {
        proof {
            lemma_percent_monotonic(
                self.downloaded as nat,
                (self.downloaded + len) as nat,
                self.total as nat,
            );
        }
        self.downloaded = self.downloaded + len as u64;
        self.percent()
    }
}

} // verus!
