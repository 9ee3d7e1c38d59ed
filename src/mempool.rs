//! Decisions of the mempool tracker that marks watched transactions stale:
//! which expiring records are still in the mempool, where the next scan
//! starts, and how the updates are batched.

use vstd::prelude::*;

verus! {

/// A watched transaction and the time (in seconds) at which it expires.
#[derive(Debug)]
pub struct TransactionRecord {
    pub txid: String,
    pub expiring_at: i64,
}

impl Clone for TransactionRecord {
    fn clone(&self) -> (r: Self)
        ensures
            r == *self,
    {
        TransactionRecord { txid: self.txid.clone(), expiring_at: self.expiring_at }
    }
}

/// The latest expiry among the records.
pub open spec fn max_expiring(s: Seq<TransactionRecord>) -> int
    decreases s.len(),
{
    if s.len() == 0 {
        0
    } else if s.len() == 1 {
        s[0].expiring_at as int
    } else {
        let m = max_expiring(s.drop_last());
        if s.last().expiring_at > m { s.last().expiring_at as int } else { m }
    }
}

/// Where the next scan for expiring transactions starts: one second after
/// the latest expiry seen, or `None` when nothing expired.
pub fn next_expiring_after(records: &Vec<TransactionRecord>) -> (r: Option<i64>)
    requires
        forall|i: int| 0 <= i < records.len() ==> #[trigger] records@[i].expiring_at < i64::MAX,
    ensures
        records.len() == 0 ==> r is None,
        records.len() > 0 ==> r == Some((max_expiring(records@) + 1) as i64),
{
    if records.len() == 0 {
        return None;
    }
    let mut m: i64 = records[0].expiring_at;
    let mut i: usize = 1;
    proof {
        assert(records@.subrange(0, 1).len() == 1);
    }
    while i < records.len()
        invariant
            1 <= i <= records.len(),
            m == max_expiring(records@.subrange(0, i as int)),
            m < i64::MAX,
            forall|k: int| 0 <= k < records.len() ==> #[trigger] records@[k].expiring_at < i64::MAX,
        decreases records.len() - i,
    {
        proof {
            assert(records@.subrange(0, i + 1).drop_last() =~= records@.subrange(0, i as int));
        }
        if records[i].expiring_at > m {
            m = records[i].expiring_at;
        }
        i = i + 1;
    }
    proof {
        assert(records@.subrange(0, i as int) =~= records@);
    }
    Some(m + 1)
}

/// Whether `txid` is among the mempool's transaction ids.
pub open spec fn in_mempool(mempool: Seq<String>, txid: Seq<char>) -> bool {
    exists|i: int| 0 <= i < mempool.len() && #[trigger] mempool[i]@ == txid
}

/// The expiring records whose transaction is still in the mempool, in order.
pub open spec fn still_pending(expiring: Seq<TransactionRecord>, mempool: Seq<String>) -> Seq<TransactionRecord> {
    expiring.filter(|r: TransactionRecord| in_mempool(mempool, r.txid@))
}

fn contains_txid(mempool: &Vec<String>, txid: &String) -> (r: bool)
    ensures
        r == in_mempool(mempool@, txid@),
{
    let mut i: usize = 0;
    while i < mempool.len()
        invariant
            i <= mempool.len(),
            forall|j: int| 0 <= j < i ==> mempool@[j]@ != txid@,
        decreases mempool.len() - i,
    {
        if mempool[i] == *txid {
            return true;
        }
        i = i + 1;
    }
    false
}

/// Keeps the expiring records whose transaction the mempool still holds.
pub fn records_in_mempool(expiring: &Vec<TransactionRecord>, mempool_txids: &Vec<String>) -> (r: Vec<
    TransactionRecord,
>)
    ensures
        r@ == still_pending(expiring@, mempool_txids@),
{
    let mut out: Vec<TransactionRecord> = Vec::new();
    let mut i: usize = 0;
    proof {
        assert(still_pending(expiring@.subrange(0, 0), mempool_txids@) =~= Seq::<TransactionRecord>::empty());
    }
    while i < expiring.len()
        invariant
            i <= expiring.len(),
            out@ == still_pending(expiring@.subrange(0, i as int), mempool_txids@),
        decreases expiring.len() - i,
    {
        proof {
            assert(expiring@.subrange(0, i + 1).drop_last() =~= expiring@.subrange(0, i as int));
            reveal_with_fuel(Seq::filter, 1);
        }
        if contains_txid(mempool_txids, &expiring[i].txid) {
            out.push(expiring[i].clone());
        }
        i = i + 1;
    }
    proof {
        assert(expiring@.subrange(0, i as int) =~= expiring@);
    }
    out
}

/// The `k`-th batch of `s` when it is cut into batches of `size`.
pub open spec fn batch(s: Seq<TransactionRecord>, size: nat, k: int) -> Seq<TransactionRecord> {
    let start = k * size;
    let end = if start + size < s.len() { start + size } else { s.len() as int };
    s.subrange(start, end)
}

/// Cuts the records into consecutive batches of `size`, the last one
/// possibly shorter, so that no write exceeds the store's batch limit.
pub fn write_batches(records: &Vec<TransactionRecord>, size: usize) -> (r: Vec<Vec<TransactionRecord>>)
    requires
        size > 0,
    ensures
        r.len() * size >= records.len(),
        r.len() == 0 || (r.len() - 1) * size < records.len(),
        forall|k: int| 0 <= k < r.len() ==> (#[trigger] r@[k])@ == batch(records@, size as nat, k),
{
    let mut out: Vec<Vec<TransactionRecord>> = Vec::new();
    let mut start: usize = 0;
    proof {
        assert(0 * size == 0) by (nonlinear_arith);
    }
    while start < records.len()
        invariant
            size > 0,
            start <= records.len(),
            start <= out.len() * size,
            start == records.len() || start == out.len() * size,
            out.len() == 0 || (out.len() - 1) * size < records.len(),
            forall|k: int| 0 <= k < out.len() ==> (#[trigger] out@[k])@ == batch(records@, size as nat, k),
        decreases records.len() - start,
    {
        let end: usize = if records.len() - start > size { start + size } else { records.len() };
        let mut chunk: Vec<TransactionRecord> = Vec::new();
        let mut j: usize = start;
        while j < end
            invariant
                start <= j <= end,
                end <= records.len(),
                chunk@ == records@.subrange(start as int, j as int),
            decreases end - j,
        {
            chunk.push(records[j].clone());
            proof {
                assert(chunk@ =~= records@.subrange(start as int, j + 1));
            }
            j = j + 1;
        }
        let ghost n = out.len();
        proof {
            assert(chunk@ == batch(records@, size as nat, n as int));
            assert((n + 1) * size == n * size + size) by (nonlinear_arith);
        }
        out.push(chunk);
        start = end;
    }
    out
}

} // verus!
