//! What each table holds after an insertion that meets an existing row with
//! the same key, modelled as maps from key to row.
use crate::logs::{LogRow, TokenTransferRow};
use crate::rows::{AddressRow, BlockRow, ReceiptRow, TokenRow, TransactionRow};
use vstd::prelude::*;

verus! {

// ---- addresses: keep the sample of the highest block ----

/// The `addresses` rule: a row replaces the stored one only when it was
/// sampled at a strictly higher block.
pub open spec fn address_after(stored: Option<AddressRow>, incoming: AddressRow) -> AddressRow {
    match stored {
        Some(s) => if incoming.block_number > s.block_number {
            incoming
        } else {
            s
        },
        None => incoming,
    }
}

/// The row to store when `incoming` meets `stored` (none: no row yet).
pub fn upsert_address(stored: Option<AddressRow>, incoming: AddressRow) -> (r: AddressRow)
    ensures
        r == address_after(stored, incoming),
{
    match stored {
        Some(s) => if incoming.block_number > s.block_number {
            incoming
        } else {
            s
        },
        None => incoming,
    }
}

pub open spec fn lookup<K, V>(t: Map<K, V>, k: K) -> Option<V> {
    if t.contains_key(k) {
        Some(t[k])
    } else {
        None
    }
}

/// The `addresses` table after one insertion.
pub open spec fn address_table_insert(t: Map<Seq<char>, AddressRow>, row: AddressRow) -> Map<Seq<char>, AddressRow> {
    t.insert(row.address@, address_after(lookup(t, row.address@), row))
}

/// The `addresses` table after inserting `rows` in order.
pub open spec fn address_table_after(t: Map<Seq<char>, AddressRow>, rows: Seq<AddressRow>) -> Map<Seq<char>, AddressRow>
    decreases rows.len(),
{
    if rows.len() == 0 {
        t
    } else {
        address_table_insert(address_table_after(t, rows.drop_last()), rows.last())
    }
}

/// The highest block number among the rows.
pub open spec fn max_block(rows: Seq<AddressRow>) -> u64
    decreases rows.len(),
{
    if rows.len() == 0 {
        0
    } else {
        let m = max_block(rows.drop_last());
        if rows.last().block_number > m {
            rows.last().block_number
        } else {
            m
        }
    }
}

/// The index of the first row with the highest block number.
pub open spec fn first_highest(rows: Seq<AddressRow>) -> int
    decreases rows.len(),
{
    if rows.len() <= 1 {
        0
    } else {
        let k = first_highest(rows.drop_last());
        if rows.last().block_number > rows[k].block_number {
            rows.len() - 1
        } else {
            k
        }
    }
}

proof fn lemma_single_address(t: Map<Seq<char>, AddressRow>, rows: Seq<AddressRow>, a: Seq<char>)
    requires
        !t.contains_key(a),
        rows.len() > 0,
        forall|i: int| 0 <= i < rows.len() ==> #[trigger] rows[i].address@ == a,
    ensures
        ({
            let k = first_highest(rows);
            let after = address_table_after(t, rows);
            &&& 0 <= k < rows.len()
            &&& after.contains_key(a)
            &&& after[a] == rows[k]
            &&& after[a].block_number == max_block(rows)
            &&& forall|j: int| 0 <= j < rows.len() ==> #[trigger] rows[j].block_number <= max_block(rows)
            &&& forall|j: int| 0 <= j < k ==> #[trigger] rows[j].block_number < max_block(rows)
        }),
    decreases rows.len(),
{
    let p = rows.drop_last();
    let x = rows.last();
    assert(x.address@ == a) by {
        assert(rows[rows.len() - 1].address@ == a);
    }
    if rows.len() == 1 {
        assert(p.len() == 0);
        assert(address_table_after(t, p) == t);
        assert(max_block(p) == 0);
        assert(lookup(t, a) is None);
        assert(rows[0] == x);
    } else {
        assert forall|i: int| 0 <= i < p.len() implies #[trigger] p[i].address@ == a by {
            assert(p[i] == rows[i]);
        }
        lemma_single_address(t, p, a);
        let k = first_highest(p);
        assert(p[k] == rows[k]);
        let after_p = address_table_after(t, p);
        assert(lookup(after_p, a) == Some(p[k]));
        assert(address_table_after(t, rows) == address_table_insert(after_p, x));
        if x.block_number > p[k].block_number {
            assert(first_highest(rows) == rows.len() - 1);
            assert(max_block(rows) == x.block_number);
            assert(address_table_after(t, rows)[a] == x);
        } else {
            assert(first_highest(rows) == k);
            assert(max_block(rows) == max_block(p));
            assert(address_table_after(t, rows)[a] == p[k]);
        }
        assert forall|j: int| 0 <= j < rows.len() implies #[trigger] rows[j].block_number <= max_block(rows) by {
            if j < rows.len() - 1 {
                assert(rows[j] == p[j]);
            }
        }
        assert forall|j: int| 0 <= j < first_highest(rows) implies #[trigger] rows[j].block_number < max_block(rows) by {
            assert(rows[j] == p[j]);
        }
    }
}

/// Whether a row is a sample of address `a`.
pub open spec fn for_address(a: Seq<char>) -> spec_fn(AddressRow) -> bool {
    |r: AddressRow| r.address@ == a
}

proof fn lemma_other_addresses_do_not_matter(t: Map<Seq<char>, AddressRow>, rows: Seq<AddressRow>, a: Seq<char>)
    ensures
        lookup(address_table_after(t, rows), a) == lookup(address_table_after(t, rows.filter(for_address(a))), a),
    decreases rows.len(),
{
    reveal(Seq::filter);
    if rows.len() > 0 {
        let p = rows.drop_last();
        let x = rows.last();
        let f = for_address(a);
        lemma_other_addresses_do_not_matter(t, p, a);
        let after_p = address_table_after(t, p);
        let after_pf = address_table_after(t, p.filter(f));
        if x.address@ == a {
            assert(rows.filter(f) == p.filter(f).push(x));
            assert(rows.filter(f).drop_last() =~= p.filter(f));
            assert(address_table_after(t, rows.filter(f)) == address_table_insert(after_pf, x));
        } else {
            assert(rows.filter(f) == p.filter(f));
            assert(address_table_after(t, rows) == address_table_insert(after_p, x));
            assert(lookup(address_table_insert(after_p, x), a) == lookup(after_p, a));
        }
    }
}

/// After any interleaving of insertions, the row stored for an address is the
/// one of its samples taken at the highest block: its block number is the
/// maximum supplied for that address, and every other field is the one
/// supplied with it (that of the first such sample when several share that
/// block). Samples of other addresses make no difference.
pub proof fn address_keeps_highest_sample(t: Map<Seq<char>, AddressRow>, rows: Seq<AddressRow>, a: Seq<char>)
    requires
        !t.contains_key(a),
        exists|i: int| 0 <= i < rows.len() && #[trigger] rows[i].address@ == a,
    ensures
        ({
            let samples = rows.filter(for_address(a));
            let k = first_highest(samples);
            let after = address_table_after(t, rows);
            &&& 0 <= k < samples.len()
            &&& after.contains_key(a)
            &&& after[a] == samples[k]
            &&& after[a].block_number == max_block(samples)
            &&& forall|j: int| 0 <= j < samples.len() ==> #[trigger] samples[j].block_number <= max_block(samples)
            &&& forall|j: int| 0 <= j < k ==> #[trigger] samples[j].block_number < max_block(samples)
        }),
{
    let f = for_address(a);
    let samples = rows.filter(f);
    let i = choose|i: int| 0 <= i < rows.len() && #[trigger] rows[i].address@ == a;
    rows.lemma_filter_contains(f, i);
    assert forall|j: int| 0 <= j < samples.len() implies #[trigger] samples[j].address@ == a by {
        rows.lemma_filter_pred(f, j);
    }
    lemma_single_address(t, samples, a);
    lemma_other_addresses_do_not_matter(t, rows, a);
    assert(lookup(address_table_after(t, samples), a) == Some(address_table_after(t, samples)[a]));
}

// ---- blocks, transactions, receipts: the first row stays ----

/// The rule of the `blocks`, `transactions` and `transactions_receipts`
/// tables: a row already stored under the key is kept as it is.
pub open spec fn keep_first_insert<K, V>(t: Map<K, V>, k: K, v: V) -> Map<K, V> {
    if t.contains_key(k) {
        t
    } else {
        t.insert(k, v)
    }
}

/// The table after inserting the same row under the same key `n` times.
pub open spec fn keep_first_repeat<K, V>(t: Map<K, V>, k: K, v: V, n: nat) -> Map<K, V>
    decreases n,
{
    if n == 0 {
        t
    } else {
        keep_first_insert(keep_first_repeat(t, k, v, (n - 1) as nat), k, v)
    }
}

/// The `blocks` table after one insertion, keyed by number.
pub open spec fn block_table_insert(t: Map<u64, BlockRow>, b: BlockRow) -> Map<u64, BlockRow> {
    keep_first_insert(t, b.number, b)
}

/// The `transactions` table after one insertion, keyed by hash.
pub open spec fn transaction_table_insert(t: Map<Seq<char>, TransactionRow>, r: TransactionRow) -> Map<Seq<char>, TransactionRow> {
    keep_first_insert(t, r.hash@, r)
}

/// The `transactions_receipts` table after one insertion, keyed by
/// transaction hash.
pub open spec fn receipt_table_insert(t: Map<Seq<char>, ReceiptRow>, r: ReceiptRow) -> Map<Seq<char>, ReceiptRow> {
    keep_first_insert(t, r.transaction_hash@, r)
}

/// Inserting a row whose key is taken any number of times (at least once)
/// leaves the table as inserting it once; this holds of blocks, transactions
/// and receipts alike.
pub proof fn keep_first_idempotent<K, V>(t: Map<K, V>, k: K, v: V, n: nat)
    requires
        n >= 1,
    ensures
        keep_first_repeat(t, k, v, n) == keep_first_insert(t, k, v),
    decreases n,
{
    if n == 1 {
        assert(keep_first_repeat(t, k, v, 0) == t);
    } else {
        keep_first_idempotent(t, k, v, (n - 1) as nat);
        assert(keep_first_insert(t, k, v).contains_key(k));
    }
}

/// Inserting a block any number of times leaves the table as inserting it
/// once, and the block stored first under a number is never replaced.
pub proof fn block_insert_idempotent(t: Map<u64, BlockRow>, b: BlockRow, n: nat)
    requires
        n >= 1,
    ensures
        keep_first_repeat(t, b.number, b, n) == block_table_insert(t, b),
        t.contains_key(b.number) ==> block_table_insert(t, b) == t,
{
    keep_first_idempotent(t, b.number, b, n);
}

/// The `blocks` table after inserting `rows` in order.
pub open spec fn block_table_after(t: Map<u64, BlockRow>, rows: Seq<BlockRow>) -> Map<u64, BlockRow>
    decreases rows.len(),
{
    if rows.len() == 0 {
        t
    } else {
        block_table_insert(block_table_after(t, rows.drop_last()), rows.last())
    }
}

/// Whatever order the block tasks of a run store their rows in, the table then
/// holds one row for each block stored before or during the run, and no other:
/// starting from a table without them, one row per block of the range.
pub proof fn run_stores_one_row_per_block(t: Map<u64, BlockRow>, rows: Seq<BlockRow>)
    ensures
        forall|n: u64| #[trigger] block_table_after(t, rows).contains_key(n)
            <==> (t.contains_key(n) || exists|i: int| 0 <= i < rows.len() && rows[i].number == n),
        forall|n: u64| t.contains_key(n) ==> #[trigger] block_table_after(t, rows)[n] == t[n],
    decreases rows.len(),
{
    if rows.len() > 0 {
        let p = rows.drop_last();
        let x = rows.last();
        run_stores_one_row_per_block(t, p);
        let before = block_table_after(t, p);
        let after = block_table_after(t, rows);
        assert(after == keep_first_insert(before, x.number, x));
        assert forall|n: u64| #[trigger] after.contains_key(n)
            <==> (t.contains_key(n) || exists|i: int| 0 <= i < rows.len() && rows[i].number == n) by {
            assert(before.contains_key(n) <==> (t.contains_key(n) || exists|i: int| 0 <= i < p.len() && p[i].number == n));
            if exists|i: int| 0 <= i < p.len() && p[i].number == n {
                let i = choose|i: int| 0 <= i < p.len() && p[i].number == n;
                assert(rows[i] == p[i]);
            }
            if exists|i: int| 0 <= i < rows.len() && rows[i].number == n {
                let i = choose|i: int| 0 <= i < rows.len() && rows[i].number == n;
                if i < p.len() {
                    assert(rows[i] == p[i]);
                } else {
                    assert(rows[i] == x);
                }
            }
            if n == x.number {
                assert(rows[rows.len() - 1] == x);
            }
        }
        assert forall|n: u64| t.contains_key(n) implies #[trigger] after[n] == t[n] by {
            assert(before.contains_key(n));
            assert(before[n] == t[n]);
        }
    }
}

// ---- logs: the key stays, every other column is overwritten ----

/// The key of a `logs` row.
pub open spec fn log_key(r: LogRow) -> (Seq<char>, Seq<char>, u64) {
    (r.transaction_hash@, r.block_hash@, r.index)
}

/// The columns of a `logs` row that an insertion overwrites.
pub open spec fn same_log_payload(a: LogRow, b: LogRow) -> bool {
    &&& a.data@ == b.data@
    &&& a.log_type == b.log_type
    &&& a.first_topic@ == b.first_topic@
    &&& a.second_topic@ == b.second_topic@
    &&& a.third_topic@ == b.third_topic@
    &&& a.fourth_topic@ == b.fourth_topic@
    &&& a.address@ == b.address@
    &&& a.block_number == b.block_number
}

/// The `logs` rule: the stored key with the incoming payload.
pub open spec fn log_after(stored: LogRow, incoming: LogRow) -> LogRow {
    LogRow {
        data: incoming.data,
        index: stored.index,
        log_type: incoming.log_type,
        first_topic: incoming.first_topic,
        second_topic: incoming.second_topic,
        third_topic: incoming.third_topic,
        fourth_topic: incoming.fourth_topic,
        address: incoming.address,
        transaction_hash: stored.transaction_hash,
        block_hash: stored.block_hash,
        block_number: incoming.block_number,
    }
}

/// The row to store when `incoming` meets the stored row with its key.
pub fn upsert_log(stored: LogRow, incoming: LogRow) -> (r: LogRow)
    ensures
        r == log_after(stored, incoming),
{
    LogRow {
        data: incoming.data,
        index: stored.index,
        log_type: incoming.log_type,
        first_topic: incoming.first_topic,
        second_topic: incoming.second_topic,
        third_topic: incoming.third_topic,
        fourth_topic: incoming.fourth_topic,
        address: incoming.address,
        transaction_hash: stored.transaction_hash,
        block_hash: stored.block_hash,
        block_number: incoming.block_number,
    }
}

/// The `logs` table after one insertion.
pub open spec fn log_table_insert(t: Map<(Seq<char>, Seq<char>, u64), LogRow>, row: LogRow) -> Map<(Seq<char>, Seq<char>, u64), LogRow> {
    if t.contains_key(log_key(row)) {
        t.insert(log_key(row), log_after(t[log_key(row)], row))
    } else {
        t.insert(log_key(row), row)
    }
}

/// Re-inserting a log keeps the stored key, takes the new payload, touches no
/// other row, and a second identical insertion changes nothing.
pub proof fn log_reinsert(t: Map<(Seq<char>, Seq<char>, u64), LogRow>, row: LogRow)
    requires
        forall|k: (Seq<char>, Seq<char>, u64)| #[trigger] t.contains_key(k) ==> log_key(t[k]) == k,
    ensures
        ({
            let after = log_table_insert(t, row);
            &&& after.contains_key(log_key(row))
            &&& log_key(after[log_key(row)]) == log_key(row)
            &&& same_log_payload(after[log_key(row)], row)
            &&& forall|k: (Seq<char>, Seq<char>, u64)| k != log_key(row) ==> #[trigger] after.contains_key(k) == t.contains_key(k) && (t.contains_key(k) ==> after[k] == t[k])
            &&& log_table_insert(after, row) =~= after
        }),
{
    let after = log_table_insert(t, row);
    let k = log_key(row);
    assert(log_key(after[k]) == k);
    assert(log_after(after[k], row) == after[k]);
}

// ---- tokens and token transfers: part of the row is overwritten ----

/// The `tokens` rule: the stored address and type stay; the metadata is the
/// incoming one.
pub open spec fn token_after(stored: TokenRow, incoming: TokenRow) -> TokenRow {
    TokenRow {
        address: stored.address,
        token_type: stored.token_type,
        name: incoming.name,
        symbol: incoming.symbol,
        total_supply: incoming.total_supply,
        decimals: incoming.decimals,
        holder_count: incoming.holder_count,
        total_supply_updated_at_block: incoming.total_supply_updated_at_block,
    }
}

/// The row to store when `incoming` meets the stored row for its address.
pub fn upsert_token(stored: TokenRow, incoming: TokenRow) -> (r: TokenRow)
    ensures
        r == token_after(stored, incoming),
{
    TokenRow {
        address: stored.address,
        token_type: stored.token_type,
        name: incoming.name,
        symbol: incoming.symbol,
        total_supply: incoming.total_supply,
        decimals: incoming.decimals,
        holder_count: incoming.holder_count,
        total_supply_updated_at_block: incoming.total_supply_updated_at_block,
    }
}

/// The `token_transfers` rule: sender, recipient and amount are the incoming
/// ones; every other column stays.
pub open spec fn token_transfer_after(stored: TokenTransferRow, incoming: TokenTransferRow) -> TokenTransferRow {
    TokenTransferRow {
        contract_address: stored.contract_address,
        from_address: incoming.from_address,
        to_address: incoming.to_address,
        transaction_hash: stored.transaction_hash,
        block_number: stored.block_number,
        block_hash: stored.block_hash,
        log_index: stored.log_index,
        amount: incoming.amount,
    }
}

/// The row to store when `incoming` meets the stored row with its key.
pub fn upsert_token_transfer(stored: TokenTransferRow, incoming: TokenTransferRow) -> (r: TokenTransferRow)
    ensures
        r == token_transfer_after(stored, incoming),
{
    TokenTransferRow {
        contract_address: stored.contract_address,
        from_address: incoming.from_address,
        to_address: incoming.to_address,
        transaction_hash: stored.transaction_hash,
        block_number: stored.block_number,
        block_hash: stored.block_hash,
        log_index: stored.log_index,
        amount: incoming.amount,
    }
}

} // verus!
