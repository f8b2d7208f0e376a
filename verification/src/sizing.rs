//! How large a blob is once encoded, and what storing it costs.
//!
//! A blob is cut into a grid of symbols of equal size. Each shard keeps one
//! row and one column of the encoded grid, and the metadata of the whole
//! blob: the blob's identifier and two digests for every shard. Storage is
//! paid for in units of one KiB of encoded size.

use vstd::prelude::*;

verus! {

/// Bytes in a digest, and in a blob identifier.
pub const DIGEST_LEN: u64 = 32;

/// Encoded bytes that one unit of storage pays for.
pub const BYTES_PER_UNIT_SIZE: u64 = 1024;

/// The largest size of a symbol in bytes.
pub const MAX_SYMBOL_SIZE: u64 = 0xffff;

/// How many shards may fail without harm: fewer than a third of them.
pub open spec fn max_faulty(n_shards: u16) -> int {
    (n_shards - 1) / 3
}

/// How many symbols more than strictly needed are asked for when decoding.
pub open spec fn safety_limit(n_shards: u16) -> int {
    if n_shards <= 15 {
        0
    } else if n_shards <= 30 {
        1
    } else if n_shards <= 45 {
        2
    } else if n_shards <= 60 {
        3
    } else if n_shards <= 75 {
        4
    } else {
        5
    }
}

/// Number of rows of the grid.
pub open spec fn primary_symbols(n_shards: u16) -> int {
    n_shards - 2 * max_faulty(n_shards) - safety_limit(n_shards)
}

/// Number of columns of the grid.
pub open spec fn secondary_symbols(n_shards: u16) -> int {
    n_shards - max_faulty(n_shards) - safety_limit(n_shards)
}

/// The size of a symbol: the smallest with which the grid holds the blob,
/// and at least one byte.
pub open spec fn symbol_size(n_shards: u16, unencoded_length: u64) -> int {
    let cells = primary_symbols(n_shards) * secondary_symbols(n_shards);
    if unencoded_length == 0 {
        1
    } else {
        (unencoded_length + cells - 1) / cells
    }
}

/// Bytes of metadata that each shard keeps.
pub open spec fn metadata_length(n_shards: u16) -> int {
    n_shards * DIGEST_LEN * 2 + DIGEST_LEN
}

/// The size of a blob once encoded, metadata included. There is none for a
/// blob so large that a symbol would pass the largest size.
pub open spec fn encoded_blob_length(n_shards: u16, unencoded_length: u64) -> Option<int> {
    let symbol = symbol_size(n_shards, unencoded_length);
    if symbol > MAX_SYMBOL_SIZE {
        None
    } else {
        Some(
            n_shards * ((primary_symbols(n_shards) + secondary_symbols(n_shards)) * symbol
                + metadata_length(n_shards)),
        )
    }
}

/// Units of storage that an encoded size takes up: every unit begun counts.
pub open spec fn storage_units(encoded_length: int) -> int {
    (encoded_length + BYTES_PER_UNIT_SIZE - 1) / (BYTES_PER_UNIT_SIZE as int)
}

/// What storing a blob costs at a price per unit. There is none where the
/// blob has no encoded size or the cost passes the largest `u64`.
pub open spec fn storage_cost(n_shards: u16, unencoded_length: u64, price_per_unit_size: u64)
    -> Option<int> {
    match encoded_blob_length(n_shards, unencoded_length) {
        Some(length) => if storage_units(length) * price_per_unit_size <= u64::MAX {
            Some(storage_units(length) * price_per_unit_size)
        } else {
            None
        },
        None => None,
    }
}

/// The price per unit to go by: the one that was looked up, or zero where
/// the lookup failed.
pub open spec fn price_or_zero(lookup: Option<u64>) -> u64 {
    match lookup {
        Some(price) => price,
        None => 0,
    }
}

/// The grid has at least one row, no more rows than columns, and no more
/// columns than there are shards.
pub proof fn lemma_grid_bounds(n_shards: u16)
    requires
        n_shards >= 1,
    ensures
        1 <= primary_symbols(n_shards) <= secondary_symbols(n_shards) <= n_shards,
{
}

/// The encoded size of a blob fits a `u64`.
pub proof fn lemma_encoded_length_bounds(n_shards: u16, unencoded_length: u64)
    requires
        n_shards >= 1,
    ensures
        symbol_size(n_shards, unencoded_length) >= 1,
        encoded_blob_length(n_shards, unencoded_length) matches Some(length) ==> 0 < length
            <= 0xffff * (2 * 0xffff * 0xffff + 0xffff * 64 + 32),
{
    lemma_grid_bounds(n_shards);
    let p = primary_symbols(n_shards);
    let s = secondary_symbols(n_shards);
    let symbol = symbol_size(n_shards, unencoded_length);
    assert(p * s >= 1) by (nonlinear_arith)
        requires
            p >= 1,
            s >= 1,
    ;
    assert(symbol >= 1) by (nonlinear_arith)
        requires
            symbol == symbol_size(n_shards, unencoded_length),
            p * s >= 1,
            symbol_size(n_shards, unencoded_length) == if unencoded_length == 0 {
                1
            } else {
                (unencoded_length + p * s - 1) / (p * s)
            },
    ;
    if symbol <= MAX_SYMBOL_SIZE {
        let n = n_shards as int;
        let m = metadata_length(n_shards);
        assert(0 < n * ((p + s) * symbol + m) <= 0xffff * (2 * 0xffff * 0xffff + 0xffff * 64 + 32))
            by (nonlinear_arith)
            requires
                1 <= n <= 0xffff,
                1 <= p <= 0xffff,
                1 <= s <= 0xffff,
                1 <= symbol <= 0xffff,
                0 < m <= 0xffff * 64 + 32,
        ;
    }
}

/// An encoded blob is larger than the blob.
pub proof fn lemma_encoded_length_exceeds(n_shards: u16, unencoded_length: u64)
    requires
        n_shards >= 1,
    ensures
        encoded_blob_length(n_shards, unencoded_length) matches Some(length) ==> length
            > unencoded_length,
{
    lemma_grid_bounds(n_shards);
    lemma_encoded_length_bounds(n_shards, unencoded_length);
    let p = primary_symbols(n_shards);
    let s = secondary_symbols(n_shards);
    let n = n_shards as int;
    let symbol = symbol_size(n_shards, unencoded_length);
    let cells = p * s;
    assert(cells >= 1) by (nonlinear_arith)
        requires
            cells == p * s,
            p >= 1,
            s >= 1,
    ;
    assert(symbol * cells >= unencoded_length) by (nonlinear_arith)
        requires
            cells >= 1,
            symbol >= 1,
            unencoded_length > 0 ==> symbol == (unencoded_length + cells - 1) / cells,
            unencoded_length >= 0,
    ;
    assert(n * ((p + s) * symbol) >= symbol * cells) by (nonlinear_arith)
        requires
            cells == p * s,
            1 <= p <= s,
            s <= n,
            symbol >= 1,
    ;
    assert(n * ((p + s) * symbol + metadata_length(n_shards)) > n * ((p + s) * symbol))
        by (nonlinear_arith)
        requires
            n >= 1,
            metadata_length(n_shards) > 0,
    ;
}

/// At a price of zero storing costs nothing, whatever the blob.
pub proof fn lemma_free_at_price_zero(n_shards: u16, unencoded_length: u64)
    requires
        encoded_blob_length(n_shards, unencoded_length) is Some,
    ensures
        storage_cost(n_shards, unencoded_length, 0) == Some(0int),
{
}

/// At a price above zero storing costs more than nothing.
pub proof fn lemma_cost_positive(n_shards: u16, unencoded_length: u64, price: u64)
    requires
        n_shards >= 1,
        price > 0,
    ensures
        storage_cost(n_shards, unencoded_length, price) matches Some(cost) ==> cost > 0,
{
    lemma_encoded_length_bounds(n_shards, unencoded_length);
    if let Some(length) = encoded_blob_length(n_shards, unencoded_length) {
        let units = storage_units(length);
        assert(units >= 1);
        assert(units * price > 0) by (nonlinear_arith)
            requires
                units >= 1,
                price > 0,
        ;
    }
}

/// The price per unit to go by, see [`price_or_zero`].
pub fn price_per_unit_size_or_default(lookup: Option<u64>) -> (price: u64)
    ensures
        price == price_or_zero(lookup),
{
    match lookup {
        Some(price) => price,
        None => 0,
    }
}

fn grid(n_shards: u16) -> (r: (u64, u64))
    requires
        n_shards >= 1,
    ensures
        r.0 == primary_symbols(n_shards),
        r.1 == secondary_symbols(n_shards),
        1 <= r.0 <= r.1 <= n_shards,
{
    let n: u64 = n_shards as u64;
    let faulty: u64 = (n - 1) / 3;
    let safety: u64 = if n <= 15 {
        0
    } else if n <= 30 {
        1
    } else if n <= 45 {
        2
    } else if n <= 60 {
        3
    } else if n <= 75 {
        4
    } else {
        5
    };
    (n - 2 * faulty - safety, n - faulty - safety)
}

/// The size of a blob once encoded, see [`encoded_blob_length`].
pub fn encoded_blob_length_for_n_shards(n_shards: u16, unencoded_length: u64) -> (r: Option<u64>)
    requires
        n_shards >= 1,
    ensures
        match r {
            Some(length) => encoded_blob_length(n_shards, unencoded_length) == Some(length as int),
            None => encoded_blob_length(n_shards, unencoded_length) is None,
        },
{
    let (p, s) = grid(n_shards);
    assert(p * s <= 0xffff * 0xffff && p * s >= 1) by (nonlinear_arith)
        requires
            1 <= p <= 0xffff,
            1 <= s <= 0xffff,
    ;
    let cells: u64 = p * s;
    let symbol: u64 = if unencoded_length == 0 {
        1
    } else {
        let whole: u64 = unencoded_length / cells;
        let more: u64 = if unencoded_length % cells == 0 {
            0
        } else {
            1
        };
        assert(whole + more == (unencoded_length + cells - 1) / (cells as int)) by (nonlinear_arith)
            requires
                cells >= 1,
                whole == unencoded_length / cells,
                more == if unencoded_length % cells == 0 {
                    0int
                } else {
                    1int
                },
        ;
        assert(whole + more <= u64::MAX) by (nonlinear_arith)
            requires
                cells >= 1,
                whole + more == (unencoded_length + cells - 1) / (cells as int),
                unencoded_length <= u64::MAX,
        ;
        whole + more
    };
    assert(symbol == symbol_size(n_shards, unencoded_length));
    if symbol > MAX_SYMBOL_SIZE {
        return None;
    }
    proof {
        lemma_encoded_length_bounds(n_shards, unencoded_length);
    }
    let n: u64 = n_shards as u64;
    let metadata: u64 = n * DIGEST_LEN * 2 + DIGEST_LEN;
    assert((p + s) * symbol <= 2 * 0xffff * 0xffff) by (nonlinear_arith)
        requires
            1 <= p <= 0xffff,
            1 <= s <= 0xffff,
            1 <= symbol <= 0xffff,
    ;
    let per_shard: u64 = (p + s) * symbol + metadata;
    assert(n * per_shard <= 0xffff * (2 * 0xffff * 0xffff + 0xffff * 64 + 32)) by (nonlinear_arith)
        requires
            1 <= n <= 0xffff,
            per_shard <= 2 * 0xffff * 0xffff + 0xffff * 64 + 32,
    ;
    Some(n * per_shard)
}

/// What storing a blob costs, see [`storage_cost`].
pub fn mist_price_per_blob_size(unencoded_length: u64, n_shards: u16, price_per_unit_size: u64) -> (r:
    Option<u64>)
    requires
        n_shards >= 1,
    ensures
        match r {
            Some(cost) => storage_cost(n_shards, unencoded_length, price_per_unit_size) == Some(
                cost as int,
            ),
            None => storage_cost(n_shards, unencoded_length, price_per_unit_size) is None,
        },
{
    match encoded_blob_length_for_n_shards(n_shards, unencoded_length) {
        Some(length) => {
            proof {
                lemma_encoded_length_bounds(n_shards, unencoded_length);
            }
            let whole: u64 = length / BYTES_PER_UNIT_SIZE;
            let units: u64 = if length % BYTES_PER_UNIT_SIZE == 0 {
                whole
            } else {
                whole + 1
            };
            assert(units == storage_units(length as int));
            units.checked_mul(price_per_unit_size)
        },
        None => None,
    }
}

} // verus!
