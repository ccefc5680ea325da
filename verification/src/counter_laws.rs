//! What holds of the counters over many derivations.

use crate::hpke_laws::key_types_are_names;
use crate::hpke_vault::HpkeVaultBackend;
use crate::path_laws::vault_paths_are_distinct;
use crate::types::HpkeKeyPurpose;
use crate::vault_crypto::{next_counter, next_path};
use crate::vault_path::vault_path;
use std::sync::Arc;
use vstd::prelude::*;

verus! {

/// The counters of init keys and of encryption keys after key pairs were derived for a
/// series of purposes.
pub open spec fn counters_after(
    vault: Option<Arc<dyn HpkeVaultBackend>>,
    init: u32,
    enc: u32,
    purposes: Seq<HpkeKeyPurpose>,
) -> (u32, u32)
    decreases purposes.len(),
{
    if purposes.len() == 0 {
        (init, enc)
    } else {
        let before = counters_after(vault, init, enc, purposes.drop_last());
        (
            next_counter(
                before.0,
                vault is Some && purposes.last() == HpkeKeyPurpose::InitKey,
            ),
            next_counter(
                before.1,
                vault is Some && purposes.last() == HpkeKeyPurpose::EncryptionKey,
            ),
        )
    }
}

/// How many of a series of purposes are a given one.
pub open spec fn uses(purposes: Seq<HpkeKeyPurpose>, purpose: HpkeKeyPurpose) -> nat
    decreases purposes.len(),
{
    if purposes.len() == 0 {
        0
    } else {
        uses(purposes.drop_last(), purpose) + if purposes.last() == purpose {
            1nat
        } else {
            0
        }
    }
}

/// The path at which the key pair for the purpose at place `i` of a series is derived.
pub open spec fn path_at(
    vault: Option<Arc<dyn HpkeVaultBackend>>,
    init: u32,
    enc: u32,
    purposes: Seq<HpkeKeyPurpose>,
    i: int,
) -> Option<(Seq<char>, u32)> {
    let counters = counters_after(vault, init, enc, purposes.take(i));
    next_path(vault, counters.0, counters.1, purposes[i])
}

/// How many values a counter has.
pub const COUNTER_VALUES: u64 = 0x1_0000_0000;

/// What a key pair is for decides where it is derived: an init key is the next one of
/// the vault's `init` keys, an encryption key the next one of its `enc` keys, at every
/// value of the counters; all else is not derived in the vault.
pub proof fn the_purpose_chooses_the_tree(
    vault: Option<Arc<dyn HpkeVaultBackend>>,
    init: u32,
    enc: u32,
)
    ensures
        vault is Some ==> next_path(vault, init, enc, HpkeKeyPurpose::InitKey) == Some(
            ("init"@, init),
        ),
        vault is Some ==> next_path(vault, init, enc, HpkeKeyPurpose::EncryptionKey) == Some(
            ("enc"@, enc),
        ),
        next_path(vault, init, enc, HpkeKeyPurpose::PathSecret) is None,
        next_path(vault, init, enc, HpkeKeyPurpose::ExternalPub) is None,
        vault is None ==> next_path(vault, init, enc, HpkeKeyPurpose::InitKey) is None,
        vault is None ==> next_path(vault, init, enc, HpkeKeyPurpose::EncryptionKey) is None,
{
}

/// A counter that is used counts one on, and goes from its last value to zero; one that
/// is not used stands still.
pub proof fn counters_count_by_one(counter: u32)
    ensures
        next_counter(counter, true) as int == (counter + 1) % 0x1_0000_0000,
        next_counter(counter, false) == counter,
{
}

/// Each counter counts the key pairs of its own kind, from its start and modulo the
/// number of its values; the two do not touch each other, and without a vault neither
/// moves.
pub proof fn counters_count_their_own_keys(
    vault: Option<Arc<dyn HpkeVaultBackend>>,
    init: u32,
    enc: u32,
    purposes: Seq<HpkeKeyPurpose>,
)
    ensures
        vault is None ==> counters_after(vault, init, enc, purposes) == (init, enc),
        vault is Some ==> counters_after(vault, init, enc, purposes).0 as int == (init + uses(
            purposes,
            HpkeKeyPurpose::InitKey,
        )) % (COUNTER_VALUES as int),
        vault is Some ==> counters_after(vault, init, enc, purposes).1 as int == (enc + uses(
            purposes,
            HpkeKeyPurpose::EncryptionKey,
        )) % (COUNTER_VALUES as int),
    decreases purposes.len(),
{
    if purposes.len() > 0 {
        counters_count_their_own_keys(vault, init, enc, purposes.drop_last());
    }
}

/// The uses in a longer series are those in a shorter beginning of it and no more than
/// come after.
proof fn uses_grow(purposes: Seq<HpkeKeyPurpose>, purpose: HpkeKeyPurpose, i: int, j: int)
    requires
        0 <= i <= j <= purposes.len(),
    ensures
        uses(purposes.take(i), purpose) <= uses(purposes.take(j), purpose),
        uses(purposes.take(j), purpose) - uses(purposes.take(i), purpose) <= j - i,
    decreases j,
{
    if i < j {
        uses_grow(purposes, purpose, i, j - 1);
        assert(purposes.take(j).drop_last() =~= purposes.take(j - 1));
    }
}

/// Indices grow: of two key pairs of a kind, the later one has the greater index, as
/// long as the counter has not come round.
pub proof fn indices_grow(
    vault: Option<Arc<dyn HpkeVaultBackend>>,
    init: u32,
    enc: u32,
    purposes: Seq<HpkeKeyPurpose>,
    i: int,
    j: int,
)
    requires
        vault is Some,
        0 <= i < j < purposes.len(),
        purposes[i] == purposes[j],
        purposes[j] == HpkeKeyPurpose::InitKey || purposes[j] == HpkeKeyPurpose::EncryptionKey,
        purposes[j] == HpkeKeyPurpose::InitKey ==> init + uses(purposes.take(j), purposes[j])
            <= u32::MAX,
        purposes[j] == HpkeKeyPurpose::EncryptionKey ==> enc + uses(purposes.take(j), purposes[j])
            <= u32::MAX,
    ensures
        path_at(vault, init, enc, purposes, i) is Some,
        path_at(vault, init, enc, purposes, j) is Some,
        path_at(vault, init, enc, purposes, i).unwrap().1 < path_at(
            vault,
            init,
            enc,
            purposes,
            j,
        ).unwrap().1,
{
    counters_count_their_own_keys(vault, init, enc, purposes.take(i));
    counters_count_their_own_keys(vault, init, enc, purposes.take(j));
    assert(purposes.take(i + 1).drop_last() =~= purposes.take(i));
    uses_grow(purposes, purposes[j], i + 1, j);
}

/// No two key pairs that a vault gives out in a series are at the same path, and no two
/// have the same private half, unless so many were derived that a counter came round.
pub proof fn derived_paths_do_not_repeat(
    vault: Option<Arc<dyn HpkeVaultBackend>>,
    init: u32,
    enc: u32,
    purposes: Seq<HpkeKeyPurpose>,
    i: int,
    j: int,
)
    requires
        0 <= i < j < purposes.len() <= COUNTER_VALUES,
        path_at(vault, init, enc, purposes, i) is Some,
        path_at(vault, init, enc, purposes, j) is Some,
    ensures
        path_at(vault, init, enc, purposes, i) != path_at(vault, init, enc, purposes, j),
        ({
            let (key_type1, index1) = path_at(vault, init, enc, purposes, i).unwrap();
            let (key_type2, index2) = path_at(vault, init, enc, purposes, j).unwrap();
            vault_path(key_type1, index1) != vault_path(key_type2, index2)
        }),
{
    key_types_are_names();
    let purpose = purposes[i];
    let (key_type1, index1) = path_at(vault, init, enc, purposes, i).unwrap();
    let (key_type2, index2) = path_at(vault, init, enc, purposes, j).unwrap();
    if purposes[j] == purpose {
        counters_count_their_own_keys(vault, init, enc, purposes.take(i));
        counters_count_their_own_keys(vault, init, enc, purposes.take(j));
        assert(purposes.take(i + 1).drop_last() =~= purposes.take(i));
        uses_grow(purposes, purpose, i + 1, j);
        let start: int = if purpose == HpkeKeyPurpose::InitKey {
            init as int
        } else {
            enc as int
        };
        let a: int = start + uses(purposes.take(i), purpose);
        let b: int = start + uses(purposes.take(j), purpose);
        assert(a < b < a + COUNTER_VALUES);
        assert(a % (COUNTER_VALUES as int) != b % (COUNTER_VALUES as int));
    }
    vault_paths_are_distinct(key_type1, index1, key_type2, index2);
}

} // verus!
