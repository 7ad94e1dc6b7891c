//! # Error code registry
//!
//! The core contract names each of its errors by a numeric code. This module
//! holds the canonical table of `(code, "VariantName")` pairs, the checks that
//! keep it sound (no code twice, every code in its designated range), lookups
//! by code, and the checks of another contract's table against this one.
//!
//! Codes are grouped into ranges:
//! - 1-99: common errors
//! - 100-199: governance errors
//! - 200-299: escrow errors
//! - 300-399: identity/KYC errors
//! - 400-499: program escrow errors
//! - 1000 and above: circuit breaker and system errors
use vstd::prelude::*;

use crate::registry_laws::{law_core_conflicts_exact, law_lookup_some_iff_registered};

verus! {

/// A single entry of an error code table: `(numeric_code, "VariantName")`.
pub type RegistryEntry = (u32, &'static str);

/// The number of entries of the core registry.
pub const CORE_REGISTRY_LEN: usize = 10;

// ---------------------------------------------------------------------------
// Mathematical model
// ---------------------------------------------------------------------------

/// An entry seen as a code and the characters of its variant name.
pub open spec fn entry_view(e: RegistryEntry) -> (u32, Seq<char>) {
    (e.0, e.1@)
}

/// A table of entries seen as codes and names.
pub open spec fn entries_view(s: Seq<RegistryEntry>) -> Seq<(u32, Seq<char>)> {
    s.map_values(|e: RegistryEntry| entry_view(e))
}

/// The `i`-th entry of the core registry, in ascending code order.
pub open spec fn core_entry(i: int) -> (u32, Seq<char>) {
    if i == 0 {
        (1u32, "AlreadyInitialized"@)
    } else if i == 1 {
        (2u32, "NotInitialized"@)
    } else if i == 2 {
        (3u32, "NotAdmin"@)
    } else if i == 3 {
        (101u32, "ThresholdNotMet"@)
    } else if i == 4 {
        (102u32, "ProposalNotFound"@)
    } else if i == 5 {
        (103u32, "MigrationCommitmentNotFound"@)
    } else if i == 6 {
        (104u32, "MigrationHashMismatch"@)
    } else if i == 7 {
        (105u32, "TimelockDelayTooHigh"@)
    } else if i == 8 {
        (106u32, "SnapshotRestoreAdminPending"@)
    } else {
        (107u32, "SnapshotPruned"@)
    }
}

/// The canonical registry of all error codes of the core contract.
pub open spec fn core_registry() -> Seq<(u32, Seq<char>)> {
    Seq::new(CORE_REGISTRY_LEN as nat, |i: int| core_entry(i))
}

/// Some entry of `entries` carries `code`.
pub open spec fn has_code(entries: Seq<(u32, Seq<char>)>, code: u32) -> bool {
    exists|j: int| 0 <= j < entries.len() && #[trigger] entries[j].0 == code
}

/// Two distinct entries of `entries` carry the same code.
pub open spec fn has_duplicate(entries: Seq<(u32, Seq<char>)>) -> bool {
    exists|i: int, j: int|
        0 <= i < j < entries.len() && #[trigger] entries[i].0 == #[trigger] entries[j].0
}

/// The codes of `entries` rise strictly from first to last.
pub open spec fn strictly_ascending(entries: Seq<(u32, Seq<char>)>) -> bool {
    forall|i: int, j: int|
        0 <= i < j < entries.len() ==> #[trigger] entries[i].0 < #[trigger] entries[j].0
}

/// Some code occurs in both tables.
pub open spec fn shares_code(a: Seq<(u32, Seq<char>)>, b: Seq<(u32, Seq<char>)>) -> bool {
    exists|i: int| 0 <= i < a.len() && has_code(b, #[trigger] a[i].0)
}

/// The name of the first entry of `entries` with `code`, if any.
pub open spec fn first_name(entries: Seq<(u32, Seq<char>)>, code: u32) -> Option<Seq<char>>
    decreases entries.len(),
{
    if entries.len() == 0 {
        None
    } else if entries[0].0 == code {
        Some(entries[0].1)
    } else {
        first_name(entries.drop_first(), code)
    }
}

/// The codes of `a`, in the order of `a`, that also occur in `b`.
pub open spec fn conflicting_codes(a: Seq<(u32, Seq<char>)>, b: Seq<(u32, Seq<char>)>) -> Seq<u32>
    decreases a.len(),
{
    if a.len() == 0 {
        Seq::empty()
    } else {
        let rest = conflicting_codes(a.drop_last(), b);
        if has_code(b, a.last().0) {
            rest.push(a.last().0)
        } else {
            rest
        }
    }
}

/// The codes of `s` rise strictly from first to last; in particular no code
/// occurs twice.
pub open spec fn codes_ascending(s: Seq<u32>) -> bool {
    forall|i: int, j: int| 0 <= i < j < s.len() ==> #[trigger] s[i] < #[trigger] s[j]
}

/// Error codes are grouped into ranges; a code is well placed when it lies
/// in one of them.
pub open spec fn in_valid_range(code: u32) -> bool {
    (1 <= code <= 99) || (100 <= code <= 199) || (200 <= code <= 299) || (300 <= code <= 399)
        || (400 <= code <= 499) || code >= 1000
}

/// Every code of `entries` lies in a designated range.
pub open spec fn all_in_valid_range(entries: Seq<(u32, Seq<char>)>) -> bool {
    forall|i: int| 0 <= i < entries.len() ==> in_valid_range(#[trigger] entries[i].0)
}

/// The category name of each range of codes.
pub open spec fn range_category(code: u32) -> Seq<char> {
    if 1 <= code <= 99 {
        "common"@
    } else if 100 <= code <= 199 {
        "governance"@
    } else if 200 <= code <= 299 {
        "escrow"@
    } else if 300 <= code <= 399 {
        "identity"@
    } else if 400 <= code <= 499 {
        "program_escrow"@
    } else if code >= 1000 {
        "system"@
    } else {
        "unknown"@
    }
}

// ---------------------------------------------------------------------------
// The core registry
// ---------------------------------------------------------------------------

/// The `i`-th entry of the core registry.
fn core_entry_at(i: usize) -> (r: RegistryEntry)
    requires
        i < CORE_REGISTRY_LEN,
    ensures
        entry_view(r) == core_entry(i as int),
{
    if i == 0 {
        (1, "AlreadyInitialized")
    } else if i == 1 {
        (2, "NotInitialized")
    } else if i == 2 {
        (3, "NotAdmin")
    } else if i == 3 {
        (101, "ThresholdNotMet")
    } else if i == 4 {
        (102, "ProposalNotFound")
    } else if i == 5 {
        (103, "MigrationCommitmentNotFound")
    } else if i == 6 {
        (104, "MigrationHashMismatch")
    } else if i == 7 {
        (105, "TimelockDelayTooHigh")
    } else if i == 8 {
        (106, "SnapshotRestoreAdminPending")
    } else {
        (107, "SnapshotPruned")
    }
}

/// The canonical registry of all error codes defined in the core contract,
/// kept in ascending code order.
pub fn grainlify_core_registry() -> (r: Vec<RegistryEntry>)
    ensures
        entries_view(r@) == core_registry(),
{
    let mut r: Vec<RegistryEntry> = Vec::new();
    let mut i: usize = 0;
    while i < CORE_REGISTRY_LEN
        invariant
            i <= CORE_REGISTRY_LEN,
            r@.len() == i,
            forall|k: int| 0 <= k < i ==> entry_view(#[trigger] r@[k]) == core_entry(k),
        decreases CORE_REGISTRY_LEN - i,
    {
        r.push(core_entry_at(i));
        i = i + 1;
    }
    assert(entries_view(r@) =~= core_registry());
    r
}


// ---------------------------------------------------------------------------
// Checks on a table of entries
// ---------------------------------------------------------------------------

/// Returns `true` if any two entries in `registry` share the same numeric code.
pub fn has_duplicate_codes(registry: &[RegistryEntry]) -> (r: bool)
    ensures
        r == has_duplicate(entries_view(registry@)),
{
    let ghost e = entries_view(registry@);
    let mut i: usize = 0;
    while i < registry.len()
        invariant
            e == entries_view(registry@),
            i <= registry.len(),
            forall|a: int, b: int| 0 <= a < i && a < b < e.len() ==> #[trigger] e[a].0 != #[trigger] e[b].0,
        decreases registry.len() - i,
    {
        let mut j: usize = i + 1;
        while j < registry.len()
            invariant
                e == entries_view(registry@),
                i < registry.len(),
                i + 1 <= j <= registry.len(),
                forall|a: int, b: int| 0 <= a < i && a < b < e.len() ==> #[trigger] e[a].0 != #[trigger] e[b].0,
                forall|b: int| i < b < j ==> e[i as int].0 != #[trigger] e[b].0,
            decreases registry.len() - j,
        {
            if registry[i].0 == registry[j].0 {
                assert(e[i as int].0 == e[j as int].0);
                return true;
            }
            j = j + 1;
        }
        i = i + 1;
    }
    false
}

/// Returns `true` when some entry of `entries` carries `code`.
fn contains_code(entries: &[RegistryEntry], code: u32) -> (r: bool)
    ensures
        r == has_code(entries_view(entries@), code),
{
    let ghost e = entries_view(entries@);
    let mut j: usize = 0;
    while j < entries.len()
        invariant
            e == entries_view(entries@),
            j <= entries.len(),
            forall|b: int| 0 <= b < j ==> #[trigger] e[b].0 != code,
        decreases entries.len() - j,
    {
        if entries[j].0 == code {
            assert(e[j as int].0 == code);
            return true;
        }
        j = j + 1;
    }
    false
}


// ---------------------------------------------------------------------------
// Lookups in the core registry
// ---------------------------------------------------------------------------

/// Returns the variant name for `code`, or `None` if the code is not registered.
pub fn lookup_name(code: u32) -> (r: Option<&'static str>)
    ensures
        r matches Some(n) ==> first_name(core_registry(), code) == Some(n@),
        r is None <==> first_name(core_registry(), code) is None,
{
    let ghost reg = core_registry();
    assert(reg.skip(0) =~= reg);
    let mut i: usize = 0;
    while i < CORE_REGISTRY_LEN
        invariant
            reg == core_registry(),
            i <= CORE_REGISTRY_LEN,
            first_name(reg, code) == first_name(reg.skip(i as int), code),
        decreases CORE_REGISTRY_LEN - i,
    {
        let entry = core_entry_at(i);
        assert(reg.skip(i as int)[0] == reg[i as int]);
        assert(reg.skip(i as int).drop_first() =~= reg.skip(i + 1));
        if entry.0 == code {
            return Some(entry.1);
        }
        i = i + 1;
    }
    assert(reg.skip(i as int).len() == 0);
    None
}

/// Returns `true` when `code` appears in the core registry.
pub fn is_registered(code: u32) -> (r: bool)
    ensures
        r == has_code(core_registry(), code),
{
    proof {
        law_lookup_some_iff_registered(core_registry(), code);
    }
    lookup_name(code).is_some()
}

/// Returns the total number of registered error codes.
pub fn registered_count() -> (r: usize)
    ensures
        r == core_registry().len(),
{
    CORE_REGISTRY_LEN
}

// ---------------------------------------------------------------------------
// Checks across contracts
// ---------------------------------------------------------------------------

/// Validates that the error codes of another contract's table do not conflict
/// with those of the core registry: `true` if no code occurs in both.
pub fn no_cross_contract_conflicts(other_registry: &[RegistryEntry]) -> (r: bool)
    ensures
        r == !shares_code(core_registry(), entries_view(other_registry@)),
{
    let ghost reg = core_registry();
    let ghost other = entries_view(other_registry@);
    let mut i: usize = 0;
    while i < CORE_REGISTRY_LEN
        invariant
            reg == core_registry(),
            other == entries_view(other_registry@),
            i <= CORE_REGISTRY_LEN,
            forall|a: int| 0 <= a < i ==> !has_code(other, #[trigger] reg[a].0),
        decreases CORE_REGISTRY_LEN - i,
    {
        let entry = core_entry_at(i);
        if contains_code(other_registry, entry.0) {
            assert(has_code(other, reg[i as int].0));
            return false;
        }
        i = i + 1;
    }
    true
}

/// Finds the error codes of the core registry that also occur in another
/// contract's table, in the order of the core registry (empty if there are
/// no conflicts).
pub fn find_conflicts(other_registry: &[RegistryEntry]) -> (r: Vec<u32>)
    ensures
        r@ == conflicting_codes(core_registry(), entries_view(other_registry@)),
        codes_ascending(r@),
        forall|c: u32|
            #[trigger] r@.contains(c) <==> has_code(core_registry(), c) && has_code(
                entries_view(other_registry@),
                c,
            ),
{
    let ghost reg = core_registry();
    let ghost other = entries_view(other_registry@);
    let mut r: Vec<u32> = Vec::new();
    let mut i: usize = 0;
    assert(reg.take(0) =~= Seq::<(u32, Seq<char>)>::empty());
    while i < CORE_REGISTRY_LEN
        invariant
            reg == core_registry(),
            other == entries_view(other_registry@),
            i <= CORE_REGISTRY_LEN,
            r@ == conflicting_codes(reg.take(i as int), other),
        decreases CORE_REGISTRY_LEN - i,
    {
        let entry = core_entry_at(i);
        assert(reg.take(i + 1).drop_last() =~= reg.take(i as int));
        assert(reg.take(i + 1).last() == reg[i as int]);
        if contains_code(other_registry, entry.0) {
            r.push(entry.0);
        }
        i = i + 1;
    }
    assert(reg.take(CORE_REGISTRY_LEN as int) =~= reg);
    proof {
        law_core_conflicts_exact(other);
    }
    r
}

// ---------------------------------------------------------------------------
// Ranges
// ---------------------------------------------------------------------------

/// Validates that every error code of the core registry lies within its
/// designated range.
pub fn validate_ranges() -> (r: bool)
    ensures
        r == all_in_valid_range(core_registry()),
{
    let ghost reg = core_registry();
    let mut i: usize = 0;
    while i < CORE_REGISTRY_LEN
        invariant
            reg == core_registry(),
            i <= CORE_REGISTRY_LEN,
            forall|a: int| 0 <= a < i ==> in_valid_range(#[trigger] reg[a].0),
        decreases CORE_REGISTRY_LEN - i,
    {
        let code = core_entry_at(i).0;
        let in_valid = (code >= 1 && code <= 99) || (code >= 100 && code <= 199) || (code >= 200
            && code <= 299) || (code >= 300 && code <= 399) || (code >= 400 && code <= 499) || (
        code >= 1000);
        if !in_valid {
            assert(!in_valid_range(reg[i as int].0));
            return false;
        }
        i = i + 1;
    }
    true
}

/// Returns the range category of `code`, or `"unknown"` if it lies in no
/// designated range.
pub fn get_range_category(code: u32) -> (r: &'static str)
    ensures
        r@ == range_category(code),
        1 <= code <= 99 ==> r@ == "common"@,
        100 <= code <= 199 ==> r@ == "governance"@,
        200 <= code <= 299 ==> r@ == "escrow"@,
        300 <= code <= 399 ==> r@ == "identity"@,
        400 <= code <= 499 ==> r@ == "program_escrow"@,
        code >= 1000 ==> r@ == "system"@,
        (code == 0 || 500 <= code <= 999) ==> r@ == "unknown"@,
{
    if code >= 1 && code <= 99 {
        "common"
    } else if code >= 100 && code <= 199 {
        "governance"
    } else if code >= 200 && code <= 299 {
        "escrow"
    } else if code >= 300 && code <= 399 {
        "identity"
    } else if code >= 400 && code <= 499 {
        "program_escrow"
    } else if code >= 1000 {
        "system"
    } else {
        "unknown"
    }
}

} // verus!
