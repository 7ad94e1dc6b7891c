//! Properties of the error code registry that span its functions.
use vstd::prelude::*;

use crate::error_registry::{
    all_in_valid_range, codes_ascending, conflicting_codes, core_registry, first_name, has_code, has_duplicate,
    in_valid_range, range_category, shares_code, strictly_ascending,
};

verus! {

/// The core registry is kept in strictly ascending code order.
pub proof fn law_core_registry_ascending()
    ensures
        strictly_ascending(core_registry()),
{
    let reg = core_registry();
    assert forall|i: int, j: int| 0 <= i < j < reg.len() implies #[trigger] reg[i].0
        < #[trigger] reg[j].0 by {}
}

/// A table whose codes rise strictly has no code twice.
pub proof fn law_ascending_has_no_duplicate(entries: Seq<(u32, Seq<char>)>)
    requires
        strictly_ascending(entries),
    ensures
        !has_duplicate(entries),
{
}

/// No two entries of the core registry share a code: the uniqueness check on
/// it (`has_duplicate_codes`) always answers `false`.
pub proof fn law_core_registry_unique()
    ensures
        !has_duplicate(core_registry()),
{
    law_core_registry_ascending();
    law_ascending_has_no_duplicate(core_registry());
}

/// Every code of the core registry lies in its designated range: the range
/// check (`validate_ranges`) always answers `true`.
pub proof fn law_core_registry_in_range()
    ensures
        all_in_valid_range(core_registry()),
{
}

/// A lookup by code finds a name exactly when the code is registered
/// (`lookup_name(code).is_some() == is_registered(code)`).
pub proof fn law_lookup_some_iff_registered(entries: Seq<(u32, Seq<char>)>, code: u32)
    ensures
        first_name(entries, code) is Some <==> has_code(entries, code),
    decreases entries.len(),
{
    if entries.len() > 0 {
        let rest = entries.drop_first();
        law_lookup_some_iff_registered(rest, code);
        if has_code(rest, code) {
            let j = choose|j: int| 0 <= j < rest.len() && #[trigger] rest[j].0 == code;
            assert(entries[j + 1].0 == code);
        }
        if has_code(entries, code) && entries[0].0 != code {
            let j = choose|j: int| 0 <= j < entries.len() && #[trigger] entries[j].0 == code;
            assert(rest[j - 1].0 == code);
        }
    }
}

/// A name that a lookup returns belongs to an entry with the code looked up.
pub proof fn law_lookup_sound(entries: Seq<(u32, Seq<char>)>, code: u32)
    ensures
        first_name(entries, code) matches Some(n) ==> exists|i: int|
            0 <= i < entries.len() && #[trigger] entries[i] == (code, n),
    decreases entries.len(),
{
    if entries.len() > 0 && entries[0].0 != code {
        let rest = entries.drop_first();
        law_lookup_sound(rest, code);
        if let Some(n) = first_name(rest, code) {
            let i = choose|i: int| 0 <= i < rest.len() && #[trigger] rest[i] == (code, n);
            assert(entries[i + 1] == (code, n));
        }
    } else if entries.len() > 0 {
        assert(entries[0] == (code, entries[0].1));
    }
}

/// In a table with no code twice, looking up the code of any entry gives back
/// that entry's name.
pub proof fn law_lookup_complete(entries: Seq<(u32, Seq<char>)>, i: int)
    requires
        !has_duplicate(entries),
        0 <= i < entries.len(),
    ensures
        first_name(entries, entries[i].0) == Some(entries[i].1),
    decreases entries.len(),
{
    if i > 0 {
        let rest = entries.drop_first();
        assert(rest[i - 1] == entries[i]);
        assert(entries[0].0 != entries[i].0);
        assert forall|a: int, b: int| 0 <= a < b < rest.len() implies #[trigger] rest[a].0
            != #[trigger] rest[b].0 by {
            assert(entries[a + 1].0 != entries[b + 1].0);
        }
        law_lookup_complete(rest, i - 1);
    }
}

/// Every entry of the core registry is found by its code (`lookup_name` of a
/// registered code returns its variant name).
pub proof fn law_core_lookup_complete(i: int)
    requires
        0 <= i < core_registry().len(),
    ensures
        first_name(core_registry(), core_registry()[i].0) == Some(core_registry()[i].1),
{
    law_core_registry_unique();
    law_lookup_complete(core_registry(), i);
}

/// The conflicting codes are exactly the codes that occur in both tables.
pub proof fn law_conflicts_are_shared_codes(
    a: Seq<(u32, Seq<char>)>,
    b: Seq<(u32, Seq<char>)>,
    code: u32,
)
    ensures
        conflicting_codes(a, b).contains(code) <==> has_code(a, code) && has_code(b, code),
    decreases a.len(),
{
    if a.len() > 0 {
        let init = a.drop_last();
        law_conflicts_are_shared_codes(init, b, code);
        if has_code(init, code) {
            let j = choose|j: int| 0 <= j < init.len() && #[trigger] init[j].0 == code;
            assert(a[j].0 == code);
        }
        if has_code(a, code) && a.last().0 != code {
            let j = choose|j: int| 0 <= j < a.len() && #[trigger] a[j].0 == code;
            assert(init[j].0 == code);
        }
        let rest = conflicting_codes(init, b);
        if has_code(b, a.last().0) {
            assert(rest.push(a.last().0)[rest.len() as int] == a.last().0);
            if rest.contains(code) {
                let k = choose|k: int| 0 <= k < rest.len() && rest[k] == code;
                assert(rest.push(a.last().0)[k] == code);
            }
            if rest.push(a.last().0).contains(code) && code != a.last().0 {
                let k = choose|k: int| 0 <= k < rest.len() + 1 && rest.push(a.last().0)[k] == code;
                assert(rest[k] == code);
            }
        }
    }
}

/// No conflicts are found (`find_conflicts` is empty) exactly when the
/// cross-contract check passes (`no_cross_contract_conflicts` is `true`).
pub proof fn law_no_conflicts_iff_empty(a: Seq<(u32, Seq<char>)>, b: Seq<(u32, Seq<char>)>)
    ensures
        conflicting_codes(a, b).len() == 0 <==> !shares_code(a, b),
{
    let c = conflicting_codes(a, b);
    if c.len() > 0 {
        law_conflicts_are_shared_codes(a, b, c[0]);
        assert(c.contains(c[0]));
        let i = choose|i: int| 0 <= i < a.len() && #[trigger] a[i].0 == c[0];
        assert(has_code(b, a[i].0));
    }
    if shares_code(a, b) {
        let i = choose|i: int| 0 <= i < a.len() && has_code(b, #[trigger] a[i].0);
        law_conflicts_are_shared_codes(a, b, a[i].0);
        assert(has_code(a, a[i].0));
    }
}

/// A code has a known category exactly when it lies in a designated range.
pub proof fn law_category_known_iff_in_range(code: u32)
    ensures
        range_category(code) != "unknown"@ <==> in_valid_range(code),
{
    reveal_strlit("unknown");
    reveal_strlit("common");
    reveal_strlit("governance");
    reveal_strlit("escrow");
    reveal_strlit("identity");
    reveal_strlit("program_escrow");
    reveal_strlit("system");
    if in_valid_range(code) {
        assert(range_category(code).len() != "unknown"@.len() || range_category(code)[0]
            != "unknown"@[0]);
    }
}


/// Each range of codes has its own category: 1-99 "common", 100-199
/// "governance", 200-299 "escrow", 300-399 "identity", 400-499
/// "program_escrow", 1000 and above "system", every other code "unknown".
pub proof fn law_category_of_each_range(code: u32)
    ensures
        1 <= code <= 99 ==> range_category(code) == "common"@,
        100 <= code <= 199 ==> range_category(code) == "governance"@,
        200 <= code <= 299 ==> range_category(code) == "escrow"@,
        300 <= code <= 399 ==> range_category(code) == "identity"@,
        400 <= code <= 499 ==> range_category(code) == "program_escrow"@,
        code >= 1000 ==> range_category(code) == "system"@,
        (code == 0 || 500 <= code <= 999) ==> range_category(code) == "unknown"@,
{
}

/// The conflicts of a table whose codes rise strictly also rise strictly, in
/// the order of that table: no conflicting code is reported twice.
pub proof fn law_conflicts_ascending(a: Seq<(u32, Seq<char>)>, b: Seq<(u32, Seq<char>)>)
    requires
        strictly_ascending(a),
    ensures
        codes_ascending(conflicting_codes(a, b)),
    decreases a.len(),
{
    if a.len() > 0 {
        let init = a.drop_last();
        assert forall|i: int, j: int| 0 <= i < j < init.len() implies #[trigger] init[i].0
            < #[trigger] init[j].0 by {
            assert(a[i].0 < a[j].0);
        }
        law_conflicts_ascending(init, b);
        let rest = conflicting_codes(init, b);
        let last = a.last().0;
        if has_code(b, last) {
            assert forall|k: int| 0 <= k < rest.len() implies #[trigger] rest[k] < last by {
                law_conflicts_are_shared_codes(init, b, rest[k]);
                assert(rest.contains(rest[k]));
                let j = choose|j: int| 0 <= j < init.len() && #[trigger] init[j].0 == rest[k];
                assert(a[j].0 < a[a.len() - 1].0);
            }
            let r = rest.push(last);
            assert forall|i: int, j: int| 0 <= i < j < r.len() implies #[trigger] r[i]
                < #[trigger] r[j] by {
                if j == rest.len() {
                    assert(r[i] == rest[i]);
                } else {
                    assert(r[i] == rest[i] && r[j] == rest[j]);
                }
            }
        }
    }
}

/// The conflicts of the core registry with any other table are exactly the
/// codes that occur in both, each once, in ascending order.
pub proof fn law_core_conflicts_exact(other: Seq<(u32, Seq<char>)>)
    ensures
        codes_ascending(conflicting_codes(core_registry(), other)),
        forall|i: int, j: int|
            0 <= i < j < conflicting_codes(core_registry(), other).len() ==> #[trigger] conflicting_codes(
                core_registry(),
                other,
            )[i] != #[trigger] conflicting_codes(core_registry(), other)[j],
        forall|c: u32|
            #[trigger] conflicting_codes(core_registry(), other).contains(c) <==> has_code(
                core_registry(),
                c,
            ) && has_code(other, c),
{
    law_core_registry_ascending();
    law_conflicts_ascending(core_registry(), other);
    assert forall|c: u32|
        #[trigger] conflicting_codes(core_registry(), other).contains(c) <==> has_code(
            core_registry(),
            c,
        ) && has_code(other, c) by {
        law_conflicts_are_shared_codes(core_registry(), other, c);
    }
}

} // verus!
