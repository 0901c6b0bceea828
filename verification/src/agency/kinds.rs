//! The algebra of stored type strings: who claims which, and whether two
//! claims collide.
//!
//! A composition of kinds is coherent when every stored string has one owner.
//! The functions here decide that, and build a composition's own claim out of
//! its parts' claims.

use vstd::prelude::*;

verus! {

/// A consumer table that stores blocks of some kinds.
#[derive(Debug, Clone, Copy)]
pub struct ContentDescriptor {
    /// The table's name.
    pub table: &'static str,
    /// The stored type strings whose payload lives in the table.
    pub kinds: &'static [&'static str],
    /// Whether the rows are deleted by the finalization that replaces them.
    pub ephemeral: bool,
}

/// Whether a list names a stored type string.
pub open spec fn claims(kinds: Seq<&str>, kind: Seq<char>) -> bool {
    exists|i: int| 0 <= i < kinds.len() && #[trigger] kinds[i]@ == kind
}

/// The stored type strings a list names, in its order.
pub open spec fn words(kinds: Seq<&str>) -> Seq<Seq<char>> {
    Seq::new(kinds.len(), |i: int| kinds[i]@)
}

/// The entries of lists of stored type strings, one list after the other.
pub open spec fn in_a_row(lists: Seq<Seq<Seq<char>>>) -> Seq<Seq<char>>
    decreases lists.len(),
{
    if lists.len() == 0 {
        seq![]
    } else {
        in_a_row(lists.drop_last()) + lists.last()
    }
}

/// Whether two lists have no stored type string in common.
pub open spec fn disjoint(a: Seq<&str>, b: Seq<&str>) -> bool {
    forall|kind: Seq<char>| #[trigger] claims(a, kind) ==> !claims(b, kind)
}

/// Whether a list names every stored type string of every descriptor.
pub open spec fn all_claimed(descriptors: Seq<ContentDescriptor>, kinds: Seq<&str>) -> bool {
    forall|i: int, j: int|
        0 <= i < descriptors.len() && 0 <= j < descriptors[i].kinds@.len() ==> claims(
            kinds,
            #[trigger] descriptors[i].kinds@[j]@,
        )
}

/// How many entries a list of lists holds in all.
pub open spec fn total(sets: Seq<&[&'static str]>) -> nat
    decreases sets.len(),
{
    if sets.len() == 0 {
        0
    } else {
        total(sets.drop_last()) + sets.last()@.len()
    }
}

/// The entries of a list of lists, one list after the other.
pub open spec fn joined(sets: Seq<&[&'static str]>) -> Seq<&'static str>
    decreases sets.len(),
{
    if sets.len() == 0 {
        seq![]
    } else {
        joined(sets.drop_last()) + sets.last()@
    }
}

/// String equality, byte by byte.
pub fn str_eq(a: &str, b: &str) -> (same: bool)
    ensures
        same == (a@ == b@),
{
    let left = a.as_bytes();
    let right = b.as_bytes();
    proof {
        broadcast use vstd::utf8::encode_utf8_decode_utf8;

        assert(vstd::utf8::decode_utf8(vstd::utf8::encode_utf8(a@)) == a@);
        assert(vstd::utf8::decode_utf8(vstd::utf8::encode_utf8(b@)) == b@);
    }
    if left.len() != right.len() {
        return false;
    }
    let mut index: usize = 0;
    while index < left.len()
        invariant
            left@.len() == right@.len(),
            left@ == vstd::utf8::encode_utf8(a@),
            right@ == vstd::utf8::encode_utf8(b@),
            forall|i: int| 0 <= i < index ==> left@[i] == right@[i],
        decreases left.len() - index,
    {
        if left[index] != right[index] {
            return false;
        }
        index += 1;
    }
    assert(left@ =~= right@);
    true
}

/// Whether a stored type string is in a list.
pub fn contains_kind(kinds: &[&str], kind: &str) -> (found: bool)
    ensures
        found == claims(kinds@, kind@),
{
    let mut index: usize = 0;
    while index < kinds.len()
        invariant
            index <= kinds.len(),
            forall|i: int| 0 <= i < index ==> (#[trigger] kinds@[i])@ != kind@,
        decreases kinds.len() - index,
    {
        if str_eq(kinds[index], kind) {
            assert(kinds@[index as int]@ == kind@);
            return true;
        }
        index += 1;
    }
    false
}

/// Whether two lists share no stored type string: a string with two owners
/// would go to whichever the parse chain tries first, and the other's rows
/// would silently read as the wrong kind.
pub fn kinds_disjoint(a: &[&str], b: &[&str]) -> (apart: bool)
    ensures
        apart == disjoint(a@, b@),
{
    let mut index: usize = 0;
    while index < a.len()
        invariant
            index <= a.len(),
            forall|i: int| 0 <= i < index ==> !claims(b@, (#[trigger] a@[i])@),
        decreases a.len() - index,
    {
        if contains_kind(b, a[index]) {
            assert(claims(a@, a@[index as int]@));
            return false;
        }
        index += 1;
    }
    true
}

/// Whether every stored type string a descriptor set names is in `kinds`: a
/// row of any other string could be written and never read back as its kind.
pub fn descriptor_kinds_claimed(descriptors: &[ContentDescriptor], kinds: &[&str]) -> (covered:
    bool)
    ensures
        covered == all_claimed(descriptors@, kinds@),
{
    let mut at: usize = 0;
    while at < descriptors.len()
        invariant
            at <= descriptors.len(),
            forall|i: int, j: int|
                0 <= i < at && 0 <= j < descriptors@[i].kinds@.len() ==> claims(
                    kinds@,
                    #[trigger] descriptors@[i].kinds@[j]@,
                ),
        decreases descriptors.len() - at,
    {
        let listed = descriptors[at].kinds;
        let mut index: usize = 0;
        while index < listed.len()
            invariant
                at < descriptors.len(),
                listed@ == descriptors@[at as int].kinds@,
                index <= listed.len(),
                forall|j: int| 0 <= j < index ==> claims(kinds@, #[trigger] listed@[j]@),
            decreases listed.len() - index,
        {
            if !contains_kind(kinds, listed[index]) {
                assert(!claims(kinds@, descriptors@[at as int].kinds@[index as int]@));
                return false;
            }
            index += 1;
        }
        at += 1;
    }
    true
}

proof fn total_grows(sets: Seq<&[&'static str]>, upto: int)
    requires
        0 <= upto <= sets.len(),
    ensures
        total(sets.take(upto)) <= total(sets),
    decreases sets.len() - upto,
{
    if upto < sets.len() {
        total_grows(sets, upto + 1);
        assert(sets.take(upto + 1).drop_last() =~= sets.take(upto));
    } else {
        assert(sets.take(upto) =~= sets);
    }
}

/// How many stored type strings a set of lists holds in total.
pub fn kind_count(sets: &[&[&'static str]]) -> (count: usize)
    requires
        total(sets@) <= usize::MAX,
    ensures
        count == total(sets@),
{
    let mut count: usize = 0;
    let mut index: usize = 0;
    while index < sets.len()
        invariant
            index <= sets.len(),
            count == total(sets@.take(index as int)),
            total(sets@) <= usize::MAX,
        decreases sets.len() - index,
    {
        proof {
            total_grows(sets@, index + 1);
            assert(sets@.take(index + 1).drop_last() =~= sets@.take(index as int));
        }
        count += sets[index].len();
        index += 1;
    }
    assert(sets@.take(index as int) =~= sets@);
    count
}

/// The lists' entries in one list, in order: a composition's own claim, built
/// from its parts' declarations so that no second table of names exists.
pub fn concat_kinds(sets: &[&[&'static str]]) -> (kinds: Vec<&'static str>)
    ensures
        kinds@ == joined(sets@),
        kinds@.len() == total(sets@),
{
    let mut kinds: Vec<&'static str> = Vec::new();
    let mut at: usize = 0;
    while at < sets.len()
        invariant
            at <= sets.len(),
            kinds@ == joined(sets@.take(at as int)),
        decreases sets.len() - at,
    {
        let listed = sets[at];
        let ghost before = kinds@;
        let mut index: usize = 0;
        while index < listed.len()
            invariant
                index <= listed.len(),
                kinds@ == before + listed@.take(index as int),
            decreases listed.len() - index,
        {
            kinds.push(listed[index]);
            index += 1;
            assert(kinds@ =~= before + listed@.take(index as int));
        }
        assert(listed@.take(index as int) =~= listed@);
        assert(sets@.take(at + 1).drop_last() =~= sets@.take(at as int));
        at += 1;
    }
    assert(sets@.take(at as int) =~= sets@);
    proof {
        joined_has_every_entry(sets@);
    }
    kinds
}

/// Joining lists keeps every entry: the joined list is as long as the lists
/// are together.
pub proof fn joined_has_every_entry(sets: Seq<&[&'static str]>)
    ensures
        joined(sets).len() == total(sets),
    decreases sets.len(),
{
    if sets.len() > 0 {
        joined_has_every_entry(sets.drop_last());
    }
}

/// Joining lists keeps their order: the joined list names what the first list
/// names, then what the second does, and so on.
pub proof fn joined_names_its_parts_in_order(
    sets: Seq<&[&'static str]>,
    lists: Seq<Seq<Seq<char>>>,
)
    requires
        sets.len() == lists.len(),
        forall|i: int| 0 <= i < sets.len() ==> words((#[trigger] sets[i])@) == lists[i],
    ensures
        words(joined(sets)) == in_a_row(lists),
    decreases sets.len(),
{
    if sets.len() > 0 {
        let init = sets.drop_last();
        assert forall|i: int| 0 <= i < init.len() implies words((#[trigger] init[i])@)
            == lists.drop_last()[i] by {
            assert(init[i] == sets[i]);
        }
        joined_names_its_parts_in_order(init, lists.drop_last());
        assert(words(sets[sets.len() - 1]@) == lists.last());
        assert(words(joined(sets)) =~= words(joined(init)) + words(sets.last()@));
    } else {
        assert(words(joined(sets)) =~= seq![]);
    }
}

/// Lists of one entry each stand in a row as those entries.
pub proof fn single_entries_in_a_row(lists: Seq<Seq<Seq<char>>>)
    requires
        forall|i: int| 0 <= i < lists.len() ==> (#[trigger] lists[i]).len() == 1,
    ensures
        in_a_row(lists).len() == lists.len(),
        forall|i: int| 0 <= i < lists.len() ==> #[trigger] in_a_row(lists)[i] == lists[i][0],
    decreases lists.len(),
{
    if lists.len() > 0 {
        let init = lists.drop_last();
        assert forall|i: int| 0 <= i < init.len() implies (#[trigger] init[i]).len() == 1 by {
            assert(init[i] == lists[i]);
        }
        single_entries_in_a_row(init);
        assert(lists[lists.len() - 1].len() == 1);
        assert forall|i: int| 0 <= i < lists.len() implies #[trigger] in_a_row(lists)[i]
            == lists[i][0] by {
            if i < init.len() {
                assert(in_a_row(init)[i] == init[i][0]);
            }
        }
    }
}

/// A composition claims exactly what its parts claim.
pub proof fn joined_claims_what_its_parts_claim(sets: Seq<&[&'static str]>, kind: Seq<char>)
    ensures
        claims(joined(sets), kind) <==> exists|i: int|
            0 <= i < sets.len() && claims(#[trigger] sets[i]@, kind),
    decreases sets.len(),
{
    if sets.len() > 0 {
        let init = sets.drop_last();
        let head = joined(init);
        let tail = sets.last()@;
        joined_claims_what_its_parts_claim(init, kind);
        assert(joined(sets) == head + tail);
        if claims(joined(sets), kind) {
            let i = choose|i: int|
                0 <= i < joined(sets).len() && #[trigger] joined(sets)[i]@ == kind;
            if i < head.len() {
                assert(head[i]@ == kind);
                assert(claims(head, kind));
                let k = choose|k: int| 0 <= k < init.len() && claims(#[trigger] init[k]@, kind);
                assert(claims(sets[k]@, kind));
            } else {
                assert(tail[i - head.len()]@ == kind);
                assert(claims(sets[sets.len() - 1]@, kind));
            }
        }
        if exists|i: int| 0 <= i < sets.len() && claims(#[trigger] sets[i]@, kind) {
            let k = choose|k: int| 0 <= k < sets.len() && claims(#[trigger] sets[k]@, kind);
            if k < init.len() {
                assert(claims(init[k]@, kind));
                let i = choose|i: int| 0 <= i < head.len() && #[trigger] head[i]@ == kind;
                assert(joined(sets)[i]@ == kind);
            } else {
                let i = choose|i: int| 0 <= i < tail.len() && #[trigger] tail[i]@ == kind;
                assert(joined(sets)[head.len() + i]@ == kind);
            }
        }
    }
}

/// A list claims its entries, each of them, and nothing else.
pub proof fn a_list_claims_its_entries(kinds: Seq<&str>, kind: Seq<char>)
    ensures
        claims(kinds, kind) <==> words(kinds).contains(kind),
        words(kinds).len() == kinds.len(),
        forall|i: int| 0 <= i < kinds.len() ==> claims(kinds, (#[trigger] kinds[i])@),
{
    let named = words(kinds);
    assert forall|i: int| 0 <= i < kinds.len() implies claims(kinds, (#[trigger] kinds[i])@) by {}
    if claims(kinds, kind) {
        let i = choose|i: int| 0 <= i < kinds.len() && #[trigger] kinds[i]@ == kind;
        assert(named[i] == kind);
    }
    if named.contains(kind) {
        let i = choose|i: int| 0 <= i < named.len() && named[i] == kind;
        assert(kinds[i]@ == kind);
    }
}

/// Two lists are apart exactly where no entry of the one is an entry of the
/// other, whichever is asked first.
pub proof fn lists_are_apart_entry_by_entry(a: Seq<&str>, b: Seq<&str>)
    ensures
        disjoint(a, b) <==> forall|i: int, j: int|
            0 <= i < a.len() && 0 <= j < b.len() ==> (#[trigger] a[i])@ != (#[trigger] b[j])@,
        disjoint(a, b) == disjoint(b, a),
{
    if disjoint(a, b) {
        assert forall|i: int, j: int| 0 <= i < a.len() && 0 <= j < b.len() implies (
        #[trigger] a[i])@ != (#[trigger] b[j])@ by {
            assert(claims(a, a[i]@));
        }
    }
}

/// A set of tables is covered exactly where each string of each table is an
/// entry of the list.
pub proof fn tables_are_covered_string_by_string(
    descriptors: Seq<ContentDescriptor>,
    kinds: Seq<&str>,
)
    ensures
        all_claimed(descriptors, kinds) <==> forall|i: int, j: int|
            0 <= i < descriptors.len() && 0 <= j < descriptors[i].kinds@.len() ==> words(
                kinds,
            ).contains(#[trigger] descriptors[i].kinds@[j]@),
{
    if all_claimed(descriptors, kinds) {
        assert forall|i: int, j: int|
            0 <= i < descriptors.len() && 0 <= j < descriptors[i].kinds@.len() implies words(
            kinds,
        ).contains(#[trigger] descriptors[i].kinds@[j]@) by {
            a_list_claims_its_entries(kinds, descriptors[i].kinds@[j]@);
        }
    }
    if forall|i: int, j: int|
        0 <= i < descriptors.len() && 0 <= j < descriptors[i].kinds@.len() ==> words(
            kinds,
        ).contains(#[trigger] descriptors[i].kinds@[j]@) {
        assert forall|i: int, j: int|
            0 <= i < descriptors.len() && 0 <= j < descriptors[i].kinds@.len() implies claims(
            kinds,
            #[trigger] descriptors[i].kinds@[j]@,
        ) by {
            a_list_claims_its_entries(kinds, descriptors[i].kinds@[j]@);
        }
    }
}

/// Lists are joined and counted piece by piece: what two runs of lists hold is
/// what the first holds and then what the second holds, and one list alone is
/// joined as it is.
pub proof fn lists_are_joined_piece_by_piece(
    one: Seq<&[&'static str]>,
    other: Seq<&[&'static str]>,
)
    ensures
        joined(one + other) == joined(one) + joined(other),
        total(one + other) == total(one) + total(other),
        one.len() == 1 ==> joined(one) == one[0]@ && total(one) == one[0]@.len(),
    decreases other.len(),
{
    if one.len() == 1 {
        assert(joined(one.drop_last()) =~= seq![]);
        assert(total(one.drop_last()) == 0);
        assert(joined(one) =~= one[0]@);
    }
    if other.len() == 0 {
        assert(one + other =~= one);
        assert(joined(one) + joined(other) =~= joined(one));
    } else {
        lists_are_joined_piece_by_piece(one, other.drop_last());
        assert((one + other).drop_last() =~= one + other.drop_last());
        assert(joined(one + other) =~= joined(one) + joined(other));
    }
}

} // verus!
