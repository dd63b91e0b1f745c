//! The layered merge: an overlay document applied on top of a base document.
//!
//! A key that both documents hold as mappings is merged member by member. Any
//! other key of the overlay replaces what the base holds under it. The base's
//! keys keep their places; the keys that only the overlay holds follow them, in
//! the overlay's order. Two scalars or lists of different kinds under one key are
//! a conflict, and a pair of documents with a conflict has no merge. A null is in
//! conflict with nothing: it replaces, and is replaced by, a value of any kind.

use vstd::prelude::*;
use vstd::string::*;

use crate::error::{SchemaError, SchemaFault, SettingsError, SettingsFault};
use crate::value::{
    absent_key_finds_nothing, find, first_index, first_index_is_least, least_index_is_first,
    members_of, position, Document, Entry, Kind, Member, Node, Value,
};

verus! {

/// A conflict between base and overlay: the dotted path of the key, the kind of
/// value that the base holds there and the kind that the overlay holds.
pub struct Clash {
    pub path: Seq<char>,
    pub expected: Kind,
    pub found: Kind,
}

impl Clash {
    /// The same conflict, seen from the mapping that holds it under `key`.
    pub open spec fn under(self, key: Seq<char>) -> Clash {
        Clash { path: key + "."@ + self.path, expected: self.expected, found: self.found }
    }

    /// The conflict as the fault that is reported for it.
    pub open spec fn fault(self) -> SchemaFault {
        SchemaFault::Conflict {
            path: self.path,
            expected_kind: self.expected,
            found_kind: self.found,
        }
    }
}

/// What one key holds once the overlay's value is laid over the base's.
pub open spec fn overlaid(base: Node, overlay: Node) -> Node
    decreases base,
{
    match (base, overlay) {
        (Node::Table(below), Node::Table(above)) => Node::Table(overlaid_members(below, above)),
        _ => overlay,
    }
}

/// The base's members, each with what it holds once the overlay is applied.
pub open spec fn kept_members(base: Seq<Member>, overlay: Seq<Member>) -> Seq<Member>
    decreases base, 0nat,
{
    Seq::new(
        base.len(),
        |i: int|
            if 0 <= i < base.len() {
                match find(overlay, base[i].key) {
                    Some(above) => Member {
                        key: base[i].key,
                        value: overlaid(base[i].value, above),
                    },
                    None => base[i],
                }
            } else {
                Member { key: Seq::empty(), value: Node::Nil }
            },
    )
}

/// The overlay's members whose keys the base does not hold.
pub open spec fn added_members(base: Seq<Member>, overlay: Seq<Member>) -> Seq<Member> {
    overlay.filter(|member: Member| find(base, member.key) is None)
}

/// A mapping with the overlay applied: the base's members in place, then the
/// overlay's new ones.
pub open spec fn overlaid_members(base: Seq<Member>, overlay: Seq<Member>) -> Seq<Member>
    decreases base, 1nat,
{
    kept_members(base, overlay) + added_members(base, overlay)
}

/// Whether values of these two kinds cannot follow one another under one key:
/// both are scalars or lists, and of different kinds. A mapping gives way to
/// whatever the overlay holds, and a null holds nothing to be in conflict with.
pub open spec fn kinds_conflict(base: Kind, overlay: Kind) -> bool {
    base != overlay && base != Kind::Table && overlay != Kind::Table && base != Kind::Nil
        && overlay != Kind::Nil
}

/// The conflict, if any, between two values that stand under `key`.
pub open spec fn value_clash(key: Seq<char>, base: Node, overlay: Node) -> Option<Clash>
    decreases base, 0nat,
{
    match (base, overlay) {
        (Node::Table(below), Node::Table(above)) => match members_clash(
            below,
            above,
            below.len(),
        ) {
            Some(clash) => Some(clash.under(key)),
            None => None,
        },
        _ => if kinds_conflict(base.kind(), overlay.kind()) {
            Some(Clash { path: key, expected: base.kind(), found: overlay.kind() })
        } else {
            None
        },
    }
}

/// The conflict, if any, at the base's member `i`.
pub open spec fn member_clash(base: Seq<Member>, overlay: Seq<Member>, i: int) -> Option<Clash>
    recommends
        0 <= i < base.len(),
    decreases base, 1nat,
{
    if 0 <= i < base.len() {
        match find(overlay, base[i].key) {
            Some(above) => value_clash(base[i].key, base[i].value, above),
            None => None,
        }
    } else {
        None
    }
}

/// The first conflict among the base's first `count` members, in the base's
/// order and depth first.
pub open spec fn members_clash(base: Seq<Member>, overlay: Seq<Member>, count: nat) -> Option<
    Clash,
>
    decreases base, 2nat, count,
{
    if count == 0 {
        None
    } else {
        match members_clash(base, overlay, (count - 1) as nat) {
            Some(clash) => Some(clash),
            None => member_clash(base, overlay, count - 1),
        }
    }
}

/// The merge of two documents: a failure of the config kind that names the first
/// conflict, or else the base with the overlay applied.
pub open spec fn merged(base: Seq<Member>, overlay: Seq<Member>) -> Result<
    Seq<Member>,
    SettingsFault,
> {
    match members_clash(base, overlay, base.len()) {
        Some(clash) => Err(SettingsFault::Config(clash.fault())),
        None => Ok(overlaid_members(base, overlay)),
    }
}

/// In a concatenation a key stands for its first member in the front part, and
/// for its first member in the back part when the front part does not hold it.
pub proof fn find_in_joined(front: Seq<Member>, back: Seq<Member>, key: Seq<char>)
    ensures
        find(front + back, key) == match find(front, key) {
            Some(value) => Some(value),
            None => find(back, key),
        },
{
    let joined = front + back;
    first_index_is_least(front, key);
    first_index_is_least(back, key);
    first_index_is_least(joined, key);
    match first_index(front, key) {
        Some(i) => {
            assert(joined[i] == front[i]);
            assert forall|j: int| 0 <= j < i implies joined[j].key != key by {
                assert(joined[j] == front[j]);
            }
            least_index_is_first(joined, key, i);
        },
        None => {
            match first_index(back, key) {
                Some(i) => {
                    let at = front.len() + i;
                    assert(joined[at] == back[i]);
                    assert forall|j: int| 0 <= j < at implies joined[j].key != key by {
                        if j < front.len() {
                            assert(joined[j] == front[j]);
                        } else {
                            assert(joined[j] == back[j - front.len()]);
                        }
                    }
                    least_index_is_first(joined, key, at);
                },
                None => {
                    assert forall|j: int| 0 <= j < joined.len() implies joined[j].key != key by {
                        if j < front.len() {
                            assert(joined[j] == front[j]);
                        } else {
                            assert(joined[j] == back[j - front.len()]);
                        }
                    }
                    absent_key_finds_nothing(joined, key);
                },
            }
        },
    }
}

/// Leaving out members keeps what a key stands for, as long as every member
/// that carries the key stays.
pub proof fn find_in_filtered(
    members: Seq<Member>,
    keep: spec_fn(Member) -> bool,
    key: Seq<char>,
)
    requires
        forall|member: Member| member.key == key ==> #[trigger] keep(member),
    ensures
        find(members.filter(keep), key) == find(members, key),
    decreases members.len(),
{
    reveal(Seq::filter);
    if members.len() > 0 {
        let front = members.drop_last();
        let last = members.last();
        find_in_filtered(front, keep, key);
        assert(members =~= front + seq![last]);
        find_in_joined(front, seq![last], key);
        if keep(last) {
            assert(members.filter(keep) =~= front.filter(keep) + seq![last]);
            find_in_joined(front.filter(keep), seq![last], key);
        } else {
            first_index_is_least(seq![last], key);
        }
    }
}

/// What a key stands for after the merge, from what it stands for in the base
/// and in the overlay.
pub proof fn find_in_overlaid(base: Seq<Member>, overlay: Seq<Member>, key: Seq<char>)
    ensures
        find(overlaid_members(base, overlay), key) == match (find(base, key), find(overlay, key)) {
            (Some(below), Some(above)) => Some(overlaid(below, above)),
            (Some(below), None) => Some(below),
            (None, Some(above)) => Some(above),
            (None, None) => None,
        },
{
    let kept = kept_members(base, overlay);
    let added = added_members(base, overlay);
    find_in_joined(kept, added, key);
    first_index_is_least(base, key);
    match first_index(base, key) {
        Some(i) => {
            assert(kept[i].key == key);
            assert forall|j: int| 0 <= j < i implies kept[j].key != key by {
                assert(kept[j].key == base[j].key);
            }
            least_index_is_first(kept, key, i);
        },
        None => {
            assert forall|j: int| 0 <= j < kept.len() implies kept[j].key != key by {
                assert(kept[j].key == base[j].key);
            }
            absent_key_finds_nothing(kept, key);
            find_in_filtered(overlay, |member: Member| find(base, member.key) is None, key);
        },
    }
}

/// No member of the base is in conflict when the mapping as a whole is not.
pub proof fn no_clash_at_any_member(base: Seq<Member>, overlay: Seq<Member>, count: nat, i: int)
    requires
        members_clash(base, overlay, count) is None,
        0 <= i < count,
    ensures
        member_clash(base, overlay, i) is None,
    decreases count,
{
    if i < count - 1 {
        no_clash_at_any_member(base, overlay, (count - 1) as nat, i);
    }
}

/// Whether `overlay` says again what `base` holds: it brings no key of its own,
/// and under each key that it names it holds the base's value or, for a mapping,
/// says again what the base's mapping holds.
pub open spec fn restates(base: Node, overlay: Node) -> bool
    decreases base,
{
    match (base, overlay) {
        (Node::Table(below), Node::Table(above)) => members_restate(below, above),
        _ => base == overlay,
    }
}

/// Whether the members of `overlay` say again what the members of `base` hold.
pub open spec fn members_restate(base: Seq<Member>, overlay: Seq<Member>) -> bool
    decreases base,
{
    &&& forall|i: int|
        0 <= i < base.len() ==> match find(overlay, (#[trigger] base[i]).key) {
            Some(above) => restates(base[i].value, above),
            None => true,
        }
    &&& forall|k: int| 0 <= k < overlay.len() ==> find(base, (#[trigger] overlay[k]).key) is Some
}

proof fn restated_value_is_kept(key: Seq<char>, base: Node, overlay: Node)
    requires
        restates(base, overlay),
    ensures
        overlaid(base, overlay) == base,
        value_clash(key, base, overlay) is None,
    decreases base, 0nat,
{
    match (base, overlay) {
        (Node::Table(below), Node::Table(above)) => {
            restated_members_are_kept(below, above, below.len());
        },
        _ => {},
    }
}

proof fn restated_members_are_kept(base: Seq<Member>, overlay: Seq<Member>, count: nat)
    requires
        members_restate(base, overlay),
        count <= base.len(),
    ensures
        members_clash(base, overlay, count) is None,
        forall|i: int| 0 <= i < count ==> kept_members(base, overlay)[i] == base[i],
        count == base.len() ==> overlaid_members(base, overlay) == base,
    decreases base, 1nat, count,
{
    if count > 0 {
        restated_members_are_kept(base, overlay, (count - 1) as nat);
        let i = count - 1;
        let member = base[i];
        match find(overlay, member.key) {
            Some(above) => {
                restated_value_is_kept(member.key, member.value, above);
            },
            None => {},
        }
        assert(member_clash(base, overlay, i) is None);
        assert(members_clash(base, overlay, count) == member_clash(base, overlay, i));
    }
    if count == base.len() {
        let is_new = |member: Member| find(base, member.key) is None;
        assert forall|k: int| 0 <= k < overlay.len() implies !is_new(#[trigger] overlay[k]) by {}
        overlay.lemma_all_neg_filter_empty(is_new);
        assert(kept_members(base, overlay) =~= base);
        assert(overlaid_members(base, overlay) =~= base);
    }
}

/// Merge identity: an overlay that brings no key of its own and changes no value
/// leaves the base as it is.
pub proof fn merging_a_restatement_gives_the_base(base: Seq<Member>, overlay: Seq<Member>)
    requires
        members_restate(base, overlay),
    ensures
        merged(base, overlay) == Ok::<Seq<Member>, SettingsFault>(base),
{
    restated_members_are_kept(base, overlay, base.len());
}

/// Merge identity for the empty overlay: it leaves every base as it is.
pub proof fn merging_nothing_gives_the_base(base: Seq<Member>)
    ensures
        merged(base, Seq::<Member>::empty()) == Ok::<Seq<Member>, SettingsFault>(base),
{
    let nothing = Seq::<Member>::empty();
    assert forall|i: int| 0 <= i < base.len() implies find(nothing, (#[trigger] base[i]).key)
        is None by {
        absent_key_finds_nothing(nothing, base[i].key);
    }
    merging_a_restatement_gives_the_base(base, nothing);
}

/// Override precedence: under a key that base and overlay both hold, and not
/// both as mappings, a merge that succeeds holds the overlay's value.
pub proof fn overlay_value_wins(base: Seq<Member>, overlay: Seq<Member>, key: Seq<char>)
    requires
        find(base, key) matches Some(below) && find(overlay, key) matches Some(above) && !(below is Table
            && above is Table),
    ensures
        merged(base, overlay) matches Ok(members) ==> find(members, key) == find(overlay, key),
{
    find_in_overlaid(base, overlay, key);
}

/// Sibling preservation: under a key that base and overlay both hold as
/// mappings, a merge that succeeds holds the merge of the two mappings. In it
/// every key that the overlay's mapping does not name stands for what it stood
/// for in the base's mapping.
pub proof fn nested_mappings_are_merged(base: Seq<Member>, overlay: Seq<Member>, key: Seq<char>)
    requires
        find(base, key) matches Some(Node::Table(_)),
        find(overlay, key) matches Some(Node::Table(_)),
    ensures
        merged(base, overlay) matches Ok(members) ==> {
            &&& merged(find(base, key)->0->Table_0, find(overlay, key)->0->Table_0) matches Ok(inner)
            &&& find(members, key) == Some(Node::Table(inner))
            &&& forall|sibling: Seq<char>|
                find(find(overlay, key)->0->Table_0, sibling) is None ==> #[trigger] find(
                    inner,
                    sibling,
                ) == find(find(base, key)->0->Table_0, sibling)
        },
{
    if merged(base, overlay) is Ok {
        let below = find(base, key)->0->Table_0;
        let above = find(overlay, key)->0->Table_0;
        find_in_overlaid(base, overlay, key);
        first_index_is_least(base, key);
        let i = first_index(base, key)->0;
        no_clash_at_any_member(base, overlay, base.len(), i);
        assert(value_clash(key, base[i].value, find(overlay, key)->0) is None);
        assert(members_clash(below, above, below.len()) is None);
        assert forall|sibling: Seq<char>| find(above, sibling) is None implies #[trigger] find(
            overlaid_members(below, above),
            sibling,
        ) == find(below, sibling) by {
            find_in_overlaid(below, above, sibling);
        }
    }
}

/// A conflict as the merge hands it up from a nested mapping.
struct Conflict {
    path: String,
    expected: Kind,
    found: Kind,
}

impl View for Conflict {
    type V = Clash;

    closed spec fn view(&self) -> Clash {
        Clash { path: self.path@, expected: self.expected, found: self.found }
    }
}

fn kinds_in_conflict(base: Kind, overlay: Kind) -> (conflict: bool)
    ensures
        conflict == kinds_conflict(base, overlay),
{
    base != overlay && base != Kind::Table && overlay != Kind::Table && base != Kind::Nil
        && overlay != Kind::Nil
}

fn merge_value(key: &String, base: &Value, overlay: &Value) -> (outcome: Result<Value, Conflict>)
    ensures
        match outcome {
            Ok(value) => value_clash(key@, base@, overlay@) is None && value@ == overlaid(
                base@,
                overlay@,
            ),
            Err(conflict) => value_clash(key@, base@, overlay@) == Some(conflict@),
        },
    decreases base, 0nat,
{
    match (base, overlay) {
        (Value::Table(below), Value::Table(above)) => match merge_entries(below, above) {
            Ok(entries) => Ok(Value::Table(entries)),
            Err(inner) => {
                let mut path = key.clone();
                path.append(".");
                path.append(inner.path.as_str());
                Err(Conflict { path, expected: inner.expected, found: inner.found })
            },
        },
        _ => {
            let expected = base.kind();
            let found = overlay.kind();
            if kinds_in_conflict(expected, found) {
                Err(Conflict { path: key.clone(), expected, found })
            } else {
                Ok(overlay.duplicate())
            }
        },
    }
}

fn merge_entries(base: &Vec<Entry>, overlay: &Vec<Entry>) -> (outcome: Result<
    Vec<Entry>,
    Conflict,
>)
    ensures
        match outcome {
            Ok(entries) => members_clash(
                members_of(base@),
                members_of(overlay@),
                base@.len(),
            ) is None && members_of(entries@) == overlaid_members(
                members_of(base@),
                members_of(overlay@),
            ),
            Err(conflict) => members_clash(members_of(base@), members_of(overlay@), base@.len())
                == Some(conflict@),
        },
    decreases base, 2nat,
{
    let ghost below = members_of(base@);
    let ghost above = members_of(overlay@);
    let mut entries: Vec<Entry> = Vec::new();
    let mut i: usize = 0;
    while i < base.len()
        invariant
            i <= base.len(),
            below == members_of(base@),
            above == members_of(overlay@),
            members_clash(below, above, i as nat) is None,
            entries.len() == i,
            forall|j: int| 0 <= j < i ==> entries[j]@ == kept_members(below, above)[j],
        decreases base.len() - i,
    {
        proof {
            first_index_is_least(above, below[i as int].key);
            assert(below[i as int] == base[i as int]@);
            assert(members_clash(below, above, (i + 1) as nat) == member_clash(
                below,
                above,
                i as int,
            ));
        }
        match position(overlay, &base[i].key) {
            Some(at) => {
                assert(above[at as int] == overlay[at as int]@);
                assert(find(above, below[i as int].key) == Some(overlay[at as int].value@));
                match merge_value(&base[i].key, &base[i].value, &overlay[at].value) {
                    Ok(value) => {
                        entries.push(Entry { key: base[i].key.clone(), value });
                    },
                    Err(conflict) => {
                        proof {
                            clash_stays_first(below, above, (i + 1) as nat, below.len());
                        }
                        return Err(conflict);
                    },
                }
            },
            None => {
                entries.push(base[i].duplicate());
            },
        }
        i += 1;
    }
    let ghost kept = kept_members(below, above);
    assert(members_of(entries@) =~= kept);
    let ghost is_new = |member: Member| find(below, member.key) is None;
    let mut k: usize = 0;
    proof {
        reveal(Seq::filter);
        assert(above.take(0).filter(is_new) =~= Seq::<Member>::empty());
    }
    while k < overlay.len()
        invariant
            k <= overlay.len(),
            below == members_of(base@),
            above == members_of(overlay@),
            kept == kept_members(below, above),
            is_new == (|member: Member| find(below, member.key) is None),
            members_of(entries@) == kept + above.take(k as int).filter(is_new),
        decreases overlay.len() - k,
    {
        let ghost before = members_of(entries@);
        proof {
            assert(above.take(k + 1) =~= above.take(k as int).push(above[k as int]));
            above.take(k as int).lemma_filter_push(above[k as int], is_new);
        }
        match position(base, &overlay[k].key) {
            Some(_) => {},
            None => {
                entries.push(overlay[k].duplicate());
                assert(members_of(entries@) =~= before.push(above[k as int]));
            },
        }
        k += 1;
    }
    assert(above.take(overlay.len() as int) =~= above);
    Ok(entries)
}

/// A conflict among the first members is still the first conflict when more
/// members are looked at.
proof fn clash_stays_first(base: Seq<Member>, overlay: Seq<Member>, count: nat, more: nat)
    requires
        count <= more,
        members_clash(base, overlay, count) is Some,
    ensures
        members_clash(base, overlay, more) == members_clash(base, overlay, count),
    decreases more,
{
    if count < more {
        clash_stays_first(base, overlay, count, (more - 1) as nat);
    }
}

/// Applies `overlay` on top of `base`.
pub fn merge(base: &Document, overlay: &Document) -> (outcome: Result<Document, SettingsError>)
    ensures
        match outcome {
            Ok(document) => merged(base@, overlay@) == Ok::<Seq<Member>, SettingsFault>(
                document@,
            ),
            Err(error) => merged(base@, overlay@) == Err::<Seq<Member>, SettingsFault>(error@),
        },
{
    match merge_entries(&base.entries, &overlay.entries) {
        Ok(entries) => Ok(Document { entries }),
        Err(conflict) => Err(
            SettingsError::Config(
                SchemaError::Conflict {
                    path: conflict.path,
                    expected_kind: conflict.expected,
                    found_kind: conflict.found,
                },
            ),
        ),
    }
}

} // verus!
