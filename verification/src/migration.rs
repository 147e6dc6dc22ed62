//! Schema migrations: the transitions between versions of node and edge properties,
//! the record kept for each migration, and the plan of the migrations to run.
use vstd::prelude::*;
use crate::names::NameMap;
use crate::text::{
    decimal, parse_unsigned, parse_signed, parse_bool_spec, parse_u32, parse_u64, parse_u128, parse_i32,
    parse_i64, parse_bool, push_str, push_decimal, to_owned_string, u64_to_decimal, i64_to_decimal,
    signed_decimal,
};
use crate::value::{PropMap, Value, ValueV};

verus! {

// ─── migration records ───────────────────────────────────────────────────────

/// Whether a migration is still running or has completed.
#[derive(Debug, Clone, Copy, PartialEq, Eq, Structural)]
pub enum MigrationStatus {
    InProgress,
    Complete,
}

/// What is stored about one migration.
#[derive(Debug, Clone, Copy, PartialEq, Eq, Structural)]
pub struct MigrationRecord {
    /// When the migration completed, in seconds since the Unix epoch (0 while in progress).
    pub applied_at: u64,
    pub checksum: u64,
    pub status: MigrationStatus,
    pub reversible: bool,
}

impl MigrationRecord {
    /// The record of a migration that has started.
    pub fn in_progress(checksum: u64) -> (r: MigrationRecord)
        ensures
            r == (MigrationRecord {
                applied_at: 0,
                checksum,
                status: MigrationStatus::InProgress,
                reversible: false,
            }),
    {
        MigrationRecord { applied_at: 0, checksum, status: MigrationStatus::InProgress, reversible: false }
    }

    /// The record of a migration that completed at `now` (seconds since the Unix epoch).
    pub fn complete_at(checksum: u64, now: u64) -> (r: MigrationRecord)
        ensures
            r.checksum == checksum,
            r.status == MigrationStatus::Complete,
            !r.reversible,
            r.applied_at == now,
    {
        MigrationRecord { applied_at: now, checksum, status: MigrationStatus::Complete, reversible: false }
    }

    /// The record of a migration that completed now: `complete_at` with the clock's
    /// reading, which is not stated.
    pub fn complete(checksum: u64) -> (r: MigrationRecord)
        ensures
            r.checksum == checksum,
            r.status == MigrationStatus::Complete,
            !r.reversible,
    {
        MigrationRecord::complete_at(checksum, crate::clock::unix_now_secs())
    }
}

/// Whether a migration has to run, given what is stored about it: it runs unless a
/// completed record exists (a completed record with another checksum is not run again).
pub fn migration_needed(existing: &Option<MigrationRecord>) -> (r: bool)
    ensures
        r == !(existing matches Some(rec) && rec.status == MigrationStatus::Complete),
{
    match existing {
        Some(rec) => !(rec.status == MigrationStatus::Complete),
        None => true,
    }
}

// ─── transitions ─────────────────────────────────────────────────────────────

/// A transition of the properties of items with one label from one version to the
/// next. `F` is the migration function (a function pointer in practice).
pub struct Transition<F> {
    pub item_label: &'static str,
    pub from_version: u8,
    pub to_version: u8,
    pub func: F,
    pub down_fn: Option<F>,
    pub reversible: bool,
}

impl<F> Transition<F> {
    /// A transition that cannot be reversed.
    pub fn new(item_label: &'static str, from_version: u8, to_version: u8, func: F) -> (t: Transition<F>)
        ensures
            t.item_label == item_label,
            t.from_version == from_version,
            t.to_version == to_version,
            t.func == func,
            t.down_fn is None,
            !t.reversible,
    {
        Transition { item_label, from_version, to_version, func, down_fn: None, reversible: false }
    }
}

/// A registered transition, as the inventory of transitions holds it.
pub struct TransitionSubmission<F>(pub Transition<F>);

/// One migration function of an item type, with the versions it goes between.
pub struct TransitionFn<F> {
    pub from_version: u8,
    pub to_version: u8,
    pub func: F,
}

/// The latest version of an item type, and its migration functions in order.
pub struct ItemInfo<F> {
    pub latest: u8,
    pub transition_fns: Vec<TransitionFn<F>>,
}

impl<F> ItemInfo<F> {
    /// An item type at version 1 without migrations.
    pub fn new() -> (r: ItemInfo<F>)
        ensures
            r.latest == 1,
            r.transition_fns@.len() == 0,
    {
        ItemInfo { latest: 1, transition_fns: Vec::new() }
    }
}

/// The versions of the item types, by label.
pub struct VersionInfo<F>(pub NameMap<ItemInfo<F>>);

/// The migration functions to apply, in order, to properties at `version`: those whose
/// `from_version` is at least `version`.
pub open spec fn upgrade_fns<F>(fns: Seq<TransitionFn<F>>, version: u8) -> Seq<int>
    decreases fns.len(),
{
    if fns.len() == 0 {
        Seq::empty()
    } else if fns.last().from_version >= version {
        upgrade_fns(fns.drop_last(), version).push(fns.len() - 1)
    } else {
        upgrade_fns(fns.drop_last(), version)
    }
}

impl<F> VersionInfo<F> {
    /// No item types.
    pub fn new() -> (r: VersionInfo<F>)
        ensures
            r.0.wf(),
            r.0@ == Map::<Seq<char>, ItemInfo<F>>::empty(),
    {
        VersionInfo(NameMap::new())
    }

    /// The latest version of the items with a label; 1 for an unknown label.
    pub fn get_latest(&self, label: &str) -> (r: u8)
        requires
            self.0.wf(),
        ensures
            self.0@.contains_key(label@) ==> r == self.0@[label@].latest,
            !self.0@.contains_key(label@) ==> r == 1,
    {
        match self.0.get(label) {
            Some(info) => info.latest,
            None => 1,
        }
    }

    /// How an item with `label` at `version` is brought to the latest version: the
    /// positions of the migration functions to apply in order, and the new version.
    /// `None` when the label is unknown or the item is already at the latest version.
    pub fn upgrade_plan(&self, label: &str, version: u8) -> (r: Option<(Vec<usize>, u8)>)
        requires
            self.0.wf(),
        ensures
            !self.0@.contains_key(label@) ==> r is None,
            self.0@.contains_key(label@) && version >= self.0@[label@].latest ==> r is None,
            self.0@.contains_key(label@) && version < self.0@[label@].latest ==> (r matches Some((idx, v))
                && v == self.0@[label@].latest && idx@.map_values(|i: usize| i as int) == upgrade_fns(
                self.0@[label@].transition_fns@,
                version,
            )),
    {
        let info = match self.0.get(label) {
            Some(info) => info,
            None => {
                return None;
            },
        };
        if version >= info.latest {
            return None;
        }
        let mut idx: Vec<usize> = Vec::new();
        let mut i: usize = 0;
        while i < info.transition_fns.len()
            invariant
                i <= info.transition_fns@.len(),
                idx@.map_values(|j: usize| j as int) == upgrade_fns(info.transition_fns@.take(i as int), version),
            decreases info.transition_fns@.len() - i,
        {
            assert(info.transition_fns@.take(i + 1).drop_last() =~= info.transition_fns@.take(i as int));
            if info.transition_fns[i].from_version >= version {
                let ghost before = idx@;
                idx.push(i);
                assert(idx@.map_values(|j: usize| j as int) =~= before.map_values(|j: usize| j as int).push(
                    i as int,
                ));
            }
            i = i + 1;
        }
        assert(info.transition_fns@.take(info.transition_fns@.len() as int) =~= info.transition_fns@);
        Some((idx, info.latest))
    }
}

// ─── upgrading stored items ──────────────────────────────────────────────────

/// Whether `states` is a run of the migration functions at `positions` from `fns`: one
/// more state than positions, each state what the function at the position makes of
/// the state before.
pub open spec fn applied_in_order<F: Fn(PropMap) -> PropMap>(
    fns: Seq<TransitionFn<F>>,
    positions: Seq<int>,
    states: Seq<PropMap>,
) -> bool {
    &&& states.len() == positions.len() + 1
    &&& forall|i: int|
        0 <= i < positions.len() ==> call_ensures(fns[positions[i]].func, (states[i],), #[trigger] states[i + 1])
}

impl<F: Fn(PropMap) -> PropMap> ItemInfo<F> {
    /// Brings the properties of an item at `from_version` to the latest version: the
    /// migration functions whose starting version is at least `from_version` are applied
    /// in order, each to what the one before made.
    pub fn upgrade_props_to_latest(&self, props: PropMap, from_version: u8) -> (r: PropMap)
        requires
            forall|i: int, p: PropMap|
                0 <= i < self.transition_fns@.len() ==> #[trigger] call_requires(self.transition_fns@[i].func, (p,)),
        ensures
            exists|states: Seq<PropMap>|
                applied_in_order(self.transition_fns@, upgrade_fns(self.transition_fns@, from_version), states)
                    && states[0] == props && states.last() == r,
    {
        let ghost fns = self.transition_fns@;
        let mut m = props;
        let ghost mut states: Seq<PropMap> = seq![props];
        let mut i: usize = 0;
        while i < self.transition_fns.len()
            invariant
                fns == self.transition_fns@,
                i <= fns.len(),
                forall|j: int, p: PropMap| 0 <= j < fns.len() ==> #[trigger] call_requires(fns[j].func, (p,)),
                applied_in_order(fns, upgrade_fns(fns.take(i as int), from_version), states),
                states[0] == props,
                states.last() == m,
            decreases fns.len() - i,
        {
            assert(fns.take(i + 1).drop_last() =~= fns.take(i as int));
            assert(fns.take(i + 1).last() == fns[i as int]);
            if self.transition_fns[i].from_version >= from_version {
                let ghost before = states;
                let ghost pos = upgrade_fns(fns.take(i as int), from_version);
                let next = (self.transition_fns[i].func)(m);
                proof {
                    states = before.push(next);
                    lemma_upgrade_fns_positions(fns.take(i as int), from_version);
                    assert(upgrade_fns(fns.take(i + 1), from_version) == pos.push(i as int));
                    assert forall|k: int| 0 <= k < pos.push(i as int).len() implies call_ensures(
                        fns[pos.push(i as int)[k]].func,
                        (states[k],),
                        #[trigger] states[k + 1],
                    ) by {
                        if k < pos.len() {
                            assert(pos.push(i as int)[k] == pos[k]);
                            assert(states[k] == before[k]);
                            assert(states[k + 1] == before[k + 1]);
                        }
                    }
                }
                m = next;
            }
            i = i + 1;
        }
        assert(fns.take(fns.len() as int) =~= fns);
        m
    }
}

/// The positions `upgrade_fns` picks lie within the list.
proof fn lemma_upgrade_fns_positions<F>(fns: Seq<TransitionFn<F>>, version: u8)
    ensures
        forall|k: int| 0 <= k < upgrade_fns(fns, version).len() ==> 0 <= #[trigger] upgrade_fns(fns, version)[k] < fns.len(),
    decreases fns.len(),
{
    if fns.len() > 0 {
        lemma_upgrade_fns_positions(fns.drop_last(), version);
        let prev = upgrade_fns(fns.drop_last(), version);
        assert forall|k: int| 0 <= k < upgrade_fns(fns, version).len() implies 0 <= #[trigger] upgrade_fns(
            fns,
            version,
        )[k] < fns.len() by {
            if k < prev.len() {
                assert(prev[k] < fns.drop_last().len());
            }
        }
    }
}

/// A stored item as the upgrade sees it: its label, the version of its type it was
/// written with, and its properties.
pub struct StoredItem {
    pub label: String,
    pub version: u8,
    pub properties: Option<PropMap>,
}

impl<F: Fn(PropMap) -> PropMap> VersionInfo<F> {
    /// Brings a stored item (a node or an edge) to the latest version of its type: an
    /// item of an unknown type, or already at the latest version, is returned as it is;
    /// otherwise its properties (if any) are upgraded and its version set to the latest.
    pub fn upgrade_item_to_latest(&self, item: StoredItem) -> (r: StoredItem)
        requires
            self.0.wf(),
            forall|l: Seq<char>, i: int, p: PropMap|
                self.0@.contains_key(l) && 0 <= i < self.0@[l].transition_fns@.len() ==> #[trigger] call_requires(
                    self.0@[l].transition_fns@[i].func,
                    (p,),
                ),
        ensures
            r.label@ == item.label@,
            !self.0@.contains_key(item.label@) || item.version >= self.0@[item.label@].latest ==> r == item,
            self.0@.contains_key(item.label@) && item.version < self.0@[item.label@].latest ==> ({
                let info = self.0@[item.label@];
                &&& r.version == info.latest
                &&& item.properties is None ==> r.properties is None
                &&& item.properties matches Some(p) ==> (r.properties matches Some(q) && exists|states: Seq<PropMap>|
                    applied_in_order(info.transition_fns@, upgrade_fns(info.transition_fns@, item.version), states)
                        && states[0] == p && states.last() == q)
            }),
    {
        let info = match self.0.get(item.label.as_str()) {
            Some(info) => info,
            None => {
                return item;
            },
        };
        if item.version >= info.latest {
            return item;
        }
        let latest = info.latest;
        let StoredItem { label, version, properties } = item;
        let properties = match properties {
            Some(p) => Some(info.upgrade_props_to_latest(p, version)),
            None => None,
        };
        StoredItem { label, version: latest, properties }
    }
}

// ─── applying one transition to the stored items ─────────────────────────────

/// The ids, in stored order, of the items (given as id, label and version) of type
/// `label` written at `version`.
pub open spec fn ids_at_version(items: Seq<(u128, String, u8)>, label: Seq<char>, version: u8) -> Seq<u128>
    decreases items.len(),
{
    if items.len() == 0 {
        Seq::empty()
    } else {
        let rest = ids_at_version(items.drop_last(), label, version);
        if items.last().1@ == label && items.last().2 == version {
            rest.push(items.last().0)
        } else {
            rest
        }
    }
}

/// The items a transition rewrites: the ids, in stored order, of those of the
/// transition's type written at its starting version (each label's chain migrates only
/// items of that label). `items` holds the id, label and version of each stored item.
pub fn items_to_migrate<F>(t: &Transition<F>, items: &[(u128, String, u8)]) -> (r: Vec<u128>)
    ensures
        r@ == ids_at_version(items@, t.item_label@, t.from_version),
{
    let mut out: Vec<u128> = Vec::new();
    let mut i: usize = 0;
    while i < items.len()
        invariant
            i <= items@.len(),
            out@ == ids_at_version(items@.subrange(0, i as int), t.item_label@, t.from_version),
        decreases items@.len() - i,
    {
        assert(items@.subrange(0, i + 1).drop_last() =~= items@.subrange(0, i as int));
        if crate::text::str_eq(items[i].1.as_str(), t.item_label) && items[i].2 == t.from_version {
            out.push(items[i].0);
        }
        i = i + 1;
    }
    assert(items@.subrange(0, items@.len() as int) =~= items@);
    out
}

impl<F: Fn(PropMap) -> PropMap> Transition<F> {
    /// Rewrites one stored item: an item of another type, or no longer at the
    /// transition's starting version (a concurrent write upgraded it), is left alone
    /// (`None`); otherwise its properties
    /// (none counting as empty) go through the migration function and it moves to the
    /// transition's target version.
    pub fn migrate_item(&self, item: StoredItem) -> (r: Option<StoredItem>)
        requires
            forall|p: PropMap| #[trigger] call_requires(self.func, (p,)),
        ensures
            item.label@ != self.item_label@ || item.version != self.from_version ==> r is None,
            item.label@ == self.item_label@ && item.version == self.from_version ==> (r matches Some(n) && n.label == item.label
                && n.version == self.to_version && n.properties is Some),
            r matches Some(n) ==> (item.properties matches Some(p) ==> call_ensures(
                self.func,
                (p,),
                n.properties->0,
            )),
            r matches Some(n) ==> (item.properties is None ==> exists|e: PropMap|
                e.entries@.len() == 0 && #[trigger] call_ensures(self.func, (e,), n.properties->0)),
    {
        if !crate::text::str_eq(item.label.as_str(), self.item_label) || item.version != self.from_version {
            return None;
        }
        let ghost before = item.properties;
        let StoredItem { label, version: _, properties } = item;
        let props = match properties {
            Some(p) => p,
            None => PropMap::new(),
        };
        let ghost given = props;
        let next = (self.func)(props);
        let ghost out = next;
        let r = Some(StoredItem { label, version: self.to_version, properties: Some(next) });
        assert(before is None ==> exists|e: PropMap| e.entries@.len() == 0 && #[trigger] call_ensures(
            self.func,
            (e,),
            out,
        )) by {
            if before is None {
                assert(given.entries@.len() == 0 && call_ensures(self.func, (given,), out));
            }
        }
        assert(r matches Some(n) ==> n.properties->0 == out);
        assert(item.properties is None ==> before is None);
        assert(r matches Some(n) ==> (item.properties is None ==> exists|e: PropMap|
                e.entries@.len() == 0 && #[trigger] call_ensures(self.func, (e,), n.properties->0)));
        r
    }
}

// ─── building blocks of migration functions ──────────────────────────────────

/// Moves the value of `old_name` in the old properties to `new_name` in the new ones.
pub fn field_addition_from_old_field(old_props: &mut PropMap, new_props: &mut PropMap, new_name: &str, old_name: &str)
    requires
        old(old_props).wf(),
        old(new_props).wf(),
        old(old_props)@.contains_key(old_name@),
    ensures
        final(old_props).wf(),
        final(new_props).wf(),
        final(old_props)@ == old(old_props)@.remove(old_name@),
        final(new_props)@ == old(new_props)@.insert(new_name@, old(old_props)@[old_name@]),
{
    let v = old_props.remove(old_name);
    match v {
        Some(value) => new_props.insert(to_owned_string(new_name), value),
        None => {},
    }
}

/// Sets `name` in the new properties to a value.
pub fn field_addition_from_value(new_props: &mut PropMap, new_field_name: &str, value: Value)
    requires
        old(new_props).wf(),
    ensures
        final(new_props).wf(),
        final(new_props)@ == old(new_props)@.insert(new_field_name@, value@),
{
    new_props.insert(to_owned_string(new_field_name), value);
}

/// The types a field can be cast to.
#[derive(Debug, Clone, Copy, PartialEq, Eq, Structural)]
pub enum CastType {
    String,
    Boolean,
    I32,
    I64,
    U32,
    U64,
    U128,
}

/// The text of a boolean.
pub open spec fn bool_text(b: bool) -> Seq<char> {
    if b {
        seq!['t', 'r', 'u', 'e']
    } else {
        seq!['f', 'a', 'l', 's', 'e']
    }
}

/// A value cast to another type: a value of that type is kept, a text is parsed as
/// that type (as `str::parse` does), a number or boolean cast to `String` becomes its
/// text, and anything else becomes `Empty`.
pub open spec fn cast_spec(v: ValueV, to: CastType) -> ValueV {
    match to {
        CastType::String => match v {
            ValueV::String(s) => ValueV::String(s),
            ValueV::Boolean(b) => ValueV::String(bool_text(b)),
            ValueV::I32(n) => ValueV::String(signed_decimal(n as int)),
            ValueV::I64(n) => ValueV::String(signed_decimal(n as int)),
            ValueV::U32(n) => ValueV::String(decimal(n as nat)),
            ValueV::U64(n) => ValueV::String(decimal(n as nat)),
            ValueV::U128(n) => ValueV::String(decimal(n as nat)),
            _ => ValueV::Empty,
        },
        CastType::Boolean => match v {
            ValueV::Boolean(b) => ValueV::Boolean(b),
            ValueV::String(s) => match parse_bool_spec(s) {
                Some(b) => ValueV::Boolean(b),
                None => ValueV::Empty,
            },
            _ => ValueV::Empty,
        },
        CastType::I32 => match v {
            ValueV::I32(n) => ValueV::I32(n),
            ValueV::String(s) => match parse_signed(s, i32::MIN as int, i32::MAX as int) {
                Some(n) => ValueV::I32(n as i32),
                None => ValueV::Empty,
            },
            _ => ValueV::Empty,
        },
        CastType::I64 => match v {
            ValueV::I64(n) => ValueV::I64(n),
            ValueV::String(s) => match parse_signed(s, i64::MIN as int, i64::MAX as int) {
                Some(n) => ValueV::I64(n as i64),
                None => ValueV::Empty,
            },
            _ => ValueV::Empty,
        },
        CastType::U32 => match v {
            ValueV::U32(n) => ValueV::U32(n),
            ValueV::String(s) => match parse_unsigned(s, u32::MAX as nat) {
                Some(n) => ValueV::U32(n as u32),
                None => ValueV::Empty,
            },
            _ => ValueV::Empty,
        },
        CastType::U64 => match v {
            ValueV::U64(n) => ValueV::U64(n),
            ValueV::String(s) => match parse_unsigned(s, u64::MAX as nat) {
                Some(n) => ValueV::U64(n as u64),
                None => ValueV::Empty,
            },
            _ => ValueV::Empty,
        },
        CastType::U128 => match v {
            ValueV::U128(n) => ValueV::U128(n),
            ValueV::String(s) => match parse_unsigned(s, u128::MAX as nat) {
                Some(n) => ValueV::U128(n as u128),
                None => ValueV::Empty,
            },
            _ => ValueV::Empty,
        },
    }
}

fn bool_string(b: bool) -> (s: String)
    ensures
        s@ == bool_text(b),
{
    let s = if b {
        to_owned_string("true")
    } else {
        to_owned_string("false")
    };
    proof {
        reveal_strlit("true");
        reveal_strlit("false");
    }
    s
}

/// Casts a value to another type (see [`cast_spec`]).
pub fn cast(v: Value, to: CastType) -> (r: Value)
    ensures
        r@ == cast_spec(v@, to),
{
    match to {
        CastType::String => match v {
            Value::String(s) => Value::String(s),
            Value::Boolean(b) => Value::String(bool_string(b)),
            Value::I32(n) => Value::String(i64_to_decimal(n as i64)),
            Value::I64(n) => Value::String(i64_to_decimal(n)),
            Value::U32(n) => Value::String(u64_to_decimal(n as u64)),
            Value::U64(n) => Value::String(u64_to_decimal(n)),
            Value::U128(n) => Value::String(crate::text::u128_to_decimal(n)),
            _ => Value::Empty,
        },
        CastType::Boolean => match v {
            Value::Boolean(b) => Value::Boolean(b),
            Value::String(s) => match parse_bool(s.as_str()) {
                Some(b) => Value::Boolean(b),
                None => Value::Empty,
            },
            _ => Value::Empty,
        },
        CastType::I32 => match v {
            Value::I32(n) => Value::I32(n),
            Value::String(s) => match parse_i32(s.as_str()) {
                Some(n) => Value::I32(n),
                None => Value::Empty,
            },
            _ => Value::Empty,
        },
        CastType::I64 => match v {
            Value::I64(n) => Value::I64(n),
            Value::String(s) => match parse_i64(s.as_str()) {
                Some(n) => Value::I64(n),
                None => Value::Empty,
            },
            _ => Value::Empty,
        },
        CastType::U32 => match v {
            Value::U32(n) => Value::U32(n),
            Value::String(s) => match parse_u32(s.as_str()) {
                Some(n) => Value::U32(n),
                None => Value::Empty,
            },
            _ => Value::Empty,
        },
        CastType::U64 => match v {
            Value::U64(n) => Value::U64(n),
            Value::String(s) => match parse_u64(s.as_str()) {
                Some(n) => Value::U64(n),
                None => Value::Empty,
            },
            _ => Value::Empty,
        },
        CastType::U128 => match v {
            Value::U128(n) => Value::U128(n),
            Value::String(s) => match parse_u128(s.as_str()) {
                Some(n) => Value::U128(n),
                None => Value::Empty,
            },
            _ => Value::Empty,
        },
    }
}

/// Moves the value of `field` from the old properties to the new ones, cast to a type.
pub fn field_type_cast(old_props: &mut PropMap, new_props: &mut PropMap, field_to_cast: &str, to: CastType)
    requires
        old(old_props).wf(),
        old(new_props).wf(),
        old(old_props)@.contains_key(field_to_cast@),
    ensures
        final(old_props).wf(),
        final(new_props).wf(),
        final(old_props)@ == old(old_props)@.remove(field_to_cast@),
        final(new_props)@ == old(new_props)@.insert(
            field_to_cast@,
            cast_spec(old(old_props)@[field_to_cast@], to),
        ),
{
    let v = old_props.remove(field_to_cast);
    match v {
        Some(value) => new_props.insert(to_owned_string(field_to_cast), cast(value, to)),
        None => {},
    }
}


// ─── the plan of a migration run ─────────────────────────────────────────────

/// The labels of a list of transitions, each once, in order of first appearance.
pub open spec fn labels_of<F>(ts: Seq<Transition<F>>) -> Seq<Seq<char>>
    decreases ts.len(),
{
    if ts.len() == 0 {
        Seq::empty()
    } else {
        let p = labels_of(ts.drop_last());
        if p.contains(ts.last().item_label@) {
            p
        } else {
            p.push(ts.last().item_label@)
        }
    }
}

/// The positions below `n` of the transitions of `label` that start at version `v`, in order.
pub open spec fn starting_at<F>(ts: Seq<Transition<F>>, label: Seq<char>, v: int, n: int) -> Seq<int>
    decreases n,
{
    if n <= 0 {
        Seq::empty()
    } else {
        let p = starting_at(ts, label, v, n - 1);
        if ts[n - 1].item_label@ == label && ts[n - 1].from_version == v {
            p.push(n - 1)
        } else {
            p
        }
    }
}

/// The positions of the transitions of `label` that start below version `v`, ordered by
/// starting version and, for equal versions, by position.
pub open spec fn chain_upto<F>(ts: Seq<Transition<F>>, label: Seq<char>, v: int) -> Seq<int>
    decreases v,
{
    if v <= 0 {
        Seq::empty()
    } else {
        chain_upto(ts, label, v - 1) + starting_at(ts, label, v - 1, ts.len() as int)
    }
}

/// The chain of `label`: the positions of its transitions, sorted stably by starting version.
pub open spec fn chain_of<F>(ts: Seq<Transition<F>>, label: Seq<char>) -> Seq<int> {
    chain_upto(ts, label, 256)
}

/// Where the first `k` transitions of a chain first fail to connect: the `m` at which
/// the transition at `c[m]` does not end where the one at `c[m + 1]` starts.
pub open spec fn chain_gap<F>(ts: Seq<Transition<F>>, c: Seq<int>, k: int) -> Option<int>
    decreases k,
{
    if k < 2 {
        None
    } else {
        match chain_gap(ts, c, k - 1) {
            Some(m) => Some(m),
            None => if ts[c[k - 2]].to_version != ts[c[k - 1]].from_version {
                Some(k - 2)
            } else {
                None
            },
        }
    }
}

/// The name a migration is recorded under: `<label>_v<from>_v<to>`.
pub open spec fn migration_name_spec(label: Seq<char>, from: u8, to: u8) -> Seq<char> {
    label + "_v"@ + decimal(from as nat) + "_v"@ + decimal(to as nat)
}

/// What `DefaultHasher::new()` gives after hashing the label, then the two versions.
pub uninterp spec fn checksum_of(label: Seq<char>, from: u8, to: u8) -> u64;

/// The checksum of a migration: the label and the two versions hashed, in that order,
/// with `DefaultHasher::new()` (a hasher with fixed keys, so the same values give the
/// same checksum in every run of one build). The value is named by [`checksum_of`];
/// what the hash algorithm computes is not stated.
#[verifier::external_body]
fn compute_checksum(label: &str, from: u8, to: u8) -> (r: u64)
    ensures
        r == checksum_of(label@, from, to),
{
    let mut h = std::collections::hash_map::DefaultHasher::new();
    std::hash::Hash::hash(label, &mut h);
    std::hash::Hash::hash(&from, &mut h);
    std::hash::Hash::hash(&to, &mut h);
    std::hash::Hasher::finish(&h)
}

/// The name a migration is recorded under.
pub fn migration_name(label: &str, from: u8, to: u8) -> (r: String)
    ensures
        r@ == migration_name_spec(label@, from, to),
{
    let mut s = to_owned_string(label);
    push_str(&mut s, "_v");
    push_decimal(&mut s, from as u128);
    push_str(&mut s, "_v");
    push_decimal(&mut s, to as u128);
    s
}

/// One migration to run: the position of its transition, the name it is recorded
/// under and its checksum.
#[derive(Debug)]
pub struct PlannedMigration {
    pub index: usize,
    pub name: String,
    pub checksum: u64,
}

/// The content of a [`PlannedMigration`].
pub struct PlannedMigrationV {
    pub index: int,
    pub name: Seq<char>,
    pub checksum: u64,
}

impl View for PlannedMigration {
    type V = PlannedMigrationV;

    open spec fn view(&self) -> PlannedMigrationV {
        PlannedMigrationV { index: self.index as int, name: self.name@, checksum: self.checksum }
    }
}

/// The planned migration of the transition at position `i`.
pub open spec fn planned_spec<F>(ts: Seq<Transition<F>>, i: int) -> PlannedMigrationV {
    PlannedMigrationV {
        index: i,
        name: migration_name_spec(ts[i].item_label@, ts[i].from_version, ts[i].to_version),
        checksum: checksum_of(ts[i].item_label@, ts[i].from_version, ts[i].to_version),
    }
}

/// Builds the planned migration of a transition, given its checksum.
pub fn planned_migration<F>(t: &Transition<F>, index: usize, checksum: u64) -> (r: PlannedMigration)
    ensures
        r@ == (PlannedMigrationV {
            index: index as int,
            name: migration_name_spec(t.item_label@, t.from_version, t.to_version),
            checksum,
        }),
{
    PlannedMigration { index, name: migration_name(t.item_label, t.from_version, t.to_version), checksum }
}

/// Two transitions of one label that do not connect.
#[derive(Debug)]
pub struct ChainGap {
    pub label: String,
    pub prev_from: u8,
    pub prev_to: u8,
    pub next_from: u8,
    pub next_to: u8,
}

/// The content of a [`ChainGap`].
pub struct ChainGapV {
    pub label: Seq<char>,
    pub prev_from: u8,
    pub prev_to: u8,
    pub next_from: u8,
    pub next_to: u8,
}

impl View for ChainGap {
    type V = ChainGapV;

    open spec fn view(&self) -> ChainGapV {
        ChainGapV {
            label: self.label@,
            prev_from: self.prev_from,
            prev_to: self.prev_to,
            next_from: self.next_from,
            next_to: self.next_to,
        }
    }
}

impl ChainGap {
    /// The error text of the gap: `Migration chain gap for '<label>': <a> → <b> is not
    /// contiguous with <c> → <d>`.
    pub fn message(&self) -> (r: String)
        ensures
            r@ == "Migration chain gap for '"@ + self.label@ + "': "@ + decimal(self.prev_from as nat) + " → "@
                + decimal(self.prev_to as nat) + " is not contiguous with "@ + decimal(self.next_from as nat)
                + " → "@ + decimal(self.next_to as nat),
    {
        let mut s = to_owned_string("Migration chain gap for '");
        push_str(&mut s, self.label.as_str());
        push_str(&mut s, "': ");
        push_decimal(&mut s, self.prev_from as u128);
        push_str(&mut s, " → ");
        push_decimal(&mut s, self.prev_to as u128);
        push_str(&mut s, " is not contiguous with ");
        push_decimal(&mut s, self.next_from as u128);
        push_str(&mut s, " → ");
        push_decimal(&mut s, self.next_to as u128);
        s
    }
}

/// Adds the migrations of one label, or fails at the first gap of its chain.
pub open spec fn plan_label_step<F>(ts: Seq<Transition<F>>, acc: Seq<PlannedMigrationV>, label: Seq<char>) -> Result<
    Seq<PlannedMigrationV>,
    ChainGapV,
> {
    let c = chain_of(ts, label);
    match chain_gap(ts, c, c.len() as int) {
        Some(m) => Err(
            ChainGapV {
                label,
                prev_from: ts[c[m]].from_version,
                prev_to: ts[c[m]].to_version,
                next_from: ts[c[m + 1]].from_version,
                next_to: ts[c[m + 1]].to_version,
            },
        ),
        None => Ok(acc + c.map_values(|i: int| planned_spec(ts, i))),
    }
}

/// [`plan_label_step`] as a function value.
pub open spec fn plan_label_stepper<F>(ts: Seq<Transition<F>>) -> spec_fn(Seq<PlannedMigrationV>, Seq<char>) -> Result<
    Seq<PlannedMigrationV>,
    ChainGapV,
> {
    |acc: Seq<PlannedMigrationV>, label: Seq<char>| plan_label_step(ts, acc, label)
}

/// The highest version any transition leads to (0 for none).
pub open spec fn max_to<F>(ts: Seq<Transition<F>>) -> u8
    decreases ts.len(),
{
    if ts.len() == 0 {
        0
    } else if ts.last().to_version > max_to(ts.drop_last()) {
        ts.last().to_version
    } else {
        max_to(ts.drop_last())
    }
}

/// The migrations to run: label by label (in order of first appearance), each label's
/// transitions sorted stably by starting version; a chain whose transitions do not
/// connect is an error. The schema version after the run is `v<highest target version>`.
/// `None` when there are no transitions (nothing to do).
pub open spec fn plan_spec<F>(ts: Seq<Transition<F>>) -> Result<
    Option<(Seq<PlannedMigrationV>, Seq<char>)>,
    ChainGapV,
> {
    if ts.len() == 0 {
        Ok(None)
    } else {
        match crate::folds::fold_list(labels_of(ts), Seq::empty(), plan_label_stepper(ts)) {
            Err(g) => Err(g),
            Ok(steps) => Ok(Some((steps, "v"@ + decimal(max_to(ts) as nat)))),
        }
    }
}

/// When the first `k` transitions of a chain show no gap, each of them ends where the
/// next one starts.
pub proof fn lemma_no_gap_connects<F>(ts: Seq<Transition<F>>, c: Seq<int>, k: int)
    requires
        chain_gap(ts, c, k) is None,
    ensures
        forall|j: int| 0 <= j && j + 1 < k ==> #[trigger] ts[c[j]].to_version == ts[c[j + 1]].from_version,
    decreases k,
{
    if k >= 2 {
        lemma_no_gap_connects(ts, c, k - 1);
    }
}

/// When the labels were planned without error, no label's chain has a gap.
proof fn lemma_planned_labels_have_no_gap<F>(ts: Seq<Transition<F>>, labels: Seq<Seq<char>>)
    requires
        crate::folds::fold_list(labels, Seq::empty(), plan_label_stepper(ts)) is Ok,
    ensures
        forall|i: int| 0 <= i < labels.len() ==> chain_gap(ts, #[trigger] chain_of(ts, labels[i]), chain_of(ts, labels[i]).len() as int) is None,
    decreases labels.len(),
{
    if labels.len() > 0 {
        lemma_planned_labels_have_no_gap(ts, labels.drop_last());
        let c = chain_of(ts, labels.last());
        assert(chain_gap(ts, c, c.len() as int) is None);
        assert forall|i: int| 0 <= i < labels.len() implies chain_gap(ts, #[trigger] chain_of(ts, labels[i]), chain_of(ts, labels[i]).len() as int) is None by {
            if i < labels.len() - 1 {
                assert(labels.drop_last()[i] == labels[i]);
            }
        }
    }
}

/// A migration run is only planned over contiguous chains: when the plan succeeds, each
/// transition of a label ends at the version the label's next transition starts from.
pub proof fn lemma_planned_chains_are_contiguous<F>(ts: Seq<Transition<F>>, label: Seq<char>)
    requires
        plan_spec(ts) is Ok,
        labels_of(ts).contains(label),
    ensures
        forall|j: int|
            0 <= j && j + 1 < chain_of(ts, label).len() ==> #[trigger] ts[chain_of(ts, label)[j]].to_version
                == ts[chain_of(ts, label)[j + 1]].from_version,
{
    lemma_labels_of_empty(ts);
    lemma_planned_labels_have_no_gap(ts, labels_of(ts));
    let i = labels_of(ts).index_of(label);
    let c = chain_of(ts, label);
    assert(chain_gap(ts, chain_of(ts, labels_of(ts)[i]), chain_of(ts, labels_of(ts)[i]).len() as int) is None);
    lemma_no_gap_connects(ts, c, c.len() as int);
}

/// No transitions, no labels.
proof fn lemma_labels_of_empty<F>(ts: Seq<Transition<F>>)
    ensures
        ts.len() == 0 ==> labels_of(ts) == Seq::<Seq<char>>::empty(),
{
}

/// The content of a list of planned migrations.
pub open spec fn planned_view(v: Seq<PlannedMigration>) -> Seq<PlannedMigrationV> {
    v.map_values(|p: PlannedMigration| p@)
}

/// The positions of a list, as integers.
pub open spec fn positions(v: Seq<usize>) -> Seq<int> {
    v.map_values(|i: usize| i as int)
}

fn label_seen(labels: &Vec<&'static str>, label: &str) -> (r: bool)
    ensures
        r == labels@.map_values(|l: &'static str| l@).contains(label@),
{
    let mut i: usize = 0;
    while i < labels.len()
        invariant
            i <= labels@.len(),
            forall|j: int| 0 <= j < i ==> labels@[j]@ != label@,
        decreases labels@.len() - i,
    {
        if crate::text::str_eq(labels[i], label) {
            assert(labels@.map_values(|l: &'static str| l@)[i as int] == label@);
            return true;
        }
        i = i + 1;
    }
    proof {
        let lv = labels@.map_values(|l: &'static str| l@);
        if lv.contains(label@) {
            let j = choose|j: int| 0 <= j < lv.len() && lv[j] == label@;
            assert(labels@[j]@ == label@);
        }
    }
    false
}

fn labels_in_order<F>(ts: &[Transition<F>]) -> (r: Vec<&'static str>)
    ensures
        r@.map_values(|l: &'static str| l@) == labels_of(ts@),
{
    let mut out: Vec<&'static str> = Vec::new();
    let mut i: usize = 0;
    while i < ts.len()
        invariant
            i <= ts@.len(),
            out@.map_values(|l: &'static str| l@) == labels_of(ts@.take(i as int)),
        decreases ts@.len() - i,
    {
        assert(ts@.take(i + 1).drop_last() =~= ts@.take(i as int));
        if !label_seen(&out, ts[i].item_label) {
            let ghost before = out@;
            out.push(ts[i].item_label);
            assert(out@.map_values(|l: &'static str| l@) =~= before.map_values(|l: &'static str| l@).push(
                ts@[i as int].item_label@,
            ));
        }
        i = i + 1;
    }
    assert(ts@.take(ts@.len() as int) =~= ts@);
    out
}

fn chain_for<F>(ts: &[Transition<F>], label: &str) -> (c: Vec<usize>)
    ensures
        positions(c@) == chain_of(ts@, label@),
        forall|k: int| 0 <= k < c@.len() ==> c@[k] < ts@.len(),
{
    let mut c: Vec<usize> = Vec::new();
    let mut v: u16 = 0;
    assert(positions(c@) =~= Seq::<int>::empty());
    while v < 256
        invariant
            v <= 256,
            positions(c@) == chain_upto(ts@, label@, v as int),
            forall|k: int| 0 <= k < c@.len() ==> c@[k] < ts@.len(),
        decreases 256 - v,
    {
        let mut i: usize = 0;
        let ghost base = positions(c@);
        assert(base + starting_at(ts@, label@, v as int, 0) =~= base);
        while i < ts.len()
            invariant
                i <= ts@.len(),
                v < 256,
                base == chain_upto(ts@, label@, v as int),
                positions(c@) == base + starting_at(ts@, label@, v as int, i as int),
                forall|k: int| 0 <= k < c@.len() ==> c@[k] < ts@.len(),
            decreases ts@.len() - i,
        {
            if ts[i].from_version as u16 == v && crate::text::str_eq(ts[i].item_label, label) {
                let ghost before = c@;
                c.push(i);
                assert(positions(c@) =~= positions(before).push(i as int));
            }
            i = i + 1;
        }
        v = v + 1;
    }
    c
}

proof fn lemma_chain_gap_stable<F>(ts: Seq<Transition<F>>, c: Seq<int>, k: int, n: int)
    requires
        k <= n,
        chain_gap(ts, c, k) is Some,
    ensures
        chain_gap(ts, c, n) == chain_gap(ts, c, k),
    decreases n - k,
{
    if k < n {
        lemma_chain_gap_stable(ts, c, k, n - 1);
    }
}

fn first_gap_in<F>(ts: &[Transition<F>], c: &Vec<usize>) -> (r: Option<usize>)
    requires
        forall|k: int| 0 <= k < c@.len() ==> c@[k] < ts@.len(),
    ensures
        r matches Some(m) ==> m + 1 < c@.len() && chain_gap(ts@, positions(c@), c@.len() as int) == Some(m as int),
        r is None ==> chain_gap(ts@, positions(c@), c@.len() as int) is None,
{
    if c.len() < 2 {
        return None;
    }
    let ghost p = positions(c@);
    let mut j: usize = 0;
    while j < c.len() - 1
        invariant
            j <= c@.len() - 1,
            c@.len() >= 2,
            p == positions(c@),
            forall|i: int| 0 <= i < c@.len() ==> c@[i] < ts@.len(),
            chain_gap(ts@, p, j + 1) is None,
        decreases c@.len() - 1 - j,
    {
        assert(p[j as int] == c@[j as int] as int);
        assert(p[j + 1] == c@[j + 1] as int);
        if ts[c[j]].to_version != ts[c[j + 1]].from_version {
            proof {
                assert(chain_gap(ts@, p, j + 2) == Some(j as int));
                lemma_chain_gap_stable(ts@, p, j + 2, c@.len() as int);
            }
            return Some(j);
        }
        j = j + 1;
    }
    None
}

fn max_target<F>(ts: &[Transition<F>]) -> (m: u8)
    ensures
        m == max_to(ts@),
{
    let mut m: u8 = 0;
    let mut i: usize = 0;
    while i < ts.len()
        invariant
            i <= ts@.len(),
            m == max_to(ts@.take(i as int)),
        decreases ts@.len() - i,
    {
        assert(ts@.take(i + 1).drop_last() =~= ts@.take(i as int));
        if ts[i].to_version > m {
            m = ts[i].to_version;
        }
        i = i + 1;
    }
    assert(ts@.take(ts@.len() as int) =~= ts@);
    m
}

/// The content of a plan result.
pub open spec fn plan_res(r: Result<Option<(Vec<PlannedMigration>, String)>, ChainGap>) -> Result<
    Option<(Seq<PlannedMigrationV>, Seq<char>)>,
    ChainGapV,
> {
    match r {
        Ok(None) => Ok(None),
        Ok(Some((steps, version))) => Ok(Some((planned_view(steps@), version@))),
        Err(g) => Err(g@),
    }
}

/// Plans a migration run over the given transitions (see [`plan_spec`]).
pub fn plan_schema_migrations<F>(transitions: &[Transition<F>]) -> (r: Result<
    Option<(Vec<PlannedMigration>, String)>,
    ChainGap,
>)
    ensures
        plan_res(r) == plan_spec(transitions@),
{
    if transitions.len() == 0 {
        return Ok(None);
    }
    let labels = labels_in_order(transitions);
    let ghost lv = labels@.map_values(|l: &'static str| l@);
    let ghost step = plan_label_stepper(transitions@);
    let mut steps: Vec<PlannedMigration> = Vec::new();
    assert(planned_view(steps@) =~= Seq::<PlannedMigrationV>::empty());
    let mut li: usize = 0;
    while li < labels.len()
        invariant
            li <= labels@.len(),
            lv == labels@.map_values(|l: &'static str| l@),
            lv == labels_of(transitions@),
            step == plan_label_stepper(transitions@),
            crate::folds::fold_list(lv.take(li as int), Seq::empty(), step) == Ok::<
                Seq<PlannedMigrationV>,
                ChainGapV,
            >(planned_view(steps@)),
        decreases labels@.len() - li,
    {
        proof {
            crate::folds::lemma_list_next(lv, Seq::empty(), step, li as int);
        }
        let label = labels[li];
        assert(lv[li as int] == label@);
        let c = chain_for(transitions, label);
        match first_gap_in(transitions, &c) {
            Some(m) => {
                let prev = &transitions[c[m]];
                let next = &transitions[c[m + 1]];
                proof {
                    crate::folds::lemma_list_stops(lv, Seq::empty(), step, li + 1);
                }
                return Err(
                    ChainGap {
                        label: to_owned_string(label),
                        prev_from: prev.from_version,
                        prev_to: prev.to_version,
                        next_from: next.from_version,
                        next_to: next.to_version,
                    },
                );
            },
            None => {},
        }
        let ghost acc = planned_view(steps@);
        let mut k: usize = 0;
        while k < c.len()
            invariant
                k <= c@.len(),
                forall|j: int| 0 <= j < c@.len() ==> c@[j] < transitions@.len(),
                planned_view(steps@) == acc + positions(c@).take(k as int).map_values(
                    |i: int| planned_spec(transitions@, i),
                ),
            decreases c@.len() - k,
        {
            let t = &transitions[c[k]];
            let checksum = compute_checksum(t.item_label, t.from_version, t.to_version);
            let ghost before = steps@;
            steps.push(planned_migration(t, c[k], checksum));
            assert(positions(c@).take(k + 1) =~= positions(c@).take(k as int).push(c@[k as int] as int));
            assert(planned_view(steps@) =~= planned_view(before).push(planned_spec(transitions@, c@[k as int] as int)));
            assert(positions(c@).take(k + 1).map_values(|i: int| planned_spec(transitions@, i))
                =~= positions(c@).take(k as int).map_values(|i: int| planned_spec(transitions@, i)).push(
                planned_spec(transitions@, c@[k as int] as int),
            ));
            k = k + 1;
        }
        assert(positions(c@).take(c@.len() as int) =~= positions(c@));
        li = li + 1;
    }
    proof {
        crate::folds::lemma_list_all(lv, Seq::empty(), step);
    }
    let mut version = to_owned_string("v");
    push_decimal(&mut version, max_target(transitions) as u128);
    proof {
        reveal_strlit("v");
    }
    Ok(Some((steps, version)))
}


// ─── migration reports ───────────────────────────────────────────────────────

/// Entries separated by commas.
pub open spec fn joined(entries: Seq<Seq<char>>) -> Seq<char>
    decreases entries.len(),
{
    if entries.len() == 0 {
        Seq::empty()
    } else if entries.len() == 1 {
        entries[0]
    } else {
        joined(entries.drop_last()) + ","@ + entries.last()
    }
}

/// `true` or `false`.
pub open spec fn bool_word(b: bool) -> Seq<char> {
    if b {
        "true"@
    } else {
        "false"@
    }
}

/// The status name reported for a migration: from its record, `NotRun` without one.
pub open spec fn status_word(record: Option<MigrationRecord>) -> Seq<char> {
    match record {
        Some(r) => match r.status {
            MigrationStatus::Complete => "Complete"@,
            MigrationStatus::InProgress => "InProgress"@,
        },
        None => "NotRun"@,
    }
}

/// The status entry of one transition: its migration name, the status of its record,
/// and the record's time, checksum and reversibility (0, 0 and `false` without one).
pub open spec fn status_entry_spec<F>(t: Transition<F>, record: Option<MigrationRecord>) -> Seq<char> {
    let (applied_at, checksum, reversible) = match record {
        Some(r) => (r.applied_at, r.checksum, r.reversible),
        None => (0u64, 0u64, false),
    };
    "{\"name\":\""@ + migration_name_spec(t.item_label@, t.from_version, t.to_version) + "\",\"status\":\""@
        + status_word(record) + "\",\"applied_at\":"@ + decimal(applied_at as nat) + ",\"checksum\":"@ + decimal(
        checksum as nat,
    ) + ",\"reversible\":"@ + bool_word(reversible) + "}"@
}

/// The list entry of one transition: its label, versions and reversibility.
pub open spec fn list_entry_spec<F>(t: Transition<F>) -> Seq<char> {
    "{\"label\":\""@ + t.item_label@ + "\",\"from_version\":"@ + decimal(t.from_version as nat)
        + ",\"to_version\":"@ + decimal(t.to_version as nat) + ",\"reversible\":"@ + bool_word(t.reversible)
        + "}"@
}

fn push_bool_word(s: &mut String, b: bool)
    ensures
        final(s)@ == old(s)@ + bool_word(b),
{
    if b {
        push_str(s, "true");
    } else {
        push_str(s, "false");
    }
}

fn push_status_entry<F>(s: &mut String, t: &Transition<F>, record: Option<MigrationRecord>)
    ensures
        final(s)@ == old(s)@ + status_entry_spec(*t, record),
{
    let ghost start = s@;
    push_str(s, "{\"name\":\"");
    let name = migration_name(t.item_label, t.from_version, t.to_version);
    push_str(s, name.as_str());
    push_str(s, "\",\"status\":\"");
    match record {
        Some(r) => match r.status {
            MigrationStatus::Complete => push_str(s, "Complete"),
            MigrationStatus::InProgress => push_str(s, "InProgress"),
        },
        None => push_str(s, "NotRun"),
    }
    let (applied_at, checksum, reversible) = match record {
        Some(r) => (r.applied_at, r.checksum, r.reversible),
        None => (0u64, 0u64, false),
    };
    push_str(s, "\",\"applied_at\":");
    push_decimal(s, applied_at as u128);
    push_str(s, ",\"checksum\":");
    push_decimal(s, checksum as u128);
    push_str(s, ",\"reversible\":");
    push_bool_word(s, reversible);
    push_str(s, "}");
    assert(s@ =~= start + status_entry_spec(*t, record));
}

fn push_list_entry<F>(s: &mut String, t: &Transition<F>)
    ensures
        final(s)@ == old(s)@ + list_entry_spec(*t),
{
    let ghost start = s@;
    push_str(s, "{\"label\":\"");
    push_str(s, t.item_label);
    push_str(s, "\",\"from_version\":");
    push_decimal(s, t.from_version as u128);
    push_str(s, ",\"to_version\":");
    push_decimal(s, t.to_version as u128);
    push_str(s, ",\"reversible\":");
    push_bool_word(s, t.reversible);
    push_str(s, "}");
    assert(s@ =~= start + list_entry_spec(*t));
}

/// The status entries of the transitions, each with the record stored for it.
pub open spec fn status_entries<F>(ts: Seq<Transition<F>>, records: Seq<Option<MigrationRecord>>) -> Seq<Seq<char>> {
    Seq::new(ts.len(), |i: int| status_entry_spec(ts[i], records[i]))
}

/// The list entries of the transitions.
pub open spec fn list_entries<F>(ts: Seq<Transition<F>>) -> Seq<Seq<char>> {
    Seq::new(ts.len(), |i: int| list_entry_spec(ts[i]))
}

/// The body of `migrate_status`: a JSON array with the status of each transition, given
/// the record stored under each one's migration name (`records[i]` for `transitions[i]`).
pub fn migrate_status_body<F>(transitions: &[Transition<F>], records: &[Option<MigrationRecord>]) -> (r: String)
    requires
        transitions@.len() == records@.len(),
    ensures
        r@ == "["@ + joined(status_entries(transitions@, records@)) + "]"@,
{
    let ghost entries = status_entries(transitions@, records@);
    let mut s = to_owned_string("[");
    let mut i: usize = 0;
    while i < transitions.len()
        invariant
            i <= transitions@.len(),
            transitions@.len() == records@.len(),
            entries == status_entries(transitions@, records@),
            s@ == "["@ + joined(entries.take(i as int)),
        decreases transitions@.len() - i,
    {
        let ghost before = s@;
        assert(entries.take(i + 1).drop_last() =~= entries.take(i as int));
        if i > 0 {
            push_str(&mut s, ",");
        }
        push_status_entry(&mut s, &transitions[i], records[i]);
        assert(s@ =~= "["@ + joined(entries.take(i + 1)));
        i = i + 1;
    }
    assert(entries.take(transitions@.len() as int) =~= entries);
    push_str(&mut s, "]");
    s
}

/// The body of `migrate_list`: a JSON array describing each transition.
pub fn migrate_list_body<F>(transitions: &[Transition<F>]) -> (r: String)
    ensures
        r@ == "["@ + joined(list_entries(transitions@)) + "]"@,
{
    let ghost entries = list_entries(transitions@);
    let mut s = to_owned_string("[");
    let mut i: usize = 0;
    while i < transitions.len()
        invariant
            i <= transitions@.len(),
            entries == list_entries(transitions@),
            s@ == "["@ + joined(entries.take(i as int)),
        decreases transitions@.len() - i,
    {
        assert(entries.take(i + 1).drop_last() =~= entries.take(i as int));
        if i > 0 {
            push_str(&mut s, ",");
        }
        push_list_entry(&mut s, &transitions[i]);
        assert(s@ =~= "["@ + joined(entries.take(i + 1)));
        i = i + 1;
    }
    assert(entries.take(transitions@.len() as int) =~= entries);
    push_str(&mut s, "]");
    s
}


// ─── running the migrations ──────────────────────────────────────────────────

/// What a migration run asks its host to do next.
#[derive(Debug)]
pub enum MigrationAction {
    /// Read the record stored under a migration name.
    ReadRecord { name: String },
    /// Store a record saying the migration has started.
    MarkInProgress { name: String, record: MigrationRecord },
    /// Apply the transition at this position to every node, then every edge, of its type
    /// and still at its starting version (see `items_to_migrate` and `migrate_item`).
    ApplyTransition { index: usize },
    /// Store the record of the completed migration, stamped with the current time.
    MarkComplete { name: String, checksum: u64 },
    /// Save the storage metadata with this schema version, keeping the stored byte order
    /// of vectors (the machine's own when none is stored).
    SaveSchemaVersion { schema_version: String },
    /// The run is over: with success, or with the first failure.
    Finished(Result<(), String>),
}

/// What the host reports back.
#[derive(Debug)]
pub enum MigrationEvent {
    /// The record read (`None` when the migration never ran).
    Record(Option<MigrationRecord>),
    /// The requested write or transition succeeded.
    Done,
    /// The requested work failed.
    Failed(String),
}

/// Where a run is.
#[derive(Debug, Clone, Copy, PartialEq, Eq, Structural)]
pub enum RunStage {
    Reading,
    MarkingInProgress,
    Applying,
    MarkingComplete,
    SavingVersion,
    Over,
}

/// The content of a [`MigrationAction`].
pub enum MigrationActionV {
    ReadRecord { name: Seq<char> },
    MarkInProgress { name: Seq<char>, record: MigrationRecord },
    ApplyTransition { index: int },
    MarkComplete { name: Seq<char>, checksum: u64 },
    SaveSchemaVersion { schema_version: Seq<char> },
    Finished(Result<(), Seq<char>>),
}

/// The content of a migration action.
pub open spec fn action_view(a: MigrationAction) -> MigrationActionV {
    match a {
        MigrationAction::ReadRecord { name } => MigrationActionV::ReadRecord { name: name@ },
        MigrationAction::MarkInProgress { name, record } => MigrationActionV::MarkInProgress { name: name@, record },
        MigrationAction::ApplyTransition { index } => MigrationActionV::ApplyTransition { index: index as int },
        MigrationAction::MarkComplete { name, checksum } => MigrationActionV::MarkComplete { name: name@, checksum },
        MigrationAction::SaveSchemaVersion { schema_version } => MigrationActionV::SaveSchemaVersion {
            schema_version: schema_version@,
        },
        MigrationAction::Finished(Ok(())) => MigrationActionV::Finished(Ok(())),
        MigrationAction::Finished(Err(e)) => MigrationActionV::Finished(Err(e@)),
    }
}

/// The content of a [`MigrationEvent`].
pub enum MigrationEventV {
    Record(Option<MigrationRecord>),
    Done,
    Failed(Seq<char>),
}

/// The content of a migration event.
pub open spec fn event_view(e: MigrationEvent) -> MigrationEventV {
    match e {
        MigrationEvent::Record(r) => MigrationEventV::Record(r),
        MigrationEvent::Done => MigrationEventV::Done,
        MigrationEvent::Failed(m) => MigrationEventV::Failed(m@),
    }
}

/// The text a run ends with when the host reports something it was not asked for.
pub open spec fn unexpected_event() -> Seq<char> {
    "migration run: unexpected event"@
}

/// How a run goes on from the migration at `pos`: reading its record, or, past the
/// last one, saving the new schema version.
pub open spec fn begin_spec(steps: Seq<PlannedMigrationV>, latest: Seq<char>, pos: int) -> (
    int,
    RunStage,
    MigrationActionV,
) {
    if pos < steps.len() {
        (pos, RunStage::Reading, MigrationActionV::ReadRecord { name: steps[pos].name })
    } else {
        (pos, RunStage::SavingVersion, MigrationActionV::SaveSchemaVersion { schema_version: latest })
    }
}

/// One step of a run: from where it is and what the host reported, where it goes and
/// what it asks for next. A migration whose record says it completed is not run again;
/// the first failure ends the run.
pub open spec fn run_step_spec(
    steps: Seq<PlannedMigrationV>,
    latest: Seq<char>,
    pos: int,
    stage: RunStage,
    ev: MigrationEventV,
) -> (int, RunStage, MigrationActionV) {
    match ev {
        MigrationEventV::Failed(m) => (pos, RunStage::Over, MigrationActionV::Finished(Err(m))),
        MigrationEventV::Record(r) => if stage == RunStage::Reading && 0 <= pos < steps.len() {
            match r {
                Some(rec) => if rec.status == MigrationStatus::Complete {
                    begin_spec(steps, latest, pos + 1)
                } else {
                    (
                        pos,
                        RunStage::MarkingInProgress,
                        MigrationActionV::MarkInProgress {
                            name: steps[pos].name,
                            record: MigrationRecord {
                                applied_at: 0,
                                checksum: steps[pos].checksum,
                                status: MigrationStatus::InProgress,
                                reversible: false,
                            },
                        },
                    )
                },
                None => (
                    pos,
                    RunStage::MarkingInProgress,
                    MigrationActionV::MarkInProgress {
                        name: steps[pos].name,
                        record: MigrationRecord {
                            applied_at: 0,
                            checksum: steps[pos].checksum,
                            status: MigrationStatus::InProgress,
                            reversible: false,
                        },
                    },
                ),
            }
        } else {
            (pos, RunStage::Over, MigrationActionV::Finished(Err(unexpected_event())))
        },
        MigrationEventV::Done => if stage == RunStage::MarkingInProgress && 0 <= pos < steps.len() {
            (pos, RunStage::Applying, MigrationActionV::ApplyTransition { index: steps[pos].index })
        } else if stage == RunStage::Applying && 0 <= pos < steps.len() {
            (
                pos,
                RunStage::MarkingComplete,
                MigrationActionV::MarkComplete { name: steps[pos].name, checksum: steps[pos].checksum },
            )
        } else if stage == RunStage::MarkingComplete && 0 <= pos < steps.len() {
            begin_spec(steps, latest, pos + 1)
        } else if stage == RunStage::SavingVersion {
            (pos, RunStage::Over, MigrationActionV::Finished(Ok(())))
        } else {
            (pos, RunStage::Over, MigrationActionV::Finished(Err(unexpected_event())))
        },
    }
}

/// A migration run in progress: the planned migrations, the schema version it leads
/// to, the migration it is at and what it waits for.
pub struct MigrationRun {
    pub steps: Vec<PlannedMigration>,
    pub latest: String,
    pub pos: usize,
    pub stage: RunStage,
}

impl MigrationRun {
    fn begin(&mut self, pos: usize) -> (a: MigrationAction)
        requires
            pos <= old(self).steps@.len(),
        ensures
            final(self).steps@ == old(self).steps@,
            final(self).latest@ == old(self).latest@,
            (final(self).pos as int, final(self).stage, action_view(a)) == begin_spec(
                planned_view(old(self).steps@),
                old(self).latest@,
                pos as int,
            ),
    {
        self.pos = pos;
        if pos < self.steps.len() {
            self.stage = RunStage::Reading;
            MigrationAction::ReadRecord { name: self.steps[pos].name.clone() }
        } else {
            self.stage = RunStage::SavingVersion;
            MigrationAction::SaveSchemaVersion { schema_version: self.latest.clone() }
        }
    }

    /// Takes the next step of the run (see [`run_step_spec`]).
    pub fn step(&mut self, ev: MigrationEvent) -> (a: MigrationAction)
        requires
            old(self).pos <= old(self).steps@.len(),
        ensures
            final(self).steps@ == old(self).steps@,
            final(self).latest@ == old(self).latest@,
            final(self).pos <= final(self).steps@.len(),
            (final(self).pos as int, final(self).stage, action_view(a)) == run_step_spec(
                planned_view(old(self).steps@),
                old(self).latest@,
                old(self).pos as int,
                old(self).stage,
                event_view(ev),
            ),
    {
        let pos = self.pos;
        let within = pos < self.steps.len();
        match ev {
            MigrationEvent::Failed(m) => {
                self.stage = RunStage::Over;
                MigrationAction::Finished(Err(m))
            },
            MigrationEvent::Record(r) => {
                if self.stage == RunStage::Reading && within {
                    let done = match r {
                        Some(rec) => rec.status == MigrationStatus::Complete,
                        None => false,
                    };
                    if done {
                        self.begin(pos + 1)
                    } else {
                        self.stage = RunStage::MarkingInProgress;
                        MigrationAction::MarkInProgress {
                            name: self.steps[pos].name.clone(),
                            record: MigrationRecord::in_progress(self.steps[pos].checksum),
                        }
                    }
                } else {
                    self.stage = RunStage::Over;
                    MigrationAction::Finished(Err(crate::text::to_owned_string("migration run: unexpected event")))
                }
            },
            MigrationEvent::Done => {
                if self.stage == RunStage::MarkingInProgress && within {
                    self.stage = RunStage::Applying;
                    MigrationAction::ApplyTransition { index: self.steps[pos].index }
                } else if self.stage == RunStage::Applying && within {
                    self.stage = RunStage::MarkingComplete;
                    MigrationAction::MarkComplete {
                        name: self.steps[pos].name.clone(),
                        checksum: self.steps[pos].checksum,
                    }
                } else if self.stage == RunStage::MarkingComplete && within {
                    self.begin(pos + 1)
                } else if self.stage == RunStage::SavingVersion {
                    self.stage = RunStage::Over;
                    MigrationAction::Finished(Ok(()))
                } else {
                    self.stage = RunStage::Over;
                    MigrationAction::Finished(Err(crate::text::to_owned_string("migration run: unexpected event")))
                }
            },
        }
    }
}

/// The start of a run that brings the stored items to the latest versions of their
/// types: `None` when there are no transitions (nothing to do); a gap in a label's
/// chain of transitions is refused before anything is touched. Otherwise the run and
/// its first request: reading the record of the first planned migration.
pub fn run_schema_migrations<F>(transitions: &[Transition<F>]) -> (r: Result<
    Option<(MigrationRun, MigrationAction)>,
    ChainGap,
>)
    ensures
        transitions@.len() == 0 ==> r matches Ok(None),
        r matches Ok(None) ==> transitions@.len() == 0,
        plan_spec(transitions@) is Err <==> r is Err,
        r matches Err(g) ==> plan_spec(transitions@) == Err::<Option<(Seq<PlannedMigrationV>, Seq<char>)>, ChainGapV>(g@),
        r matches Ok(Some((run, a))) ==> ({
            &&& plan_spec(transitions@) == Ok::<Option<(Seq<PlannedMigrationV>, Seq<char>)>, ChainGapV>(
                Some((planned_view(run.steps@), run.latest@)),
            )
            &&& run.pos <= run.steps@.len()
            &&& (run.pos as int, run.stage, action_view(a)) == begin_spec(planned_view(run.steps@), run.latest@, 0)
        }),
        plan_spec(transitions@) is Ok && transitions@.len() > 0 ==> r matches Ok(Some(_)),
{
    match plan_schema_migrations(transitions) {
        Err(g) => Err(g),
        Ok(None) => Ok(None),
        Ok(Some((steps, latest))) => {
            let mut run = MigrationRun { steps, latest, pos: 0, stage: RunStage::Over };
            let a = run.begin(0);
            Ok(Some((run, a)))
        },
    }
}


/// A migration whose record says it completed is not run again: the run goes on to the
/// next planned migration (or to saving the schema version) without touching the items.
pub proof fn lemma_completed_migration_not_rerun(
    steps: Seq<PlannedMigrationV>,
    latest: Seq<char>,
    pos: int,
    rec: MigrationRecord,
)
    requires
        0 <= pos < steps.len(),
        rec.status == MigrationStatus::Complete,
    ensures
        run_step_spec(steps, latest, pos, RunStage::Reading, MigrationEventV::Record(Some(rec))) == begin_spec(
            steps,
            latest,
            pos + 1,
        ),
        !(run_step_spec(steps, latest, pos, RunStage::Reading, MigrationEventV::Record(Some(rec))).2 is ApplyTransition),
{
}

/// A migration is only applied after its start was recorded: a request to apply a
/// transition follows the report that the in-progress record was stored.
pub proof fn lemma_apply_follows_mark(
    steps: Seq<PlannedMigrationV>,
    latest: Seq<char>,
    pos: int,
    stage: RunStage,
    ev: MigrationEventV,
)
    requires
        run_step_spec(steps, latest, pos, stage, ev).2 is ApplyTransition,
    ensures
        stage == RunStage::MarkingInProgress,
        ev is Done,
        run_step_spec(steps, latest, pos, stage, ev).2 == (MigrationActionV::ApplyTransition { index: steps[pos].index }),
{
}


/// The requests a run makes when the host answers `evs` in turn, from position `pos`
/// and stage `stage`.
pub open spec fn drive(
    steps: Seq<PlannedMigrationV>,
    latest: Seq<char>,
    pos: int,
    stage: RunStage,
    evs: Seq<MigrationEventV>,
) -> Seq<MigrationActionV>
    decreases evs.len(),
{
    if evs.len() == 0 {
        Seq::empty()
    } else {
        let (p, st, a) = run_step_spec(steps, latest, pos, stage, evs[0]);
        seq![a] + drive(steps, latest, p, st, evs.drop_first())
    }
}

/// The answers of a host on which nothing ever ran: for each of `k` migrations, no
/// record, then success of the three requested writes; then success of the final save.
pub open spec fn fresh_answers(k: nat) -> Seq<MigrationEventV>
    decreases k,
{
    if k == 0 {
        seq![MigrationEventV::Done]
    } else {
        seq![MigrationEventV::Record(None), MigrationEventV::Done, MigrationEventV::Done, MigrationEventV::Done]
            + fresh_answers((k - 1) as nat)
    }
}

/// The requests that answer them, from the migration at `pos` on: each migration is
/// marked as started, applied and marked as complete, in the planned order; then the
/// next is read, or the schema version saved; and the run finishes with success.
pub open spec fn fresh_requests(steps: Seq<PlannedMigrationV>, latest: Seq<char>, pos: int) -> Seq<MigrationActionV>
    decreases steps.len() - pos,
{
    if pos < 0 || pos >= steps.len() {
        seq![MigrationActionV::Finished(Ok(()))]
    } else {
        seq![
            MigrationActionV::MarkInProgress {
                name: steps[pos].name,
                record: MigrationRecord {
                    applied_at: 0,
                    checksum: steps[pos].checksum,
                    status: MigrationStatus::InProgress,
                    reversible: false,
                },
            },
            MigrationActionV::ApplyTransition { index: steps[pos].index },
            MigrationActionV::MarkComplete { name: steps[pos].name, checksum: steps[pos].checksum },
            begin_spec(steps, latest, pos + 1).2,
        ] + fresh_requests(steps, latest, pos + 1)
    }
}

/// On a store where no migration ran before and every request succeeds, a run applies
/// every planned migration exactly once, in the planned order, recording its start
/// before and its completion after, then saves the new schema version and succeeds.
pub proof fn lemma_fresh_run_applies_plan_in_order(steps: Seq<PlannedMigrationV>, latest: Seq<char>, pos: int)
    requires
        0 <= pos <= steps.len(),
    ensures
        drive(
            steps,
            latest,
            pos,
            begin_spec(steps, latest, pos).1,
            fresh_answers((steps.len() - pos) as nat),
        ) == fresh_requests(steps, latest, pos),
    decreases steps.len() - pos,
{
    let evs = fresh_answers((steps.len() - pos) as nat);
    if pos == steps.len() {
        assert(evs == seq![MigrationEventV::Done]);
        assert(evs.drop_first() =~= Seq::<MigrationEventV>::empty());
        assert(drive(steps, latest, pos, RunStage::Over, evs.drop_first()) =~= Seq::<MigrationActionV>::empty());
        assert(drive(steps, latest, pos, RunStage::SavingVersion, evs) =~= seq![
            MigrationActionV::Finished(Ok(())),
        ]);
    } else {
        lemma_fresh_run_applies_plan_in_order(steps, latest, pos + 1);
        let rest = fresh_answers((steps.len() - pos - 1) as nat);
        let e1 = evs.drop_first();
        let e2 = e1.drop_first();
        let e3 = e2.drop_first();
        let e4 = e3.drop_first();
        assert(evs[0] == MigrationEventV::Record(None));
        assert(e1 =~= seq![MigrationEventV::Done, MigrationEventV::Done, MigrationEventV::Done] + rest);
        assert(e2 =~= seq![MigrationEventV::Done, MigrationEventV::Done] + rest);
        assert(e3 =~= seq![MigrationEventV::Done] + rest);
        assert(e4 =~= rest);
        let d4 = drive(steps, latest, pos + 1, begin_spec(steps, latest, pos + 1).1, e4);
        let d3 = drive(steps, latest, pos, RunStage::MarkingComplete, e3);
        let d2 = drive(steps, latest, pos, RunStage::Applying, e2);
        let d1 = drive(steps, latest, pos, RunStage::MarkingInProgress, e1);
        assert(d3 =~= seq![begin_spec(steps, latest, pos + 1).2] + d4);
        assert(d2 =~= seq![
            MigrationActionV::MarkComplete { name: steps[pos].name, checksum: steps[pos].checksum },
        ] + d3);
        assert(d1 =~= seq![MigrationActionV::ApplyTransition { index: steps[pos].index }] + d2);
        assert(drive(steps, latest, pos, RunStage::Reading, evs) =~= fresh_requests(steps, latest, pos));
    }
}


/// The answers of a host on which every planned migration already completed: each
/// record read is a completed one, then the final save succeeds.
pub open spec fn rerun_answers(recs: Seq<MigrationRecord>) -> Seq<MigrationEventV>
    decreases recs.len(),
{
    if recs.len() == 0 {
        seq![MigrationEventV::Done]
    } else {
        seq![MigrationEventV::Record(Some(recs[0]))] + rerun_answers(recs.drop_first())
    }
}

/// The requests that answer them, from the migration at `pos` on: after each record,
/// the next one is read (or the schema version saved); then the run succeeds.
pub open spec fn rerun_requests(steps: Seq<PlannedMigrationV>, latest: Seq<char>, pos: int) -> Seq<
    MigrationActionV,
>
    decreases steps.len() - pos,
{
    if pos < 0 || pos >= steps.len() {
        seq![MigrationActionV::Finished(Ok(()))]
    } else {
        seq![begin_spec(steps, latest, pos + 1).2] + rerun_requests(steps, latest, pos + 1)
    }
}

/// The requests of a repeated run only read records and save the schema version.
proof fn lemma_rerun_requests_read_only(steps: Seq<PlannedMigrationV>, latest: Seq<char>, pos: int)
    ensures
        forall|k: int|
            0 <= k < rerun_requests(steps, latest, pos).len() ==> {
                let a = #[trigger] rerun_requests(steps, latest, pos)[k];
                a is ReadRecord || a is SaveSchemaVersion || a is Finished
            },
    decreases steps.len() - pos,
{
    if 0 <= pos < steps.len() {
        lemma_rerun_requests_read_only(steps, latest, pos + 1);
        let rest = rerun_requests(steps, latest, pos + 1);
        assert forall|k: int| 0 <= k < rerun_requests(steps, latest, pos).len() implies {
            let a = #[trigger] rerun_requests(steps, latest, pos)[k];
            a is ReadRecord || a is SaveSchemaVersion || a is Finished
        } by {
            if k > 0 {
                assert(rerun_requests(steps, latest, pos)[k] == rest[k - 1]);
            }
        }
    }
}

/// Running the migrations again once every one of them completed changes nothing: the
/// run reads each record, applies no transition and writes no migration record, saves
/// the schema version and succeeds.
pub proof fn lemma_rerun_changes_nothing(
    steps: Seq<PlannedMigrationV>,
    latest: Seq<char>,
    pos: int,
    recs: Seq<MigrationRecord>,
)
    requires
        0 <= pos <= steps.len(),
        recs.len() == steps.len() - pos,
        forall|i: int| 0 <= i < recs.len() ==> (#[trigger] recs[i]).status == MigrationStatus::Complete,
    ensures
        drive(steps, latest, pos, begin_spec(steps, latest, pos).1, rerun_answers(recs)) == rerun_requests(
            steps,
            latest,
            pos,
        ),
        forall|k: int|
            0 <= k < rerun_requests(steps, latest, pos).len() ==> {
                let a = #[trigger] rerun_requests(steps, latest, pos)[k];
                a is ReadRecord || a is SaveSchemaVersion || a is Finished
            },
    decreases steps.len() - pos,
{
    lemma_rerun_requests_read_only(steps, latest, pos);
    let evs = rerun_answers(recs);
    if pos == steps.len() {
        assert(evs == seq![MigrationEventV::Done]);
        assert(evs.drop_first() =~= Seq::<MigrationEventV>::empty());
        assert(drive(steps, latest, pos, RunStage::Over, evs.drop_first()) =~= Seq::<MigrationActionV>::empty());
        assert(drive(steps, latest, pos, RunStage::SavingVersion, evs) =~= seq![
            MigrationActionV::Finished(Ok(())),
        ]);
    } else {
        let rest = recs.drop_first();
        assert forall|i: int| 0 <= i < rest.len() implies (#[trigger] rest[i]).status == MigrationStatus::Complete by {
            assert(rest[i] == recs[i + 1]);
        }
        lemma_rerun_changes_nothing(steps, latest, pos + 1, rest);
        assert(evs[0] == MigrationEventV::Record(Some(recs[0])));
        assert(evs.drop_first() =~= rerun_answers(rest));
        let d = drive(steps, latest, pos + 1, begin_spec(steps, latest, pos + 1).1, rerun_answers(rest));
        assert(drive(steps, latest, pos, RunStage::Reading, evs) =~= seq![begin_spec(steps, latest, pos + 1).2] + d);
    }
}


/// A fresh run records the completion of every planned migration: the `(4k + 2)`-th
/// request from the migration at `pos` marks the migration at `pos + k` complete.
proof fn lemma_fresh_run_marks_each_complete(steps: Seq<PlannedMigrationV>, latest: Seq<char>, pos: int)
    requires
        0 <= pos <= steps.len(),
    ensures
        forall|i: int|
            pos <= i < steps.len() ==> #[trigger] fresh_requests(steps, latest, pos)[4 * (i - pos) + 2]
                == (MigrationActionV::MarkComplete { name: steps[i].name, checksum: steps[i].checksum }),
        fresh_requests(steps, latest, pos).len() == 4 * (steps.len() - pos) + 1,
    decreases steps.len() - pos,
{
    if pos < steps.len() {
        lemma_fresh_run_marks_each_complete(steps, latest, pos + 1);
        let rest = fresh_requests(steps, latest, pos + 1);
        let all = fresh_requests(steps, latest, pos);
        let head = seq![
            MigrationActionV::MarkInProgress {
                name: steps[pos].name,
                record: MigrationRecord {
                    applied_at: 0,
                    checksum: steps[pos].checksum,
                    status: MigrationStatus::InProgress,
                    reversible: false,
                },
            },
            MigrationActionV::ApplyTransition { index: steps[pos].index },
            MigrationActionV::MarkComplete { name: steps[pos].name, checksum: steps[pos].checksum },
            begin_spec(steps, latest, pos + 1).2,
        ];
        assert(all == head + rest);
        assert forall|i: int| pos <= i < steps.len() implies #[trigger] all[4 * (i - pos) + 2]
            == (MigrationActionV::MarkComplete { name: steps[i].name, checksum: steps[i].checksum }) by {
            if i > pos {
                let j = 4 * (i - (pos + 1)) + 2;
                assert(rest[j] == (MigrationActionV::MarkComplete { name: steps[i].name, checksum: steps[i].checksum }));
                assert(4 * (i - pos) + 2 == j + 4);
                assert(all[j + 4] == rest[j]);
            } else {
                assert(all[2] == head[2]);
            }
        }
    }
}

/// Running the migrations a second time changes nothing. On a store where none ran
/// before and every request succeeds, a first run marks every planned migration
/// complete (each with its name and checksum); a second run, reading those completed
/// records, then applies no transition and writes no record: it only reads them, saves
/// the schema version and succeeds.
pub proof fn lemma_second_run_changes_nothing(
    steps: Seq<PlannedMigrationV>,
    latest: Seq<char>,
    recs: Seq<MigrationRecord>,
)
    requires
        recs.len() == steps.len(),
        forall|i: int| 0 <= i < recs.len() ==> (#[trigger] recs[i]).status == MigrationStatus::Complete,
    ensures
        drive(steps, latest, 0, begin_spec(steps, latest, 0).1, fresh_answers(steps.len())) == fresh_requests(
            steps,
            latest,
            0,
        ),
        forall|i: int|
            0 <= i < steps.len() ==> #[trigger] fresh_requests(steps, latest, 0)[4 * i + 2]
                == (MigrationActionV::MarkComplete { name: steps[i].name, checksum: steps[i].checksum }),
        drive(steps, latest, 0, begin_spec(steps, latest, 0).1, rerun_answers(recs)) == rerun_requests(
            steps,
            latest,
            0,
        ),
        forall|k: int|
            0 <= k < rerun_requests(steps, latest, 0).len() ==> {
                let a = #[trigger] rerun_requests(steps, latest, 0)[k];
                a is ReadRecord || a is SaveSchemaVersion || a is Finished
            },
{
    lemma_fresh_run_applies_plan_in_order(steps, latest, 0);
    lemma_fresh_run_marks_each_complete(steps, latest, 0);
    assert forall|i: int| 0 <= i < steps.len() implies #[trigger] fresh_requests(steps, latest, 0)[4 * i + 2]
        == (MigrationActionV::MarkComplete { name: steps[i].name, checksum: steps[i].checksum }) by {
        assert(4 * (i - 0) + 2 == 4 * i + 2);
    }
    lemma_rerun_changes_nothing(steps, latest, 0, recs);
}


/// Only a migration whose record says it completed is skipped. A migration that never
/// ran, or whose record says it is still in progress (an earlier run was interrupted),
/// is run again: the run marks it as started, under its own name and checksum, and
/// then applies its transition.
pub proof fn lemma_unfinished_migration_is_run(
    steps: Seq<PlannedMigrationV>,
    latest: Seq<char>,
    pos: int,
    rec: Option<MigrationRecord>,
)
    requires
        0 <= pos < steps.len(),
        !(rec matches Some(x) && x.status == MigrationStatus::Complete),
    ensures
        run_step_spec(steps, latest, pos, RunStage::Reading, MigrationEventV::Record(rec)) == (
            pos,
            RunStage::MarkingInProgress,
            MigrationActionV::MarkInProgress {
                name: steps[pos].name,
                record: MigrationRecord {
                    applied_at: 0,
                    checksum: steps[pos].checksum,
                    status: MigrationStatus::InProgress,
                    reversible: false,
                },
            },
        ),
        run_step_spec(steps, latest, pos, RunStage::MarkingInProgress, MigrationEventV::Done).2
            == (MigrationActionV::ApplyTransition { index: steps[pos].index }),
{
}

} // verus!
