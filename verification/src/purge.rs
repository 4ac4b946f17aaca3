//! The purge sweep: which of the kept records have expired, and in what
//! order their files and keys are deleted.

use crate::config::IhaCdnConfig;
use crate::routes::reader::{raw, rendered, resolved, split_path, DiskReply, Lookup, Method};
use crate::routes::uploads::object_key;
use crate::state::{CDNData, FileProbe};
use crate::text::views;
use vstd::prelude::*;

verus! {

/// What the metadata store holds under one key.
#[derive(Debug, Clone)]
pub enum StoredValue {
    /// Nothing: the key went away after it was listed.
    Absent,
    /// Something that is no record.
    Corrupt,
    /// A record.
    Record(CDNData),
}

/// One key of the store, with what is kept under it and what a look at the
/// record's file showed.
#[derive(Debug, Clone)]
pub struct PurgeEntry {
    pub key: String,
    pub value: StoredValue,
    pub probe: FileProbe,
}

/// What a sweep does: it deletes `files` from the disk, one after the
/// other, and only then `keys` from the metadata store, all at once. The
/// two lists go together: `files[i]` is the file of the record kept under
/// `keys[i]`. `corrupt` are the keys whose values are no records; they are
/// left alone and do not stop the sweep.
#[derive(Debug, Clone)]
pub struct PurgePlan {
    pub files: Vec<String>,
    pub keys: Vec<String>,
    pub corrupt: Vec<String>,
}

/// Whether the sweep deletes what `entry` holds: the retention policy is
/// switched on, and the entry holds a record that has expired.
pub open spec fn is_due(config: IhaCdnConfig, now: i64, entry: PurgeEntry) -> bool {
    &&& config.retention.enable
    &&& entry.value matches StoredValue::Record(record)
    &&& record.expired(config, now, entry.probe)
}

/// Those of `entries` that the sweep deletes, in their order.
pub open spec fn due(config: IhaCdnConfig, now: i64, entries: Seq<PurgeEntry>) -> Seq<PurgeEntry>
    decreases entries.len(),
{
    if entries.len() == 0 {
        Seq::empty()
    } else if is_due(config, now, entries.last()) {
        due(config, now, entries.drop_last()).push(entries.last())
    } else {
        due(config, now, entries.drop_last())
    }
}

/// The keys of those of `entries` whose values are no records.
pub open spec fn corrupt_keys(entries: Seq<PurgeEntry>) -> Seq<Seq<char>>
    decreases entries.len(),
{
    if entries.len() == 0 {
        Seq::empty()
    } else if entries.last().value is Corrupt {
        corrupt_keys(entries.drop_last()).push(entries.last().key@)
    } else {
        corrupt_keys(entries.drop_last())
    }
}

/// The file of the record that `entry` holds.
pub open spec fn file_of(entry: PurgeEntry) -> Option<Seq<char>> {
    match entry.value {
        StoredValue::Record(record) => record.backing_path(),
        _ => None,
    }
}

impl PurgePlan {
    /// Whether the plan deletes exactly `doomed`, entry by entry.
    pub open spec fn deletes(&self, doomed: Seq<PurgeEntry>) -> bool {
        &&& self.files@.len() == doomed.len()
        &&& self.keys@.len() == doomed.len()
        &&& forall|i: int|
            0 <= i < doomed.len() ==> {
                &&& (#[trigger] self.keys@[i])@ == doomed[i].key@
                &&& file_of(doomed[i]) == Some(self.files@[i]@)
            }
    }
}

/// Plans a sweep at the time `now` over `entries`, the keys of the store
/// with their values. With the retention policy switched off nothing is
/// deleted.
pub fn purge_task(config: &IhaCdnConfig, now: i64, entries: &Vec<PurgeEntry>) -> (plan: PurgePlan)
    requires
        config.storage.limits_fit(),
    ensures
        plan.deletes(due(*config, now, entries@)),
        views(plan.corrupt@) == corrupt_keys(entries@),
{
    let mut plan = PurgePlan { files: Vec::new(), keys: Vec::new(), corrupt: Vec::new() };
    let mut i: usize = 0;
    assert(entries@.take(0) =~= Seq::<PurgeEntry>::empty());
    assert(views(plan.corrupt@) =~= corrupt_keys(entries@.take(0)));
    while i < entries.len()
        invariant
            i <= entries.len(),
            config.storage.limits_fit(),
            plan.deletes(due(*config, now, entries@.take(i as int))),
            views(plan.corrupt@) == corrupt_keys(entries@.take(i as int)),
        decreases entries.len() - i,
    {
        let entry = &entries[i];
        let ghost before = entries@.take(i as int);
        let ghost upto = entries@.take(i + 1);
        let ghost old_plan = plan;
        assert(upto.drop_last() =~= before);
        assert(upto.last() == entries@[i as int]);
        match &entry.value {
            StoredValue::Record(record) => {
                if config.retention.enable && record.is_expired(config, now, entry.probe) {
                    match record.file_path() {
                        Some(path) => {
                            plan.files.push(path.clone());
                            plan.keys.push(entry.key.clone());
                        },
                        None => {
                            assert(false);
                        },
                    }
                    assert(is_due(*config, now, *entry));
                    assert(due(*config, now, upto) == due(*config, now, before).push(*entry));
                    assert forall|k: int| 0 <= k < due(*config, now, upto).len() implies {
                        &&& (#[trigger] plan.keys@[k])@ == due(*config, now, upto)[k].key@
                        &&& file_of(due(*config, now, upto)[k]) == Some(plan.files@[k]@)
                    } by {
                        if k < old_plan.keys@.len() {
                            assert(plan.keys@[k] == old_plan.keys@[k]);
                            assert(plan.files@[k] == old_plan.files@[k]);
                        }
                    }
                    assert(plan.deletes(due(*config, now, upto)));
                } else {
                    assert(!is_due(*config, now, *entry));
                    assert(due(*config, now, upto) == due(*config, now, before));
                    assert(plan.deletes(due(*config, now, upto)));
                }
            },
            StoredValue::Corrupt => {
                plan.corrupt.push(entry.key.clone());
                assert(views(plan.corrupt@) =~= views(old_plan.corrupt@).push(entry.key@));
                assert(due(*config, now, upto) == due(*config, now, before));
                assert(plan.deletes(due(*config, now, upto)));
            },
            StoredValue::Absent => {
                assert(due(*config, now, upto) == due(*config, now, before));
                assert(plan.deletes(due(*config, now, upto)));
            },
        }
        assert(views(plan.corrupt@) =~= corrupt_keys(upto));
        i += 1;
    }
    assert(entries@.take(i as int) =~= entries@);
    plan
}

/// What is kept: the records in the metadata store, by key, and the files
/// on disk, by path.
pub ghost struct Kept {
    pub records: Map<Seq<char>, CDNData>,
    pub files: Set<Seq<char>>,
}

/// What is kept after the first `steps` steps of a sweep that deletes
/// `files` and `keys`. One step deletes one file, in the order of `files`;
/// the step after the last file deletes all of `keys`.
pub open spec fn swept(kept: Kept, files: Seq<Seq<char>>, keys: Seq<Seq<char>>, steps: nat) -> Kept {
    Kept {
        records: if steps > files.len() {
            kept.records.remove_keys(keys.to_set())
        } else {
            kept.records
        },
        files: kept.files.difference(
            files.take(
                if steps > files.len() {
                    files.len() as int
                } else {
                    steps as int
                },
            ).to_set(),
        ),
    }
}

/// What a lookup of the identifier in `id_path` finds among `records`.
pub open spec fn looked_up(records: Map<Seq<char>, CDNData>, id_path: Seq<char>) -> Lookup {
    let key = object_key(split_path(id_path).0);
    if records.contains_key(key) {
        Lookup::Found(records[key])
    } else {
        Lookup::Missing
    }
}

/// Files are deleted before keys: wherever a sweep is interrupted, a file
/// whose key it has deleted is itself deleted. A sweep leaves no file
/// behind without its key.
pub proof fn lemma_no_file_outlives_its_key(
    kept: Kept,
    files: Seq<Seq<char>>,
    keys: Seq<Seq<char>>,
    steps: nat,
    i: int,
)
    requires
        files.len() == keys.len(),
        0 <= i < files.len(),
        kept.records.contains_key(keys[i]),
    ensures
        !swept(kept, files, keys, steps).records.contains_key(keys[i]) ==> !swept(
            kept,
            files,
            keys,
            steps,
        ).files.contains(files[i]),
{
    if steps > files.len() {
        assert(files.take(files.len() as int) =~= files);
        assert(files.to_set().contains(files[i]));
    }
}

/// Purge ordering. Where a sweep is interrupted after it has deleted the
/// file of an expired record and before it has deleted the keys, a read of
/// that record's identifier finds the record and no file: on the rendered
/// route it is answered as gone, and on no route as if the object were
/// still there. `disk` is what the disk shows to the read; it reports a
/// file that is not there as absent.
pub proof fn lemma_interrupted_sweep_leaves_gone(
    kept: Kept,
    files: Seq<Seq<char>>,
    keys: Seq<Seq<char>>,
    steps: nat,
    i: int,
    method: Method,
    id_path: Seq<char>,
    guessed: Option<Seq<char>>,
    disk: DiskReply,
)
    requires
        files.len() == keys.len(),
        0 <= i < steps <= files.len(),
        keys[i] == object_key(split_path(id_path).0),
        kept.records.contains_key(keys[i]),
        kept.records[keys[i]].backing_path() == Some(files[i]),
        !swept(kept, files, keys, steps).files.contains(files[i]) ==> disk is Absent,
    ensures
        looked_up(swept(kept, files, keys, steps).records, id_path) == Lookup::Found(
            kept.records[keys[i]],
        ),
        resolved(
            rendered(method, id_path, looked_up(swept(kept, files, keys, steps).records, id_path)),
            disk,
        ).status() == 410,
        resolved(
            raw(
                method,
                id_path,
                looked_up(swept(kept, files, keys, steps).records, id_path),
                guessed,
            ),
            disk,
        ).status() != 200,
{
    assert(files.take(steps as int)[i] == files[i]);
    assert(files.take(steps as int).to_set().contains(files[i]));
}

} // verus!
