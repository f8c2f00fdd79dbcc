use vstd::prelude::*;

use crate::yandex::CloudItem;

verus! {

/// A file found in the local folder: its file name and its full path.
#[derive(Debug, PartialEq, Eq)]
pub struct LocalFile {
    pub name: String,
    pub path: String,
}

/// The files of a local folder, keyed by file name (each name at most once).
#[derive(Debug)]
pub struct LocalFiles {
    entries: Vec<LocalFile>,
}

/// No two entries share a file name.
pub open spec fn names_distinct(entries: Seq<LocalFile>) -> bool {
    forall|a: int, b: int|
        #![trigger entries[a], entries[b]]
        0 <= a < entries.len() && 0 <= b < entries.len() && a != b ==> entries[a].name@
            != entries[b].name@
}

/// Some entry carries the file name `k`.
pub open spec fn has_name(entries: Seq<LocalFile>, k: Seq<char>) -> bool {
    exists|i: int| 0 <= i < entries.len() && #[trigger] entries[i].name@ == k
}

/// The position of an entry named `k` (meaningful when `has_name(entries, k)`).
pub open spec fn position_of(entries: Seq<LocalFile>, k: Seq<char>) -> int {
    choose|i: int| 0 <= i < entries.len() && #[trigger] entries[i].name@ == k
}

/// The map from file name to path that a list of entries denotes.
pub open spec fn entries_map(entries: Seq<LocalFile>) -> Map<Seq<char>, Seq<char>> {
    Map::new(|k: Seq<char>| has_name(entries, k), |k: Seq<char>| entries[position_of(entries, k)].path@)
}

proof fn lemma_position_unique(entries: Seq<LocalFile>, k: Seq<char>, i: int)
    requires
        names_distinct(entries),
        0 <= i < entries.len(),
        entries[i].name@ == k,
    ensures
        has_name(entries, k),
        position_of(entries, k) == i,
{
    let j = position_of(entries, k);
    assert(entries[j].name@ == k);
    if j != i {
        assert(entries[j].name@ != entries[i].name@);
    }
}

proof fn lemma_map_update(entries: Seq<LocalFile>, i: int, e: LocalFile)
    requires
        names_distinct(entries),
        0 <= i < entries.len(),
        entries[i].name@ == e.name@,
    ensures
        names_distinct(entries.update(i, e)),
        entries_map(entries.update(i, e)) == entries_map(entries).insert(e.name@, e.path@),
{
    let upd = entries.update(i, e);
    assert(names_distinct(upd)) by {
        assert forall|a: int, b: int|
            0 <= a < upd.len() && 0 <= b < upd.len() && a != b implies #[trigger] upd[a].name@
            != #[trigger] upd[b].name@ by {
            assert(upd[a].name@ == entries[a].name@);
            assert(upd[b].name@ == entries[b].name@);
            assert(entries[a].name@ != entries[b].name@);
        }
    }
    assert forall|k: Seq<char>| has_name(upd, k) == has_name(entries, k) by {
        if has_name(upd, k) {
            let j = choose|j: int| 0 <= j < upd.len() && #[trigger] upd[j].name@ == k;
            assert(entries[j].name@ == k);
        }
        if has_name(entries, k) {
            let j = choose|j: int| 0 <= j < entries.len() && #[trigger] entries[j].name@ == k;
            assert(upd[j].name@ == k);
        }
    }
    assert forall|k: Seq<char>| #[trigger] has_name(upd, k) implies entries_map(upd)[k] == entries_map(
        entries,
    ).insert(e.name@, e.path@)[k] by {
        let j = position_of(upd, k);
        assert(upd[j].name@ == k);
        lemma_position_unique(upd, k, j);
        if k == e.name@ {
            lemma_position_unique(upd, k, i);
        } else {
            assert(entries[j].name@ == k);
            lemma_position_unique(entries, k, j);
        }
    }
    assert(entries_map(upd) =~= entries_map(entries).insert(e.name@, e.path@));
}

proof fn lemma_map_push(entries: Seq<LocalFile>, e: LocalFile)
    requires
        names_distinct(entries),
        !has_name(entries, e.name@),
    ensures
        names_distinct(entries.push(e)),
        entries_map(entries.push(e)) == entries_map(entries).insert(e.name@, e.path@),
{
    let p = entries.push(e);
    let n = entries.len() as int;
    assert(names_distinct(p)) by {
        assert forall|a: int, b: int|
            0 <= a < p.len() && 0 <= b < p.len() && a != b implies #[trigger] p[a].name@
            != #[trigger] p[b].name@ by {
            if a < n && b < n {
                assert(entries[a].name@ != entries[b].name@);
            } else if a < n {
                assert(p[a] == entries[a]);
            } else {
                assert(p[b] == entries[b]);
            }
        }
    }
    assert forall|k: Seq<char>| has_name(p, k) == (has_name(entries, k) || k == e.name@) by {
        if has_name(p, k) {
            let j = choose|j: int| 0 <= j < p.len() && #[trigger] p[j].name@ == k;
            if j < n {
                assert(entries[j].name@ == k);
            }
        }
        if has_name(entries, k) {
            let j = choose|j: int| 0 <= j < entries.len() && #[trigger] entries[j].name@ == k;
            assert(p[j].name@ == k);
        }
        if k == e.name@ {
            assert(p[n].name@ == k);
        }
    }
    assert forall|k: Seq<char>| #[trigger] has_name(p, k) implies entries_map(p)[k] == entries_map(
        entries,
    ).insert(e.name@, e.path@)[k] by {
        let j = position_of(p, k);
        assert(p[j].name@ == k);
        lemma_position_unique(p, k, j);
        if k == e.name@ {
            lemma_position_unique(p, k, n);
        } else {
            assert(j < n);
            assert(entries[j].name@ == k);
            lemma_position_unique(entries, k, j);
        }
    }
    assert(entries_map(p) =~= entries_map(entries).insert(e.name@, e.path@));
}

proof fn lemma_map_remove(entries: Seq<LocalFile>, i: int)
    requires
        names_distinct(entries),
        0 <= i < entries.len(),
    ensures
        names_distinct(entries.remove(i)),
        entries_map(entries.remove(i)) == entries_map(entries).remove(entries[i].name@),
{
    let r = entries.remove(i);
    let gone = entries[i].name@;
    assert forall|j: int| 0 <= j < r.len() implies #[trigger] r[j] == entries[if j < i {
        j
    } else {
        j + 1
    }] by {}
    assert(names_distinct(r)) by {
        assert forall|a: int, b: int|
            0 <= a < r.len() && 0 <= b < r.len() && a != b implies #[trigger] r[a].name@
            != #[trigger] r[b].name@ by {
            let a2 = if a < i {
                a
            } else {
                a + 1
            };
            let b2 = if b < i {
                b
            } else {
                b + 1
            };
            assert(r[a] == entries[a2]);
            assert(r[b] == entries[b2]);
            assert(entries[a2].name@ != entries[b2].name@);
        }
    }
    assert forall|k: Seq<char>| has_name(r, k) == (has_name(entries, k) && k != gone) by {
        if has_name(r, k) {
            let j = choose|j: int| 0 <= j < r.len() && #[trigger] r[j].name@ == k;
            let j2 = if j < i {
                j
            } else {
                j + 1
            };
            assert(r[j] == entries[j2]);
            assert(entries[j2].name@ == k);
            assert(entries[j2].name@ != entries[i].name@);
        }
        if has_name(entries, k) && k != gone {
            let j = choose|j: int| 0 <= j < entries.len() && #[trigger] entries[j].name@ == k;
            assert(j != i);
            let j2 = if j < i {
                j
            } else {
                j - 1
            };
            assert(r[j2] == entries[j]);
            assert(r[j2].name@ == k);
        }
    }
    assert forall|k: Seq<char>| #[trigger] has_name(r, k) implies entries_map(r)[k] == entries_map(
        entries,
    ).remove(gone)[k] by {
        let j = position_of(r, k);
        assert(r[j].name@ == k);
        let j2 = if j < i {
            j
        } else {
            j + 1
        };
        assert(r[j] == entries[j2]);
        lemma_position_unique(entries, k, j2);
    }
    assert(entries_map(r) =~= entries_map(entries).remove(gone));
}

/// Distinct names make a finite map with one key per entry.
proof fn lemma_entries_count(entries: Seq<LocalFile>)
    requires
        names_distinct(entries),
    ensures
        entries_map(entries).dom().finite(),
        entries_map(entries).len() == entries.len(),
{
    broadcast use vstd::seq_lib::seq_to_set_is_finite;

    let names = entries.map_values(|e: LocalFile| e.name@);
    assert(names.no_duplicates()) by {
        assert forall|i: int, j: int|
            0 <= i < names.len() && 0 <= j < names.len() && i != j implies names[i] != names[j] by {
            assert(entries[i].name@ != entries[j].name@);
        }
    }
    assert(entries_map(entries).dom() =~= names.to_set()) by {
        assert forall|k: Seq<char>| #[trigger] names.to_set().contains(k) implies has_name(entries, k) by {
            let i = choose|i: int| 0 <= i < names.len() && names[i] == k;
            assert(entries[i].name@ == k);
        }
        assert forall|k: Seq<char>| has_name(entries, k) implies #[trigger] names.to_set().contains(k) by {
            let i = choose|i: int| 0 <= i < entries.len() && #[trigger] entries[i].name@ == k;
            assert(names[i] == k);
        }
    }
    names.unique_seq_to_set();
}

impl View for LocalFiles {
    type V = Map<Seq<char>, Seq<char>>;

    closed spec fn view(&self) -> Map<Seq<char>, Seq<char>> {
        entries_map(self.entries@)
    }
}

impl LocalFiles {
    #[verifier::type_invariant]
    closed spec fn inv(self) -> bool {
        names_distinct(self.entries@)
    }

    /// An empty collection.
    pub fn new() -> (r: Self)
        ensures
            r@ == Map::<Seq<char>, Seq<char>>::empty(),
    {
        let r = LocalFiles { entries: Vec::new() };
        assert(r@ =~= Map::<Seq<char>, Seq<char>>::empty());
        r
    }

    /// The position of the entry named `name`, if there is one.
    fn find(&self, name: &String) -> (r: Option<usize>)
        ensures
            r matches Some(i) ==> i < self.entries@.len() && self.entries@[i as int].name@ == name@,
            r is None ==> !has_name(self.entries@, name@),
    {
        let n = self.entries.len();
        let mut i: usize = 0;
        while i < n
            invariant
                n == self.entries@.len(),
                i <= n,
                forall|j: int| 0 <= j < i ==> #[trigger] self.entries@[j].name@ != name@,
            decreases n - i,
        {
            if self.entries[i].name == *name {
                return Some(i);
            }
            i = i + 1;
        }
        None
    }

    /// Whether a file of this name is present.
    pub fn contains_key(&self, name: &String) -> (r: bool)
        ensures
            r == self@.contains_key(name@),
    {
        self.find(name).is_some()
    }

    /// The number of files.
    pub fn len(&self) -> (r: usize)
        ensures
            self@.dom().finite(),
            r == self@.len(),
    {
        proof {
            use_type_invariant(self);
            lemma_entries_count(self.entries@);
        }
        self.entries.len()
    }

    /// Records `path` under `name`, replacing an earlier path of the same name.
    pub fn insert(&mut self, name: String, path: String)
        ensures
            final(self)@ == old(self)@.insert(name@, path@),
    {
        proof {
            use_type_invariant(&*self);
        }
        let found = self.find(&name);
        let mut entries: Vec<LocalFile> = Vec::new();
        std::mem::swap(&mut entries, &mut self.entries);
        let ghost before = entries@;
        let e = LocalFile { name, path };
        match found {
            Some(i) => {
                proof {
                    lemma_map_update(before, i as int, e);
                }
                entries.set(i, e);
            },
            None => {
                proof {
                    lemma_map_push(before, e);
                }
                entries.push(e);
            },
        }
        self.entries = entries;
    }

    /// Takes out the entry named `name`, handing back its path.
    pub fn remove(&mut self, name: &String) -> (r: Option<String>)
        ensures
            final(self)@ == old(self)@.remove(name@),
            r is Some == old(self)@.contains_key(name@),
            r matches Some(p) ==> p@ == old(self)@[name@],
    {
        proof {
            use_type_invariant(&*self);
        }
        match self.find(name) {
            Some(i) => {
                let mut entries: Vec<LocalFile> = Vec::new();
                std::mem::swap(&mut entries, &mut self.entries);
                let ghost before = entries@;
                proof {
                    lemma_map_remove(before, i as int);
                    lemma_position_unique(before, name@, i as int);
                }
                let e = entries.remove(i);
                self.entries = entries;
                Some(e.path)
            },
            None => {
                assert(!self@.contains_key(name@));
                assert(self@.remove(name@) =~= self@);
                None
            },
        }
    }

    /// The entries, each name once, as a list.
    pub fn into_entries(self) -> (r: Vec<LocalFile>)
        ensures
            names_distinct(r@),
            entries_map(r@) == self@,
    {
        proof {
            use_type_invariant(&self);
        }
        self.entries
    }
}


/// The names carried by a list of cloud items.
pub open spec fn cloud_names(items: Seq<CloudItem>) -> Set<Seq<char>> {
    Set::new(|k: Seq<char>| exists|i: int| 0 <= i < items.len() && #[trigger] items[i].name@ == k)
}

/// Whether a cloud item is missing locally: no local file carries its name.
pub open spec fn missing_locally(local: Set<Seq<char>>) -> spec_fn(CloudItem) -> bool {
    |it: CloudItem| !local.contains(it.name@)
}

/// What a synchronisation has to do: the cloud items that are missing
/// locally, and the local files that are missing in the cloud.
#[derive(Debug)]
pub struct SyncTasks {
    pub to_download: Vec<CloudItem>,
    pub to_upload: LocalFiles,
}

/// The names of the first `n` cloud items.
pub open spec fn names_before(names: Seq<String>, n: int) -> Set<Seq<char>> {
    Set::new(|k: Seq<char>| exists|m: int| 0 <= m < n && #[trigger] names[m]@ == k)
}

/// Splits the cloud listing against the local folder: every cloud item whose
/// name no local file carries is to be downloaded, in listing order, and
/// every local file whose name no cloud item carries is to be uploaded.
pub fn calculate_sync_tasks(from_drive: Vec<CloudItem>, data_in_dir: LocalFiles) -> (r: SyncTasks)
    ensures
        r.to_download@ == from_drive@.filter(missing_locally(data_in_dir@.dom())),
        r.to_upload@ == data_in_dir@.remove_keys(cloud_names(from_drive@)),
{
    let ghost items = from_drive@;
    let ghost local = data_in_dir@;
    let ghost pred = missing_locally(local.dom());
    let mut to_download: Vec<CloudItem> = Vec::new();
    let mut names: Vec<String> = Vec::new();
    assert(items.take(0) =~= Seq::<CloudItem>::empty());
    proof {
        reveal(Seq::filter);
    }
    for entry in it: from_drive
        invariant
            items == it.seq(),
            it.index() <= items.len(),
            local == data_in_dir@,
            pred == missing_locally(local.dom()),
            to_download@ == items.take(it.index() as int).filter(pred),
            names@.len() == it.index(),
            forall|m: int| 0 <= m < it.index() ==> #[trigger] names@[m]@ == items[m].name@,
    {
        let ghost idx = it.index() as int;
        assert(entry == items[idx]);
        proof {
            reveal(Seq::filter);
            assert(items.take(idx + 1).drop_last() =~= items.take(idx));
            assert(items.take(idx + 1).last() == entry);
        }
        names.push(entry.name.clone());
        if !data_in_dir.contains_key(&entry.name) {
            to_download.push(entry);
        }
    }
    assert(items.take(items.len() as int) =~= items);
    let ghost all_names = names@;
    let mut remaining = data_in_dir;
    let n = names.len();
    let mut j: usize = 0;
    assert(local.remove_keys(names_before(all_names, 0)) =~= local);
    while j < n
        invariant
            n == all_names.len(),
            names@ == all_names,
            j <= n,
            remaining@ == local.remove_keys(names_before(all_names, j as int)),
        decreases n - j,
    {
        remaining.remove(&names[j]);
        assert(names_before(all_names, j + 1) =~= names_before(all_names, j as int).insert(
            all_names[j as int]@,
        )) by {
            assert forall|k: Seq<char>| #[trigger] names_before(all_names, j + 1).contains(k) implies names_before(
                all_names,
                j as int,
            ).insert(all_names[j as int]@).contains(k) by {
                let m = choose|m: int| 0 <= m < j + 1 && #[trigger] all_names[m]@ == k;
                if m < j {
                    assert(names_before(all_names, j as int).contains(k));
                }
            }
        }
        assert(remaining@ =~= local.remove_keys(names_before(all_names, j + 1)));
        j = j + 1;
    }
    assert(names_before(all_names, n as int) =~= cloud_names(items)) by {
        assert forall|k: Seq<char>| #[trigger] cloud_names(items).contains(k) implies names_before(
            all_names,
            n as int,
        ).contains(k) by {
            let i = choose|i: int| 0 <= i < items.len() && #[trigger] items[i].name@ == k;
            assert(all_names[i]@ == k);
        }
        assert forall|k: Seq<char>| #[trigger] names_before(all_names, n as int).contains(k) implies cloud_names(
            items,
        ).contains(k) by {
            let m = choose|m: int| 0 <= m < n && #[trigger] all_names[m]@ == k;
            assert(items[m].name@ == k);
        }
    }
    SyncTasks { to_download, to_upload: remaining }
}

/// The items to download are exactly the listed items that no local file
/// matches by name: each of them is listed and missing locally, and each
/// listed item missing locally is among them.
pub proof fn law_downloads_are_missing_locally(items: Seq<CloudItem>, local: Set<Seq<char>>)
    ensures
        forall|k: int|
            0 <= k < items.filter(missing_locally(local)).len() ==> !local.contains(
                #[trigger] items.filter(missing_locally(local))[k].name@,
            ) && items.contains(items.filter(missing_locally(local))[k]),
        forall|i: int|
            0 <= i < items.len() && !local.contains(#[trigger] items[i].name@) ==> items.filter(
                missing_locally(local),
            ).contains(items[i]),
{
    broadcast use vstd::seq_lib::group_filter_ensures;

    let pred = missing_locally(local);
    assert forall|k: int| 0 <= k < items.filter(pred).len() implies items.contains(
        #[trigger] items.filter(pred)[k],
    ) by {
        assert(items.filter(pred).contains(items.filter(pred)[k]));
        items.lemma_filter_contains_rev(pred, items.filter(pred)[k]);
    }
    assert forall|i: int|
        0 <= i < items.len() && !local.contains(#[trigger] items[i].name@) implies items.filter(
        pred,
    ).contains(items[i]) by {
        assert(pred(items[i]));
    }
}

/// Nothing is lost: each name of the listing is held locally or is
/// downloaded, and each local name is in the listing or is uploaded; so after
/// both transfers the two sides hold the same names, the union of both.
pub proof fn law_sync_covers_both_sides(items: Seq<CloudItem>, local: Map<Seq<char>, Seq<char>>)
    ensures
        local.dom() + cloud_names(items.filter(missing_locally(local.dom()))) =~= local.dom()
            + cloud_names(items),
        cloud_names(items) + local.remove_keys(cloud_names(items)).dom() =~= local.dom()
            + cloud_names(items),
        local.remove_keys(cloud_names(items)).dom() =~= local.dom() - cloud_names(items),
{
    let pred = missing_locally(local.dom());
    let pend = items.filter(pred);
    broadcast use vstd::seq_lib::group_filter_ensures;

    assert forall|k: Seq<char>| cloud_names(pend).contains(k) implies cloud_names(items).contains(k) by {
        let m = choose|m: int| 0 <= m < pend.len() && #[trigger] pend[m].name@ == k;
        assert(pend.contains(pend[m]));
        items.lemma_filter_contains_rev(pred, pend[m]);
        let i = choose|i: int| 0 <= i < items.len() && items[i] == pend[m];
        assert(items[i].name@ == k);
    }
    assert forall|k: Seq<char>|
        cloud_names(items).contains(k) && !local.dom().contains(k) implies cloud_names(
        pend,
    ).contains(k) by {
        let i = choose|i: int| 0 <= i < items.len() && #[trigger] items[i].name@ == k;
        assert(pred(items[i]));
        assert(pend.contains(items[i]));
        let m = choose|m: int| 0 <= m < pend.len() && pend[m] == items[i];
        assert(pend[m].name@ == k);
    }
}

/// The names of a listing are the names its items carry, at every position,
/// and what is missing locally is decided by name alone.
pub proof fn law_cloud_names_are_listed_names(items: Seq<CloudItem>, local: Set<Seq<char>>)
    ensures
        forall|i: int| 0 <= i < items.len() ==> cloud_names(items).contains(#[trigger] items[i].name@),
        forall|k: Seq<char>|
            #[trigger] cloud_names(items).contains(k) ==> exists|i: int|
                0 <= i < items.len() && items[i].name@ == k,
        forall|it: CloudItem| #[trigger] missing_locally(local)(it) <==> !local.contains(it.name@),
{
}

/// The names of a listing form a finite set.
pub proof fn lemma_cloud_names_finite(items: Seq<CloudItem>)
    ensures
        cloud_names(items).finite(),
{
    broadcast use vstd::seq_lib::seq_to_set_is_finite;

    let names = items.map_values(|it: CloudItem| it.name@);
    assert(cloud_names(items) =~= names.to_set()) by {
        assert forall|k: Seq<char>| #[trigger] names.to_set().contains(k) implies cloud_names(items).contains(k) by {
            let i = choose|i: int| 0 <= i < names.len() && names[i] == k;
            assert(items[i].name@ == k);
        }
        assert forall|k: Seq<char>| cloud_names(items).contains(k) implies #[trigger] names.to_set().contains(k) by {
            let i = choose|i: int| 0 <= i < items.len() && #[trigger] items[i].name@ == k;
            assert(names[i] == k);
        }
    }
}

/// The counts of a synchronisation: every listed item either is held
/// locally or is downloaded, and the local files to upload are those of the
/// folder less the ones the listing also holds.
pub proof fn law_sync_counts(items: Seq<CloudItem>, local: Map<Seq<char>, Seq<char>>)
    requires
        local.dom().finite(),
    ensures
        items.filter(missing_locally(local.dom())).len() <= items.len(),
        local.remove_keys(cloud_names(items)).dom().finite(),
        local.remove_keys(cloud_names(items)).len() == local.len() - local.dom().intersect(
            cloud_names(items),
        ).len(),
{
    broadcast use vstd::seq_lib::group_filter_ensures;
    broadcast use vstd::set_lib::group_set_properties;

    lemma_cloud_names_finite(items);
    let names = cloud_names(items);
    assert(local.remove_keys(names).dom() =~= local.dom().difference(names));
    vstd::set_lib::lemma_set_difference_len(local.dom(), names);
}

/// A folder that already holds exactly the names of a listing has nothing
/// to download and nothing to upload.
pub proof fn law_in_sync_needs_nothing(items: Seq<CloudItem>, local: Map<Seq<char>, Seq<char>>)
    requires
        local.dom() == cloud_names(items),
    ensures
        items.filter(missing_locally(local.dom())).len() == 0,
        local.remove_keys(cloud_names(items)).dom().is_empty(),
{
    let pred = missing_locally(local.dom());
    let pend = items.filter(pred);
    broadcast use vstd::seq_lib::group_filter_ensures;

    if pend.len() > 0 {
        assert(pred(pend[0]));
        assert(pend.contains(pend[0]));
        items.lemma_filter_contains_rev(pred, pend[0]);
        let i = choose|i: int| 0 <= i < items.len() && items[i] == pend[0];
        assert(cloud_names(items).contains(items[i].name@));
    }
    assert(local.remove_keys(cloud_names(items)).dom() =~= Set::empty());
}

} // verus!
