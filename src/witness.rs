//! The content-addressed witness store and its on-disk staging layout.
//!
//! Staging turns each `(digest, preimage)` pair into a file description: the
//! first four hex digits of the digest name a shard directory, the remaining
//! digits plus `.txt` name the file, and the file holds the preimage as hex
//! text. Harvesting reads such descriptions back into a store.

use vstd::prelude::*;
use crate::hex_text::{
    decode_hex, decode_hex_32, decoded_hex, encode_hex, hex_of, is_hex_digit, lemma_hex_round_trip,
};

verus! {

/// One preimage of the store, under the digest it is filed by.
#[derive(Clone, Debug, PartialEq, Eq)]
pub struct WitnessEntry {
    pub digest: [u8; 32],
    pub preimage: Vec<u8>,
}

/// The map that a sequence of entries describes: later entries win.
pub open spec fn map_of(s: Seq<WitnessEntry>) -> Map<Seq<u8>, Seq<u8>>
    decreases s.len(),
{
    if s.len() == 0 {
        Map::empty()
    } else {
        map_of(s.drop_last()).insert(s.last().digest@, s.last().preimage@)
    }
}

/// No two entries share a digest.
pub open spec fn distinct_digests(s: Seq<WitnessEntry>) -> bool {
    forall|i: int, j: int|
        0 <= i < s.len() && 0 <= j < s.len() && i != j ==> s[i].digest@ != s[j].digest@
}

/// A mapping from 32-byte digests to preimages, each digest at most once.
#[derive(Clone, Debug)]
pub struct WitnessStore {
    entries: Vec<WitnessEntry>,
}

impl View for WitnessStore {
    type V = Map<Seq<u8>, Seq<u8>>;

    closed spec fn view(&self) -> Map<Seq<u8>, Seq<u8>> {
        map_of(self.entries@)
    }
}

/// The path parts and contents of one staged witness file.
#[derive(Clone, Debug, PartialEq, Eq)]
pub struct StagedFile {
    /// The shard directory: the first four hex digits of the digest.
    pub shard: String,
    /// The file name inside the shard directory.
    pub file_name: String,
    /// The preimage as hex text.
    pub contents: String,
}

impl View for StagedFile {
    type V = (Seq<char>, Seq<char>, Seq<char>);

    open spec fn view(&self) -> (Seq<char>, Seq<char>, Seq<char>) {
        (self.shard@, self.file_name@, self.contents@)
    }
}

/// Why a set of staged files could not be read back into a store.
#[derive(Clone, Copy, Debug, PartialEq, Eq)]
pub enum WitnessError {
    /// The shard directory and file stem of this file do not spell a
    /// 32-byte digest in hex.
    MalformedDigest(usize),
    /// The contents of this file are not hex text.
    MalformedContents(usize),
}

/// The extension of every staged file.
pub open spec fn txt_ext() -> Seq<char> {
    seq!['.', 't', 'x', 't']
}

/// The shard directory of a digest: its first two bytes as four hex digits.
pub open spec fn shard_of(d: Seq<u8>) -> Seq<char> {
    hex_of(d).subrange(0, 4)
}

/// The staged file name of a digest: the hex digits after the shard, then `.txt`.
pub open spec fn staged_name_of(d: Seq<u8>) -> Seq<char> {
    hex_of(d).subrange(4, hex_of(d).len() as int) + txt_ext()
}

/// The file that staging writes for one entry.
pub open spec fn staged_view(e: WitnessEntry) -> (Seq<char>, Seq<char>, Seq<char>) {
    (shard_of(e.digest@), staged_name_of(e.digest@), hex_of(e.preimage@))
}

/// The files that staging writes for a sequence of entries, in order.
pub open spec fn staged_views(s: Seq<WitnessEntry>) -> Seq<(Seq<char>, Seq<char>, Seq<char>)> {
    Seq::new(s.len(), |i: int| staged_view(s[i]))
}

/// The views of a sequence of staged files.
pub open spec fn views_of(files: Seq<StagedFile>) -> Seq<(Seq<char>, Seq<char>, Seq<char>)> {
    Seq::new(files.len(), |i: int| files[i]@)
}

/// The position of the first `.` in `s`, or its length if there is none.
pub open spec fn dot_index(s: Seq<char>) -> int
    decreases s.len(),
{
    if s.len() == 0 {
        0
    } else if s[0] == '.' {
        0
    } else {
        1 + dot_index(s.drop_first())
    }
}

/// A file name up to its first `.`.
pub open spec fn stem_of(name: Seq<char>) -> Seq<char> {
    name.subrange(0, dot_index(name))
}

/// The hex text of the digest that a file is filed under: its shard
/// directory followed by the stem of its name.
pub open spec fn digest_text(f: (Seq<char>, Seq<char>, Seq<char>)) -> Seq<char> {
    f.0 + stem_of(f.1)
}

/// Whether a file's shard and stem spell a 32-byte digest.
pub open spec fn digest_decodes(f: (Seq<char>, Seq<char>, Seq<char>)) -> bool {
    decoded_hex(digest_text(f)) is Some && decoded_hex(digest_text(f))->Some_0.len() == 32
}

/// Whether a file can be read back: its digest and its contents decode.
pub open spec fn file_decodes(f: (Seq<char>, Seq<char>, Seq<char>)) -> bool {
    digest_decodes(f) && decoded_hex(f.2) is Some
}

/// The store that a sequence of readable files describes: each file inserts
/// its digest and preimage, later files winning.
pub open spec fn harvested(fs: Seq<(Seq<char>, Seq<char>, Seq<char>)>) -> Map<Seq<u8>, Seq<u8>>
    decreases fs.len(),
{
    if fs.len() == 0 {
        Map::empty()
    } else {
        harvested(fs.drop_last()).insert(
            decoded_hex(digest_text(fs.last()))->Some_0,
            decoded_hex(fs.last().2)->Some_0,
        )
    }
}

proof fn lemma_dot_index(s: Seq<char>, n: int)
    requires
        0 <= n <= s.len(),
        forall|j: int| 0 <= j < n ==> s[j] != '.',
        n == s.len() || s[n] == '.',
    ensures
        dot_index(s) == n,
    decreases n,
{
    if n > 0 {
        lemma_dot_index(s.drop_first(), n - 1);
    }
}

proof fn lemma_map_of_has_key(s: Seq<WitnessEntry>, k: Seq<u8>)
    ensures
        map_of(s).dom().contains(k) <==> exists|i: int| 0 <= i < s.len() && s[i].digest@ == k,
    decreases s.len(),
{
    if s.len() > 0 {
        lemma_map_of_has_key(s.drop_last(), k);
        if map_of(s.drop_last()).dom().contains(k) {
            let i = choose|i: int| 0 <= i < s.len() - 1 && s.drop_last()[i].digest@ == k;
            assert(s[i].digest@ == k);
        }
        if exists|i: int| 0 <= i < s.len() && s[i].digest@ == k {
            let i = choose|i: int| 0 <= i < s.len() && s[i].digest@ == k;
            if i < s.len() - 1 {
                assert(s.drop_last()[i].digest@ == k);
            }
        }
    }
}

proof fn lemma_map_of_value(s: Seq<WitnessEntry>, i: int)
    requires
        distinct_digests(s),
        0 <= i < s.len(),
    ensures
        map_of(s)[s[i].digest@] == s[i].preimage@,
    decreases s.len(),
{
    if i < s.len() - 1 {
        assert(distinct_digests(s.drop_last()));
        lemma_map_of_value(s.drop_last(), i);
        assert(s[i].digest@ != s.last().digest@);
    }
}

proof fn lemma_map_of_update(s: Seq<WitnessEntry>, j: int, e: WitnessEntry)
    requires
        distinct_digests(s),
        0 <= j < s.len(),
        e.digest@ == s[j].digest@,
    ensures
        map_of(s.update(j, e)) == map_of(s).insert(e.digest@, e.preimage@),
    decreases s.len(),
{
    let t = s.update(j, e);
    if j == s.len() - 1 {
        assert(t.drop_last() =~= s.drop_last());
        assert(map_of(t) =~= map_of(s).insert(e.digest@, e.preimage@));
    } else {
        assert(distinct_digests(s.drop_last()));
        lemma_map_of_update(s.drop_last(), j, e);
        assert(t.drop_last() =~= s.drop_last().update(j, e));
        assert(s.last().digest@ != e.digest@);
        assert(map_of(t) =~= map_of(s).insert(e.digest@, e.preimage@));
    }
}

/// Whether two digests are equal, byte by byte.
fn digest_eq(a: &[u8; 32], b: &[u8; 32]) -> (r: bool)
    ensures
        r == (a@ == b@),
{
    let mut i: usize = 0;
    while i < 32
        invariant
            0 <= i <= 32,
            a@.len() == 32,
            b@.len() == 32,
            forall|j: int| 0 <= j < i ==> a@[j] == b@[j],
        decreases 32 - i,
    {
        if a[i] != b[i] {
            return false;
        }
        i = i + 1;
    }
    assert(a@ =~= b@);
    true
}

impl WitnessStore {
    /// The store is well formed: each digest is filed once.
    pub closed spec fn wf(&self) -> bool {
        distinct_digests(self.entries@)
    }

    /// The entries of the store, in the order the store keeps them.
    pub closed spec fn entry_seq(&self) -> Seq<WitnessEntry> {
        self.entries@
    }

    /// The store's mapping is the one its entries describe.
    pub proof fn lemma_view(&self)
        ensures
            self@ == map_of(self.entry_seq()),
    {
    }

    /// An empty store.
    pub fn new() -> (r: WitnessStore)
        ensures
            r.wf(),
            r@ == Map::<Seq<u8>, Seq<u8>>::empty(),
            r.entry_seq().len() == 0,
    {
        WitnessStore { entries: Vec::new() }
    }

    /// The position of the entry filed under `digest`, if any.
    fn find(&self, digest: &[u8; 32]) -> (r: Option<usize>)
        ensures
            r is Some ==> r->Some_0 < self.entries@.len() && self.entries@[r->Some_0 as int].digest@
                == digest@,
            r is None ==> forall|i: int|
                0 <= i < self.entries@.len() ==> self.entries@[i].digest@ != digest@,
    {
        let mut i: usize = 0;
        while i < self.entries.len()
            invariant
                0 <= i <= self.entries@.len(),
                forall|j: int| 0 <= j < i ==> self.entries@[j].digest@ != digest@,
            decreases self.entries@.len() - i,
        {
            if digest_eq(&self.entries[i].digest, digest) {
                return Some(i);
            }
            i = i + 1;
        }
        None
    }

    /// Files `preimage` under `digest`, replacing what was filed there.
    pub fn insert(&mut self, digest: [u8; 32], preimage: Vec<u8>)
        requires
            old(self).wf(),
        ensures
            final(self).wf(),
            final(self)@ == old(self)@.insert(digest@, preimage@),
    {
        let ghost d = digest@;
        let ghost p = preimage@;
        let e = WitnessEntry { digest, preimage };
        match self.find(&digest) {
            Some(j) => {
                proof {
                    lemma_map_of_update(self.entries@, j as int, e);
                }
                self.entries.set(j, e);
                proof {
                    assert(distinct_digests(self.entries@));
                }
            },
            None => {
                let ghost s = self.entries@;
                self.entries.push(e);
                proof {
                    assert(self.entries@.drop_last() =~= s);
                }
            },
        }
    }

    /// The preimage filed under `digest`, if any.
    pub fn get(&self, digest: &[u8; 32]) -> (r: Option<&Vec<u8>>)
        requires
            self.wf(),
        ensures
            r is Some <==> self@.dom().contains(digest@),
            r is Some ==> r->Some_0@ == self@[digest@],
    {
        proof {
            lemma_map_of_has_key(self.entries@, digest@);
        }
        match self.find(digest) {
            Some(j) => {
                proof {
                    lemma_map_of_value(self.entries@, j as int);
                }
                Some(&self.entries[j].preimage)
            },
            None => None,
        }
    }

    /// The entries of the store, each digest once.
    pub fn entries(&self) -> (r: &Vec<WitnessEntry>)
        requires
            self.wf(),
        ensures
            r@ == self.entry_seq(),
            distinct_digests(r@),
            map_of(r@) == self@,
    {
        &self.entries
    }
}

/// The file name `name` up to its first `.`.
pub fn file_stem(name: &str) -> (r: String)
    ensures
        r@ == stem_of(name@),
{
    let n = name.unicode_len();
    let mut i: usize = 0;
    while i < n && name.get_char(i) != '.'
        invariant
            n == name@.len(),
            0 <= i <= n,
            forall|j: int| 0 <= j < i ==> name@[j] != '.',
        decreases n - i,
    {
        i = i + 1;
    }
    proof {
        lemma_dot_index(name@, i as int);
    }
    String::from_str(name.substring_char(0, i))
}

/// The file that staging writes for one entry.
pub fn stage_entry(e: &WitnessEntry) -> (r: StagedFile)
    ensures
        r@ == staged_view(*e),
{
    let hex = encode_hex(e.digest.as_slice());
    let hex = hex.as_str();
    let shard = String::from_str(hex.substring_char(0, 4));
    let mut file_name = String::from_str(hex.substring_char(4, hex.unicode_len()));
    file_name.append(".txt");
    proof {
        reveal_strlit(".txt");
        assert(".txt"@ =~= txt_ext());
    }
    StagedFile { shard, file_name, contents: encode_hex(e.preimage.as_slice()) }
}

impl WitnessStore {
    /// The files that stage this store: one per entry, in entry order.
    pub fn stage(&self) -> (r: Vec<StagedFile>)
        ensures
            views_of(r@) == staged_views(self.entry_seq()),
    {
        let mut r: Vec<StagedFile> = Vec::new();
        let mut i: usize = 0;
        while i < self.entries.len()
            invariant
                0 <= i <= self.entries@.len(),
                r@.len() == i,
                forall|j: int| 0 <= j < i ==> #[trigger] r@[j]@ == staged_view(self.entries@[j]),
            decreases self.entries@.len() - i,
        {
            r.push(stage_entry(&self.entries[i]));
            i = i + 1;
        }
        assert(views_of(r@) =~= staged_views(self.entry_seq()));
        r
    }
}

/// Reads staged files back into a store. Each file files the preimage that
/// its contents spell under the digest that its shard and stem spell, later
/// files winning; the first file that does not decode is reported.
pub fn harvest(files: &Vec<StagedFile>) -> (r: Result<WitnessStore, WitnessError>)
    ensures
        r is Ok <==> forall|i: int| 0 <= i < files@.len() ==> #[trigger] file_decodes(files@[i]@),
        r is Ok ==> r->Ok_0.wf() && r->Ok_0@ == harvested(views_of(files@)),
        r matches Err(WitnessError::MalformedDigest(i)) ==> i < files@.len() && !digest_decodes(
            files@[i as int]@,
        ) && forall|j: int| 0 <= j < i ==> #[trigger] file_decodes(files@[j]@),
        r matches Err(WitnessError::MalformedContents(i)) ==> i < files@.len() && digest_decodes(
            files@[i as int]@,
        ) && !file_decodes(files@[i as int]@) && forall|j: int|
            0 <= j < i ==> #[trigger] file_decodes(files@[j]@),
{
    let ghost fs = views_of(files@);
    let mut store = WitnessStore::new();
    let mut i: usize = 0;
    while i < files.len()
        invariant
            fs == views_of(files@),
            0 <= i <= files@.len(),
            store.wf(),
            store@ == harvested(fs.subrange(0, i as int)),
            forall|j: int| 0 <= j < i ==> #[trigger] file_decodes(files@[j]@),
        decreases files@.len() - i,
    {
        let f = &files[i];
        let mut key = f.shard.clone();
        let stem = file_stem(f.file_name.as_str());
        key.append(stem.as_str());
        assert(key@ == digest_text(f@));
        let digest = match decode_hex_32(key.as_str()) {
            Ok(d) => d,
            Err(_) => {
                assert(!file_decodes(files@[i as int]@));
                return Err(WitnessError::MalformedDigest(i));
            },
        };
        let preimage = match decode_hex(f.contents.as_str()) {
            Ok(p) => p,
            Err(_) => {
                assert(!file_decodes(files@[i as int]@));
                return Err(WitnessError::MalformedContents(i));
            },
        };
        proof {
            assert(fs.subrange(0, i + 1).drop_last() =~= fs.subrange(0, i as int));
            assert(fs.subrange(0, i + 1).last() == f@);
        }
        store.insert(digest, preimage);
        i = i + 1;
    }
    assert(fs.subrange(0, i as int) =~= fs);
    Ok(store)
}

proof fn lemma_staged_entry(e: WitnessEntry)
    ensures
        file_decodes(staged_view(e)),
        decoded_hex(digest_text(staged_view(e))) == Some(e.digest@),
        decoded_hex(staged_view(e).2) == Some(e.preimage@),
{
    let h = hex_of(e.digest@);
    let name = staged_name_of(e.digest@);
    lemma_hex_round_trip(e.digest@);
    lemma_hex_round_trip(e.preimage@);
    assert forall|j: int| 0 <= j < 60 implies name[j] != '.' by {
        assert(is_hex_digit(h[j + 4]));
    }
    assert(name[60] == '.');
    lemma_dot_index(name, 60);
    assert(stem_of(name) =~= h.subrange(4, 64));
    assert(digest_text(staged_view(e)) =~= h);
}

proof fn lemma_harvest_staged(s: Seq<WitnessEntry>)
    ensures
        forall|i: int| 0 <= i < s.len() ==> #[trigger] file_decodes(staged_views(s)[i]),
        harvested(staged_views(s)) == map_of(s),
    decreases s.len(),
{
    assert forall|i: int| 0 <= i < s.len() implies #[trigger] file_decodes(staged_views(s)[i]) by {
        lemma_staged_entry(s[i]);
    }
    if s.len() > 0 {
        lemma_harvest_staged(s.drop_last());
        assert(staged_views(s).drop_last() =~= staged_views(s.drop_last()));
        lemma_staged_entry(s.last());
    }
}

/// Harvesting what staging writes gives back the store: every staged file
/// decodes, and the files describe exactly the store's mapping.
pub proof fn lemma_stage_then_harvest(store: &WitnessStore)
    ensures
        forall|i: int|
            0 <= i < staged_views(store.entry_seq()).len() ==> #[trigger] file_decodes(
                staged_views(store.entry_seq())[i],
            ),
        harvested(staged_views(store.entry_seq())) == store@,
{
    lemma_harvest_staged(store.entry_seq());
}

/// A digest's shard is the hex text of its first two bytes and its file name
/// is the hex text of the rest plus `.txt`; so digests that share their first
/// two bytes share a shard directory.
pub proof fn lemma_shard_of(d: Seq<u8>, other: Seq<u8>)
    requires
        d.len() == 32,
        other.len() == 32,
    ensures
        shard_of(d) == hex_of(d.subrange(0, 2)),
        staged_name_of(d) == hex_of(d.subrange(2, 32)) + txt_ext(),
        d.subrange(0, 2) == other.subrange(0, 2) ==> shard_of(d) == shard_of(other),
{
    let h = hex_of(d);
    let lo = hex_of(d.subrange(0, 2));
    let hi = hex_of(d.subrange(2, 32));
    assert forall|i: int| 0 <= i < 4 implies #[trigger] shard_of(d)[i] == lo[i] by {
        assert(i / 2 < 2);
    }
    assert(shard_of(d) =~= lo);
    assert forall|i: int| 0 <= i < 60 implies #[trigger] h.subrange(4, 64)[i] == hi[i] by {
        assert((i + 4) / 2 == i / 2 + 2);
        assert((i + 4) % 2 == i % 2);
    }
    assert(h.subrange(4, 64) =~= hi);
    if d.subrange(0, 2) == other.subrange(0, 2) {
        let lo2 = hex_of(other.subrange(0, 2));
        assert forall|i: int| 0 <= i < 4 implies #[trigger] shard_of(other)[i] == lo2[i] by {
            assert(i / 2 < 2);
        }
        assert(shard_of(other) =~= lo2);
    }
}

/// The digest that a readable file is filed under.
pub open spec fn key_of(f: (Seq<char>, Seq<char>, Seq<char>)) -> Seq<u8> {
    decoded_hex(digest_text(f))->Some_0
}

/// The preimage that a readable file holds.
pub open spec fn value_of(f: (Seq<char>, Seq<char>, Seq<char>)) -> Seq<u8> {
    decoded_hex(f.2)->Some_0
}

proof fn lemma_harvested_dom(fs: Seq<(Seq<char>, Seq<char>, Seq<char>)>, k: Seq<u8>)
    ensures
        harvested(fs).dom().contains(k) <==> exists|i: int| 0 <= i < fs.len() && key_of(fs[i]) == k,
    decreases fs.len(),
{
    if fs.len() > 0 {
        let p = fs.drop_last();
        lemma_harvested_dom(p, k);
        if harvested(p).dom().contains(k) {
            let i = choose|i: int| 0 <= i < p.len() && key_of(p[i]) == k;
            assert(key_of(fs[i]) == k);
        }
        if exists|i: int| 0 <= i < fs.len() && key_of(fs[i]) == k {
            let i = choose|i: int| 0 <= i < fs.len() && key_of(fs[i]) == k;
            if i < fs.len() - 1 {
                assert(key_of(p[i]) == k);
            }
        }
    }
}

proof fn lemma_harvested_value(fs: Seq<(Seq<char>, Seq<char>, Seq<char>)>, k: Seq<u8>, v: Seq<u8>)
    requires
        exists|i: int| 0 <= i < fs.len() && key_of(fs[i]) == k,
        forall|i: int| 0 <= i < fs.len() && key_of(fs[i]) == k ==> value_of(fs[i]) == v,
    ensures
        harvested(fs)[k] == v,
    decreases fs.len(),
{
    let p = fs.drop_last();
    if key_of(fs.last()) != k {
        let i = choose|i: int| 0 <= i < fs.len() && key_of(fs[i]) == k;
        assert(key_of(p[i]) == k);
        assert forall|i: int| 0 <= i < p.len() && key_of(p[i]) == k implies value_of(p[i]) == v by {
            assert(p[i] == fs[i]);
        }
        lemma_harvested_value(p, k, v);
    }
}

/// Harvesting any listing of a store's staged files gives back the store,
/// whatever the order of the listing and however often a file is listed:
/// every listed file decodes, and the files describe exactly the store's
/// mapping.
pub proof fn lemma_harvest_any_order(store: &WitnessStore, fs: Seq<(Seq<char>, Seq<char>, Seq<char>)>)
    requires
        store.wf(),
        forall|i: int|
            #![trigger fs[i]]
            0 <= i < fs.len() ==> exists|j: int|
                #![trigger store.entry_seq()[j]]
                0 <= j < store.entry_seq().len() && fs[i] == staged_view(store.entry_seq()[j]),
        forall|j: int|
            #![trigger store.entry_seq()[j]]
            0 <= j < store.entry_seq().len() ==> exists|i: int|
                #![trigger fs[i]]
                0 <= i < fs.len() && fs[i] == staged_view(store.entry_seq()[j]),
    ensures
        forall|i: int| 0 <= i < fs.len() ==> #[trigger] file_decodes(fs[i]),
        harvested(fs) == store@,
{
    let s = store.entry_seq();
    assert forall|i: int| 0 <= i < fs.len() implies #[trigger] file_decodes(fs[i]) by {
        let j = choose|j: int| 0 <= j < s.len() && fs[i] == staged_view(s[j]);
        lemma_staged_entry(s[j]);
    }
    assert forall|k: Seq<u8>| #[trigger] harvested(fs).dom().contains(k) <==> map_of(s).dom().contains(k) by {
        lemma_harvested_dom(fs, k);
        lemma_map_of_has_key(s, k);
        if harvested(fs).dom().contains(k) {
            let i = choose|i: int| 0 <= i < fs.len() && key_of(fs[i]) == k;
            let j = choose|j: int| 0 <= j < s.len() && fs[i] == staged_view(s[j]);
            lemma_staged_entry(s[j]);
            assert(s[j].digest@ == k);
        }
        if map_of(s).dom().contains(k) {
            let j = choose|j: int| 0 <= j < s.len() && s[j].digest@ == k;
            let i = choose|i: int| 0 <= i < fs.len() && fs[i] == staged_view(s[j]);
            lemma_staged_entry(s[j]);
            assert(key_of(fs[i]) == k);
        }
    }
    assert forall|k: Seq<u8>| #[trigger] harvested(fs).dom().contains(k) implies harvested(fs)[k]
        == map_of(s)[k] by {
        lemma_map_of_has_key(s, k);
        let j = choose|j: int| 0 <= j < s.len() && s[j].digest@ == k;
        lemma_map_of_value(s, j);
        let i0 = choose|i: int| 0 <= i < fs.len() && fs[i] == staged_view(s[j]);
        lemma_staged_entry(s[j]);
        assert(key_of(fs[i0]) == k);
        assert forall|i: int| 0 <= i < fs.len() && key_of(fs[i]) == k implies value_of(fs[i])
            == s[j].preimage@ by {
            let j2 = choose|j2: int| 0 <= j2 < s.len() && fs[i] == staged_view(s[j2]);
            lemma_staged_entry(s[j2]);
            assert(s[j2].digest@ == s[j].digest@);
        }
        lemma_harvested_value(fs, k, s[j].preimage@);
    }
    assert(harvested(fs) =~= map_of(s));
}

} // verus!
