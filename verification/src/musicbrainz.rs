//! The recording metadata model: what the metadata service returns for a
//! recording id, the artist-credit text built from it, a cache so each id is
//! fetched at most once, and the set-once store for the submission API key.

use vstd::prelude::*;
use vstd::string::StringExecFns;
use crate::text::eq_str;

verus! {

/// One credited artist: its name, and the join phrase that links it to the
/// next credit.
#[derive(Debug)]
pub struct ArtistCredit {
    pub name: String,
    pub joinphrase: Option<String>,
}

/// A recording as the metadata service describes it.
#[derive(Debug)]
pub struct Recording {
    pub id: String,
    pub title: String,
    pub disambiguation: Option<String>,
    pub artist_credit: Option<Vec<ArtistCredit>>,
}

/// The text one artist credit contributes: its name, a space, and the join
/// phrase followed by a space if there is one.
pub open spec fn spec_artist_text(a: ArtistCredit) -> Seq<char> {
    a.name@ + seq![' '] + (match a.joinphrase {
        Some(j) => j@ + seq![' '],
        None => Seq::<char>::empty(),
    })
}

/// The artist text of a whole credit list, in order.
pub open spec fn spec_artists_text(s: Seq<ArtistCredit>) -> Seq<char>
    decreases s.len(),
{
    if s.len() == 0 {
        Seq::<char>::empty()
    } else {
        spec_artists_text(s.drop_last()) + spec_artist_text(s.last())
    }
}

/// Join the artist names with their join phrases into the single string
/// written into the tag.
pub fn artists_to_string(data: &Vec<ArtistCredit>) -> (r: String)
    ensures
        r@ == spec_artists_text(data@),
{
    let mut r = String::new();
    let mut i: usize = 0;
    proof {
        reveal_strlit(" ");
        assert(data@.subrange(0, 0) =~= Seq::<ArtistCredit>::empty());
    }
    while i < data.len()
        invariant
            0 <= i <= data.len(),
            r@ == spec_artists_text(data@.subrange(0, i as int)),
        decreases data.len() - i,
    {
        proof {
            reveal_strlit(" ");
            assert(" "@ =~= seq![' ']);
        }
        let a = &data[i];
        r.append(a.name.as_str());
        r.append(" ");
        match &a.joinphrase {
            Some(j) => {
                r.append(j.as_str());
                r.append(" ");
            },
            None => {},
        }
        proof {
            assert(data@.subrange(0, i as int + 1).drop_last() =~= data@.subrange(0, i as int));
            assert(data@.subrange(0, i as int + 1).last() == data@[i as int]);
        }
        i += 1;
    }
    proof {
        assert(data@.subrange(0, data@.len() as int) =~= data@);
    }
    r
}

/// First cached entry whose recording id has these characters.
pub open spec fn spec_find(s: Seq<Recording>, id: Seq<char>) -> Option<int>
    decreases s.len(),
{
    if s.len() == 0 {
        None
    } else if s[0].id@ == id {
        Some(0)
    } else {
        match spec_find(s.drop_first(), id) {
            None => None,
            Some(k) => Some(k + 1),
        }
    }
}

proof fn lemma_find_at(s: Seq<Recording>, id: Seq<char>, k: int)
    requires
        0 <= k < s.len(),
        s[k].id@ == id,
        forall|j: int| 0 <= j < k ==> s[j].id@ != id,
    ensures
        spec_find(s, id) == Some(k),
    decreases k,
{
    if k == 0 {
    } else {
        lemma_find_at(s.drop_first(), id, k - 1);
    }
}

proof fn lemma_find_none(s: Seq<Recording>, id: Seq<char>)
    requires
        forall|j: int| 0 <= j < s.len() ==> s[j].id@ != id,
    ensures
        spec_find(s, id) is None,
    decreases s.len(),
{
    if s.len() > 0 {
        lemma_find_none(s.drop_first(), id);
    }
}

/// An in-memory cache of recording metadata keyed by recording id, filled
/// on first fetch so the same id is never fetched twice, and kept for the
/// lifetime of the candidate tree.
pub struct RecordingCache {
    entries: Vec<Recording>,
}

impl View for RecordingCache {
    type V = Seq<Recording>;

    closed spec fn view(&self) -> Seq<Recording> {
        self.entries@
    }
}

impl RecordingCache {
    /// No id is cached twice.
    pub open spec fn wf(&self) -> bool {
        forall|i: int, j: int|
            0 <= i < j < self@.len() ==> #[trigger] self@[i].id@ != #[trigger] self@[j].id@
    }

    /// An empty cache.
    pub fn new() -> (c: RecordingCache)
        ensures
            c.wf(),
            c@ == Seq::<Recording>::empty(),
    {
        RecordingCache { entries: Vec::new() }
    }

    /// How many recordings are cached.
    pub fn len(&self) -> (n: usize)
        ensures
            n == self@.len(),
    {
        self.entries.len()
    }

    /// Where the recording with this id is cached, if it is.
    pub fn find(&self, id: &str) -> (r: Option<usize>)
        ensures
            r matches Some(k) ==> spec_find(self@, id@) == Some(k as int),
            r is None ==> spec_find(self@, id@) is None,
            r matches Some(k) ==> k < self@.len() && self@[k as int].id@ == id@,
            r is None ==> forall|j: int| 0 <= j < self@.len() ==> self@[j].id@ != id@,
    {
        let mut i: usize = 0;
        while i < self.entries.len()
            invariant
                0 <= i <= self@.len(),
                forall|j: int| 0 <= j < i ==> self@[j].id@ != id@,
            decreases self@.len() - i,
        {
            if eq_str(self.entries[i].id.as_str(), id) {
                proof {
                    lemma_find_at(self@, id@, i as int);
                }
                return Some(i);
            }
            i += 1;
        }
        proof {
            lemma_find_none(self@, id@);
        }
        None
    }

    /// The cached recording at a known position.
    pub fn entry(&self, k: usize) -> (r: &Recording)
        requires
            k < self@.len(),
        ensures
            *r == self@[k as int],
    {
        &self.entries[k]
    }

    /// Cache a fetched recording. A first fetch is appended; an id already
    /// cached leaves the cache unchanged, so the first fetched metadata for
    /// an id is the one kept.
    pub fn insert(&mut self, rec: Recording) -> (added: bool)
        requires
            old(self).wf(),
        ensures
            final(self).wf(),
            added == (spec_find(old(self)@, rec.id@) is None),
            added ==> final(self)@ == old(self)@.push(rec),
            !added ==> final(self)@ == old(self)@,
    {
        let present = self.find(rec.id.as_str());
        match present {
            Some(_) => false,
            None => {
                self.entries.push(rec);
                proof {
                    assert(final(self).wf()) by {
                        assert(forall|j: int|
                            0 <= j < old(self)@.len() ==> old(self)@[j].id@ != rec.id@);
                    };
                }
                true
            },
        }
    }

    /// How many of the wanted ids are not cached yet: the count the human
    /// is told when fetches have failed, never silently dropped.
    pub fn missing_count(&self, ids: &Vec<String>) -> (n: usize)
        ensures
            n == spec_missing_count(self@, ids.deep_view()),
    {
        let mut n: usize = 0;
        let mut i: usize = 0;
        proof {
            assert(ids.deep_view().subrange(0, 0) =~= Seq::<Seq<char>>::empty());
        }
        while i < ids.len()
            invariant
                0 <= i <= ids@.len(),
                ids.deep_view().len() == ids@.len(),
                forall|j: int| 0 <= j < ids@.len() ==> ids.deep_view()[j] == #[trigger] ids@[j]@,
                n == spec_missing_count(self@, ids.deep_view().subrange(0, i as int)),
                n <= i,
            decreases ids@.len() - i,
    {
            let missing = match self.find(ids[i].as_str()) {
                None => true,
                Some(_) => false,
            };
            proof {
                let pref = ids.deep_view().subrange(0, i as int + 1);
                assert(pref.drop_last() =~= ids.deep_view().subrange(0, i as int));
                assert(pref.last() == ids.deep_view()[i as int]);
            }
            if missing {
                n += 1;
            }
            i += 1;
        }
        proof {
            assert(ids.deep_view().subrange(0, ids@.len() as int) =~= ids.deep_view());
        }
        n
    }
}

/// How many of `ids` have no entry in the cached sequence.
pub open spec fn spec_missing_count(cache: Seq<Recording>, ids: Seq<Seq<char>>) -> int
    decreases ids.len(),
{
    if ids.len() == 0 {
        0
    } else {
        spec_missing_count(cache, ids.drop_last()) + (if spec_find(cache, ids.last()) is None {
            1int
        } else {
            0int
        })
    }
}

/// The submission API key, asked for once and kept for the rest of the
/// process lifetime: set once on first successful use, read thereafter,
/// never persisted to disk.
pub struct ApiKeyStore {
    key: Option<String>,
}

impl ApiKeyStore {
    /// The stored key's characters, if one is stored.
    pub closed spec fn spec_key(&self) -> Option<Seq<char>> {
        match self.key {
            Some(k) => Some(k@),
            None => None,
        }
    }

    /// No key yet.
    pub fn new() -> (s: ApiKeyStore)
        ensures
            s.spec_key() is None,
    {
        ApiKeyStore { key: None }
    }

    /// Keep this key if none is kept yet; a key already kept stays.
    pub fn persist_if_absent(&mut self, key: &str)
        ensures
            old(self).spec_key() is None ==> final(self).spec_key() == Some(key@),
            old(self).spec_key() is Some ==> final(self).spec_key() == old(self).spec_key(),
    {
        match &self.key {
            Some(_) => {},
            None => {
                self.key = Some(String::from_str(key));
            },
        }
    }

    /// The kept key, if any.
    pub fn get(&self) -> (r: Option<&String>)
        ensures
            match r {
                Some(k) => self.spec_key() == Some(k@),
                None => self.spec_key() is None,
            },
    {
        match &self.key {
            Some(k) => Some(k),
            None => None,
        }
    }
}

} // verus!
