use vstd::prelude::*;

use crate::rng::choose_string;

verus! {

/// The tracks that belong to one list.
#[derive(Clone, Debug)]
pub struct ListTracks {
    pub list_name: String,
    pub tracks: Vec<String>,
}

/// The tracks of the first entry named `name`, or none.
pub open spec fn tracks_named(entries: Seq<ListTracks>, name: Seq<char>) -> Seq<String>
    decreases entries.len(),
{
    if entries.len() == 0 {
        Seq::empty()
    } else if entries[0].list_name@ == name {
        entries[0].tracks@
    } else {
        tracks_named(entries.drop_first(), name)
    }
}

/// Paths of the audio tracks of one category: a default sub-pool and one
/// sub-pool for each list that has its own.
#[derive(Clone, Debug)]
pub struct SoundPool {
    pub default_tracks: Vec<String>,
    /// Sub-pools by list; the first entry of a name is the one that counts.
    pub lists: Vec<ListTracks>,
}

impl SoundPool {
    /// The sub-pool of `name`.
    pub open spec fn list_tracks(self, name: Seq<char>) -> Seq<String> {
        tracks_named(self.lists@, name)
    }

    /// The tracks a pick for `list_name` draws from: the list's own sub-pool
    /// when it has any track, else the default sub-pool.
    pub open spec fn candidates(self, list_name: Option<Seq<char>>) -> Seq<String> {
        match list_name {
            Some(n) => if self.list_tracks(n).len() > 0 {
                self.list_tracks(n)
            } else {
                self.default_tracks@
            },
            None => self.default_tracks@,
        }
    }

    /// `pick` may come out of a draw for `list_name`: nothing when no
    /// candidate exists, else one of the candidates.
    pub open spec fn is_pick(self, list_name: Option<Seq<char>>, pick: Option<String>) -> bool {
        let c = self.candidates(list_name);
        &&& pick is None <==> c.len() == 0
        &&& pick matches Some(t) ==> c.contains(t)
    }

    pub fn new(default_tracks: Vec<String>) -> (r: SoundPool)
        ensures
            r.default_tracks@ == default_tracks@,
            forall|n: Seq<char>| #[trigger] r.list_tracks(n).len() == 0,
    {
        SoundPool { default_tracks, lists: Vec::new() }
    }

    /// Sets the sub-pool of `list_name`; the others stay as they were.
    pub fn insert_list(&mut self, list_name: String, tracks: Vec<String>)
        ensures
            final(self).default_tracks@ == old(self).default_tracks@,
            final(self).list_tracks(list_name@) == tracks@,
            forall|n: Seq<char>|
                n != list_name@ ==> #[trigger] final(self).list_tracks(n) == old(self).list_tracks(
                    n,
                ),
    {
        let ghost name = list_name@;
        let ghost before = self.lists@;
        let entry = ListTracks { list_name, tracks };
        let ghost e = entry;
        match self.find_list(&entry.list_name) {
            Some(i) => {
                self.lists.set(i, entry);
                proof {
                    assert(self.lists@ == before.update(i as int, e));
                    lemma_tracks_named_first(self.lists@, name, i as int);
                    assert forall|n: Seq<char>| n != name implies #[trigger] tracks_named(
                        self.lists@,
                        n,
                    ) == tracks_named(before, n) by {
                        lemma_tracks_named_update(before, i as int, e, n);
                    }
                }
            },
            None => {
                self.lists.push(entry);
                proof {
                    assert forall|n: Seq<char>| #[trigger] tracks_named(self.lists@, n) == (if n
                        == name {
                        e.tracks@
                    } else {
                        tracks_named(before, n)
                    }) by {
                        lemma_tracks_named_push(before, e, n);
                    }
                }
            },
        }
    }

    /// The first entry of `list_name`.
    fn find_list(&self, list_name: &String) -> (r: Option<usize>)
        ensures
            r is None ==> forall|j: int|
                0 <= j < self.lists@.len() ==> (#[trigger] self.lists@[j]).list_name@ != list_name@,
            r matches Some(i) ==> {
                &&& i < self.lists@.len()
                &&& self.lists@[i as int].list_name@ == list_name@
                &&& forall|j: int| 0 <= j < i ==> (#[trigger] self.lists@[j]).list_name@ != list_name@
            },
    {
        let mut i: usize = 0;
        while i < self.lists.len()
            invariant
                i <= self.lists@.len(),
                forall|j: int| 0 <= j < i ==> (#[trigger] self.lists@[j]).list_name@ != list_name@,
            decreases self.lists@.len() - i,
        {
            if self.lists[i].list_name == *list_name {
                return Some(i);
            }
            i = i + 1;
        }
        None
    }

    /// The tracks a pick for `list_name` draws from.
    pub fn candidate_tracks(&self, list_name: Option<&String>) -> (r: &Vec<String>)
        ensures
            r@ == self.candidates(
                match list_name {
                    Some(n) => Some(n@),
                    None => None,
                },
            ),
    {
        if let Some(name) = list_name {
            match self.find_list(name) {
                Some(i) => {
                    proof {
                        lemma_tracks_named_first(self.lists@, name@, i as int);
                    }
                    if self.lists[i].tracks.len() > 0 {
                        return &self.lists[i].tracks;
                    }
                },
                None => {
                    proof {
                        lemma_tracks_named_absent(self.lists@, name@);
                    }
                },
            }
        }
        &self.default_tracks
    }

    /// A uniformly drawn track for `list_name`: from the list's own
    /// sub-pool, else from the default one; `None` when both are empty.
    pub fn random_sound(&self, list_name: Option<&String>) -> (r: Option<String>)
        ensures
            self.is_pick(
                match list_name {
                    Some(n) => Some(n@),
                    None => None,
                },
                r,
            ),
    {
        choose_string(self.candidate_tracks(list_name))
    }
}

/// The first entry of `name` gives its tracks.
proof fn lemma_tracks_named_first(entries: Seq<ListTracks>, name: Seq<char>, i: int)
    requires
        0 <= i < entries.len(),
        entries[i].list_name@ == name,
        forall|j: int| 0 <= j < i ==> (#[trigger] entries[j]).list_name@ != name,
    ensures
        tracks_named(entries, name) == entries[i].tracks@,
    decreases i,
{
    if i > 0 {
        let rest = entries.drop_first();
        assert forall|j: int| 0 <= j < i - 1 implies (#[trigger] rest[j]).list_name@ != name by {
            assert(rest[j] == entries[j + 1]);
        }
        lemma_tracks_named_first(rest, name, i - 1);
    }
}

/// A name without an entry has no tracks.
proof fn lemma_tracks_named_absent(entries: Seq<ListTracks>, name: Seq<char>)
    requires
        forall|j: int| 0 <= j < entries.len() ==> (#[trigger] entries[j]).list_name@ != name,
    ensures
        tracks_named(entries, name) == Seq::<String>::empty(),
    decreases entries.len(),
{
    if entries.len() > 0 {
        let rest = entries.drop_first();
        assert forall|j: int| 0 <= j < rest.len() implies (#[trigger] rest[j]).list_name@ != name by {
            assert(rest[j] == entries[j + 1]);
        }
        lemma_tracks_named_absent(rest, name);
    }
}

/// Replacing an entry by one of the same name leaves the other names' tracks.
proof fn lemma_tracks_named_update(entries: Seq<ListTracks>, i: int, x: ListTracks, n: Seq<char>)
    requires
        0 <= i < entries.len(),
        x.list_name@ == entries[i].list_name@,
        n != x.list_name@,
    ensures
        tracks_named(entries.update(i, x), n) == tracks_named(entries, n),
    decreases i,
{
    let updated = entries.update(i, x);
    if i == 0 {
        assert(updated.drop_first() =~= entries.drop_first());
    } else {
        assert(updated[0] == entries[0]);
        assert(updated.drop_first() =~= entries.drop_first().update(i - 1, x));
        lemma_tracks_named_update(entries.drop_first(), i - 1, x, n);
    }
}

/// Appending an entry of a new name adds that name only.
proof fn lemma_tracks_named_push(entries: Seq<ListTracks>, x: ListTracks, n: Seq<char>)
    requires
        forall|j: int| 0 <= j < entries.len() ==> (#[trigger] entries[j]).list_name@ != x.list_name@,
    ensures
        tracks_named(entries.push(x), n) == if n == x.list_name@ {
            x.tracks@
        } else {
            tracks_named(entries, n)
        },
    decreases entries.len(),
{
    let pushed = entries.push(x);
    if entries.len() == 0 {
        assert(pushed[0] == x);
        assert(pushed.drop_first() =~= Seq::<ListTracks>::empty());
        assert(tracks_named(pushed.drop_first(), n) == Seq::<String>::empty());
    } else {
        assert(pushed[0] == entries[0]);
        assert(entries[0].list_name@ != x.list_name@);
        assert(pushed.drop_first() =~= entries.drop_first().push(x));
        let rest = entries.drop_first();
        assert forall|j: int| 0 <= j < rest.len() implies (#[trigger] rest[j]).list_name@
            != x.list_name@ by {
            assert(rest[j] == entries[j + 1]);
        }
        lemma_tracks_named_push(rest, x, n);
    }
}

} // verus!
