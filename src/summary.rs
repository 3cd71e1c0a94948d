//! The summary of an extracted dataset, built from one walk of its tree.
use vstd::multiset::Multiset;
use vstd::prelude::*;

verus! {

/// One entry met by the walk of an extracted tree: a file or a directory.
#[derive(Clone, Debug, PartialEq, Eq)]
pub struct Entry {
    /// Path of the entry.
    pub path: String,
    /// Byte length from the entry's metadata, `None` where that could not be
    /// read. Such an entry is still counted, but adds nothing to the size.
    pub len: Option<u64>,
}

/// The sample data description.
#[derive(Clone, Debug, PartialEq, Eq)]
pub struct SampleData {
    /// Root of the sample data directory.
    pub root: String,
    /// Number of entries (files and directories) in this dataset.
    pub num_files: u64,
    /// Total byte length of the entries whose metadata could be read.
    pub size: u64,
    /// The downloaded archive.
    pub archive: String,
    /// Every entry of this dataset, in the order of the walk.
    pub files: Vec<String>,
}

/// The entries of a walk that came back without error, in order; entries that
/// failed in the walk itself are skipped.
pub open spec fn walked(walk: Seq<Result<Entry, String>>) -> Seq<Entry>
    decreases walk.len(),
{
    if walk.len() == 0 {
        Seq::empty()
    } else {
        let rest = walked(walk.drop_last());
        match walk.last() {
            Ok(e) => rest.push(e),
            Err(_) => rest,
        }
    }
}

/// Sum of the byte lengths of the entries whose metadata was read.
pub open spec fn total_size(entries: Seq<Entry>) -> int
    decreases entries.len(),
{
    if entries.len() == 0 {
        0
    } else {
        total_size(entries.drop_last()) + match entries.last().len {
            Some(n) => n as int,
            None => 0,
        }
    }
}

/// The paths of the entries, in order.
pub open spec fn paths(entries: Seq<Entry>) -> Seq<Seq<char>> {
    entries.map_values(|e: Entry| e.path@)
}

impl SampleData {
    /// The paths of `files`, in order.
    pub open spec fn file_paths(&self) -> Seq<Seq<char>> {
        self.files@.map_values(|p: String| p@)
    }

    /// The description of the dataset at `root`, from archive `archive`, whose
    /// walk reported `walk`.
    pub open spec fn describes(
        &self,
        root: Seq<char>,
        archive: Seq<char>,
        walk: Seq<Result<Entry, String>>,
    ) -> bool {
        &&& self.root@ == root
        &&& self.archive@ == archive
        &&& self.num_files == walked(walk).len()
        &&& self.size == total_size(walked(walk))
        &&& self.file_paths() == paths(walked(walk))
    }

    /// Counts and sizes the entries of one walk of the tree at `root`.
    ///
    /// Returns `None` exactly when the total size does not fit in a `u64`.
    pub fn from_walk(root: String, archive: String, walk: &Vec<Result<Entry, String>>) -> (r:
        Option<SampleData>)
        ensures
            r is Some <==> total_size(walked(walk@)) <= u64::MAX,
            r matches Some(d) ==> d.describes(root@, archive@, walk@),
    {
        let mut num_files: u64 = 0;
        let mut size: u64 = 0;
        let mut files: Vec<String> = Vec::new();
        let mut i: usize = 0;
        while i < walk.len()
            invariant
                i <= walk@.len(),
                num_files == walked(walk@.take(i as int)).len(),
                num_files <= i,
                size == total_size(walked(walk@.take(i as int))),
                files@.map_values(|p: String| p@) == paths(walked(walk@.take(i as int))),
            decreases walk.len() - i,
        {
            let ghost before = walk@.take(i as int);
            assert(walk@.take(i + 1).drop_last() == before);
            assert(walk@.take(i + 1).last() == walk@[i as int]);
            match &walk[i] {
                Ok(e) => {
                    let add: u64 = match e.len {
                        Some(n) => n,
                        None => 0,
                    };
                    proof {
                        lemma_size_push(walked(before), *e);
                    }
                    if add > u64::MAX - size {
                        proof {
                            lemma_total_size_grows(walk@, i as int + 1);
                        }
                        return None;
                    }
                    num_files = num_files + 1;
                    size = size + add;
                    let path = e.path.clone();
                    assert(walked(walk@.take(i + 1)) == walked(before).push(*e));
                    assert(paths(walked(before).push(*e)) =~= paths(walked(before)).push(path@));
                    files.push(path);
                    assert(files@.map_values(|p: String| p@) =~= paths(walked(walk@.take(i + 1))));
                },
                Err(_) => {},
            }
            i = i + 1;
        }
        assert(walk@.take(walk@.len() as int) == walk@);
        Some(SampleData { root, num_files, size, archive, files })
    }
}

/// The size of a prefix of a walk is at most the size of the whole walk.
proof fn lemma_total_size_grows(walk: Seq<Result<Entry, String>>, k: int)
    requires
        0 <= k <= walk.len(),
    ensures
        total_size(walked(walk.take(k))) <= total_size(walked(walk)),
    decreases walk.len() - k,
{
    if k < walk.len() {
        lemma_total_size_grows(walk, k + 1);
        assert(walk.take(k + 1).drop_last() == walk.take(k));
        if let Ok(e) = walk[k] {
            lemma_size_push(walked(walk.take(k)), e);
        }
    } else {
        assert(walk.take(k) == walk);
    }
}

/// What one item of a walk adds to the size: its byte length, if it is an
/// entry whose metadata was read.
pub open spec fn size_of_item(x: Result<Entry, String>) -> int {
    match x {
        Ok(e) => match e.len {
            Some(n) => n as int,
            None => 0,
        },
        Err(_) => 0,
    }
}

/// The paths of a walk's entries, with their multiplicities.
pub open spec fn path_bag(walk: Seq<Result<Entry, String>>) -> Multiset<Seq<char>> {
    paths(walked(walk)).to_multiset()
}

/// Taking one item out of a walk takes its part out of the count, the size and
/// the paths.
proof fn lemma_walk_remove(w: Seq<Result<Entry, String>>, j: int)
    requires
        0 <= j < w.len(),
    ensures
        walked(w).len() == walked(w.remove(j)).len() + if w[j] is Ok {
            1int
        } else {
            0
        },
        total_size(walked(w)) == total_size(walked(w.remove(j))) + size_of_item(w[j]),
        path_bag(w) == match w[j] {
            Ok(e) => path_bag(w.remove(j)).insert(e.path@),
            Err(_) => path_bag(w.remove(j)),
        },
    decreases w.len(),
{
    broadcast use vstd::seq_lib::group_to_multiset_ensures;

    let r = w.remove(j);
    if j == w.len() - 1 {
        assert(r == w.drop_last());
        lemma_walk_push(w);
    } else {
        let d = w.drop_last();
        assert(r.drop_last() == d.remove(j));
        assert(r.last() == w.last());
        assert(d[j] == w[j]);
        lemma_walk_remove(d, j);
        lemma_walk_push(w);
        lemma_walk_push(r);
        assert(path_bag(w) =~= match w[j] {
            Ok(e) => path_bag(r).insert(e.path@),
            Err(_) => path_bag(r),
        });
    }
}

/// What the last item of a walk adds to the count, the size and the paths.
proof fn lemma_walk_push(w: Seq<Result<Entry, String>>)
    requires
        w.len() > 0,
    ensures
        walked(w).len() == walked(w.drop_last()).len() + if w.last() is Ok {
            1int
        } else {
            0
        },
        total_size(walked(w)) == total_size(walked(w.drop_last())) + size_of_item(w.last()),
        path_bag(w) == match w.last() {
            Ok(e) => path_bag(w.drop_last()).insert(e.path@),
            Err(_) => path_bag(w.drop_last()),
        },
{
    broadcast use vstd::seq_lib::group_to_multiset_ensures;

    if let Ok(e) = w.last() {
        lemma_size_push(walked(w.drop_last()), e);
        assert(paths(walked(w)) =~= paths(walked(w.drop_last())).push(e.path@));
    }
}

/// The order in which a walk meets the entries does not matter: two walks that
/// report the same items, in any order, give the same count and size, and the
/// same paths with the same multiplicities.
pub proof fn lemma_walk_order_irrelevant(w1: Seq<Result<Entry, String>>, w2: Seq<Result<Entry, String>>)
    requires
        w1.to_multiset() == w2.to_multiset(),
    ensures
        walked(w1).len() == walked(w2).len(),
        total_size(walked(w1)) == total_size(walked(w2)),
        path_bag(w1) == path_bag(w2),
    decreases w1.len(),
{
    broadcast use vstd::seq_lib::group_to_multiset_ensures;

    if w1.len() == 0 {
        assert(w1.to_multiset().len() == 0);
        assert(w2.to_multiset().len() == w2.len());
        assert(w1 == w2);
    } else {
        let x = w1.last();
        assert(w1.to_multiset().count(x) > 0) by {
            assert(w1.contains(x));
        }
        assert(w2.contains(x));
        let j = choose|j: int| 0 <= j < w2.len() && w2[j] == x;
        let n = w1.len() - 1;
        assert(w1.remove(n) == w1.drop_last());
        assert(w1.drop_last().to_multiset() == w2.remove(j).to_multiset());
        lemma_walk_order_irrelevant(w1.drop_last(), w2.remove(j));
        lemma_walk_push(w1);
        lemma_walk_remove(w2, j);
    }
}

/// Appending an entry adds its byte length, if read, to the size.
proof fn lemma_size_push(entries: Seq<Entry>, e: Entry)
    ensures
        total_size(entries.push(e)) == total_size(entries) + match e.len {
            Some(n) => n as int,
            None => 0,
        },
{
    assert(entries.push(e).drop_last() == entries);
}

} // verus!
