//! Data sources and the paths derived from a dataset's name.
use vstd::prelude::*;

verus! {

/// A named pointer to a remote zip archive.
pub struct DataSource<'a> {
    /// Name of the dataset: the stem of its archive file and its directory.
    pub name: &'a str,
    /// URL of a zip file that holds the sample data.
    pub url: &'a str,
}

/// The name that presets give a dataset fetched from an arbitrary URL.
pub open spec fn custom_name() -> Seq<char> {
    "Custom url"@
}

/// Linux kernel sources (about 75k files, about 910MB).
pub fn linux_kernel() -> (r: DataSource<'static>)
    ensures
        r.name@ == "Linux_Kernel"@,
        r.url@ == "https://github.com/torvalds/linux/archive/v5.9.zip"@,
{
    DataSource { name: "Linux_Kernel", url: "https://github.com/torvalds/linux/archive/v5.9.zip" }
}

/// Cargo sources (610 files, about 5MB).
pub fn cargo_sources() -> (r: DataSource<'static>)
    ensures
        r.name@ == "Cargo_sources"@,
        r.url@ == "https://github.com/rust-lang/cargo/archive/0.47.0.zip"@,
{
    DataSource { name: "Cargo_sources", url: "https://github.com/rust-lang/cargo/archive/0.47.0.zip" }
}

/// A source for an arbitrary URL, which must point to a zip file.
pub fn from_url<'a>(zipfile_url: &'a str) -> (r: DataSource<'a>)
    ensures
        r.name@ == custom_name(),
        r.url@ == zipfile_url@,
{
    DataSource { name: "Custom url", url: zipfile_url }
}

/// The archive of dataset `name`: `"<name>.zip"`.
pub open spec fn archive_of(name: Seq<char>) -> Seq<char> {
    name + ".zip"@
}

/// The path of the local archive of dataset `name`, in the working directory.
pub fn archive_name(name: &str) -> (r: String)
    ensures
        r@ == archive_of(name@),
{
    let s = name.to_owned();
    s.concat(".zip")
}

/// `dir` is a safe dataset name: it is not empty and holds no path separator.
pub open spec fn is_component(dir: Seq<char>) -> bool {
    &&& dir.len() > 0
    &&& !dir.contains('/')
}

/// Tells whether `name` is a safe dataset name.
pub fn is_safe_name(name: &str) -> (r: bool)
    ensures
        r == is_component(name@),
{
    let n = name.unicode_len();
    if n == 0 {
        return false;
    }
    let mut i: usize = 0;
    while i < n
        invariant
            n == name@.len(),
            i <= n,
            forall|j: int| 0 <= j < i ==> name@[j] != '/',
        decreases n - i,
    {
        if name.get_char(i) == '/' {
            assert(name@.contains('/'));
            return false;
        }
        i = i + 1;
    }
    true
}

/// `dir` joined onto `base`; an empty base is the working directory.
pub open spec fn join(base: Seq<char>, dir: Seq<char>) -> Seq<char> {
    if base.len() == 0 {
        dir
    } else if base.last() == '/' {
        base + dir
    } else {
        base + "/"@ + dir
    }
}

/// Resolves the root directory of the dataset `data_dir` under `base`.
///
/// The resolution fails when `data_dir` is empty or holds a path separator,
/// since it would then not name a directory of its own under `base`.
pub fn data_path(base: &str, data_dir: &str) -> (r: Option<String>)
    ensures
        r is Some <==> is_component(data_dir@),
        r matches Some(p) ==> p@ == join(base@, data_dir@),
{
    if !is_safe_name(data_dir) {
        return None;
    }
    let mut p = base.to_owned();
    let b = base.unicode_len();
    if b > 0 && base.get_char(b - 1) != '/' {
        p.append("/");
    }
    p.append(data_dir);
    Some(p)
}

/// Distinct safe dataset names resolve to distinct roots under one base.
pub proof fn lemma_distinct_names_distinct_roots(base: Seq<char>, x: Seq<char>, y: Seq<char>)
    requires
        is_component(x),
        is_component(y),
        x != y,
    ensures
        join(base, x) != join(base, y),
{
    let pre = if base.len() == 0 {
        Seq::<char>::empty()
    } else if base.last() == '/' {
        base
    } else {
        base + "/"@
    };
    assert(join(base, x) == pre + x);
    assert(join(base, y) == pre + y);
    if pre + x == pre + y {
        assert(x == (pre + x).subrange(pre.len() as int, (pre + x).len() as int));
        assert(y == (pre + y).subrange(pre.len() as int, (pre + y).len() as int));
    }
}

} // verus!
