use vstd::prelude::*;
use vstd::string::*;

verus! {

/// What `str::to_lowercase` gives for the characters `s`.
pub uninterp spec fn lower_of(s: Seq<char>) -> Seq<char>;

/// Relies on str::to_lowercase: the lowercase form of a name depends on its
/// characters alone.
#[verifier::external_body]
fn to_lower(s: &str) -> (r: String)
    ensures
        r@ == lower_of(s@),
{
    s.to_lowercase()
}

/// The extension that marks a collection file.
pub open spec fn json_ext() -> Seq<char> {
    seq!['.', 'j', 's', 'o', 'n']
}

/// The file that holds the collection whose normalized name is `stem`.
pub open spec fn file_of(stem: Seq<char>) -> Seq<char> {
    stem + json_ext()
}

/// The collection name that a directory entry `f` stands for, if any: its
/// extension must be exactly `json` and its stem non-empty.
pub open spec fn stem_of(f: Seq<char>) -> Option<Seq<char>> {
    if f.len() > json_ext().len() && f.subrange(f.len() - json_ext().len(), f.len() as int)
        == json_ext() {
        Some(f.subrange(0, f.len() - json_ext().len()))
    } else {
        None
    }
}

/// The collection names that the directory entries `fs` stand for, in order.
pub open spec fn listed(fs: Seq<Seq<char>>) -> Seq<Seq<char>>
    decreases fs.len(),
{
    if fs.len() == 0 {
        Seq::empty()
    } else {
        match stem_of(fs.last()) {
            Some(s) => listed(fs.drop_last()).push(s),
            None => listed(fs.drop_last()),
        }
    }
}

/// How many times `x` occurs in `s`.
pub open spec fn occurrences(s: Seq<Seq<char>>, x: Seq<char>) -> nat
    decreases s.len(),
{
    if s.len() == 0 {
        0
    } else {
        occurrences(s.drop_last(), x) + if s.last() == x {
            1nat
        } else {
            0nat
        }
    }
}

/// The character sequences of a sequence of strings.
pub open spec fn views(v: Seq<String>) -> Seq<Seq<char>> {
    v.map_values(|s: String| s@)
}

/// The file name for a collection whose name is already normalized.
pub fn json_file_name(stem: &str) -> (r: String)
    ensures
        r@ == file_of(stem@),
{
    let mut s = stem.to_owned();
    proof {
        reveal_strlit(".json");
    }
    s.append(".json");
    s
}

/// The file name of collection `name`: the name in lowercase, then `.json`.
/// Names differing only in case address the same file.
pub fn collection_file_name(name: &str) -> (r: String)
    ensures
        r@ == file_of(lower_of(name@)),
{
    let lower = to_lower(name);
    json_file_name(lower.as_str())
}

/// The collection name of directory entry `file`, when it is a collection file.
pub fn collection_stem(file: &str) -> (r: Option<String>)
    ensures
        match stem_of(file@) {
            Some(s) => r is Some && r->0@ == s,
            None => r is None,
        },
{
    let n = file.unicode_len();
    if n <= 5 {
        return None;
    }
    let ext = file.substring_char(n - 5, n).to_owned();
    proof {
        reveal_strlit(".json");
    }
    let json = ".json".to_owned();
    assert(json@ =~= json_ext());
    if ext == json {
        Some(file.substring_char(0, n - 5).to_owned())
    } else {
        None
    }
}

/// The collection names among the directory entries `files` (the names of the
/// regular files of the root directory), in the order given.
pub fn collection_names(files: &Vec<String>) -> (r: Vec<String>)
    ensures
        views(r@) == listed(views(files@)),
{
    let mut out: Vec<String> = Vec::new();
    let mut i: usize = 0;
    while i < files.len()
        invariant
            i <= files@.len(),
            views(out@) == listed(views(files@).subrange(0, i as int)),
        decreases files@.len() - i,
    {
        let ghost before = out@;
        let ghost pre = views(files@).subrange(0, i as int);
        let ghost cur = views(files@).subrange(0, i + 1);
        assert(cur.drop_last() =~= pre);
        assert(cur.last() == files@[i as int]@);
        match collection_stem(files[i].as_str()) {
            Some(s) => {
                out.push(s);
                assert(views(out@) =~= views(before).push(s@));
            },
            None => {},
        }
        i = i + 1;
    }
    assert(views(files@).subrange(0, files@.len() as int) =~= views(files@));
    out
}

/// Directory entry `f` stands for collection `x` exactly when it is the file
/// of `x`.
proof fn lemma_stem_file(f: Seq<char>, x: Seq<char>)
    requires
        x.len() > 0,
    ensures
        stem_of(f) == Some(x) <==> f == file_of(x),
{
    let g = file_of(x);
    assert(g.subrange(g.len() - 5, g.len() as int) =~= json_ext());
    assert(g.subrange(0, g.len() - 5) =~= x);
    if stem_of(f) == Some(x) {
        assert(f =~= f.subrange(0, f.len() - 5) + f.subrange(f.len() - 5, f.len() as int));
    }
}

/// A collection name occurs in the listing as often as its file occurs among
/// the entries.
proof fn lemma_listed_count(fs: Seq<Seq<char>>, x: Seq<char>)
    requires
        x.len() > 0,
    ensures
        occurrences(listed(fs), x) == occurrences(fs, file_of(x)),
    decreases fs.len(),
{
    if fs.len() > 0 {
        lemma_listed_count(fs.drop_last(), x);
        lemma_stem_file(fs.last(), x);
        match stem_of(fs.last()) {
            Some(s) => {
                assert(listed(fs).drop_last() =~= listed(fs.drop_last()));
            },
            None => {},
        }
    }
}

/// A sequence that does not contain `x` counts it zero times.
proof fn lemma_absent(s: Seq<Seq<char>>, x: Seq<char>)
    requires
        !s.contains(x),
    ensures
        occurrences(s, x) == 0,
    decreases s.len(),
{
    if s.len() > 0 {
        let t = s.drop_last();
        if t.contains(x) {
            let i = choose|i: int| 0 <= i < t.len() && t[i] == x;
            assert(s[i] == x);
        }
        assert(s[s.len() - 1] != x);
        lemma_absent(t, x);
    }
}

/// Creating a collection adds its file to the root directory, after which
/// the listing holds the lowercase name exactly once; once the file is gone
/// (the collection deleted) the name is not listed. `files` are the entries of
/// the directory without that file. A name whose lowercase form is empty or
/// holds a path separator addresses no file of the root directory, and is left
/// out.
pub proof fn lemma_listed_after_create(files: Seq<Seq<char>>, name: Seq<char>)
    requires
        lower_of(name).len() > 0,
        !lower_of(name).contains('/'),
        !files.contains(file_of(lower_of(name))),
    ensures
        occurrences(listed(files.push(file_of(lower_of(name)))), lower_of(name)) == 1,
        !listed(files).contains(lower_of(name)),
{
    let x = lower_of(name);
    let f = file_of(x);
    lemma_absent(files, f);
    lemma_listed_count(files, x);
    lemma_listed_count(files.push(f), x);
    assert(files.push(f).drop_last() =~= files);
    if listed(files).contains(x) {
        let i = choose|i: int| 0 <= i < listed(files).len() && listed(files)[i] == x;
        lemma_present(listed(files), x, i);
    }
}

/// A sequence that holds `x` at some index counts it at least once.
proof fn lemma_present(s: Seq<Seq<char>>, x: Seq<char>, i: int)
    requires
        0 <= i < s.len(),
        s[i] == x,
    ensures
        occurrences(s, x) > 0,
    decreases s.len(),
{
    if i < s.len() - 1 {
        lemma_present(s.drop_last(), x, i);
    }
}

} // verus!
