//! File names and output paths, as plain strings with `/` as the separator.

use vstd::prelude::*;

verus! {

/// `i` is the position of the last `c` in `s`.
pub open spec fn is_last(s: Seq<char>, c: char, i: int) -> bool {
    &&& 0 <= i < s.len()
    &&& s[i] == c
    &&& forall|j: int| i < j < s.len() ==> #[trigger] s[j] != c
}

/// The position of the last `c` in `s`, or -1 where `s` holds none.
pub open spec fn last_index_of(s: Seq<char>, c: char) -> int {
    if exists|i: int| is_last(s, c, i) {
        choose|i: int| is_last(s, c, i)
    } else {
        -1
    }
}

/// A character has at most one last position.
pub proof fn lemma_last_unique(s: Seq<char>, c: char, i: int, j: int)
    requires
        is_last(s, c, i),
        is_last(s, c, j),
    ensures
        i == j,
{
    if i < j {
        assert(s[j] != c);
    } else if j < i {
        assert(s[i] != c);
    }
}

/// Finds the last `c` in `s`, counting positions in characters.
pub fn find_last(s: &str, c: char) -> (found: Option<usize>)
    ensures
        found matches Some(i) ==> is_last(s@, c, i as int) && last_index_of(s@, c) == i,
        found is None ==> !s@.contains(c) && last_index_of(s@, c) == -1,
{
    let n = s.unicode_len();
    let mut i: usize = n;
    while i > 0
        invariant
            i <= n,
            n == s@.len(),
            forall|j: int| i <= j < n ==> #[trigger] s@[j] != c,
        decreases i,
    {
        i -= 1;
        if s.get_char(i) == c {
            assert(is_last(s@, c, i as int));
            proof {
                lemma_last_unique(s@, c, i as int, choose|k: int| is_last(s@, c, k));
            }
            return Some(i);
        }
    }
    assert forall|k: int| !is_last(s@, c, k) by {
        if 0 <= k < s@.len() {
            assert(s@[k] != c);
        }
    }
    assert(!s@.contains(c)) by {
        if s@.contains(c) {
            let k = choose|k: int| 0 <= k < s@.len() && s@[k] == c;
            assert(s@[k] != c);
        }
    }
    None
}

/// The final component of `path`: what follows its last `/`, or all of it.
pub open spec fn file_name_of(path: Seq<char>) -> Seq<char> {
    path.skip(last_index_of(path, '/') + 1)
}

/// A file name without its extension: what precedes its last `.`, unless
/// that dot is missing or opens the name, in which case the whole name.
pub open spec fn strip_extension(name: Seq<char>) -> Seq<char> {
    let dot = last_index_of(name, '.');
    if dot > 0 {
        name.take(dot)
    } else {
        name
    }
}

/// The stem of `path`: its final component without the extension.
pub open spec fn stem_of(path: Seq<char>) -> Seq<char> {
    strip_extension(file_name_of(path))
}

/// Where a page is written: `<out_dir>/<stem>.html`.
pub open spec fn output_path_of(out_dir: Seq<char>, stem: Seq<char>) -> Seq<char> {
    out_dir + "/"@ + stem + ".html"@
}

/// The stem of `path`, as [`stem_of`] defines it. A path that ends in `/`
/// has the empty stem.
pub fn file_stem(path: &str) -> (stem: String)
    ensures
        stem@ == stem_of(path@),
{
    let len = path.unicode_len();
    let start = match find_last(path, '/') {
        Some(i) => i + 1,
        None => 0,
    };
    let name = path.substring_char(start, len);
    assert(name@ == file_name_of(path@));
    let name_len = name.unicode_len();
    let end = match find_last(name, '.') {
        Some(dot) => if dot > 0 {
            dot
        } else {
            name_len
        },
        None => name_len,
    };
    let stem = name.substring_char(0, end);
    assert(stem@ == stem_of(path@));
    String::from_str(stem)
}

/// The path of the page made from a source with the given stem.
pub fn output_path(out_dir: &str, stem: &str) -> (path: String)
    ensures
        path@ == output_path_of(out_dir@, stem@),
{
    let mut path = String::from_str(out_dir);
    path.append("/");
    path.append(stem);
    path.append(".html");
    path
}

/// A sequence that holds `c` has a last position of it.
pub proof fn lemma_last_exists(s: Seq<char>, c: char)
    requires
        s.contains(c),
    ensures
        is_last(s, c, last_index_of(s, c)),
    decreases s.len(),
{
    let n = s.len() as int;
    let w = choose|k: int| 0 <= k < s.len() && s[k] == c;
    if s[n - 1] == c {
        assert(is_last(s, c, n - 1));
    } else {
        let t = s.drop_last();
        assert(t[w] == c);
        lemma_last_exists(t, c);
        let i = last_index_of(t, c);
        assert(is_last(s, c, i)) by {
            assert forall|j: int| i < j < s.len() implies #[trigger] s[j] != c by {
                if j < n - 1 {
                    assert(t[j] != c);
                }
            }
        }
    }
}

/// The position that [`is_last`] singles out is the one [`last_index_of`] gives.
pub proof fn lemma_last_index_is(s: Seq<char>, c: char, i: int)
    requires
        is_last(s, c, i),
    ensures
        last_index_of(s, c) == i,
{
    lemma_last_unique(s, c, i, choose|k: int| is_last(s, c, k));
}

/// A file name holds no `/`.
pub proof fn lemma_file_name_has_no_separator(path: Seq<char>)
    ensures
        !file_name_of(path).contains('/'),
{
    let name = file_name_of(path);
    let k = last_index_of(path, '/');
    if name.contains('/') {
        let j = choose|j: int| 0 <= j < name.len() && name[j] == '/';
        assert(path[k + 1 + j] == '/');
        assert(path.contains('/'));
        lemma_last_exists(path, '/');
        assert(path[k + 1 + j] != '/');
    }
}

/// A stem holds no `/`: it names no directory, so a page made from it lies
/// directly in the output directory.
pub proof fn lemma_stem_has_no_separator(path: Seq<char>)
    ensures
        !stem_of(path).contains('/'),
{
    let name = file_name_of(path);
    let stem = stem_of(path);
    lemma_file_name_has_no_separator(path);
    if stem.contains('/') {
        let j = choose|j: int| 0 <= j < stem.len() && stem[j] == '/';
        assert(name[j] == '/');
        assert(name.contains('/'));
    }
}

/// The final component of an output path is the stem followed by `.html`.
pub proof fn lemma_output_file_name(out_dir: Seq<char>, stem: Seq<char>)
    requires
        !stem.contains('/'),
    ensures
        file_name_of(output_path_of(out_dir, stem)) == stem + ".html"@,
{
    reveal_strlit("/");
    reveal_strlit(".html");
    let path = output_path_of(out_dir, stem);
    let k = out_dir.len() as int;
    assert(path[k] == '/');
    assert(is_last(path, '/', k)) by {
        assert forall|j: int| k < j < path.len() implies #[trigger] path[j] != '/' by {
            if j < k + 1 + stem.len() {
                assert(path[j] == stem[j - k - 1]);
                assert(stem.contains(stem[j - k - 1]));
            } else {
                assert(path[j] == ".html"@[j - k - 1 - stem.len()]);
            }
        }
    }
    lemma_last_index_is(path, '/', k);
    assert(path.skip(k + 1) =~= stem + ".html"@);
}

/// A markdown file `<dir>/<name>.md` with a non-empty name has the stem
/// `<name>`, whatever dots the name holds.
pub proof fn lemma_stem_of_markdown_file(dir: Seq<char>, name: Seq<char>)
    requires
        name.len() > 0,
        !name.contains('/'),
    ensures
        stem_of(dir + "/"@ + name + ".md"@) == name,
{
    reveal_strlit("/");
    reveal_strlit(".md");
    let path = dir + "/"@ + name + ".md"@;
    let k = dir.len() as int;
    assert(path[k] == '/');
    assert(is_last(path, '/', k)) by {
        assert forall|j: int| k < j < path.len() implies #[trigger] path[j] != '/' by {
            if j < k + 1 + name.len() {
                assert(path[j] == name[j - k - 1]);
                assert(name.contains(name[j - k - 1]));
            } else {
                assert(path[j] == ".md"@[j - k - 1 - name.len()]);
            }
        }
    }
    lemma_last_index_is(path, '/', k);
    let file = file_name_of(path);
    assert(file =~= name + ".md"@);
    let d = name.len() as int;
    assert(file[d] == '.');
    assert(is_last(file, '.', d)) by {
        assert forall|j: int| d < j < file.len() implies #[trigger] file[j] != '.' by {
            assert(file[j] == ".md"@[j - d]);
        }
    }
    lemma_last_index_is(file, '.', d);
    assert(file.take(d) =~= name);
}

/// Pages of different stems go to different paths: no page overwrites
/// another unless their sources share a stem.
pub proof fn lemma_output_path_injective(out_dir: Seq<char>, a: Seq<char>, b: Seq<char>)
    requires
        output_path_of(out_dir, a) == output_path_of(out_dir, b),
    ensures
        a == b,
{
    let pa = output_path_of(out_dir, a);
    let pb = output_path_of(out_dir, b);
    let k = out_dir.len() + "/"@.len();
    assert(pa.len() == k + a.len() + ".html"@.len());
    assert(pb.len() == k + b.len() + ".html"@.len());
    assert forall|i: int| 0 <= i < a.len() implies a[i] == b[i] by {
        assert(pa[k + i] == a[i]);
        assert(pb[k + i] == b[i]);
    }
    assert(a =~= b);
}

} // verus!
