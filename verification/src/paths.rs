//! Path text manipulation.
//!
//! Paths move through the protocol as plain `/`-separated text. The
//! registry build splits walked file paths into components, rewrites them
//! under an install root, and joins source names onto definition
//! directories; the install state machine reads a destination's extension.
//! All of it is defined here over `Seq<char>` and implemented on `&str`.

use vstd::prelude::*;

verus! {

/// The last index before `n` at which `s` holds `c`, or `-1`.
pub open spec fn last_pos(s: Seq<char>, c: char, n: int) -> int
    decreases n,
{
    if n <= 0 {
        -1
    } else if s[n - 1] == c {
        n - 1
    } else {
        last_pos(s, c, n - 1)
    }
}

/// Where the extension of the file named by `s` starts, or `-1` when it
/// has none: the character after the last dot, provided that dot sits
/// inside the final path component and is not the component's first
/// character.
pub open spec fn ext_start(s: Seq<char>) -> int {
    let slash = last_pos(s, '/', s.len() as int);
    let dot = last_pos(s, '.', s.len() as int);
    if dot >= slash + 2 {
        dot + 1
    } else {
        -1
    }
}

/// The extension of the file a path names, empty when it has none.
pub open spec fn extension_spec(s: Seq<char>) -> Seq<char> {
    if 0 <= ext_start(s) <= s.len() {
        s.subrange(ext_start(s), s.len() as int)
    } else {
        Seq::empty()
    }
}

/// The extension of the file `path` names: the part after the last dot of
/// its final component, or empty when that component has no dot or only a
/// leading one.
pub fn extension_of(path: &str) -> (r: String)
    ensures
        r@ == extension_spec(path@),
{
    let n = path.unicode_len();
    let mut i: usize = 0;
    let mut dot: usize = 0;
    let mut has_dot = false;
    let mut slash: usize = 0;
    let mut has_slash = false;
    while i < n
        invariant
            0 <= i <= n,
            n == path@.len(),
            has_dot ==> last_pos(path@, '.', i as int) == dot as int,
            !has_dot ==> last_pos(path@, '.', i as int) == -1,
            has_slash ==> last_pos(path@, '/', i as int) == slash as int,
            !has_slash ==> last_pos(path@, '/', i as int) == -1,
            has_dot ==> dot < i,
            has_slash ==> slash < i,
        decreases n - i,
    {
        let c = path.get_char(i);
        if c == '.' {
            dot = i;
            has_dot = true;
        }
        if c == '/' {
            slash = i;
            has_slash = true;
        }
        i = i + 1;
    }
    let sl: usize = if has_slash {
        slash + 1
    } else {
        0
    };
    if has_dot && dot > sl {
        let r = path.substring_char(dot + 1, n).to_owned();
        proof {
            assert(r@ =~= extension_spec(path@));
        }
        r
    } else {
        let r = String::new();
        proof {
            assert(r@ =~= extension_spec(path@));
        }
        r
    }
}

/// The first index at which `s` holds `c`, or `-1`.
pub open spec fn first_pos(s: Seq<char>, c: char) -> int
    decreases s.len(),
{
    if s.len() == 0 {
        -1
    } else if s[0] == c {
        0
    } else {
        let r = first_pos(s.drop_first(), c);
        if r < 0 {
            -1
        } else {
            r + 1
        }
    }
}

proof fn lemma_first_pos_at(s: Seq<char>, c: char, j: int)
    requires
        0 <= j < s.len(),
        s[j] == c,
        forall|k: int| 0 <= k < j ==> s[k] != c,
    ensures
        first_pos(s, c) == j,
    decreases j,
{
    if j > 0 {
        lemma_first_pos_at(s.drop_first(), c, j - 1);
    }
}

proof fn lemma_first_pos_none(s: Seq<char>, c: char)
    requires
        forall|k: int| 0 <= k < s.len() ==> s[k] != c,
    ensures
        first_pos(s, c) == -1,
    decreases s.len(),
{
    if s.len() > 0 {
        lemma_first_pos_none(s.drop_first(), c);
    }
}

proof fn lemma_first_pos_bound(s: Seq<char>, c: char)
    ensures
        first_pos(s, c) < s.len(),
        first_pos(s, c) >= 0 ==> s[first_pos(s, c)] == c,
    decreases s.len(),
{
    if s.len() > 0 && s[0] != c {
        lemma_first_pos_bound(s.drop_first(), c);
    }
}

fn find_char(s: &str, c: char) -> (r: Option<usize>)
    ensures
        (match r {
            Some(i) => first_pos(s@, c) == i as int && i < s@.len(),
            None => first_pos(s@, c) == -1,
        }),
{
    let n = s.unicode_len();
    let mut i: usize = 0;
    while i < n
        invariant
            0 <= i <= n,
            n == s@.len(),
            forall|k: int| 0 <= k < i ==> s@[k] != c,
        decreases n - i,
    {
        if s.get_char(i) == c {
            proof {
                lemma_first_pos_at(s@, c, i as int);
            }
            return Some(i);
        }
        i = i + 1;
    }
    proof {
        lemma_first_pos_none(s@, c);
    }
    None
}

/// The components of a path: the maximal stretches between `/`
/// separators, in order. Splitting keeps empty components, exactly as
/// splitting text on a separator does.
pub open spec fn split_path(s: Seq<char>) -> Seq<Seq<char>>
    decreases s.len(),
{
    let i = first_pos(s, '/');
    if !(0 <= i < s.len()) {
        seq![s]
    } else {
        seq![s.subrange(0, i)] + split_path(s.subrange(i + 1, s.len() as int))
    }
}

/// Split a path into its `/`-separated components.
pub fn split_slash(s: &str) -> (r: Vec<String>)
    ensures
        r.deep_view() == split_path(s@),
        r@.len() > 0,
    decreases s@.len(),
{
    proof {
        lemma_first_pos_bound(s@, '/');
    }
    match find_char(s, '/') {
        None => {
            let mut r: Vec<String> = Vec::new();
            r.push(s.to_owned());
            proof {
                assert(r.deep_view() =~= split_path(s@));
            }
            r
        },
        Some(i) => {
            let n = s.unicode_len();
            let head = s.substring_char(0, i);
            let tail = s.substring_char(i + 1, n);
            let mut rest = split_slash(tail);
            rest.insert(0, head.to_owned());
            proof {
                assert(rest.deep_view() =~= split_path(s@));
            }
            rest
        },
    }
}

/// The path whose components are `cs`, joined by `/`.
pub open spec fn join_path(cs: Seq<Seq<char>>) -> Seq<char>
    decreases cs.len(),
{
    if cs.len() == 0 {
        Seq::empty()
    } else if cs.len() == 1 {
        cs[0]
    } else {
        cs[0] + seq!['/'] + join_path(cs.drop_first())
    }
}

/// Join the components of `cs` from index `from` on, with `/` in between.
pub fn join_slash(cs: &Vec<String>, from: usize) -> (r: String)
    requires
        from <= cs@.len(),
    ensures
        r@ == join_path(cs.deep_view().skip(from as int)),
    decreases cs@.len() - from,
{
    if from == cs.len() {
        let r = String::new();
        proof {
            assert(cs.deep_view().skip(from as int) =~= Seq::<Seq<char>>::empty());
        }
        r
    } else if from + 1 == cs.len() {
        let r = cs[from].clone();
        proof {
            assert(cs.deep_view().skip(from as int) =~= seq![cs@[from as int]@]);
        }
        r
    } else {
        let mut out = cs[from].clone();
        out.append("/");
        let rest = join_slash(cs, from + 1);
        out.append(rest.as_str());
        proof {
            reveal_strlit("/");
            assert("/"@ =~= seq!['/']);
            let tail = cs.deep_view().skip(from as int);
            assert(tail.drop_first() =~= cs.deep_view().skip(from as int + 1));
            assert(tail[0] == cs@[from as int]@);
            assert(out@ =~= join_path(tail));
        }
        out
    }
}

/// The first index at which `cs` holds the component `word`, or `-1`.
pub open spec fn component_index(cs: Seq<Seq<char>>, word: Seq<char>) -> int
    decreases cs.len(),
{
    if cs.len() == 0 {
        -1
    } else if cs[0] == word {
        0
    } else {
        let r = component_index(cs.drop_first(), word);
        if r < 0 {
            -1
        } else {
            r + 1
        }
    }
}

proof fn lemma_component_index_at(cs: Seq<Seq<char>>, word: Seq<char>, j: int)
    requires
        0 <= j < cs.len(),
        cs[j] == word,
        forall|k: int| 0 <= k < j ==> cs[k] != word,
    ensures
        component_index(cs, word) == j,
    decreases j,
{
    if j > 0 {
        lemma_component_index_at(cs.drop_first(), word, j - 1);
    }
}

proof fn lemma_component_index_none(cs: Seq<Seq<char>>, word: Seq<char>)
    requires
        forall|k: int| 0 <= k < cs.len() ==> cs[k] != word,
    ensures
        component_index(cs, word) == -1,
    decreases cs.len(),
{
    if cs.len() > 0 {
        lemma_component_index_none(cs.drop_first(), word);
    }
}

/// Whether `name` is an absolute path in the `/`-separated model: it
/// starts with the separator.
pub open spec fn is_absolute(s: Seq<char>) -> bool {
    s.len() > 0 && s[0] == '/'
}

/// Where a declared source file is read from: its own name when absolute,
/// otherwise the name resolved against the definition's directory.
pub open spec fn resolve_spec(dir: Seq<char>, name: Seq<char>) -> Seq<char> {
    if is_absolute(name) {
        name
    } else {
        dir + seq!['/'] + name
    }
}

/// Resolve a declared source file against its definition's directory.
pub fn resolve_source(dir: &str, name: &str) -> (r: String)
    ensures
        r@ == resolve_spec(dir@, name@),
{
    let absolute = if name.unicode_len() > 0 {
        name.get_char(0) == '/'
    } else {
        false
    };
    if absolute {
        name.to_owned()
    } else {
        let mut out = dir.to_owned();
        out.append("/");
        out.append(name);
        proof {
            reveal_strlit("/");
            assert("/"@ =~= seq!['/']);
            assert(out@ =~= resolve_spec(dir@, name@));
        }
        out
    }
}

/// A walked file's destination under an install root. The file's path is
/// anchored at the registry root component `anchor`: the components up to
/// and including `anchor`, the definition directory after it, and the
/// declared folder's own name are dropped, and what remains is placed
/// under `root`. `None` when the path holds no `anchor` component or ends
/// before the folder's contents — a malformed tree layout.
pub open spec fn rewrite_spec(path: Seq<char>, anchor: Seq<char>, root: Seq<char>) -> Option<
    Seq<char>,
> {
    let cs = split_path(path);
    let i = component_index(cs, anchor);
    if i < 0 || cs.len() < i + 3 {
        None
    } else if cs.len() == i + 3 {
        Some(root)
    } else {
        Some(root + seq!['/'] + join_path(cs.skip(i + 3)))
    }
}

/// The first component of `cs` equal to `word`, as an index.
fn find_component(cs: &Vec<String>, word: &str) -> (r: Option<usize>)
    ensures
        (match r {
            Some(i) => component_index(cs.deep_view(), word@) == i as int && i < cs@.len(),
            None => component_index(cs.deep_view(), word@) == -1,
        }),
{
    let w = word.to_owned();
    let ghost csv = cs.deep_view();
    let mut i: usize = 0;
    while i < cs.len()
        invariant
            0 <= i <= csv.len(),
            csv == cs.deep_view(),
            cs@.len() == csv.len(),
            w@ == word@,
            forall|k: int| 0 <= k < i ==> csv[k] != word@,
        decreases csv.len() - i,
    {
        if cs[i] == w {
            proof {
                lemma_component_index_at(csv, word@, i as int);
            }
            return Some(i);
        }
        i = i + 1;
    }
    proof {
        lemma_component_index_none(csv, word@);
    }
    None
}

/// Rewrite a walked file path to its destination under `root`.
pub fn rewrite_anchored(path: &str, anchor: &str, root: &str) -> (r: Option<String>)
    ensures
        (match r {
            Some(p) => rewrite_spec(path@, anchor@, root@) == Some(p@),
            None => rewrite_spec(path@, anchor@, root@) is None,
        }),
{
    let cs = split_slash(path);
    let ghost csv = cs.deep_view();
    let i = match find_component(&cs, anchor) {
        None => {
            return None;
        },
        Some(i) => i,
    };
    if cs.len() - i < 3 {
        return None;
    }
    if cs.len() - i == 3 {
        return Some(root.to_owned());
    }
    let joined = join_slash(&cs, i + 3);
    let mut out = root.to_owned();
    out.append("/");
    out.append(joined.as_str());
    proof {
        reveal_strlit("/");
        assert("/"@ =~= seq!['/']);
        assert(out@ =~= root@ + seq!['/'] + join_path(csv.skip(i as int + 3)));
    }
    Some(out)
}

} // verus!
