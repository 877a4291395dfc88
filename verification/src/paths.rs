//! Paths as texts with `/` between their components.

use vstd::prelude::*;
use crate::list::{extend, includes, kept, law_kept, put};
use crate::text::{
    begins, cat2, cat3, chars_of, ends, is_char, law_found_parts_are_there, law_pieces_of_both,
    lemma_pieces_nonempty, pieces, same, split, starts_with, step, text_between,
};

verus! {

broadcast use {vstd::seq::group_seq_axioms, vstd::string::group_string_axioms};

/// The components of a path that say something: neither empty nor `.`.
pub open spec fn components(path: Seq<char>) -> Seq<Seq<char>> {
    kept(pieces(path, is_char('/')), |c: Seq<char>| c.len() > 0 && c != "."@)
}

/// Whether a path starts at the root.
pub open spec fn is_absolute_spec(path: Seq<char>) -> bool {
    begins(path, "/"@)
}

/// Whether a path starts at the root.
pub fn is_absolute(path: &str) -> (r: bool)
    ensures
        r == is_absolute_spec(path@),
{
    starts_with(path, "/")
}

/// The components of a path that say something.
pub fn path_components(path: &str) -> (r: Vec<String>)
    ensures
        r.deep_view() == components(path@),
{
    let parts = split(path, '/');
    let ghost all = parts.deep_view();
    let mut out: Vec<String> = Vec::new();
    let mut i: usize = 0;
    proof {
        ends(all);
        assert(out.deep_view() =~= Seq::<Seq<char>>::empty());
    }
    while i < parts.len()
        invariant
            i <= parts@.len(),
            all == parts.deep_view(),
            out.deep_view() == kept(
                all.take(i as int),
                |c: Seq<char>| c.len() > 0 && c != "."@,
            ),
        decreases parts@.len() - i,
    {
        proof {
            step(all, i as int);
        }
        if !parts[i].as_str().is_empty() && !same(&parts[i], ".") {
            out.push(parts[i].clone());
        }
        i = i + 1;
    }
    proof {
        ends(all);
    }
    out
}

/// The name of the file or directory that a path leads to.
pub open spec fn file_name_spec(path: Seq<char>) -> Option<Seq<char>> {
    let c = components(path);
    if c.len() == 0 || c.last() == ".."@ {
        None
    } else {
        Some(c.last())
    }
}

/// The name of the file or directory that a path leads to.
pub fn file_name(path: &str) -> (r: Option<String>)
    ensures
        r.deep_view() == file_name_spec(path@),
{
    let c = path_components(path);
    if c.len() == 0 || same(&c[c.len() - 1], "..") {
        None
    } else {
        Some(c[c.len() - 1].clone())
    }
}

/// All the components of a path: `/` in front of those of an absolute one, and
/// `.` in front where a relative path begins with it.
pub open spec fn full_components(path: Seq<char>) -> Seq<Seq<char>> {
    if is_absolute_spec(path) {
        seq!["/"@] + components(path)
    } else if pieces(path, is_char('/'))[0] == "."@ {
        seq!["."@] + components(path)
    } else {
        components(path)
    }
}

/// All the components of a path.
pub fn all_components(path: &str) -> (r: Vec<String>)
    ensures
        r.deep_view() == full_components(path@),
{
    let parts = split(path, '/');
    proof {
        lemma_pieces_nonempty(path@, is_char('/'));
        assert(parts.deep_view()[0] == parts@[0]@);
    }
    let mut out: Vec<String> = Vec::new();
    proof {
        assert(out.deep_view() =~= Seq::<Seq<char>>::empty());
    }
    if is_absolute(path) {
        put(&mut out, "/");
    } else if same(&parts[0], ".") {
        put(&mut out, ".");
    }
    extend(&mut out, &path_components(path));
    proof {
        assert(seq!["/"@] =~= Seq::<Seq<char>>::empty().push("/"@));
        assert(seq!["."@] =~= Seq::<Seq<char>>::empty().push("."@));
        assert(out.deep_view() =~= full_components(path@));
    }
    out
}

/// Whether two paths are the same, component by component.
pub open spec fn same_path_spec(a: Seq<char>, b: Seq<char>) -> bool {
    full_components(a) == full_components(b)
}

/// Whether one list of texts begins with another.
pub open spec fn leads(list: Seq<Seq<char>>, front: Seq<Seq<char>>) -> bool {
    front.len() <= list.len() && list.take(front.len() as int) == front
}

/// Whether one list of texts begins with another.
pub fn is_led_by(list: &Vec<String>, front: &Vec<String>) -> (r: bool)
    ensures
        r == leads(list.deep_view(), front.deep_view()),
{
    if front.len() > list.len() {
        return false;
    }
    let mut i: usize = 0;
    while i < front.len()
        invariant
            i <= front@.len() <= list@.len(),
            forall|j: int| 0 <= j < i ==> #[trigger] list.deep_view()[j] == front.deep_view()[j],
        decreases front@.len() - i,
    {
        if !same(&list[i], &front[i]) {
            proof {
                assert(list.deep_view().take(front@.len() as int)[i as int]
                    == list.deep_view()[i as int]);
            }
            return false;
        }
        i = i + 1;
    }
    proof {
        assert(list.deep_view().take(front@.len() as int) =~= front.deep_view());
    }
    true
}

/// Whether two paths are the same, component by component.
pub fn same_path(a: &str, b: &str) -> (r: bool)
    ensures
        r == same_path_spec(a@, b@),
{
    let x = all_components(a);
    let y = all_components(b);
    let r = x.len() == y.len() && is_led_by(&x, &y);
    proof {
        if x@.len() == y@.len() {
            ends(x.deep_view());
        } else {
            assert(x.deep_view().len() != y.deep_view().len());
        }
    }
    r
}

/// Whether a path leads to a place or below it.
pub open spec fn within(path: Seq<char>, root: Seq<char>) -> bool {
    leads(full_components(path), full_components(root))
}

/// Whether a path leads to a place or below it.
pub fn path_is_within(path: &str, root: &str) -> (r: bool)
    ensures
        r == within(path@, root@),
{
    is_led_by(&all_components(path), &all_components(root))
}

/// Whether a path goes up somewhere.
pub open spec fn climbs(path: Seq<char>) -> bool {
    components(path).contains(".."@)
}

/// Whether a path goes up somewhere.
pub fn has_parent_component(path: &str) -> (r: bool)
    ensures
        r == climbs(path@),
{
    includes(&path_components(path), "..")
}

/// Where a character occurs last; -1 if nowhere.
pub open spec fn last_of(s: Seq<char>, c: char) -> int
    decreases s.len(),
{
    if s.len() == 0 {
        -1
    } else if s.last() == c {
        s.len() - 1
    } else {
        last_of(s.drop_last(), c)
    }
}

/// Where a character occurs last.
fn find_last_char(a: &Vec<char>, c: char) -> (r: Option<usize>)
    ensures
        match r {
            Some(i) => i == last_of(a@, c) && i < a@.len(),
            None => last_of(a@, c) == -1,
        },
{
    let mut i: usize = a.len();
    proof {
        ends(a@);
    }
    while i > 0
        invariant
            i <= a@.len(),
            last_of(a@.take(i as int), c) == last_of(a@, c),
        decreases i,
    {
        proof {
            step(a@, i as int - 1);
        }
        if a[i - 1] == c {
            return Some(i - 1);
        }
        i = i - 1;
    }
    None
}

/// The extension of the file that a path leads to: what follows the last `.` of
/// its name, unless that `.` comes first.
pub open spec fn extension_spec(path: Seq<char>) -> Option<Seq<char>> {
    match file_name_spec(path) {
        Some(name) => if last_of(name, '.') > 0 {
            Some(name.subrange(last_of(name, '.') + 1, name.len() as int))
        } else {
            None
        },
        None => None,
    }
}

/// The extension of the file that a path leads to.
pub fn extension(path: &str) -> (r: Option<String>)
    ensures
        r.deep_view() == extension_spec(path@),
{
    match file_name(path) {
        Some(name) => {
            let a = chars_of(&name);
            let size = a.len();
            match find_last_char(&a, '.') {
                Some(i) => if i > 0 {
                    Some(text_between(&a, i + 1, size))
                } else {
                    None
                },
                None => None,
            }
        },
        None => None,
    }
}

/// A path without separators and `.` components at its end.
pub open spec fn end_trimmed(path: Seq<char>) -> Seq<char>
    decreases path.len(),
{
    if path.len() > 1 && path.last() == '/' {
        end_trimmed(path.drop_last())
    } else if path.len() > 1 && path.last() == '.' && path[path.len() - 2] == '/' {
        end_trimmed(path.drop_last())
    } else {
        path
    }
}

/// How much of a path is left without separators and `.` components at its end.
fn trimmed_size(a: &Vec<char>, n: usize) -> (r: usize)
    requires
        n <= a@.len(),
    ensures
        r <= n,
        end_trimmed(a@.take(n as int)) == a@.take(r as int),
{
    let mut i: usize = n;
    while i > 1 && (a[i - 1] == '/' || (a[i - 1] == '.' && a[i - 2] == '/'))
        invariant
            i <= n <= a@.len(),
            end_trimmed(a@.take(n as int)) == end_trimmed(a@.take(i as int)),
        decreases i,
    {
        proof {
            step(a@, i as int - 1);
        }
        i = i - 1;
    }
    i
}

/// The directory that a path's last component is in. There is none for the root
/// and for the empty path.
pub open spec fn parent_spec(path: Seq<char>) -> Option<Seq<char>> {
    let bare = end_trimmed(path);
    if bare.len() == 0 || bare == "/"@ {
        None
    } else {
        Some(end_trimmed(bare.take(last_of(bare, '/') + 1)))
    }
}

/// The directory that a path's last component is in.
pub fn parent(path: &str) -> (r: Option<String>)
    ensures
        r.deep_view() == parent_spec(path@),
{
    let a = chars_of(path);
    proof {
        ends(a@);
        reveal_strlit("/");
    }
    let n = trimmed_size(&a, a.len());
    let bare = text_between(&a, 0, n);
    proof {
        assert(a@.subrange(0, n as int) =~= a@.take(n as int));
    }
    if n == 0 || same(&bare, "/") {
        return None;
    }
    let b = chars_of(&bare);
    let m: usize = match find_last_char(&b, '/') {
        Some(i) => i + 1,
        None => 0,
    };
    let size = trimmed_size(&b, m);
    proof {
        assert(b@.subrange(0, size as int) =~= b@.take(size as int));
    }
    Some(text_between(&b, 0, size))
}

/// A relative path below a directory; an absolute one stays as it is.
pub open spec fn path_joined(base: Seq<char>, path: Seq<char>) -> Seq<char> {
    if is_absolute_spec(path) {
        path
    } else if base.len() == 0 || base.last() == '/' {
        base + path
    } else {
        base + "/"@ + path
    }
}

/// A relative path below a directory; an absolute one stays as it is.
pub fn path_join(base: &str, path: &str) -> (r: String)
    ensures
        r@ == path_joined(base@, path@),
{
    if is_absolute(path) {
        return path.to_string();
    }
    let a = chars_of(base);
    if a.len() == 0 || a[a.len() - 1] == '/' {
        cat2(base, path)
    } else {
        cat3(base, "/", path)
    }
}

// ---------------------------------------------------------------------------
// Laws
// ---------------------------------------------------------------------------

/// A place is within itself, and what is within a place within another is within
/// the other.
pub proof fn law_within_is_an_order(a: Seq<char>, b: Seq<char>, c: Seq<char>)
    ensures
        within(a, a),
        within(a, b) && within(b, c) ==> within(a, c),
        within(a, b) && within(b, a) ==> same_path_spec(a, b),
{
    let x = full_components(a);
    let y = full_components(b);
    let z = full_components(c);
    ends(x);
    if leads(x, y) && leads(y, z) {
        assert(x.take(z.len() as int) =~= y.take(z.len() as int));
    }
    if leads(x, y) && leads(y, x) {
        ends(x);
        ends(y);
    }
}

/// A path is absolute exactly where it begins with a slash.
pub proof fn law_absolute_paths(path: Seq<char>)
    ensures
        is_absolute_spec(path) <==> path.len() > 0 && path[0] == '/',
{
    reveal_strlit("/");
    assert("/"@ =~= seq!['/']);
    law_found_parts_are_there(path, "/"@);
    if path.len() > 0 && path[0] == '/' {
        assert(path =~= "/"@ + path.skip(1));
    }
}

/// The components of a path are what stands between slashes, unless it is empty or a single
/// dot; it climbs where one of them is two dots.
pub proof fn law_components(path: Seq<char>, c: Seq<char>)
    ensures
        components(path).contains(c) <==> pieces(path, is_char('/')).contains(c) && c.len() > 0 && c
            != seq!['.'],
        climbs(path) <==> pieces(path, is_char('/')).contains(seq!['.', '.']),
{
    reveal_strlit(".");
    reveal_strlit("..");
    assert("."@ =~= seq!['.']);
    assert(".."@ =~= seq!['.', '.']);
    let p = |c: Seq<char>| c.len() > 0 && c != "."@;
    law_kept(pieces(path, is_char('/')), p, c);
    law_kept(pieces(path, is_char('/')), p, ".."@);
}

/// A plain name, joined to a directory, stands in it under its own name, one step below.
pub proof fn law_joined_paths(base: Seq<char>, name: Seq<char>)
    requires
        base.len() > 0,
        name.len() > 0,
        !name.contains('/'),
        name != seq!['.'],
        name != seq!['.', '.'],
    ensures
        components(path_joined(base, name)) == components(base).push(name),
        full_components(path_joined(base, name)) == full_components(base).push(name),
        within(path_joined(base, name), base),
        file_name_spec(path_joined(base, name)) == Some(name),
{
    reveal_strlit(".");
    reveal_strlit("..");
    reveal_strlit("/");
    assert("."@ =~= seq!['.']);
    assert(".."@ =~= seq!['.', '.']);
    assert("/"@ =~= seq!['/']);
    law_absolute_paths(name);
    law_absolute_paths(base);
    if name[0] == '/' {
        assert(name.contains('/'));
    }
    let p = |c: Seq<char>| c.len() > 0 && c != "."@;
    let joined_path = path_joined(base, name);
    law_absolute_paths(joined_path);
    lemma_one_piece(name);
    let left = if base.last() == '/' {
        base.drop_last()
    } else {
        base
    };
    assert(joined_path =~= left.push('/') + name);
    law_pieces_of_both(left, '/', name);
    lemma_pieces_nonempty(left, is_char('/'));
    let parts = pieces(left, is_char('/'));
    lemma_pieces_nonempty(base, is_char('/'));
    if base.last() == '/' {
        law_pieces_of_both(left, '/', Seq::empty());
        assert(left.push('/') + Seq::<char>::empty() =~= base);
        assert(pieces(base, is_char('/')) =~= parts.push(Seq::empty()));
        assert(parts.push(Seq::<char>::empty()).drop_last() =~= parts);
        assert(kept(parts.push(Seq::<char>::empty()), p) == kept(parts, p));
        assert(components(base) == kept(parts, p));
    }
    assert(parts + seq![name] =~= parts.push(name));
    assert(parts.push(name).drop_last() =~= parts);
    assert(p(name));
    assert(kept(parts.push(name), p) == kept(parts, p).push(name));
    assert(components(joined_path) == components(base).push(name));
    assert(joined_path[0] == base[0]);
    assert(pieces(joined_path, is_char('/'))[0] == parts[0]);
    assert(pieces(base, is_char('/'))[0] == parts[0]);
    let whole = full_components(base);
    assert(full_components(joined_path) =~= whole.push(name));
    assert(whole.push(name).take(whole.len() as int) =~= whole);
    assert(components(base).push(name).last() == name);
}

proof fn lemma_one_piece(s: Seq<char>)
    requires
        !s.contains('/'),
    ensures
        pieces(s, is_char('/')) == seq![s],
    decreases s.len(),
{
    if s.len() == 0 {
        assert(s =~= Seq::empty());
    } else {
        assert(s[s.len() - 1] != '/') by {
            if s[s.len() - 1] == '/' {
                assert(s.contains('/'));
            }
        }
        if s.drop_last().contains('/') {
            let k = choose|k: int| 0 <= k < s.drop_last().len() && s.drop_last()[k] == '/';
            assert(s[k] == '/');
        }
        lemma_one_piece(s.drop_last());
        assert(s.drop_last().push(s.last()) =~= s);
        assert(pieces(s, is_char('/')) =~= seq![s]);
    }
}

/// An absolute path replaces what it is joined to.
pub proof fn law_absolute_paths_replace(base: Seq<char>, path: Seq<char>)
    requires
        path.len() > 0,
        path[0] == '/',
    ensures
        path_joined(base, path) == path,
{
    law_absolute_paths(path);
}

/// The last place of a character: it is there, and nowhere behind.
pub proof fn law_last_places(s: Seq<char>, c: char)
    ensures
        last_of(s, c) == -1 <==> !s.contains(c),
        -1 <= last_of(s, c) < s.len(),
        last_of(s, c) >= 0 ==> s[last_of(s, c)] == c,
        forall|i: int| last_of(s, c) < i < s.len() ==> #[trigger] s[i] != c,
    decreases s.len(),
{
    if s.len() > 0 {
        let d = s.drop_last();
        law_last_places(d, c);
        assert(s[s.len() - 1] == s.last());
        assert forall|i: int| last_of(s, c) < i < s.len() implies #[trigger] s[i] != c by {
            if i < d.len() {
                assert(d[i] == s[i]);
            }
        }
        if s.contains(c) && last_of(s, c) == -1 {
            let k = choose|k: int| 0 <= k < s.len() && s[k] == c;
            assert(s[k] != c);
        }
        if last_of(s, c) >= 0 {
            assert(s.contains(s[last_of(s, c)]));
        }
    }
}

/// An extension is what stands behind the last dot of the file name, where something
/// stands before it.
pub proof fn law_extensions(path: Seq<char>, stem: Seq<char>, extension: Seq<char>)
    requires
        file_name_spec(path) == Some(stem.push('.') + extension),
        !extension.contains('.'),
    ensures
        extension_spec(path) == if stem.len() > 0 {
            Some(extension)
        } else {
            None
        },
{
    let name = stem.push('.') + extension;
    law_last_places(name, '.');
    let k = last_of(name, '.');
    assert(name[stem.len() as int] == '.');
    if k > stem.len() {
        assert(extension[k - stem.len() - 1] == '.');
    }
    assert(k == stem.len());
    assert(name.subrange(k + 1, name.len() as int) =~= extension);
}

/// The parent of a file in a directory is that directory, up to slashes and dots at its
/// end; the root has none.
pub proof fn law_parents(base: Seq<char>, name: Seq<char>)
    requires
        name.len() > 0,
        !name.contains('/'),
        name != seq!['.'],
    ensures
        parent_spec(base.push('/') + name) == Some(end_trimmed(base.push('/'))),
        parent_spec(seq!['/']) is None,
        parent_spec(Seq::empty()) is None,
{
    let path = base.push('/') + name;
    reveal_strlit("/");
    assert("/"@ =~= seq!['/']);
    let n = name.len() as int;
    assert(path.last() == name[n - 1]);
    if path.last() == '/' {
        assert(name.contains('/'));
    }
    if path.last() == '.' && path[path.len() - 2] == '/' {
        if n == 1 {
            assert(name =~= seq!['.']);
        } else {
            assert(name[n - 2] == '/');
        }
    }
    assert(end_trimmed(path) == path);
    law_last_places(path, '/');
    let k = last_of(path, '/');
    assert(path[base.len() as int] == '/');
    if k > base.len() {
        assert(name[k - base.len() - 1] == '/');
    }
    assert(path.take(k + 1) =~= base.push('/'));
    assert(path.len() >= 2);
}

} // verus!
