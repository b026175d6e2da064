//! Paths as bytes: components are parted by `/`, and a component `.` behind the first says
//! nothing.

use vstd::prelude::*;
use vstd::slice::*;

verus! {

/// The byte `/`.
pub const SLASH: u8 = 47;

/// The byte `.`.
pub const DOT: u8 = 46;

/// `path` without the slashes and the components `.` behind its last telling component. A path
/// that is only a root, or only `.`, keeps that byte.
pub open spec fn without_tail(path: Seq<u8>) -> Seq<u8>
    decreases path.len(),
{
    if path.len() > 1 && (path.last() == SLASH || (path.last() == DOT && path[path.len() - 2]
        == SLASH)) {
        without_tail(path.drop_last())
    } else {
        path
    }
}

/// Where the last component of a path without a tail starts.
pub open spec fn last_start(path: Seq<u8>) -> nat
    decreases path.len(),
{
    if path.len() == 0 || path.last() == SLASH {
        path.len()
    } else {
        last_start(path.drop_last())
    }
}

/// The path of the directory that `path` is an entry of: nothing for a root and for the empty
/// path, the empty path for a single relative component.
pub open spec fn parent_path(path: Seq<u8>) -> Option<Seq<u8>> {
    let bare = without_tail(path);
    if bare.len() == 0 || bare == seq![SLASH] {
        None
    } else {
        Some(without_tail(bare.take(last_start(bare) as int)))
    }
}

/// The last component of `path`, where that is a name.
pub open spec fn leaf_name(path: Seq<u8>) -> Option<Seq<u8>> {
    let bare = without_tail(path);
    let last = bare.skip(last_start(bare) as int);
    if last.len() == 0 || last == seq![DOT] || last == seq![DOT, DOT] {
        None
    } else {
        Some(last)
    }
}

/// The path of the entry `name` of the directory `dir`.
pub open spec fn entry_path(dir: Seq<u8>, name: Seq<u8>) -> Seq<u8> {
    if dir.len() == 0 || dir.last() == SLASH {
        dir + name
    } else {
        dir + seq![SLASH] + name
    }
}

/// `name` is something, followed by `.dae`.
pub open spec fn is_dae_file(name: Seq<u8>) -> bool {
    &&& name.len() > 4
    &&& name.skip(name.len() - 4) == seq![46u8, 100u8, 97u8, 101u8]
}

/// How much of the first `len` bytes of `path` is left without their tail.
fn bare_len(path: &[u8], len: usize) -> (bare: usize)
    requires
        len <= path@.len(),
    ensures
        bare <= len,
        without_tail(path@.take(len as int)) == path@.take(bare as int),
{
    let mut bare: usize = len;
    while bare > 1 && (path[bare - 1] == SLASH || (path[bare - 1] == DOT && path[bare - 2] == SLASH))
        invariant
            bare <= len <= path@.len(),
            without_tail(path@.take(len as int)) == without_tail(path@.take(bare as int)),
        decreases bare,
    {
        assert(path@.take(bare as int).drop_last() =~= path@.take(bare - 1));
        bare -= 1;
    }
    bare
}

/// Where the last component of the first `len` bytes of `path` starts.
fn component_start(path: &[u8], len: usize) -> (start: usize)
    requires
        len <= path@.len(),
    ensures
        start <= len,
        start == last_start(path@.take(len as int)),
{
    let mut start: usize = len;
    while start > 0 && path[start - 1] != SLASH
        invariant
            start <= len <= path@.len(),
            last_start(path@.take(len as int)) == last_start(path@.take(start as int)),
        decreases start,
    {
        assert(path@.take(start as int).drop_last() =~= path@.take(start - 1));
        start -= 1;
    }
    start
}

/// A copy of the bytes of `path` from `from` up to `to`.
fn copy_range(path: &[u8], from: usize, to: usize) -> (copy: Vec<u8>)
    requires
        from <= to <= path@.len(),
    ensures
        copy@ == path@.subrange(from as int, to as int),
{
    slice_to_vec(slice_subrange(path, from, to))
}

/// The path of the directory that `path` is an entry of.
pub fn parent_of(path: &[u8]) -> (parent: Option<Vec<u8>>)
    ensures
        match parent {
            Some(dir) => parent_path(path@) == Some(dir@),
            None => parent_path(path@) is None,
        },
{
    let bare = bare_len(path, path.len());
    assert(path@.take(path@.len() as int) =~= path@);
    if bare == 0 {
        return None;
    }
    if bare == 1 && path[0] == SLASH {
        assert(path@.take(1) =~= seq![SLASH]);
        return None;
    }
    let start = component_start(path, bare);
    proof {
        if path@.take(bare as int) == seq![SLASH] {
            assert(path@.take(bare as int).len() == 1);
            assert(path@[0] == path@.take(bare as int)[0]);
        }
        assert(path@.take(bare as int).take(start as int) =~= path@.take(start as int));
    }
    let dir = bare_len(path, start);
    assert(path@.subrange(0, dir as int) =~= path@.take(dir as int));
    Some(copy_range(path, 0, dir))
}

/// The last component of `path`, where that is a name.
pub fn file_name_of(path: &[u8]) -> (name: Option<Vec<u8>>)
    ensures
        match name {
            Some(leaf) => leaf_name(path@) == Some(leaf@),
            None => leaf_name(path@) is None,
        },
{
    let bare = bare_len(path, path.len());
    assert(path@.take(path@.len() as int) =~= path@);
    let start = component_start(path, bare);
    let name = copy_range(path, start, bare);
    assert(path@.take(bare as int).skip(start as int) =~= path@.subrange(start as int, bare as int));
    if name.len() == 0 {
        return None;
    }
    if name.len() == 1 && name[0] == DOT {
        assert(name@ =~= seq![DOT]);
        return None;
    }
    if name.len() == 2 && name[0] == DOT && name[1] == DOT {
        assert(name@ =~= seq![DOT, DOT]);
        return None;
    }
    Some(name)
}

/// The path of the entry `name` of the directory `dir`.
pub fn join_entry(dir: &[u8], name: &[u8]) -> (path: Vec<u8>)
    ensures
        path@ == entry_path(dir@, name@),
{
    let mut path = slice_to_vec(dir);
    if dir.len() > 0 && dir[dir.len() - 1] != SLASH {
        path.push(SLASH);
        assert(path@ =~= dir@ + seq![SLASH]);
    }
    path.extend_from_slice(name);
    path
}

/// The directory that holds the geodata of a configuration: the one that a `.dae` file is an
/// entry of, and any other path as it is.
pub open spec fn asset_dir(config_path: Seq<u8>) -> Seq<u8> {
    match leaf_name(config_path) {
        Some(name) if is_dae_file(name) => {
            let dir = parent_path(config_path)->0;
            if dir.len() == 0 {
                seq![DOT]
            } else {
                dir
            }
        },
        _ => config_path,
    }
}

/// The directory that holds the geodata of the configuration at `config_path`.
pub fn resident_config_asset_dir(config_path: &[u8]) -> (dir: Vec<u8>)
    ensures
        dir@ == asset_dir(config_path@),
{
    if let Some(name) = file_name_of(config_path) {
        let n: usize = name.len();
        if n > 4 && name[n - 4] == 46 && name[n - 3] == 100 && name[n - 2] == 97 && name[n - 1]
            == 101 {
            assert(name@.skip(name@.len() - 4) =~= seq![46u8, 100u8, 97u8, 101u8]);
            return match parent_of(config_path) {
                Some(dir) if dir.len() > 0 => dir,
                _ => vec![DOT],
            };
        }
        assert(!is_dae_file(name@)) by {
            if is_dae_file(name@) {
                let tail = name@.skip(name@.len() - 4);
                assert(tail[0] == name@[n - 4]);
                assert(tail[1] == name@[n - 3]);
                assert(tail[2] == name@[n - 2]);
                assert(tail[3] == name@[n - 1]);
            }
        }
    }
    slice_to_vec(config_path)
}

/// The directories in which the geodata of the configuration at `config_path` is looked for.
pub fn resident_config_geodata_asset_dirs(config_path: &[u8]) -> (dirs: Vec<Vec<u8>>)
    ensures
        dirs@.len() == 1,
        dirs@[0]@ == asset_dir(config_path@),
{
    vec![resident_config_asset_dir(config_path)]
}

/// What is left without a tail has no tail.
pub proof fn lemma_without_tail_once(path: Seq<u8>)
    ensures
        without_tail(without_tail(path)) == without_tail(path),
    decreases path.len(),
{
    if path.len() > 1 && (path.last() == SLASH || (path.last() == DOT && path[path.len() - 2]
        == SLASH)) {
        lemma_without_tail_once(path.drop_last());
    }
}

/// The last component starts behind the last slash.
pub proof fn lemma_last_start(front: Seq<u8>, name: Seq<u8>)
    requires
        front.len() == 0 || front.last() == SLASH,
        !name.contains(SLASH),
    ensures
        last_start(front + name) == front.len(),
    decreases name.len(),
{
    if name.len() == 0 {
        assert(front + name =~= front);
    } else {
        let whole = front + name;
        assert(name[name.len() - 1] != SLASH);
        assert(whole.drop_last() =~= front + name.drop_last());
        assert(!name.drop_last().contains(SLASH)) by {
            if name.drop_last().contains(SLASH) {
                let i = choose|i: int| 0 <= i < name.len() - 1 && name.drop_last()[i] == SLASH;
                assert(name[i] == SLASH);
            }
        }
        lemma_last_start(front, name.drop_last());
    }
}

/// A last component holds no slash.
pub proof fn lemma_last_component(path: Seq<u8>)
    ensures
        last_start(path) <= path.len(),
        !path.skip(last_start(path) as int).contains(SLASH),
    decreases path.len(),
{
    let last = path.skip(last_start(path) as int);
    if path.len() > 0 && path.last() != SLASH {
        let shorter = path.drop_last();
        lemma_last_component(shorter);
        if last.contains(SLASH) {
            let i = choose|i: int| 0 <= i < last.len() && last[i] == SLASH;
            assert(shorter.skip(last_start(shorter) as int)[i] == SLASH);
        }
    }
}

/// A component that can name an entry of a directory.
pub open spec fn is_name(name: Seq<u8>) -> bool {
    &&& name.len() > 0
    &&& !name.contains(SLASH)
    &&& name != seq![DOT]
    &&& name != seq![DOT, DOT]
}

/// The entry `name` of the directory `dir` has that name and lies in that directory.
pub proof fn law_entry_lies_in_its_directory(dir: Seq<u8>, name: Seq<u8>)
    requires
        is_name(name),
    ensures
        leaf_name(entry_path(dir, name)) == Some(name),
        parent_path(entry_path(dir, name)) == Some(without_tail(dir)),
{
    let path = entry_path(dir, name);
    let front = if dir.len() == 0 || dir.last() == SLASH {
        dir
    } else {
        dir + seq![SLASH]
    };
    assert(path == front + name);
    assert(name[name.len() - 1] != SLASH);
    if path.len() > 1 && path.last() == DOT && path[path.len() - 2] == SLASH {
        if name.len() == 1 {
            assert(name =~= seq![DOT]);
        } else {
            assert(name[name.len() - 2] == SLASH);
        }
    }
    assert(without_tail(path) == path);
    lemma_last_start(front, name);
    assert(path.skip(front.len() as int) =~= name);
    assert(path.take(front.len() as int) =~= front);
    if path == seq![SLASH] {
        assert(path[0] == SLASH);
        assert(name[0] == path[path.len() - name.len()]);
    }
    if front != dir {
        assert(front.drop_last() =~= dir);
    }
}

/// The geodata of the configuration file `name` in the directory `dir` lies in that directory.
pub proof fn law_geodata_lies_beside_the_config_file(dir: Seq<u8>, name: Seq<u8>)
    requires
        is_name(name),
        is_dae_file(name),
    ensures
        asset_dir(entry_path(dir, name)) == (if without_tail(dir).len() == 0 {
            seq![DOT]
        } else {
            without_tail(dir)
        }),
{
    law_entry_lies_in_its_directory(dir, name);
}

/// A slash, or a slash and a component `.`, behind a path says nothing; any other end of a path is
/// left as it is, and so is a path of a single byte.
pub proof fn law_tail_says_nothing(path: Seq<u8>)
    ensures
        path.len() > 0 ==> without_tail(path + seq![47u8]) == without_tail(path),
        path.len() > 0 ==> without_tail(path + seq![47u8, 46u8]) == without_tail(path),
        path.len() > 1 && path.last() != 47 && !(path.last() == 46 && path[path.len() - 2] == 47)
            ==> without_tail(path) == path,
        path.len() <= 1 ==> without_tail(path) == path,
        path == seq![47u8, 46u8] ==> without_tail(path) == seq![47u8],
        path.len() > 0 ==> parent_path(path + seq![47u8]) == parent_path(path) && leaf_name(
            path + seq![47u8],
        ) == leaf_name(path),
        path.len() > 0 ==> parent_path(path + seq![47u8, 46u8]) == parent_path(path) && leaf_name(
            path + seq![47u8, 46u8],
        ) == leaf_name(path),
{
    reveal_with_fuel(without_tail, 3);
    if path.len() > 0 {
        let one = path + seq![47u8];
        let two = path + seq![47u8, 46u8];
        assert(one.drop_last() =~= path);
        assert(two.drop_last() =~= one);
        assert(two[two.len() - 2] == 47);
        assert(two.last() == 46);
        assert(one.last() == 47);
    }
    if path == seq![47u8, 46u8] {
        assert(path.len() == 2 && path[0] == 47 && path[1] == 46);
        assert(path.drop_last() =~= seq![47u8]);
    }
}

/// The root and the empty path lie in no directory and have no name; `.` and `..` have no name
/// either, wherever they stand last, but `..` does lie in the directory before it.
pub proof fn law_some_paths_have_no_name(dir: Seq<u8>)
    ensures
        parent_path(seq![]) is None,
        leaf_name(seq![]) is None,
        parent_path(seq![47u8]) is None,
        leaf_name(seq![47u8]) is None,
        parent_path(seq![46u8]) == Some(Seq::<u8>::empty()),
        leaf_name(seq![46u8]) is None,
        leaf_name(entry_path(dir, seq![46u8, 46u8])) is None,
        parent_path(entry_path(dir, seq![46u8, 46u8])) == Some(without_tail(dir)),
{
    reveal_with_fuel(last_start, 3);
    let root = seq![47u8];
    assert(root.last() == 47);
    assert(root.skip(1) =~= Seq::empty());
    let here = seq![46u8];
    assert(here.last() == 46);
    assert(here.drop_last() =~= Seq::empty());
    assert(here.skip(0) =~= here);
    assert(here.take(0) =~= Seq::empty());
    assert(here[0] != root[0]);
    assert(Seq::<u8>::empty().skip(0) =~= Seq::empty());
    let up = seq![46u8, 46u8];
    let path = entry_path(dir, up);
    let front = if dir.len() == 0 || dir.last() == SLASH {
        dir
    } else {
        dir + seq![SLASH]
    };
    assert(path == front + up);
    assert(path.last() == 46);
    assert(path[path.len() - 2] == 46);
    assert(without_tail(path) == path);
    assert(!up.contains(SLASH));
    lemma_last_start(front, up);
    assert(path.skip(front.len() as int) =~= up);
    assert(path.take(front.len() as int) =~= front);
    assert(path.len() != 1);
    if front != dir {
        assert(front.drop_last() =~= dir);
    }
}

/// An entry of a directory is written behind it, with one slash between the two where the directory
/// does not end in one; an entry of the empty path is its name.
pub proof fn law_entry_is_written_behind_its_directory(dir: Seq<u8>, name: Seq<u8>)
    ensures
        entry_path(seq![], name) == name,
        entry_path(dir + seq![47u8], name) == dir + seq![47u8] + name,
        dir.len() > 0 && dir.last() != 47 ==> entry_path(dir, name) == dir + seq![47u8] + name,
{
    assert(Seq::<u8>::empty() + name =~= name);
    assert((dir + seq![47u8]).last() == 47);
}

/// The geodata of a configuration whose last component is something followed by `.dae` lies in the
/// directory that holds it, with `.` for the empty path.
pub proof fn law_geodata_of_a_file(config_path: Seq<u8>, stem: Seq<u8>)
    requires
        stem.len() > 0,
        leaf_name(config_path) == Some(stem + seq![46u8, 100u8, 97u8, 101u8]),
    ensures
        parent_path(config_path) matches Some(dir) && (dir.len() > 0 ==> asset_dir(config_path)
            == dir) && (dir.len() == 0 ==> asset_dir(config_path) == seq![46u8]),
{
    let bare = without_tail(config_path);
    let end = seq![46u8, 100u8, 97u8, 101u8];
    let name = stem + end;
    assert(name.skip(name.len() - 4) =~= end);
    lemma_last_component(bare);
    if bare == seq![SLASH] {
        assert(bare.len() == 1 && bare.last() == SLASH);
        assert(name.len() == 0);
    }
}

/// The geodata of a configuration whose last component is not something followed by `.dae`, or that
/// has none, lies at the path of the configuration.
pub proof fn law_geodata_of_a_directory(config_path: Seq<u8>)
    requires
        leaf_name(config_path) matches Some(name) ==> name.len() <= 4 || name[name.len() - 4] != 46
            || name[name.len() - 3] != 100 || name[name.len() - 2] != 97 || name[name.len() - 1]
            != 101,
    ensures
        asset_dir(config_path) == config_path,
{
    if leaf_name(config_path) is Some && is_dae_file(leaf_name(config_path)->0) {
        let name = leaf_name(config_path)->0;
        let end = name.skip(name.len() - 4);
        assert(end[0] == 46 && end[1] == 100 && end[2] == 97 && end[3] == 101);
    }
}

/// Only the end of a path is taken away: what is left is a front of it, and every byte behind that
/// is a slash or a dot.
pub proof fn law_only_slashes_and_dots_are_taken_away(path: Seq<u8>)
    ensures
        without_tail(path).is_prefix_of(path),
        path.len() > 0 ==> without_tail(path).len() > 0,
        forall|i: int|
            without_tail(path).len() <= i < path.len() ==> #[trigger] path[i] == 47 || path[i]
                == 46,
    decreases path.len(),
{
    if path.len() > 1 && (path.last() == SLASH || (path.last() == DOT && path[path.len() - 2]
        == SLASH)) {
        let shorter = path.drop_last();
        law_only_slashes_and_dots_are_taken_away(shorter);
        assert forall|i: int| without_tail(path).len() <= i < path.len() implies #[trigger] path[i]
            == 47 || path[i] == 46 by {
            if i < shorter.len() {
                assert(shorter[i] == path[i]);
            }
        }
    }
}

} // verus!
