//! Where a change of directory leads: the resolution rules for a destination
//! token, and the verdict on a looked-up candidate.
use vstd::prelude::*;
use crate::path::{components, join, named, parent, slash_sep, AbsPath};
use crate::text::{chars_of, scan};

verus! {

/// Why a change of directory was refused.
#[derive(Debug, Clone, Copy, PartialEq, Eq)]
pub enum NavError {
    /// The current directory is a root and has no parent.
    NoParent,
    /// The candidate does not exist (or could not be looked up).
    NotFound,
    /// The candidate exists but is a file or a special file.
    NotADirectory,
}

/// What a metadata lookup that does not follow a final symbolic link found.
#[derive(Debug, Clone, Copy, PartialEq, Eq)]
pub enum Lookup {
    /// Nothing there, or the lookup failed.
    Missing,
    File,
    Directory,
    /// Neither a file nor a directory (a symbolic link, a device, ...).
    Other,
}

/// Whether `s` begins with `prefix`.
pub open spec fn starts_with(s: Seq<char>, prefix: Seq<char>) -> bool {
    prefix.len() <= s.len() && s.take(prefix.len() as int) == prefix
}

/// The path a destination token leads to from `cur`, by the first rule that
/// applies: `.` stays, `..` goes to the parent, `/...` is absolute, `./...`
/// and `../...` are taken from `cur` and from its parent, and anything else
/// is relative to `cur`.
pub open spec fn resolve_spec(cur: Seq<Seq<char>>, dest: Seq<char>) -> Result<Seq<Seq<char>>, NavError> {
    if dest == seq!['.'] {
        Ok(cur)
    } else if dest == seq!['.', '.'] {
        match parent(cur) {
            Some(p) => Ok(p),
            None => Err(NavError::NoParent),
        }
    } else if starts_with(dest, seq!['/']) {
        Ok(components(dest))
    } else if starts_with(dest, seq!['.', '/']) {
        Ok(join(cur, dest.skip(2)))
    } else if starts_with(dest, seq!['.', '.', '/']) {
        match parent(cur) {
            Some(p) => Ok(join(p, dest.skip(3))),
            None => Err(NavError::NoParent),
        }
    } else {
        Ok(join(cur, dest))
    }
}

/// The verdict on a candidate once it has been looked up: only a directory
/// can become the current directory.
pub open spec fn verdict_spec(candidate: Seq<Seq<char>>, found: Lookup) -> Result<Seq<Seq<char>>, NavError> {
    match found {
        Lookup::Directory => Ok(candidate),
        Lookup::Missing => Err(NavError::NotFound),
        _ => Err(NavError::NotADirectory),
    }
}

/// A path result seen through the path's view.
pub open spec fn path_result(r: Result<AbsPath, NavError>) -> Result<Seq<Seq<char>>, NavError> {
    match r {
        Ok(p) => Ok(p@),
        Err(e) => Err(e),
    }
}

/// Where `dest` leads from `cur`.
pub fn resolve(cur: &AbsPath, dest: &str) -> (r: Result<AbsPath, NavError>)
    ensures
        path_result(r) == resolve_spec(cur@, dest@),
{
    let mut cs = chars_of(dest);
    let n = cs.len();
    if n == 1 && cs[0] == '.' {
        assert(cs@ =~= seq!['.']);
        return Ok(cur.duplicate());
    }
    if n == 2 && cs[0] == '.' && cs[1] == '.' {
        assert(cs@ =~= seq!['.', '.']);
        return match cur.parent() {
            Some(p) => Ok(p),
            None => Err(NavError::NoParent),
        };
    }
    assert(!(cs@ == seq!['.'])) by {
        if cs@ == seq!['.'] {
            assert(cs@.len() == 1);
        }
    }
    assert(!(cs@ == seq!['.', '.'])) by {
        if cs@ == seq!['.', '.'] {
            assert(cs@.len() == 2);
        }
    }
    if n >= 1 && cs[0] == '/' {
        assert(cs@.take(1) =~= seq!['/']);
        return Ok(AbsPath::root().join_chars(cs.as_slice()));
    }
    assert(!starts_with(cs@, seq!['/'])) by {
        if starts_with(cs@, seq!['/']) {
            assert(cs@.take(1)[0] == cs@[0]);
        }
    }
    if n >= 2 && cs[0] == '.' && cs[1] == '/' {
        assert(cs@.take(2) =~= seq!['.', '/']);
        let rest = cs.split_off(2);
        return Ok(cur.join_chars(rest.as_slice()));
    }
    assert(!starts_with(cs@, seq!['.', '/'])) by {
        if starts_with(cs@, seq!['.', '/']) {
            assert(cs@.take(2)[0] == cs@[0]);
            assert(cs@.take(2)[1] == cs@[1]);
        }
    }
    if n >= 3 && cs[0] == '.' && cs[1] == '.' && cs[2] == '/' {
        assert(cs@.take(3) =~= seq!['.', '.', '/']);
        let rest = cs.split_off(3);
        return match cur.parent() {
            Some(p) => Ok(p.join_chars(rest.as_slice())),
            None => Err(NavError::NoParent),
        };
    }
    assert(!starts_with(cs@, seq!['.', '.', '/'])) by {
        if starts_with(cs@, seq!['.', '.', '/']) {
            assert(cs@.take(3)[0] == cs@[0]);
            assert(cs@.take(3)[1] == cs@[1]);
            assert(cs@.take(3)[2] == cs@[2]);
        }
    }
    Ok(cur.join_chars(cs.as_slice()))
}

/// The verdict on a looked-up candidate: `Ok` with the candidate exactly
/// when it is a directory.
pub fn verdict(candidate: AbsPath, found: Lookup) -> (r: Result<AbsPath, NavError>)
    ensures
        path_result(r) == verdict_spec(candidate@, found),
{
    match found {
        Lookup::Directory => Ok(candidate),
        Lookup::Missing => Err(NavError::NotFound),
        _ => Err(NavError::NotADirectory),
    }
}

/// A text free of `/` is read as one open piece.
proof fn lemma_scan_without_slash(s: Seq<char>)
    requires
        !s.contains('/'),
    ensures
        scan(s, slash_sep(), named()) == (Seq::<Seq<char>>::empty(), s),
    decreases s.len(),
{
    if s.len() > 0 {
        assert(!s.drop_last().contains('/')) by {
            if s.drop_last().contains('/') {
                let i = choose|i: int| 0 <= i < s.drop_last().len() && s.drop_last()[i] == '/';
                assert(s[i] == '/');
            }
        }
        lemma_scan_without_slash(s.drop_last());
        assert(s.last() != '/') by {
            if s.last() == '/' {
                assert(s[s.len() - 1] == '/');
            }
        }
        assert(s.drop_last().push(s.last()) =~= s);
    }
}

/// A single name: not empty, free of `/`, and neither `.` nor `..`.
pub open spec fn is_plain_name(name: Seq<char>) -> bool {
    name.len() > 0 && !name.contains('/') && name != seq!['.'] && name != seq!['.', '.']
}

/// `.` leaves every current directory where it is.
pub proof fn lemma_dot_stays(cur: Seq<Seq<char>>)
    ensures
        resolve_spec(cur, seq!['.']) == Ok::<Seq<Seq<char>>, NavError>(cur),
{
}

/// `..` fails with `NoParent` exactly when the current directory is the
/// root; otherwise it leads to the parent.
pub proof fn lemma_dot_dot(cur: Seq<Seq<char>>)
    ensures
        resolve_spec(cur, seq!['.', '.']) == Err::<Seq<Seq<char>>, NavError>(NavError::NoParent)
            <==> cur.len() == 0,
        cur.len() > 0 ==> resolve_spec(cur, seq!['.', '.']) == Ok::<Seq<Seq<char>>, NavError>(
            cur.drop_last(),
        ),
        cur.len() > 0 ==> parent(cur) == Some(cur.drop_last()),
{
    assert(seq!['.', '.'] != seq!['.']) by {
        assert(seq!['.', '.'].len() != seq!['.'].len());
    }
}

/// A destination that is not `.` or `..` and does not begin with `/`, `./`
/// or `../` is joined onto the current directory.
pub proof fn lemma_plain_destination(cur: Seq<Seq<char>>, d: Seq<char>)
    requires
        d != seq!['.'],
        d != seq!['.', '.'],
        !starts_with(d, seq!['/']),
        !starts_with(d, seq!['.', '/']),
        !starts_with(d, seq!['.', '.', '/']),
    ensures
        resolve_spec(cur, d) == Ok::<Seq<Seq<char>>, NavError>(join(cur, d)),
{
}

/// Going into a subdirectory by its name and then to `..` comes back to
/// exactly the directory one started from.
pub proof fn lemma_round_trip(cur: Seq<Seq<char>>, name: Seq<char>)
    requires
        is_plain_name(name),
    ensures
        resolve_spec(cur, name) == Ok::<Seq<Seq<char>>, NavError>(cur.push(name)),
        resolve_spec(cur.push(name), seq!['.', '.']) == Ok::<Seq<Seq<char>>, NavError>(cur),
{
    lemma_scan_without_slash(name);
    assert(name[0] != '/') by {
        assert(!name.contains('/'));
    }
    assert(!starts_with(name, seq!['/'])) by {
        if starts_with(name, seq!['/']) {
            assert(name.take(1)[0] == name[0]);
        }
    }
    assert(!starts_with(name, seq!['.', '/'])) by {
        if starts_with(name, seq!['.', '/']) {
            assert(name.take(2)[1] == name[1]);
        }
    }
    assert(!starts_with(name, seq!['.', '.', '/'])) by {
        if starts_with(name, seq!['.', '.', '/']) {
            assert(name.take(3)[2] == name[2]);
        }
    }
    assert(named()(name));
    assert(components(name) =~= seq![name]);
    assert(cur + seq![name] =~= cur.push(name));
    assert(cur.push(name).drop_last() =~= cur);
    lemma_dot_dot(cur.push(name));
}

} // verus!
