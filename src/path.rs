//! Absolute paths as sequences of components, with the operations the
//! navigation rules need: parent, join and display.
use vstd::prelude::*;
use crate::text::{chars_of, lemma_views_push, pieces, scan, flush, string_of, views};

verus! {

/// `/` as a separator.
pub open spec fn slash_sep() -> spec_fn(char) -> bool {
    |c: char| c == '/'
}

/// Keeps the pieces that name something: not empty and not `.`.
pub open spec fn named() -> spec_fn(Seq<char>) -> bool {
    |p: Seq<char>| p.len() > 0 && p != seq!['.']
}

/// The components of a path written as text: its `/`-separated pieces,
/// without empty ones and without `.`.
pub open spec fn components(s: Seq<char>) -> Seq<Seq<char>> {
    pieces(s, slash_sep(), named())
}

/// Whether `s` is written as an absolute path.
pub open spec fn is_absolute(s: Seq<char>) -> bool {
    s.len() > 0 && s[0] == '/'
}

/// `rel` pushed onto `base`: an absolute `rel` replaces `base`, any other
/// extends it.
pub open spec fn join(base: Seq<Seq<char>>, rel: Seq<char>) -> Seq<Seq<char>> {
    if is_absolute(rel) {
        components(rel)
    } else {
        base + components(rel)
    }
}

/// The parent of a path; the root has none.
pub open spec fn parent(p: Seq<Seq<char>>) -> Option<Seq<Seq<char>>> {
    if p.len() == 0 {
        None
    } else {
        Some(p.drop_last())
    }
}

/// Each component preceded by `/`.
pub open spec fn slashed(p: Seq<Seq<char>>) -> Seq<char>
    decreases p.len(),
{
    if p.len() == 0 {
        Seq::empty()
    } else {
        slashed(p.drop_last()) + seq!['/'] + p.last()
    }
}

/// The text of a path: `/` for the root, else each component preceded by `/`.
pub open spec fn display(p: Seq<Seq<char>>) -> Seq<char> {
    if p.len() == 0 {
        seq!['/']
    } else {
        slashed(p)
    }
}

/// An absolute path, held as its components.
#[derive(Debug, Clone, PartialEq, Eq)]
pub struct AbsPath {
    comps: Vec<String>,
}

impl View for AbsPath {
    type V = Seq<Seq<char>>;

    closed spec fn view(&self) -> Seq<Seq<char>> {
        views(self.comps@)
    }
}

/// Splits the text of a path into its components.
fn split_components(s: &[char]) -> (r: Vec<String>)
    ensures
        views(r@) == components(s@),
{
    let mut done: Vec<String> = Vec::new();
    let mut pending: Vec<char> = Vec::new();
    let mut i: usize = 0;
    while i < s.len()
        invariant
            i <= s@.len(),
            (views(done@), pending@) == scan(s@.take(i as int), slash_sep(), named()),
        decreases s@.len() - i,
    {
        let c = s[i];
        assert(s@.take(i + 1).drop_last() =~= s@.take(i as int));
        assert(s@.take(i + 1).last() == c);
        let ghost before = scan(s@.take(i as int), slash_sep(), named());
        assert(views(done@) == before.0 && pending@ == before.1);
        if c == '/' {
            if is_name(&pending) {
                let t = string_of(pending.as_slice());
                proof {
                    lemma_views_push(done@, t);
                }
                done.push(t);
            }
            assert(views(done@) == flush(before.0, before.1, named()));
            pending = Vec::new();
        } else {
            pending.push(c);
        }
        i = i + 1;
    }
    assert(s@.take(s@.len() as int) =~= s@);
    if is_name(&pending) {
        let t = string_of(pending.as_slice());
        proof {
            lemma_views_push(done@, t);
        }
        done.push(t);
    }
    done
}

/// Whether a piece of a path names something.
fn is_name(p: &Vec<char>) -> (r: bool)
    ensures
        r == named()(p@),
{
    let r = p.len() > 0 && !(p.len() == 1 && p[0] == '.');
    assert(r == named()(p@)) by {
        if p.len() == 1 && p[0] == '.' {
            assert(p@ =~= seq!['.']);
        }
    }
    r
}

impl AbsPath {
    /// The root directory, `/`.
    pub fn root() -> (r: AbsPath)
        ensures
            r@ == Seq::<Seq<char>>::empty(),
    {
        let r = AbsPath { comps: Vec::new() };
        assert(r@ =~= Seq::<Seq<char>>::empty());
        r
    }

    /// The path written as `s`, when `s` is absolute.
    pub fn parse(s: &str) -> (r: Option<AbsPath>)
        ensures
            r is Some <==> is_absolute(s@),
            r matches Some(p) ==> p@ == components(s@),
    {
        let cs = chars_of(s);
        if cs.len() > 0 && cs[0] == '/' {
            Some(AbsPath { comps: split_components(cs.as_slice()) })
        } else {
            None
        }
    }

    /// A copy of this path.
    pub fn duplicate(&self) -> (r: AbsPath)
        ensures
            r@ == self@,
    {
        let mut comps: Vec<String> = Vec::new();
        let mut i: usize = 0;
        while i < self.comps.len()
            invariant
                i <= self.comps@.len(),
                views(comps@) == views(self.comps@).take(i as int),
            decreases self.comps@.len() - i,
        {
            let t = self.comps[i].clone();
            proof {
                lemma_views_push(comps@, t);
            }
            comps.push(t);
            assert(views(self.comps@).take(i + 1) =~= views(self.comps@).take(i as int).push(t@));
            i = i + 1;
        }
        assert(views(self.comps@).take(self.comps@.len() as int) =~= views(self.comps@));
        AbsPath { comps }
    }

    /// Whether this path is the root.
    pub fn is_root(&self) -> (r: bool)
        ensures
            r == (self@.len() == 0),
    {
        self.comps.len() == 0
    }

    /// The parent directory; `None` at the root.
    pub fn parent(&self) -> (r: Option<AbsPath>)
        ensures
            r matches Some(p) ==> parent(self@) == Some(p@),
            r is None ==> parent(self@) is None,
    {
        if self.comps.len() == 0 {
            None
        } else {
            let mut p = self.duplicate();
            let ghost before = p.comps@;
            p.comps.pop();
            assert(views(p.comps@) =~= views(before).drop_last());
            Some(p)
        }
    }

    /// `rel` pushed onto this path.
    pub fn join(&self, rel: &str) -> (r: AbsPath)
        ensures
            r@ == join(self@, rel@),
    {
        let cs = chars_of(rel);
        self.join_chars(cs.as_slice())
    }

    /// `rel`, given as characters, pushed onto this path.
    pub fn join_chars(&self, cs: &[char]) -> (r: AbsPath)
        ensures
            r@ == join(self@, cs@),
    {
        let more = split_components(cs);
        if cs.len() > 0 && cs[0] == '/' {
            AbsPath { comps: more }
        } else {
            let mut p = self.duplicate();
            let mut i: usize = 0;
            while i < more.len()
                invariant
                    i <= more@.len(),
                    views(p.comps@) == self@ + views(more@).take(i as int),
                decreases more@.len() - i,
            {
                let t = more[i].clone();
                proof {
                    lemma_views_push(p.comps@, t);
                }
                p.comps.push(t);
                assert(views(more@).take(i + 1) =~= views(more@).take(i as int).push(t@));
                assert(self@ + views(more@).take(i + 1) =~= (self@ + views(more@).take(i as int)).push(t@));
                i = i + 1;
            }
            assert(views(more@).take(more@.len() as int) =~= views(more@));
            p
        }
    }

    /// The text of this path.
    pub fn to_string(&self) -> (r: String)
        ensures
            r@ == display(self@),
    {
        if self.comps.len() == 0 {
            let v: Vec<char> = vec!['/'];
            assert(v@ =~= seq!['/']);
            return string_of(v.as_slice());
        }
        let mut out: Vec<char> = Vec::new();
        let mut i: usize = 0;
        while i < self.comps.len()
            invariant
                i <= self.comps@.len(),
                out@ == slashed(self@.take(i as int)),
                self@.len() == self.comps@.len(),
            decreases self.comps@.len() - i,
        {
            let mut cs = chars_of(self.comps[i].as_str());
            out.push('/');
            out.append(&mut cs);
            assert(self@.take(i + 1).drop_last() =~= self@.take(i as int));
            assert(self@[i as int] == self.comps@[i as int]@);
            i = i + 1;
        }
        assert(self@.take(self@.len() as int) =~= self@);
        string_of(out.as_slice())
    }
}

} // verus!
