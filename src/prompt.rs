//! The interpreter's prompt: the local time and the current directory.
use vstd::prelude::*;
use crate::path::{display, AbsPath};
use crate::session::CMD;
use crate::text::{chars_of, string_of};

verus! {

/// Relies on chrono's `Local::now` formatted as `%Y-%m-%d %H:%M:%S`: the
/// local time as text. It depends on the clock, so nothing is promised of it.
#[verifier::external_body]
fn local_timestamp() -> (r: String) {
    chrono::Local::now().format("%Y-%m-%d %H:%M:%S").to_string()
}

/// `inner` between the two texts.
fn surround(b: &[char], inner: &str, a: &[char]) -> (r: String)
    ensures
        r@ == b@ + inner@ + a@,
{
    let mut out: Vec<char> = Vec::new();
    let mut i: usize = 0;
    while i < b.len()
        invariant
            i <= b@.len(),
            out@ == b@.take(i as int),
        decreases b@.len() - i,
    {
        out.push(b[i]);
        assert(b@.take(i + 1) =~= b@.take(i as int).push(b@[i as int]));
        i = i + 1;
    }
    assert(b@.take(b@.len() as int) =~= b@);
    let mut mid = chars_of(inner);
    out.append(&mut mid);
    let mut j: usize = 0;
    let ghost head = out@;
    while j < a.len()
        invariant
            j <= a@.len(),
            out@ == head + a@.take(j as int),
        decreases a@.len() - j,
    {
        out.push(a[j]);
        assert(a@.take(j + 1) =~= a@.take(j as int).push(a@[j as int]));
        assert(head + a@.take(j + 1) =~= (head + a@.take(j as int)).push(a@[j as int]));
        j = j + 1;
    }
    assert(a@.take(a@.len() as int) =~= a@);
    string_of(out.as_slice())
}

/// The two segments of the prompt: the time stamp between spaces, and the
/// current directory between a space and `$ `.
pub fn header_segments(stamp: &str, cur: &AbsPath) -> (r: (String, String))
    ensures
        r.0@ == seq![' '] + stamp@ + seq![' '],
        r.1@ == seq![' '] + display(cur@) + seq!['$', ' '],
{
    let space: Vec<char> = vec![' '];
    let dollar: Vec<char> = vec!['$', ' '];
    assert(space@ =~= seq![' ']);
    assert(dollar@ =~= seq!['$', ' ']);
    let time = surround(space.as_slice(), stamp, space.as_slice());
    let shown = cur.to_string();
    let place = surround(space.as_slice(), shown.as_str(), dollar.as_slice());
    (time, place)
}

impl CMD {
    /// The prompt for the next line: the local time and the current
    /// directory, as `header_segments` lays them out.
    pub fn header(&self) -> (r: (String, String))
        ensures
            r.1@ == seq![' '] + display(self@.cur) + seq!['$', ' '],
            r.0@.len() >= 2,
            r.0@[0] == ' ',
            r.0@.last() == ' ',
    {
        let stamp = local_timestamp();
        header_segments(stamp.as_str(), self.get_current_dir_path())
    }
}

} // verus!
