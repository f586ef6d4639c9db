use vstd::prelude::*;

use crate::error::Error;
use crate::hash::{chars_of, check_digest, is_digest_text, string_of};

verus! {

/// One expected file: its digest and its path relative to the install root.
#[derive(Debug, Clone)]
pub struct ManifestEntry {
    pub digest: crate::hash::Hash,
    pub path: String,
}

/// The published list of files, in the order of the manifest text.
#[derive(Debug, Clone)]
pub struct Manifest {
    pub files: Vec<ManifestEntry>,
}

/// An entry as (digest text, path text).
pub open spec fn entry_view(e: ManifestEntry) -> (Seq<char>, Seq<char>) {
    (e.digest@, e.path@)
}

pub open spec fn entries_view(files: Seq<ManifestEntry>) -> Seq<(Seq<char>, Seq<char>)> {
    files.map_values(|e: ManifestEntry| entry_view(e))
}

impl Manifest {
    pub open spec fn entries(self) -> Seq<(Seq<char>, Seq<char>)> {
        entries_view(self.files@)
    }

    pub open spec fn wf(self) -> bool {
        forall|i: int| 0 <= i < self.files@.len() ==> (#[trigger] self.files@[i]).digest.wf()
    }
}

/// The text cut at each line feed; a text without one is a single segment.
pub open spec fn segments(s: Seq<char>) -> Seq<Seq<char>>
    decreases s.len(),
{
    if s.len() == 0 {
        seq![Seq::empty()]
    } else {
        let init = segments(s.drop_last());
        if s.last() == '\n' {
            init.push(Seq::empty())
        } else {
            init.update(init.len() - 1, init.last().push(s.last()))
        }
    }
}

/// A line without the carriage return that may end it.
pub open spec fn strip_cr(l: Seq<char>) -> Seq<char> {
    if l.len() > 0 && l.last() == '\r' {
        l.drop_last()
    } else {
        l
    }
}

/// `<digest><two spaces><path>`, with a path of at least one character.
pub open spec fn parse_line(l: Seq<char>) -> Option<(Seq<char>, Seq<char>)> {
    if l.len() > 66 && is_digest_text(l.subrange(0, 64)) && l[64] == ' ' && l[65] == ' ' {
        Some((l.subrange(0, 64), l.subrange(66, l.len() as int)))
    } else {
        None
    }
}

/// Takes line number `n` into what the lines before it gave: a blank line adds
/// nothing, a malformed one is an error that names it, the first error stays.
pub open spec fn parse_step(
    acc: Result<Seq<(Seq<char>, Seq<char>)>, Error>,
    line: Seq<char>,
    n: nat,
) -> Result<Seq<(Seq<char>, Seq<char>)>, Error> {
    match acc {
        Err(e) => Err(e),
        Ok(es) => {
            let l = strip_cr(line);
            if l.len() == 0 {
                Ok(es)
            } else {
                match parse_line(l) {
                    Some(e) => Ok(es.push(e)),
                    None => Err(Error::InvalidManifestLine(n as usize)),
                }
            }
        },
    }
}

pub open spec fn parse_lines(ls: Seq<Seq<char>>) -> Result<Seq<(Seq<char>, Seq<char>)>, Error>
    decreases ls.len(),
{
    if ls.len() == 0 {
        Ok(Seq::empty())
    } else {
        parse_step(parse_lines(ls.drop_last()), ls.last(), ls.len())
    }
}

/// What a manifest text means: its entries in order, or the first bad line.
pub open spec fn parse_manifest(s: Seq<char>) -> Result<Seq<(Seq<char>, Seq<char>)>, Error> {
    parse_lines(segments(s))
}

pub open spec fn acc_of(files: Seq<ManifestEntry>, err: Option<Error>) -> Result<
    Seq<(Seq<char>, Seq<char>)>,
    Error,
> {
    match err {
        Some(e) => Err(e),
        None => Ok(entries_view(files)),
    }
}

fn copy_range(c: &Vec<char>, from: usize, to: usize) -> (r: Vec<char>)
    requires
        from <= to <= c@.len(),
    ensures
        r@ == c@.subrange(from as int, to as int),
{
    let mut r: Vec<char> = Vec::new();
    let mut i = from;
    while i < to
        invariant
            from <= i <= to <= c@.len(),
            r@ == c@.subrange(from as int, i as int),
        decreases to - i,
    {
        r.push(c[i]);
        proof {
            assert(r@ =~= c@.subrange(from as int, i + 1));
        }
        i = i + 1;
    }
    r
}

fn parse_entry(line: &Vec<char>) -> (r: Option<ManifestEntry>)
    requires
        strip_cr(line@).len() > 0,
    ensures
        match parse_line(strip_cr(line@)) {
            Some(p) => r matches Some(e) && entry_view(e) == p && e.digest.wf(),
            None => r is None,
        },
{
    let mut n = line.len();
    if n > 0 && line[n - 1] == '\r' {
        n = n - 1;
    }
    let ghost l = strip_cr(line@);
    proof {
        assert(l =~= line@.subrange(0, n as int));
    }
    if n > 66 && line[64] == ' ' && line[65] == ' ' && check_digest(line, 0, 64) {
        let d = copy_range(line, 0, 64);
        let p = copy_range(line, 66, n);
        proof {
            assert(l.subrange(0, 64) =~= d@);
            assert(l.subrange(66, l.len() as int) =~= p@);
        }
        Some(ManifestEntry { digest: crate::hash::Hash::from_chars(d.as_slice()), path: string_of(p.as_slice()) })
    } else {
        proof {
            if n > 66 {
                assert(l.subrange(0, 64) =~= line@.subrange(0, 64));
            }
        }
        None
    }
}

/// Takes line number `n` into the entries gathered so far, or into the first error.
fn absorb_line(
    files: &mut Vec<ManifestEntry>,
    err: &mut Option<Error>,
    line: &Vec<char>,
    n: usize,
)
    requires
        forall|i: int| 0 <= i < old(files)@.len() ==> (#[trigger] old(files)@[i]).digest.wf(),
    ensures
        acc_of(final(files)@, *final(err)) == parse_step(
            acc_of(old(files)@, *old(err)),
            line@,
            n as nat,
        ),
        forall|i: int| 0 <= i < final(files)@.len() ==> (#[trigger] final(files)@[i]).digest.wf(),
{
    if err.is_some() {
        return;
    }
    let mut len = line.len();
    if len > 0 && line[len - 1] == '\r' {
        len = len - 1;
    }
    if len == 0 {
        return;
    }
    match parse_entry(line) {
        Some(e) => {
            let ghost before = files@;
            files.push(e);
            proof {
                assert(entries_view(files@) =~= entries_view(before).push(entry_view(e)));
            }
        },
        None => {
            *err = Some(Error::InvalidManifestLine(n));
        },
    }
}

impl Manifest {
    /// Reads a manifest text. Blank lines are skipped; any other line must be
    /// `<digest>  <path>`, and the first that is not fails the whole text.
    pub fn try_from(value: String) -> (r: Result<Manifest, Error>)
        ensures
            match parse_manifest(value@) {
                Ok(es) => r matches Ok(m) && m.entries() == es && m.wf(),
                Err(e) => r == Err::<Manifest, Error>(e),
            },
    {
        let c = chars_of(value.as_str());
        let mut files: Vec<ManifestEntry> = Vec::new();
        let mut err: Option<Error> = None;
        let mut cur: Vec<char> = Vec::new();
        let mut line_no: usize = 0;
        let mut i: usize = 0;
        proof {
            assert(c@.subrange(0, 0) =~= Seq::<char>::empty());
            assert(entries_view(files@) =~= Seq::empty());
        }
        while i < c.len()
            invariant
                i <= c@.len(),
                line_no + cur@.len() <= i,
                segments(c@.subrange(0, i as int)).len() == line_no + 1,
                segments(c@.subrange(0, i as int)).last() == cur@,
                parse_lines(segments(c@.subrange(0, i as int)).drop_last()) == acc_of(files@, err),
                forall|k: int| 0 <= k < files@.len() ==> (#[trigger] files@[k]).digest.wf(),
            decreases c@.len() - i,
        {
            let ch = c[i];
            let ghost segs = segments(c@.subrange(0, i as int));
            proof {
                let s = c@.subrange(0, i + 1);
                assert(s.drop_last() =~= c@.subrange(0, i as int));
                assert(s.last() == ch);
            }
            if ch == '\n' {
                absorb_line(&mut files, &mut err, &cur, line_no + 1);
                proof {
                    let next = segments(c@.subrange(0, i + 1));
                    assert(next.drop_last() == segs);
                    assert(segs.drop_last().push(segs.last()) =~= segs);
                }
                cur = Vec::new();
                line_no = line_no + 1;
            } else {
                cur.push(ch);
                proof {
                    let next = segments(c@.subrange(0, i + 1));
                    assert(next.drop_last() =~= segs.drop_last());
                }
            }
            i = i + 1;
        }
        proof {
            let segs = segments(c@.subrange(0, i as int));
            assert(c@.subrange(0, i as int) =~= c@);
            assert(segs.drop_last().push(segs.last()) =~= segs);
        }
        if cur.len() > 0 {
            absorb_line(&mut files, &mut err, &cur, line_no + 1);
        }
        match err {
            Some(e) => Err(e),
            None => Ok(Manifest { files }),
        }
    }
}

} // verus!
