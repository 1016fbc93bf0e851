use vstd::prelude::*;
use vstd::string::{StrSliceExecFns, StringExecFns};

verus! {

/// The scheme that every accepted line begins with.
pub open spec fn scheme() -> Seq<char> {
    seq!['s', '3', ':', '/', '/']
}

/// Splits `s` on every `/`; the result always holds at least one segment.
pub open spec fn split_on_slash(s: Seq<char>) -> Seq<Seq<char>>
    decreases s.len(),
{
    if s.len() == 0 {
        seq![Seq::<char>::empty()]
    } else {
        let p = split_on_slash(s.drop_last());
        if s.last() == '/' {
            p.push(Seq::<char>::empty())
        } else {
            p.update(p.len() - 1, p.last().push(s.last()))
        }
    }
}

/// The mathematical content of a parsed locator.
pub struct LocatorView {
    pub input: Seq<char>,
    pub bucket: Seq<char>,
    pub key_path: Seq<Seq<char>>,
    pub file_name: Seq<char>,
}

/// Whether `line` is long enough and begins with the scheme.
pub open spec fn has_scheme(line: Seq<char>) -> bool {
    line.len() > 5 && line.take(5) == scheme()
}

/// The locator that `line` denotes, if any: the bucket is the first segment
/// after the scheme, the file name the last, and the key path what lies
/// between, empty segments included. A line without a separator after the
/// bucket, with an empty bucket or with an empty file name denotes none.
pub open spec fn parse_spec(line: Seq<char>) -> Option<LocatorView> {
    if has_scheme(line) {
        let segs = split_on_slash(line.skip(5));
        if segs.len() >= 2 && segs[0].len() > 0 && segs.last().len() > 0 {
            Some(
                LocatorView {
                    input: line,
                    bucket: segs[0],
                    key_path: segs.subrange(1, segs.len() - 1),
                    file_name: segs.last(),
                },
            )
        } else {
            None
        }
    } else {
        None
    }
}

/// The diagnostic given for a rejected line.
pub open spec fn invalid_line_message(line: Seq<char>) -> Seq<char> {
    "Invalid line: "@ + line
}

/// One object to mirror, parsed from an input line.
pub struct S3Object {
    /// The line the object was parsed from, used to report on it.
    pub input: String,
    pub bucket: String,
    /// The path segments between the bucket and the file name.
    pub key_path: Vec<String>,
    pub file_name: String,
}

pub open spec fn views_of(v: Seq<String>) -> Seq<Seq<char>> {
    v.map_values(|s: String| s@)
}

impl S3Object {
    /// The object is what its input line denotes.
    pub open spec fn wf(&self) -> bool {
        parse_spec(self.input@) == Some(self@)
    }
}

impl View for S3Object {
    type V = LocatorView;

    open spec fn view(&self) -> LocatorView {
        LocatorView {
            input: self.input@,
            bucket: self.bucket@,
            key_path: views_of(self.key_path@),
            file_name: self.file_name@,
        }
    }
}

/// The characters of `s`, in order.
fn chars_of(s: &str) -> (r: Vec<char>)
    ensures
        r@ == s@,
{
    let mut r: Vec<char> = Vec::new();
    for c in it: s.chars()
        invariant
            r@ == it.seq().take(it.index() as int),
    {
        r.push(c);
    }
    r
}

/// The diagnostic for a rejected line.
pub fn invalid_line(line: &str) -> (r: String)
    ensures
        r@ == invalid_line_message(line@),
{
    let mut r = String::from_str("Invalid line: ");
    proof {
        reveal_strlit("Invalid line: ");
    }
    r.append(line);
    r
}

impl S3Object {
    /// Parses one input line. A line is accepted exactly when it denotes a
    /// locator; otherwise the error is the diagnostic for the line.
    pub fn from(line: &str) -> (r: Result<S3Object, String>)
        ensures
            r is Ok <==> parse_spec(line@) is Some,
            r is Ok ==> r->Ok_0@ == parse_spec(line@)->Some_0 && r->Ok_0.wf(),
            r is Err ==> r->Err_0@ == invalid_line_message(line@),
    {
        let cs = chars_of(line);
        let n = cs.len();
        if n <= 5 || cs[0] != 's' || cs[1] != '3' || cs[2] != ':' || cs[3] != '/' || cs[4] != '/' {
            proof {
                if n > 5 {
                    assert(!(cs@.take(5) =~= scheme()) ==> !has_scheme(line@));
                    assert(cs@.take(5)[0] == cs@[0]);
                    assert(cs@.take(5)[1] == cs@[1]);
                    assert(cs@.take(5)[2] == cs@[2]);
                    assert(cs@.take(5)[3] == cs@[3]);
                    assert(cs@.take(5)[4] == cs@[4]);
                }
            }
            return Err(invalid_line(line));
        }
        assert(cs@.take(5) =~= scheme());
        let mut segs: Vec<String> = Vec::new();
        let mut start: usize = 5;
        let mut i: usize = 5;
        assert(cs@.subrange(5, 5) =~= Seq::<char>::empty());
        while i < n
            invariant
                5 <= start <= i <= n,
                n == cs@.len(),
                cs@ == line@,
                split_on_slash(cs@.subrange(5, i as int)) == views_of(segs@).push(
                    cs@.subrange(start as int, i as int),
                ),
            decreases n - i,
        {
            let ghost before = cs@.subrange(5, i as int);
            let ghost after = cs@.subrange(5, i + 1);
            let ghost old_segs = segs@;
            let ghost old_cur = cs@.subrange(start as int, i as int);
            assert(after.drop_last() =~= before);
            assert(after.last() == cs@[i as int]);
            if cs[i] == '/' {
                let seg = line.substring_char(start, i).to_owned();
                segs.push(seg);
                start = i + 1;
                assert(cs@.subrange(start as int, i + 1) =~= Seq::<char>::empty());
                assert(views_of(segs@) =~= views_of(old_segs).push(old_cur));
                assert(split_on_slash(after) =~= views_of(segs@).push(
                    cs@.subrange(start as int, i + 1),
                ));
            } else {
                assert(cs@.subrange(start as int, i + 1) =~= old_cur.push(cs@[i as int]));
                assert(views_of(segs@).push(cs@.subrange(start as int, i + 1)) =~= views_of(old_segs).push(old_cur).update(
                    views_of(old_segs).len() as int,
                    old_cur.push(cs@[i as int]),
                ));
            }
            i = i + 1;
        }
        assert(cs@.subrange(5, n as int) =~= line@.skip(5));
        let ghost segs_all = views_of(segs@).push(cs@.subrange(start as int, n as int));
        assert(segs_all.last() == cs@.subrange(start as int, n as int));
        if segs.len() == 0 || segs[0].as_str().is_empty() || start == n {
            proof {
                if segs.len() > 0 {
                    assert(segs_all[0] == segs@[0]@);
                }
            }
            return Err(invalid_line(line));
        }
        assert(segs_all[0] == segs@[0]@);
        let bucket = segs[0].clone();
        let mut key_path: Vec<String> = Vec::new();
        let mut j: usize = 1;
        while j < segs.len()
            invariant
                1 <= j <= segs.len(),
                views_of(key_path@) =~= views_of(segs@).subrange(1, j as int),
            decreases segs.len() - j,
        {
            let ghost prev = key_path@;
            key_path.push(segs[j].clone());
            assert(views_of(key_path@) =~= views_of(prev).push(segs@[j as int]@));
            j = j + 1;
        }
        let file_name = line.substring_char(start, n).to_owned();
        assert(segs_all.subrange(1, segs_all.len() - 1) =~= views_of(key_path@));
        Ok(S3Object { input: line.to_owned(), bucket, key_path, file_name })
    }
}

/// The locators denoted by `lines`, in order, rejected lines left out.
pub open spec fn locators_of(lines: Seq<Seq<char>>) -> Seq<LocatorView>
    decreases lines.len(),
{
    if lines.len() == 0 {
        Seq::empty()
    } else {
        let p = locators_of(lines.drop_last());
        match parse_spec(lines.last()) {
            Some(l) => p.push(l),
            None => p,
        }
    }
}

/// One diagnostic for each rejected line of `lines`, in order.
pub open spec fn diagnostics_of(lines: Seq<Seq<char>>) -> Seq<Seq<char>>
    decreases lines.len(),
{
    if lines.len() == 0 {
        Seq::empty()
    } else {
        let p = diagnostics_of(lines.drop_last());
        match parse_spec(lines.last()) {
            Some(l) => p,
            None => p.push(invalid_line_message(lines.last())),
        }
    }
}

pub open spec fn locator_views(v: Seq<S3Object>) -> Seq<LocatorView> {
    v.map_values(|o: S3Object| o@)
}

/// Parsing a concatenation of inputs gives the concatenation of their
/// locators and of their diagnostics.
pub proof fn lemma_lines_concat(a: Seq<Seq<char>>, b: Seq<Seq<char>>)
    ensures
        locators_of(a + b) == locators_of(a) + locators_of(b),
        diagnostics_of(a + b) == diagnostics_of(a) + diagnostics_of(b),
    decreases b.len(),
{
    if b.len() == 0 {
        assert(a + b =~= a);
        assert(locators_of(a) + locators_of(b) =~= locators_of(a));
        assert(diagnostics_of(a) + diagnostics_of(b) =~= diagnostics_of(a));
    } else {
        lemma_lines_concat(a, b.drop_last());
        assert((a + b).drop_last() =~= a + b.drop_last());
        assert((a + b).last() == b.last());
        assert(locators_of(a + b) =~= locators_of(a) + locators_of(b));
        assert(diagnostics_of(a + b) =~= diagnostics_of(a) + diagnostics_of(b));
    }
}

/// A rejected line yields no locator and exactly one diagnostic, and the
/// lines around it are parsed as if it were absent.
pub proof fn lemma_unparsed_line_isolated(
    before: Seq<Seq<char>>,
    line: Seq<char>,
    after: Seq<Seq<char>>,
)
    requires
        parse_spec(line) is None,
    ensures
        locators_of(before + seq![line] + after) == locators_of(before + after),
        diagnostics_of(before + seq![line] + after) == diagnostics_of(before) + seq![
            invalid_line_message(line),
        ] + diagnostics_of(after),
{
    lemma_lines_concat(before + seq![line], after);
    lemma_lines_concat(before, seq![line]);
    lemma_lines_concat(before, after);
    let one = seq![line];
    assert(one.drop_last() =~= Seq::<Seq<char>>::empty());
    assert(one.last() == line);
    assert(locators_of(one.drop_last()) == Seq::<LocatorView>::empty());
    assert(diagnostics_of(one.drop_last()) == Seq::<Seq<char>>::empty());
    assert(locators_of(one) =~= Seq::<LocatorView>::empty());
    assert(diagnostics_of(one) =~= seq![invalid_line_message(line)]);
    assert(locators_of(before) + locators_of(one) =~= locators_of(before));
}

/// A line that is too short or lacks the scheme is rejected: it yields no
/// locator and exactly one diagnostic, and the lines around it are parsed as
/// if it were absent.
pub proof fn lemma_rejected_line_isolated(
    before: Seq<Seq<char>>,
    line: Seq<char>,
    after: Seq<Seq<char>>,
)
    requires
        !has_scheme(line),
    ensures
        parse_spec(line) is None,
        locators_of(before + seq![line] + after) == locators_of(before + after),
        diagnostics_of(before + seq![line] + after) == diagnostics_of(before) + seq![
            invalid_line_message(line),
        ] + diagnostics_of(after),
{
    lemma_unparsed_line_isolated(before, line, after);
}

/// Parses every line: the locators of the accepted lines and a diagnostic for
/// each rejected one, both in input order.
pub fn parse_lines(lines: &Vec<String>) -> (r: (Vec<S3Object>, Vec<String>))
    ensures
        locator_views(r.0@) == locators_of(views_of(lines@)),
        views_of(r.1@) == diagnostics_of(views_of(lines@)),
        forall|i: int| 0 <= i < r.0@.len() ==> (#[trigger] r.0@[i]).wf(),
{
    let mut locators: Vec<S3Object> = Vec::new();
    let mut diagnostics: Vec<String> = Vec::new();
    let mut i: usize = 0;
    while i < lines.len()
        invariant
            i <= lines.len(),
            locator_views(locators@) == locators_of(views_of(lines@).take(i as int)),
            views_of(diagnostics@) == diagnostics_of(views_of(lines@).take(i as int)),
            forall|k: int| 0 <= k < locators@.len() ==> (#[trigger] locators@[k]).wf(),
        decreases lines.len() - i,
    {
        let ghost seen = views_of(lines@).take(i + 1);
        assert(seen.drop_last() =~= views_of(lines@).take(i as int));
        assert(seen.last() == lines@[i as int]@);
        let ghost old_l = locators@;
        let ghost old_d = diagnostics@;
        match S3Object::from(lines[i].as_str()) {
            Ok(o) => {
                locators.push(o);
                assert(locator_views(locators@) =~= locator_views(old_l).push(o@));
            },
            Err(e) => {
                diagnostics.push(e);
                assert(views_of(diagnostics@) =~= views_of(old_d).push(e@));
            },
        }
        i = i + 1;
    }
    assert(views_of(lines@).take(lines.len() as int) =~= views_of(lines@));
    (locators, diagnostics)
}

} // verus!
