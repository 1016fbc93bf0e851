use vstd::prelude::*;
use crate::locator::{LocatorView, S3Object, has_scheme, parse_spec, split_on_slash, views_of};

verus! {

/// `base` extended by `part` as `PathBuf::push` does it on Unix: an absolute
/// `part` replaces `base`; otherwise `part` is appended, after a `/` where
/// `base` is non-empty and does not already end in one.
pub open spec fn push_spec(base: Seq<char>, part: Seq<char>) -> Seq<char> {
    if part.len() > 0 && part[0] == '/' {
        part
    } else if base.len() == 0 || base.last() == '/' {
        base + part
    } else {
        base + seq!['/'] + part
    }
}

/// Relies on `std::path::PathBuf::push` on Unix, where the separator is `/`:
/// an absolute path replaces the current one, and a relative one is appended
/// after a separator unless the current path is empty or ends in one.
#[verifier::external_body]
fn push_path(base: &str, part: &str) -> (r: String)
    ensures
        r@ == push_spec(base@, part@),
{
    let mut p = std::path::PathBuf::from(base);
    p.push(part);
    p.to_string_lossy().into_owned()
}

/// `base` with each segment pushed onto it in turn.
pub open spec fn push_all(base: Seq<char>, segs: Seq<Seq<char>>) -> Seq<char>
    decreases segs.len(),
{
    if segs.len() == 0 {
        base
    } else {
        push_spec(push_all(base, segs.drop_last()), segs.last())
    }
}

/// Pushes each segment onto `base` in turn.
fn push_segments(base: &str, segs: &Vec<String>) -> (r: String)
    ensures
        r@ == push_all(base@, views_of(segs@)),
{
    let mut r = base.to_owned();
    let mut i: usize = 0;
    while i < segs.len()
        invariant
            i <= segs.len(),
            r@ == push_all(base@, views_of(segs@).take(i as int)),
        decreases segs.len() - i,
    {
        let ghost next = views_of(segs@).take(i + 1);
        assert(next.drop_last() =~= views_of(segs@).take(i as int));
        assert(next.last() == segs@[i as int]@);
        r = push_path(r.as_str(), segs[i].as_str());
        i = i + 1;
    }
    assert(views_of(segs@).take(segs.len() as int) =~= views_of(segs@));
    r
}

/// The remote key of an object: its key path segments and file name, pushed
/// onto an empty path.
pub open spec fn key_of(o: LocatorView) -> Seq<char> {
    push_all(Seq::empty(), o.key_path.push(o.file_name))
}

/// The local directory of an object: its bucket and key path segments pushed
/// onto `backup`.
pub open spec fn local_dir_of(o: LocatorView, backup: Seq<char>) -> Seq<char> {
    push_all(backup, seq![o.bucket] + o.key_path)
}

/// The local file of an object: its bucket, key path segments and file name
/// pushed onto `backup`.
pub open spec fn local_file_of(o: LocatorView, backup: Seq<char>) -> Seq<char> {
    push_all(backup, (seq![o.bucket] + o.key_path).push(o.file_name))
}

impl S3Object {
    /// The key path segments, preceded by the bucket where `with_bucket`.
    fn path_segments(&self, with_bucket: bool) -> (r: Vec<String>)
        ensures
            views_of(r@) == if with_bucket {
                seq![self.bucket@] + self@.key_path
            } else {
                self@.key_path
            },
    {
        let mut r: Vec<String> = Vec::new();
        if with_bucket {
            r.push(self.bucket.clone());
        }
        let ghost start = views_of(r@);
        let mut i: usize = 0;
        while i < self.key_path.len()
            invariant
                i <= self.key_path.len(),
                start == (if with_bucket {
                    seq![self.bucket@]
                } else {
                    Seq::<Seq<char>>::empty()
                }),
                views_of(r@) =~= start + views_of(self.key_path@).take(i as int),
            decreases self.key_path.len() - i,
        {
            let ghost prev = r@;
            r.push(self.key_path[i].clone());
            assert(views_of(r@) =~= views_of(prev).push(self.key_path@[i as int]@));
            assert(views_of(self.key_path@).take(i + 1) =~= views_of(self.key_path@).take(
                i as int,
            ).push(self.key_path@[i as int]@));
            i = i + 1;
        }
        assert(views_of(self.key_path@).take(self.key_path.len() as int) =~= self@.key_path);
        r
    }

    /// The key of the object in its bucket.
    pub fn key(&self) -> (r: String)
        ensures
            r@ == key_of(self@),
    {
        let mut segs = self.path_segments(false);
        let ghost prev = segs@;
        segs.push(self.file_name.clone());
        assert(views_of(segs@) =~= views_of(prev).push(self.file_name@));
        proof {
            reveal_strlit("");
        }
        assert(""@ =~= Seq::<char>::empty());
        push_segments("", &segs)
    }

    /// The directory under `backup` that holds the local copy.
    pub fn local_dir(&self, backup: &str) -> (r: String)
        ensures
            r@ == local_dir_of(self@, backup@),
    {
        let segs = self.path_segments(true);
        push_segments(backup, &segs)
    }

    /// The path under `backup` of the local copy.
    pub fn local_file(&self, backup: &str) -> (r: String)
        ensures
            r@ == local_file_of(self@, backup@),
    {
        let mut segs = self.path_segments(true);
        let ghost prev = segs@;
        segs.push(self.file_name.clone());
        assert(views_of(segs@) =~= views_of(prev).push(self.file_name@));
        push_segments(backup, &segs)
    }
}

/// The segments joined by single `/` characters.
pub open spec fn join_slash(segs: Seq<Seq<char>>) -> Seq<char>
    decreases segs.len(),
{
    if segs.len() == 0 {
        Seq::empty()
    } else if segs.len() == 1 {
        segs[0]
    } else {
        join_slash(segs.drop_last()) + seq!['/'] + segs.last()
    }
}

/// Whether `s` is a non-empty path segment without separators.
pub open spec fn is_plain_segment(s: Seq<char>) -> bool {
    s.len() > 0 && forall|i: int| 0 <= i < s.len() ==> s[i] != '/'
}

pub open spec fn all_plain(segs: Seq<Seq<char>>) -> bool {
    forall|i: int| 0 <= i < segs.len() ==> is_plain_segment(#[trigger] segs[i])
}

/// What a relative segment pushed onto `root` follows: `root`, with a `/`
/// added unless it is empty or already ends in one.
pub open spec fn root_prefix(root: Seq<char>) -> Seq<char> {
    if root.len() == 0 || root.last() == '/' {
        root
    } else {
        root + seq!['/']
    }
}

proof fn lemma_join_last(segs: Seq<Seq<char>>)
    requires
        segs.len() > 0,
        all_plain(segs),
    ensures
        join_slash(segs).len() > 0,
        join_slash(segs).last() == segs.last().last(),
{
    assert(is_plain_segment(segs[segs.len() - 1]));
}

proof fn lemma_push_all_plain(base: Seq<char>, segs: Seq<Seq<char>>)
    requires
        segs.len() > 0,
        all_plain(segs),
    ensures
        push_all(base, segs) == root_prefix(base) + join_slash(segs),
    decreases segs.len(),
{
    assert(is_plain_segment(segs[segs.len() - 1]));
    if segs.len() == 1 {
        assert(push_all(base, segs.drop_last()) == base);
        assert(segs.last() == segs[0]);
    } else {
        let d = segs.drop_last();
        assert(all_plain(d)) by {
            assert forall|i: int| 0 <= i < d.len() implies is_plain_segment(#[trigger] d[i]) by {
                assert(d[i] == segs[i]);
            }
        }
        lemma_push_all_plain(base, d);
        lemma_join_last(d);
        assert(is_plain_segment(d[d.len() - 1]));
        let p = root_prefix(base) + join_slash(d);
        assert(p.last() == join_slash(d).last());
        assert(d.last().last() != '/');
        assert(push_spec(p, segs.last()) =~= root_prefix(base) + join_slash(segs));
    }
}

proof fn lemma_split_plain(s: Seq<char>)
    ensures
        split_on_slash(s).len() >= 1,
        forall|i: int|
            0 <= i < split_on_slash(s).len() ==> forall|k: int|
                0 <= k < (#[trigger] split_on_slash(s)[i]).len() ==> split_on_slash(s)[i][k] != '/',
    decreases s.len(),
{
    if s.len() > 0 {
        lemma_split_plain(s.drop_last());
        let p = split_on_slash(s.drop_last());
        let q = split_on_slash(s);
        if s.last() != '/' {
            assert forall|i: int| 0 <= i < q.len() implies forall|k: int|
                0 <= k < (#[trigger] q[i]).len() ==> q[i][k] != '/' by {
                if i == q.len() - 1 {
                    assert(q[i] == p.last().push(s.last()));
                    assert(p.last() == p[p.len() - 1]);
                } else {
                    assert(q[i] == p[i]);
                }
            }
        } else {
            assert forall|i: int| 0 <= i < q.len() implies forall|k: int|
                0 <= k < (#[trigger] q[i]).len() ==> q[i][k] != '/' by {
                if i < p.len() {
                    assert(q[i] == p[i]);
                }
            }
        }
    }
}

proof fn lemma_join_split(s: Seq<char>)
    ensures
        join_slash(split_on_slash(s)) == s,
    decreases s.len(),
{
    if s.len() == 0 {
    } else {
        let d = s.drop_last();
        lemma_join_split(d);
        lemma_split_plain(d);
        let p = split_on_slash(d);
        let q = split_on_slash(s);
        if s.last() == '/' {
            assert(q.drop_last() =~= p);
            assert(s =~= d + seq!['/'] + Seq::<char>::empty());
        } else {
            if p.len() == 1 {
                assert(q =~= seq![p[0].push(s.last())]);
                assert(s =~= d.push(s.last()));
            } else {
                assert(q.drop_last() =~= p.drop_last());
                assert(join_slash(p) == join_slash(p.drop_last()) + seq!['/'] + p.last());
                assert(q.last() == p.last().push(s.last()));
                assert(s =~= d.push(s.last()));
                assert(join_slash(q) == join_slash(q.drop_last()) + seq!['/'] + q.last());
                assert(s =~= join_slash(p.drop_last()) + seq!['/'] + p.last().push(s.last()));
            }
        }
    }
}

/// Whether no segment of the path after the scheme of `line` is empty.
pub open spec fn has_no_empty_segment(line: Seq<char>) -> bool {
    forall|i: int|
        0 <= i < split_on_slash(line.skip(5)).len() ==> (#[trigger] split_on_slash(
            line.skip(5),
        )[i]).len() > 0
}

/// Whether `a` is an initial part of `b`.
pub open spec fn is_prefix_of(a: Seq<char>, b: Seq<char>) -> bool {
    a.len() <= b.len() && b.take(a.len() as int) == a
}

proof fn lemma_push_all_keeps_base(base: Seq<char>, segs: Seq<Seq<char>>)
    requires
        forall|i: int|
            0 <= i < segs.len() ==> forall|k: int|
                0 <= k < (#[trigger] segs[i]).len() ==> segs[i][k] != '/',
    ensures
        is_prefix_of(base, push_all(base, segs)),
    decreases segs.len(),
{
    if segs.len() == 0 {
        assert(base.take(base.len() as int) =~= base);
    } else {
        let d = segs.drop_last();
        assert forall|i: int| 0 <= i < d.len() implies forall|k: int|
            0 <= k < (#[trigger] d[i]).len() ==> d[i][k] != '/' by {
            assert(d[i] == segs[i]);
        }
        lemma_push_all_keeps_base(base, d);
        let x = push_all(base, d);
        let last = segs.last();
        assert(last == segs[segs.len() - 1]);
        if last.len() > 0 {
            assert(last[0] != '/');
        }
        let r = push_spec(x, last);
        assert(r.take(x.len() as int) =~= x);
        assert(r.take(base.len() as int) =~= x.take(base.len() as int));
    }
}

/// The local file of the object that `line` denotes lies under `backup`.
pub proof fn lemma_local_file_under_root(line: Seq<char>, backup: Seq<char>)
    requires
        parse_spec(line) is Some,
    ensures
        is_prefix_of(backup, local_file_of(parse_spec(line)->Some_0, backup)),
{
    let o = parse_spec(line)->Some_0;
    let segs = split_on_slash(line.skip(5));
    lemma_split_plain(line.skip(5));
    assert((seq![o.bucket] + o.key_path).push(o.file_name) =~= segs);
    lemma_push_all_keeps_base(backup, segs);
}

/// Where no segment is empty, the local file of the object that `line`
/// denotes is `backup` (followed by a separator where it has none at its
/// end) followed by the line's path after the scheme.
pub proof fn lemma_local_file_of_line(line: Seq<char>, backup: Seq<char>)
    requires
        parse_spec(line) is Some,
        has_no_empty_segment(line),
    ensures
        local_file_of(parse_spec(line)->Some_0, backup) == root_prefix(backup) + line.skip(5),
{
    let o = parse_spec(line)->Some_0;
    let segs = split_on_slash(line.skip(5));
    lemma_split_plain(line.skip(5));
    lemma_join_split(line.skip(5));
    let all = (seq![o.bucket] + o.key_path).push(o.file_name);
    assert(all =~= segs);
    assert(all_plain(segs)) by {
        assert forall|i: int| 0 <= i < segs.len() implies is_plain_segment(#[trigger] segs[i]) by {
            assert(segs[i].len() > 0);
        }
    }
    lemma_push_all_plain(backup, segs);
}

/// Distinct lines that both denote objects, with no empty segment, give
/// distinct local files under any one backup root.
pub proof fn lemma_distinct_local_files(l1: Seq<char>, l2: Seq<char>, backup: Seq<char>)
    requires
        parse_spec(l1) is Some,
        parse_spec(l2) is Some,
        has_no_empty_segment(l1),
        has_no_empty_segment(l2),
        l1 != l2,
    ensures
        local_file_of(parse_spec(l1)->Some_0, backup) != local_file_of(
            parse_spec(l2)->Some_0,
            backup,
        ),
{
    lemma_local_file_of_line(l1, backup);
    lemma_local_file_of_line(l2, backup);
    assert(l1 =~= l1.take(5) + l1.skip(5));
    assert(l2 =~= l2.take(5) + l2.skip(5));
    let r = root_prefix(backup);
    if r + l1.skip(5) == r + l2.skip(5) {
        assert(l1.skip(5) =~= (r + l1.skip(5)).skip(r.len() as int));
        assert(l2.skip(5) =~= (r + l2.skip(5)).skip(r.len() as int));
    }
}

/// For a locator in bucket `b` with key path `[p]` and file name `f`, the
/// local file under a root `R` (not ending in a separator) is `R/b/p/f` and
/// the remote key is `p/f`.
pub proof fn lemma_resolved_paths(o: LocatorView, root: Seq<char>)
    requires
        o.key_path.len() == 1,
        is_plain_segment(o.bucket),
        is_plain_segment(o.key_path[0]),
        is_plain_segment(o.file_name),
        root.len() > 0,
        root.last() != '/',
    ensures
        local_file_of(o, root) == root + seq!['/'] + o.bucket + seq!['/'] + o.key_path[0] + seq![
            '/',
        ] + o.file_name,
        key_of(o) == o.key_path[0] + seq!['/'] + o.file_name,
{
    let b = o.bucket;
    let p = o.key_path[0];
    let f = o.file_name;
    let all = (seq![b] + o.key_path).push(f);
    assert(all =~= seq![b, p, f]);
    assert(all_plain(all));
    lemma_push_all_plain(root, all);
    assert(seq![b, p, f].drop_last() =~= seq![b, p]);
    assert(seq![b, p].drop_last() =~= seq![b]);
    assert(join_slash(seq![b]) == b);
    assert(join_slash(seq![b, p]) == b + seq!['/'] + p);
    assert(join_slash(seq![b, p, f]) == b + seq!['/'] + p + seq!['/'] + f);
    assert(local_file_of(o, root) =~= root + seq!['/'] + b + seq!['/'] + p + seq!['/'] + f);
    let kf = o.key_path.push(f);
    assert(kf =~= seq![p, f]);
    assert(all_plain(kf));
    lemma_push_all_plain(Seq::empty(), kf);
    assert(seq![p, f].drop_last() =~= seq![p]);
    assert(join_slash(seq![p]) == p);
    assert(join_slash(seq![p, f]) == p + seq!['/'] + f);
    assert(root_prefix(Seq::<char>::empty()) + join_slash(kf) =~= p + seq!['/'] + f);
}

} // verus!
