//! Paths of the virtual file systems.
//!
//! A path is a string whose components are separated by `/`.  Paths inside a
//! virtual file system must be absolute and may not climb to a parent
//! directory; [`sanitize_path`] turns such a path into the relative path that
//! is appended to the root of a physical directory.

use vstd::prelude::*;

verus! {

/// The segments of `s` between the `/` separators, in order, including
/// empty segments (a path starting with `/` has an empty first segment).
pub open spec fn split_on_slash(s: Seq<char>) -> Seq<Seq<char>>
    decreases s.len(),
{
    if s.len() == 0 {
        seq![Seq::<char>::empty()]
    } else {
        let prev = split_on_slash(s.drop_last());
        if s.last() == '/' {
            prev.push(Seq::<char>::empty())
        } else {
            prev.update(prev.len() - 1, prev.last().push(s.last()))
        }
    }
}

/// Segments that name no component: the empty segment and `.`.
pub open spec fn is_skipped_segment(c: Seq<char>) -> bool {
    c.len() == 0 || c == seq!['.']
}

/// The segment `..`, which names the parent directory.
pub open spec fn is_parent_segment(c: Seq<char>) -> bool {
    c == seq!['.', '.']
}

/// The segments that name a component, in order.
pub open spec fn named_segments(segs: Seq<Seq<char>>) -> Seq<Seq<char>>
    decreases segs.len(),
{
    if segs.len() == 0 {
        Seq::<Seq<char>>::empty()
    } else {
        let r = named_segments(segs.drop_last());
        if is_skipped_segment(segs.last()) {
            r
        } else {
            r.push(segs.last())
        }
    }
}

/// The components joined with `/` between each two of them.
pub open spec fn join_segments(cs: Seq<Seq<char>>) -> Seq<char>
    decreases cs.len(),
{
    if cs.len() == 0 {
        Seq::<char>::empty()
    } else if cs.len() == 1 {
        cs[0]
    } else {
        join_segments(cs.drop_last()) + seq!['/'] + cs.last()
    }
}

/// Whether no segment of the path names a parent directory.
pub open spec fn has_no_parent_segment(p: Seq<char>) -> bool {
    forall|k: int| 0 <= k < split_on_slash(p).len() ==> !is_parent_segment(#[trigger] split_on_slash(p)[k])
}

/// The relative path for an absolute path without `..` components: its named
/// components joined with `/`.  Any other path (relative, empty, or with a
/// `..` component) has none.
pub open spec fn sanitized_path(p: Seq<char>) -> Option<Seq<char>> {
    if p.len() > 0 && p[0] == '/' && has_no_parent_segment(p) {
        Some(join_segments(named_segments(split_on_slash(p))))
    } else {
        None
    }
}

/// `base` with `rel` appended: a `/` goes between them unless `base` is
/// empty or already ends in `/`.
pub open spec fn appended_path(base: Seq<char>, rel: Seq<char>) -> Seq<char> {
    if base.len() == 0 || base.last() == '/' {
        base + rel
    } else {
        base + seq!['/'] + rel
    }
}

proof fn lemma_split_nonempty(s: Seq<char>)
    ensures
        split_on_slash(s).len() >= 1,
    decreases s.len(),
{
    if s.len() > 0 {
        lemma_split_nonempty(s.drop_last());
    }
}

proof fn lemma_split_no_slash(s: Seq<char>)
    requires
        !s.contains('/'),
    ensures
        split_on_slash(s) == seq![s],
    decreases s.len(),
{
    if s.len() == 0 {
        assert(s =~= Seq::<char>::empty());
    } else {
        assert(!s.drop_last().contains('/')) by {
            if s.drop_last().contains('/') {
                let i = choose|i: int| 0 <= i < s.drop_last().len() && s.drop_last()[i] == '/';
                assert(s[i] == '/');
            }
        }
        lemma_split_no_slash(s.drop_last());
        assert(s.last() != '/') by {
            if s.last() == '/' {
                assert(s[s.len() - 1] == '/');
            }
        }
        assert(s.drop_last().push(s.last()) =~= s);
        assert(seq![s.drop_last()].update(0, s.drop_last().push(s.last())) =~= seq![s]);
    }
}

proof fn lemma_split_append(x: Seq<char>, y: Seq<char>)
    ensures
        split_on_slash(x + seq!['/'] + y) == split_on_slash(x) + split_on_slash(y),
    decreases y.len(),
{
    let s = x + seq!['/'] + y;
    if y.len() == 0 {
        assert(s.drop_last() =~= x);
        assert(s.last() == '/');
        assert(split_on_slash(y) =~= seq![Seq::<char>::empty()]);
        assert(split_on_slash(x).push(Seq::<char>::empty()) =~= split_on_slash(x) + seq![Seq::<char>::empty()]);
    } else {
        lemma_split_append(x, y.drop_last());
        lemma_split_nonempty(y.drop_last());
        assert(s.drop_last() =~= x + seq!['/'] + y.drop_last());
        assert(s.last() == y.last());
        let a = split_on_slash(x);
        let b = split_on_slash(y.drop_last());
        if y.last() == '/' {
            assert((a + b).push(Seq::<char>::empty()) =~= a + b.push(Seq::<char>::empty()));
        } else {
            assert((a + b).update((a + b).len() - 1, (a + b).last().push(y.last()))
                =~= a + b.update(b.len() - 1, b.last().push(y.last())));
        }
    }
}

proof fn lemma_split_segments_no_slash(s: Seq<char>)
    ensures
        forall|k: int| 0 <= k < split_on_slash(s).len() ==> !(#[trigger] split_on_slash(s)[k]).contains('/'),
    decreases s.len(),
{
    if s.len() > 0 {
        lemma_split_segments_no_slash(s.drop_last());
        lemma_split_nonempty(s.drop_last());
        let prev = split_on_slash(s.drop_last());
        if s.last() != '/' {
            let seg = prev.last().push(s.last());
            assert(!seg.contains('/')) by {
                if seg.contains('/') {
                    let i = choose|i: int| 0 <= i < seg.len() && seg[i] == '/';
                    if i < seg.len() - 1 {
                        assert(prev[prev.len() - 1][i] == '/');
                    }
                }
            }
            assert forall|k: int| 0 <= k < split_on_slash(s).len() implies !(#[trigger] split_on_slash(s)[k]).contains('/') by {
                if k < prev.len() - 1 {
                    assert(split_on_slash(s)[k] == prev[k]);
                }
            }
        } else {
            assert forall|k: int| 0 <= k < split_on_slash(s).len() implies !(#[trigger] split_on_slash(s)[k]).contains('/') by {
                if k < prev.len() {
                    assert(split_on_slash(s)[k] == prev[k]);
                } else {
                    assert(split_on_slash(s)[k] =~= Seq::<char>::empty());
                }
            }
        }
    }
}

proof fn lemma_named_concat(a: Seq<Seq<char>>, b: Seq<Seq<char>>)
    ensures
        named_segments(a + b) == named_segments(a) + named_segments(b),
    decreases b.len(),
{
    if b.len() == 0 {
        assert(a + b =~= a);
        assert(named_segments(a) + named_segments(b) =~= named_segments(a));
    } else {
        lemma_named_concat(a, b.drop_last());
        assert((a + b).drop_last() =~= a + b.drop_last());
        assert((a + b).last() == b.last());
        if !is_skipped_segment(b.last()) {
            assert((named_segments(a) + named_segments(b.drop_last())).push(b.last())
                =~= named_segments(a) + named_segments(b.drop_last()).push(b.last()));
        }
    }
}

proof fn lemma_named_props(segs: Seq<Seq<char>>)
    requires
        forall|k: int| 0 <= k < segs.len() ==> !(#[trigger] segs[k]).contains('/') && !is_parent_segment(segs[k]),
    ensures
        forall|k: int| 0 <= k < named_segments(segs).len() ==> {
            &&& !(#[trigger] named_segments(segs)[k]).contains('/')
            &&& !is_parent_segment(named_segments(segs)[k])
            &&& !is_skipped_segment(named_segments(segs)[k])
        },
    decreases segs.len(),
{
    if segs.len() > 0 {
        lemma_named_props(segs.drop_last());
        assert(forall|k: int| 0 <= k < segs.drop_last().len() ==> segs.drop_last()[k] == segs[k]);
        let r = named_segments(segs.drop_last());
        assert(!segs[segs.len() - 1].contains('/'));
        if !is_skipped_segment(segs.last()) {
            assert forall|k: int| 0 <= k < named_segments(segs).len() implies {
                &&& !(#[trigger] named_segments(segs)[k]).contains('/')
                &&& !is_parent_segment(named_segments(segs)[k])
                &&& !is_skipped_segment(named_segments(segs)[k])
            } by {
                if k < r.len() {
                    assert(named_segments(segs)[k] == r[k]);
                }
            }
        }
    }
}

proof fn lemma_named_of_named(cs: Seq<Seq<char>>)
    requires
        forall|k: int| 0 <= k < cs.len() ==> !is_skipped_segment(#[trigger] cs[k]),
    ensures
        named_segments(cs) == cs,
    decreases cs.len(),
{
    if cs.len() > 0 {
        lemma_named_of_named(cs.drop_last());
        assert(!is_skipped_segment(cs[cs.len() - 1]));
        assert(cs.drop_last().push(cs.last()) =~= cs);
    }
}

proof fn lemma_split_join(cs: Seq<Seq<char>>)
    requires
        cs.len() > 0,
        forall|k: int| 0 <= k < cs.len() ==> !(#[trigger] cs[k]).contains('/'),
    ensures
        split_on_slash(join_segments(cs)) == cs,
    decreases cs.len(),
{
    if cs.len() == 1 {
        lemma_split_no_slash(cs[0]);
        assert(seq![cs[0]] =~= cs);
    } else {
        lemma_split_join(cs.drop_last());
        lemma_split_append(join_segments(cs.drop_last()), cs.last());
        assert(!cs[cs.len() - 1].contains('/'));
        lemma_split_no_slash(cs.last());
        assert(cs.drop_last() + seq![cs.last()] =~= cs);
    }
}

proof fn lemma_join_first(cs: Seq<Seq<char>>)
    requires
        cs.len() > 0,
        cs[0].len() > 0,
    ensures
        join_segments(cs).len() > 0,
        join_segments(cs)[0] == cs[0][0],
    decreases cs.len(),
{
    if cs.len() > 1 {
        lemma_join_first(cs.drop_last());
    }
}

/// A sanitized path is relative and clean: it does not start with `/`, no
/// segment of it is `..`, and sanitizing it again, made absolute, gives it
/// back.  Appended to a root, it therefore never climbs out of that root.
pub proof fn lemma_sanitized_path_is_clean(p: Seq<char>)
    requires
        sanitized_path(p) is Some,
    ensures
        ({
            let r = sanitized_path(p)->0;
            &&& has_no_parent_segment(r)
            &&& r.len() > 0 ==> r[0] != '/'
            &&& sanitized_path(seq!['/'] + r) == Some(r)
        }),
{
    let segs = split_on_slash(p);
    let cs = named_segments(segs);
    let r = join_segments(cs);
    lemma_split_segments_no_slash(p);
    lemma_named_props(segs);
    let slash_r = seq!['/'] + r;
    assert(slash_r =~= Seq::<char>::empty() + seq!['/'] + r);
    lemma_split_append(Seq::<char>::empty(), r);
    let empty_seg: Seq<Seq<char>> = seq![Seq::<char>::empty()];
    assert(split_on_slash(Seq::<char>::empty()) == empty_seg);
    assert(named_segments(empty_seg) =~= Seq::<Seq<char>>::empty()) by {
        assert(empty_seg.drop_last() =~= Seq::<Seq<char>>::empty());
        assert(named_segments(empty_seg.drop_last()) =~= Seq::<Seq<char>>::empty());
        assert(is_skipped_segment(empty_seg.last()));
    }
    if cs.len() == 0 {
        assert(r =~= Seq::<char>::empty());
        assert(split_on_slash(r) == empty_seg);
        assert(!is_parent_segment(split_on_slash(r)[0]));
        lemma_named_concat(empty_seg, empty_seg);
        assert(named_segments(empty_seg) + named_segments(empty_seg) =~= Seq::<Seq<char>>::empty());
        assert(forall|k: int| 0 <= k < split_on_slash(slash_r).len() ==>
            #[trigger] split_on_slash(slash_r)[k] =~= Seq::<char>::empty());
    } else {
        lemma_split_join(cs);
        lemma_named_of_named(cs);
        lemma_named_concat(empty_seg, cs);
        assert(named_segments(empty_seg) + named_segments(cs) =~= cs);
        assert(split_on_slash(slash_r) =~= empty_seg + cs);
        assert forall|k: int| 0 <= k < split_on_slash(slash_r).len() implies
            !is_parent_segment(#[trigger] split_on_slash(slash_r)[k]) by {
            if k > 0 {
                assert(split_on_slash(slash_r)[k] == cs[k - 1]);
            }
        }
        lemma_join_first(cs);
        assert(cs[0].len() > 0);
    }
}

/// Appending a sanitized path to a root gives a path that starts with the
/// root, followed by the sanitized path.
pub proof fn lemma_appended_under_root(root: Seq<char>, p: Seq<char>)
    requires
        sanitized_path(p) is Some,
    ensures
        root.is_prefix_of(appended_path(root, sanitized_path(p)->0)),
        appended_path(root, sanitized_path(p)->0).skip(appended_path(root, sanitized_path(p)->0).len()
            - sanitized_path(p)->0.len()) == sanitized_path(p)->0,
{
    let r = sanitized_path(p)->0;
    let a = appended_path(root, r);
    assert(a.take(root.len() as int) =~= root);
    assert(a.skip(a.len() - r.len()) =~= r);
}

/// The characters of a string, in order.
fn chars_of(s: &str) -> (v: Vec<char>)
    ensures
        v@ == s@,
{
    let n = s.unicode_len();
    let mut v: Vec<char> = Vec::new();
    let mut i: usize = 0;
    while i < n
        invariant
            n == s@.len(),
            i <= n,
            v@ == s@.take(i as int),
        decreases n - i,
    {
        v.push(s.get_char(i));
        i = i + 1;
        assert(v@ =~= s@.take(i as int));
    }
    assert(s@.take(n as int) =~= s@);
    v
}

/// Classifies the segment `chars[start..end]`: 0 for a skipped segment,
/// 1 for `..`, 2 for a named component.
fn segment_kind(chars: &Vec<char>, start: usize, end: usize) -> (k: u8)
    requires
        start <= end <= chars@.len(),
    ensures
        k == 0 <==> is_skipped_segment(chars@.subrange(start as int, end as int)),
        k == 1 <==> is_parent_segment(chars@.subrange(start as int, end as int)),
        k <= 2,
{
    let ghost seg = chars@.subrange(start as int, end as int);
    if end == start {
        assert(seg.len() == 0);
        0
    } else if end - start == 1 && chars[start] == '.' {
        assert(seg =~= seq!['.']);
        assert(seg.len() != 2);
        0
    } else if end - start == 2 && chars[start] == '.' && chars[start + 1] == '.' {
        assert(seg =~= seq!['.', '.']);
        1
    } else {
        assert(seg.len() != 0);
        assert(seg != seq!['.']) by {
            if seg == seq!['.'] {
                assert(seg[0] == chars@[start as int]);
            }
        }
        assert(seg != seq!['.', '.']) by {
            if seg == seq!['.', '.'] {
                assert(seg[0] == chars@[start as int]);
                assert(seg[1] == chars@[start + 1]);
            }
        }
        2
    }
}

/// Turns an absolute path into the relative path of its components, or
/// `None` if the path is not absolute or names a parent directory (`..`).
///
/// `"/foo/bar.txt"` becomes `"foo/bar.txt"`, `"/"` becomes `""`, while
/// `"foo"`, `""` and `"/foo/../bop"` have none.
pub fn sanitize_path(path: &str) -> (r: Option<String>)
    ensures
        match r {
            Some(s) => sanitized_path(path@) == Some(s@),
            None => sanitized_path(path@) is None,
        },
{
    let chars = chars_of(path);
    let n = chars.len();
    if n == 0 || chars[0] != '/' {
        return None;
    }
    let mut acc = String::new();
    let mut named: usize = 0;
    let mut bad = false;
    let mut start: usize = 0;
    let mut i: usize = 0;
    let ghost mut done: Seq<Seq<char>> = Seq::empty();
    proof {
        reveal_strlit("/");
        assert(path@.take(0) =~= Seq::<char>::empty());
        assert(split_on_slash(path@.take(0)) =~= done.push(path@.subrange(0, 0)));
    }
    while i < n
        invariant
            chars@ == path@,
            n == path@.len(),
            start <= i <= n,
            split_on_slash(path@.take(i as int)) == done.push(path@.subrange(start as int, i as int)),
            !bad ==> acc@ == join_segments(named_segments(done)),
            !bad ==> named == named_segments(done).len(),
            named <= i,
            bad <==> exists|k: int| 0 <= k < done.len() && is_parent_segment(#[trigger] done[k]),
            "/"@ == seq!['/'],
        decreases n - i,
    {
        let ghost prev_done = done;
        let ghost t = path@.take(i + 1);
        assert(t.drop_last() =~= path@.take(i as int));
        assert(t.last() == path@[i as int]);
        if chars[i] == '/' {
            let kind = segment_kind(&chars, start, i);
            let ghost seg = path@.subrange(start as int, i as int);
            proof {
                done = done.push(seg);
                assert(done.drop_last() =~= prev_done);
            }
            if kind == 1 {
                bad = true;
                assert(is_parent_segment(done[done.len() - 1]));
            } else {
                assert forall|k: int| 0 <= k < done.len() && is_parent_segment(#[trigger] done[k])
                    implies 0 <= k < prev_done.len() && is_parent_segment(prev_done[k]) by {
                    if k == done.len() - 1 {
                        assert(done[k] == seg);
                    } else {
                        assert(done[k] == prev_done[k]);
                    }
                }
                if bad {
                    let ghost k0 = choose|k: int| 0 <= k < prev_done.len() && is_parent_segment(#[trigger] prev_done[k]);
                    assert(done[k0] == prev_done[k0]);
                }
            }
            if kind == 2 {
                if named > 0 {
                    acc.append("/");
                }
                acc.append(path.substring_char(start, i));
                named = named + 1;
                proof {
                    let nd = named_segments(prev_done);
                    assert(named_segments(done) == nd.push(seg));
                    assert(nd.push(seg).drop_last() =~= nd);
                }
            } else if kind == 0 {
                assert(named_segments(done) == named_segments(prev_done));
            }
            start = i + 1;
            proof {
                assert(split_on_slash(t) == split_on_slash(path@.take(i as int)).push(Seq::<char>::empty()));
                assert(path@.subrange(start as int, i + 1) =~= Seq::<char>::empty());
            }
        } else {
            proof {
                lemma_split_nonempty(path@.take(i as int));
                let prev = split_on_slash(path@.take(i as int));
                assert(prev.last() == path@.subrange(start as int, i as int));
                assert(path@.subrange(start as int, i + 1) =~= path@.subrange(start as int, i as int).push(path@[i as int]));
                assert(split_on_slash(t) =~= done.push(path@.subrange(start as int, i + 1)));
            }
        }
        i = i + 1;
    }
    // the last segment
    let ghost prev_done = done;
    let kind = segment_kind(&chars, start, n);
    let ghost seg = path@.subrange(start as int, n as int);
    proof {
        done = done.push(seg);
        assert(done.drop_last() =~= prev_done);
        assert(path@.take(n as int) =~= path@);
    }
    if kind == 2 {
        if named > 0 {
            acc.append("/");
        }
        acc.append(path.substring_char(start, n));
        proof {
            let nd = named_segments(prev_done);
            assert(named_segments(done) == nd.push(seg));
            assert(nd.push(seg).drop_last() =~= nd);
        }
    } else if kind == 0 {
        assert(named_segments(done) == named_segments(prev_done));
    }
    if bad || kind == 1 {
        proof {
            if bad {
                let k0 = choose|k: int| 0 <= k < prev_done.len() && is_parent_segment(#[trigger] prev_done[k]);
                assert(done[k0] == prev_done[k0]);
                assert(is_parent_segment(split_on_slash(path@)[k0]));
            } else {
                assert(is_parent_segment(split_on_slash(path@)[done.len() - 1]));
            }
        }
        None
    } else {
        proof {
            assert forall|k: int| 0 <= k < split_on_slash(path@).len() implies !is_parent_segment(#[trigger] split_on_slash(path@)[k]) by {
                if k == done.len() - 1 {
                    assert(done[k] == seg);
                } else {
                    assert(done[k] == prev_done[k]);
                }
            }
        }
        Some(acc)
    }
}

/// Appends a relative path to a base path, as `PathBuf::push` does for a
/// relative argument.
pub fn append_path(base: &str, rel: &str) -> (r: String)
    ensures
        r@ == appended_path(base@, rel@),
{
    let mut out = String::from_str(base);
    let n = base.unicode_len();
    if n > 0 && base.get_char(n - 1) != '/' {
        out.append("/");
        proof {
            reveal_strlit("/");
        }
    }
    out.append(rel);
    out
}

/// `base` extended by `name` as `PathBuf::push` does: an absolute `name`
/// replaces `base`, a relative one is appended to it.
pub open spec fn pushed_path(base: Seq<char>, name: Seq<char>) -> Seq<char> {
    if name.len() > 0 && name[0] == '/' {
        name
    } else {
        appended_path(base, name)
    }
}

/// Extends `base` by `name` as `PathBuf::push` does.
pub fn push_path(base: &str, name: &str) -> (r: String)
    ensures
        r@ == pushed_path(base@, name@),
{
    if name.unicode_len() > 0 && name.get_char(0) == '/' {
        String::from_str(name)
    } else {
        append_path(base, name)
    }
}

} // verus!
