//! Shortening of file paths for diagnostics, following the path component
//! rules of Unix paths: repeated separators are ignored, a trailing
//! separator is dropped, `.` is dropped except at the start of a relative
//! path, and a leading separator is the root component.
use vstd::prelude::*;
use crate::text::push_char;

verus! {

/// The `/`-separated segments of a path, empty ones included.
pub open spec fn segments(p: Seq<char>) -> Seq<Seq<char>>
    decreases p.len(),
{
    if p.len() == 0 {
        seq![Seq::<char>::empty()]
    } else {
        let rest = segments(p.drop_last());
        if p.last() == '/' {
            rest.push(Seq::<char>::empty())
        } else {
            rest.update(rest.len() - 1, rest.last().push(p.last()))
        }
    }
}

/// Whether the `i`-th segment of `p` is a component: nonempty, and not `.`
/// unless it opens a relative path.
pub open spec fn keeps_segment(p: Seq<char>, segs: Seq<Seq<char>>, i: int) -> bool {
    segs[i].len() > 0 && (segs[i] != seq!['.'] || (i == 0 && !(p.len() > 0 && p[0] == '/')))
}

/// The components among the first `n` segments, in order.
pub open spec fn kept_segments(p: Seq<char>, segs: Seq<Seq<char>>, n: int) -> Seq<Seq<char>>
    decreases n,
{
    if n <= 0 {
        Seq::empty()
    } else if keeps_segment(p, segs, n - 1) {
        kept_segments(p, segs, n - 1).push(segs[n - 1])
    } else {
        kept_segments(p, segs, n - 1)
    }
}

/// The components of a path, each as its text; the root component is `/`.
pub open spec fn path_components(p: Seq<char>) -> Seq<Seq<char>> {
    let segs = segments(p);
    let kept = kept_segments(p, segs, segs.len() as int);
    if p.len() > 0 && p[0] == '/' {
        seq![seq!['/']] + kept
    } else {
        kept
    }
}

/// Appends one component to a path text: the root replaces the text, the first
/// component is taken as is, and later ones follow a separator.
pub open spec fn path_push(acc: Seq<char>, comp: Seq<char>) -> Seq<char> {
    if comp == seq!['/'] {
        comp
    } else if acc.len() == 0 {
        comp
    } else if acc.last() == '/' {
        acc + comp
    } else {
        acc + seq!['/'] + comp
    }
}

/// The path text built by pushing `comps` onto `acc` in order.
pub open spec fn path_join(acc: Seq<char>, comps: Seq<Seq<char>>) -> Seq<char>
    decreases comps.len(),
{
    if comps.len() == 0 {
        acc
    } else {
        path_push(path_join(acc, comps.drop_last()), comps.last())
    }
}

/// A path shortened to its last `depth` components: the whole path when it has
/// no more than `depth` components, otherwise `..` followed by the last `depth`.
pub open spec fn truncated_path(p: Seq<char>, depth: nat) -> Seq<char> {
    let comps = path_components(p);
    if comps.len() <= depth {
        path_join(Seq::empty(), comps)
    } else {
        path_join(seq!['.', '.'], comps.subrange(comps.len() - depth, comps.len() as int))
    }
}

proof fn lemma_segments_nonempty(p: Seq<char>)
    ensures
        segments(p).len() >= 1,
    decreases p.len(),
{
    if p.len() > 0 {
        lemma_segments_nonempty(p.drop_last());
    }
}

/// Splits `p` into its segments.
fn split_segments(p: &Vec<char>) -> (r: Vec<Vec<char>>)
    ensures
        r@.len() == segments(p@).len(),
        forall|i: int| 0 <= i < r@.len() ==> #[trigger] r@[i]@ == segments(p@)[i],
{
    let mut out: Vec<Vec<char>> = Vec::new();
    out.push(Vec::new());
    let mut i: usize = 0;
    assert(p@.take(0) =~= Seq::<char>::empty());
    while i < p.len()
        invariant
            i <= p.len(),
            out@.len() == segments(p@.take(i as int)).len(),
            out@.len() >= 1,
            forall|k: int| 0 <= k < out@.len() ==> #[trigger] out@[k]@ == segments(p@.take(i as int))[k],
        decreases p.len() - i,
    {
        let c = p[i];
        proof {
            assert(p@.take(i + 1).drop_last() =~= p@.take(i as int));
            lemma_segments_nonempty(p@.take(i as int));
        }
        if c == '/' {
            out.push(Vec::new());
        } else {
            let last = out.len() - 1;
            let mut seg = out.pop().unwrap();
            seg.push(c);
            out.push(seg);
            proof {
                assert forall|k: int| 0 <= k < out@.len() implies #[trigger] out@[k]@ == segments(
                    p@.take(i + 1),
                )[k] by {
                    if k == last {
                    }
                }
            }
        }
        i = i + 1;
        proof {
            assert forall|k: int| 0 <= k < out@.len() implies #[trigger] out@[k]@ == segments(p@.take(i as int))[k] by {}
        }
    }
    assert(p@.take(p@.len() as int) =~= p@);
    out
}

/// Whether a character sequence is the single character `.`.
fn is_dot(s: &Vec<char>) -> (r: bool)
    ensures
        r == (s@ == seq!['.']),
{
    if s.len() == 1 && s[0] == '.' {
        assert(s@ =~= seq!['.']);
        true
    } else {
        false
    }
}

/// The components of a path (see [`path_components`]).
fn components_of(p: &Vec<char>) -> (r: Vec<Vec<char>>)
    ensures
        r@.len() == path_components(p@).len(),
        forall|i: int| 0 <= i < r@.len() ==> #[trigger] r@[i]@ == path_components(p@)[i],
{
    let segs = split_segments(p);
    let absolute = p.len() > 0 && p[0] == '/';
    let mut out: Vec<Vec<char>> = Vec::new();
    if absolute {
        let mut root = Vec::new();
        root.push('/');
        out.push(root);
    }
    let ghost prefix: Seq<Seq<char>> = if absolute { seq![seq!['/']] } else { Seq::empty() };
    proof {
        assert(out@.len() == prefix.len());
        if absolute {
            assert(out@[0]@ =~= seq!['/']);
        }
    }
    let mut i: usize = 0;
    while i < segs.len()
        invariant
            i <= segs@.len(),
            segs@.len() == segments(p@).len(),
            forall|k: int| 0 <= k < segs@.len() ==> #[trigger] segs@[k]@ == segments(p@)[k],
            absolute == (p@.len() > 0 && p@[0] == '/'),
            prefix == (if absolute { seq![seq!['/']] } else { Seq::<Seq<char>>::empty() }),
            out@.len() == prefix.len() + kept_segments(p@, segments(p@), i as int).len(),
            forall|k: int| 0 <= k < out@.len() ==> #[trigger] out@[k]@ == (prefix + kept_segments(
                p@,
                segments(p@),
                i as int,
            ))[k],
        decreases segs@.len() - i,
    {
        let seg = &segs[i];
        let keep = seg.len() > 0 && (!is_dot(seg) || (i == 0 && !absolute));
        assert(seg@ == segments(p@)[i as int]);
        if keep {
            let mut copy: Vec<char> = Vec::new();
            let mut j: usize = 0;
            while j < seg.len()
                invariant
                    j <= seg@.len(),
                    copy@ == seg@.take(j as int),
                decreases seg@.len() - j,
            {
                copy.push(seg[j]);
                j = j + 1;
                assert(copy@ =~= seg@.take(j as int));
            }
            assert(copy@ =~= seg@);
            out.push(copy);
        }
        i = i + 1;
        proof {
            assert forall|k: int| 0 <= k < out@.len() implies #[trigger] out@[k]@ == (prefix + kept_segments(
                p@,
                segments(p@),
                i as int,
            ))[k] by {}
        }
    }
    proof {
        assert(prefix + kept_segments(p@, segments(p@), segs@.len() as int) =~= path_components(p@));
    }
    out
}

/// Pushes one component onto a path text (see [`path_push`]).
fn push_component(acc: &mut String, comp: &Vec<char>)
    ensures
        final(acc)@ == path_push(old(acc)@, comp@),
{
    let is_root = comp.len() == 1 && comp[0] == '/';
    if is_root {
        assert(comp@ =~= seq!['/']);
        *acc = String::new();
        push_char(acc, '/');
        assert(acc@ =~= seq!['/']);
        return;
    }
    assert(comp@ != seq!['/']) by {
        if comp@ == seq!['/'] {
            assert(comp@.len() == 1 && comp@[0] == '/');
        }
    }
    let ghost before = acc@;
    let len = acc.as_str().unicode_len();
    if len > 0 {
        let last = acc.as_str().get_char(len - 1);
        if last != '/' {
            push_char(acc, '/');
        }
    }
    let ghost mid = acc@;
    let mut j: usize = 0;
    while j < comp.len()
        invariant
            j <= comp@.len(),
            acc@ == mid + comp@.take(j as int),
        decreases comp@.len() - j,
    {
        push_char(acc, comp[j]);
        j = j + 1;
        assert(acc@ =~= mid + comp@.take(j as int));
    }
    assert(comp@.take(comp@.len() as int) =~= comp@);
    assert(acc@ =~= path_push(before, comp@));
}

/// Shortens a path to its last `depth` components (see [`truncated_path`]).
pub fn truncate_path(path: &str, depth: usize) -> (r: String)
    ensures
        r@ == truncated_path(path@, depth as nat),
{
    let chars = crate::text::chars_of(path);
    let comps = components_of(&chars);
    let len = comps.len();
    let ghost all = path_components(path@);
    let (mut out, start) = if len <= depth {
        (String::new(), 0usize)
    } else {
        let mut s = String::new();
        push_char(&mut s, '.');
        push_char(&mut s, '.');
        (s, len - depth)
    };
    let ghost base = out@;
    proof {
        assert(base =~= if len <= depth { Seq::<char>::empty() } else { seq!['.', '.'] });
    }
    let mut i = start;
    while i < len
        invariant
            start <= i <= len,
            len == all.len(),
            comps@.len() == len,
            forall|k: int| 0 <= k < comps@.len() ==> #[trigger] comps@[k]@ == all[k],
            out@ == path_join(base, all.subrange(start as int, i as int)),
        decreases len - i,
    {
        push_component(&mut out, &comps[i]);
        proof {
            assert(all.subrange(start as int, i + 1).drop_last() =~= all.subrange(start as int, i as int));
        }
        i = i + 1;
    }
    proof {
        if len <= depth {
            assert(all.subrange(0, len as int) =~= all);
        }
    }
    out
}

} // verus!
