//! Windows over a series, counted from the newest sample backward.

use vstd::prelude::*;

verus! {

/// The samples of `s` from the newest (the last) to the oldest (the first).
pub open spec fn newest_first<T>(s: Seq<T>) -> Seq<T> {
    Seq::new(s.len(), |i: int| s[s.len() - 1 - i])
}

/// The first `n` items of `s`, or all of `s` where it holds fewer.
pub open spec fn leading<T>(s: Seq<T>, n: nat) -> Seq<T> {
    if n <= s.len() {
        s.subrange(0, n as int)
    } else {
        s
    }
}

/// What is left of `s` behind its first `n` items: nothing where it holds fewer.
pub open spec fn beyond<T>(s: Seq<T>, n: nat) -> Seq<T> {
    if n <= s.len() {
        s.subrange(n as int, s.len() as int)
    } else {
        Seq::empty()
    }
}

/// The window of at most `span` samples that lies behind the `skip` newest
/// samples of `s`, newest first.
pub open spec fn window_of<T>(s: Seq<T>, skip: nat, span: nat) -> Seq<T> {
    leading(beyond(newest_first(s), skip), span)
}

/// How many samples `window_of` finds in a series of `len` samples.
pub open spec fn window_len(len: nat, skip: nat, span: nat) -> nat {
    if len <= skip {
        0
    } else if len - skip <= span {
        (len - skip) as nat
    } else {
        span
    }
}

/// A window holds `window_len` samples, and its `k`-th sample is the one that
/// stands `skip + k` places before the newest.
pub proof fn lemma_window_shape<T>(s: Seq<T>, skip: nat, span: nat)
    ensures
        window_of(s, skip, span).len() == window_len(s.len(), skip, span),
        forall|k: int|
            0 <= k < window_len(s.len(), skip, span) ==> #[trigger] window_of(s, skip, span)[k]
                == s[s.len() - 1 - skip - k],
{
}

/// Collects the window of at most `span` samples behind the `skip` newest
/// samples of `data`, newest first.
pub fn window_back<T: Copy>(data: &[T], skip: usize, span: usize) -> (w: Vec<T>)
    ensures
        w@ == window_of(data@, skip as nat, span as nat),
{
    let len: usize = data.len();
    let mut w: Vec<T> = Vec::new();
    if len <= skip {
        assert(w@ =~= window_of(data@, skip as nat, span as nat));
        return w;
    }
    let reach: usize = len - skip;
    let count: usize = if reach <= span {
        reach
    } else {
        span
    };
    let mut k: usize = 0;
    while k < count
        invariant
            len == data.len(),
            skip < len,
            count <= len - skip,
            k <= count,
            w@.len() == k,
            forall|j: int| 0 <= j < k ==> w@[j] == data@[len - 1 - skip - j],
        decreases count - k,
    {
        w.push(data[len - 1 - skip - k]);
        k += 1;
    }
    proof {
        lemma_window_shape(data@, skip as nat, span as nat);
        assert(w@ =~= window_of(data@, skip as nat, span as nat));
    }
    w
}

} // verus!
