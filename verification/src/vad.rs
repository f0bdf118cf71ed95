//! Windowing of voice-activity detection: the PCM of a chunk is cut into
//! fixed windows, each zero-padded and preceded by the trailing context of
//! the previous window. Generic over the sample type.

use vstd::prelude::*;

verus! {

/// The windows `(start, length)` covering `[pos, len)` in steps of `win`;
/// the last one may be short.
pub open spec fn windows_from(pos: nat, len: nat, win: nat) -> Seq<(nat, nat)>
    decreases len - pos,
{
    if pos >= len || win == 0 {
        seq![]
    } else if len - pos <= win {
        seq![(pos, (len - pos) as nat)]
    } else {
        seq![(pos, win)] + windows_from(pos + win, len, win)
    }
}

/// The windows of a chunk of `len` samples.
pub fn vad_windows(len: usize, win: usize) -> (r: Vec<(usize, usize)>)
    requires
        win > 0,
    ensures
        r@.len() == windows_from(0, len as nat, win as nat).len(),
        forall|k: int| 0 <= k < r@.len() ==> (#[trigger] r@[k]).0 as nat == windows_from(0, len as nat, win as nat)[k].0
            && r@[k].1 as nat == windows_from(0, len as nat, win as nat)[k].1,
{
    let mut out: Vec<(usize, usize)> = Vec::new();
    let mut pos: usize = 0;
    while pos < len
        invariant
            pos <= len,
            win > 0,
            out@.len() + windows_from(pos as nat, len as nat, win as nat).len() == windows_from(0, len as nat, win as nat).len(),
            forall|k: int| 0 <= k < out@.len() ==> (#[trigger] out@[k]).0 as nat == windows_from(0, len as nat, win as nat)[k].0
                && out@[k].1 as nat == windows_from(0, len as nat, win as nat)[k].1,
            forall|k: int| 0 <= k < windows_from(pos as nat, len as nat, win as nat).len() ==>
                windows_from(0, len as nat, win as nat)[out@.len() + k] == #[trigger] windows_from(pos as nat, len as nat, win as nat)[k],
        decreases len - pos,
    {
        let take = if len - pos < win { len - pos } else { win };
        let ghost rest = windows_from(pos as nat, len as nat, win as nat);
        assert(rest[0] == (pos as nat, take as nat));
        out.push((pos, take));
        if take < win || len - pos == win {
            assert(rest.len() == 1);
            assert(windows_from(len as nat, len as nat, win as nat).len() == 0);
            pos = len;
        } else {
        proof {
            let next = windows_from((pos + win) as nat, len as nat, win as nat);
            assert(rest == seq![(pos as nat, win as nat)] + next);
            assert forall|k: int| 0 <= k < next.len() implies
                windows_from(0, len as nat, win as nat)[out@.len() + k] == #[trigger] next[k] by {
                assert(rest[k + 1] == next[k]);
            }
        }
        pos = pos + win;
        }
    }
    out
}

/// The windows tile the chunk: they start at 0, each follows the previous
/// one, none is empty or longer than `win`, and the last ends at `len`.
pub proof fn lemma_windows_tile(pos: nat, len: nat, win: nat)
    requires
        win > 0,
        pos < len,
    ensures
        windows_from(pos, len, win).len() > 0,
        windows_from(pos, len, win)[0].0 == pos,
        forall|k: int| 0 <= k < windows_from(pos, len, win).len() ==>
            1 <= (#[trigger] windows_from(pos, len, win)[k]).1 <= win,
        forall|k: int| 0 <= k < windows_from(pos, len, win).len() - 1 ==>
            (#[trigger] windows_from(pos, len, win)[k]).0 + windows_from(pos, len, win)[k].1
                == windows_from(pos, len, win)[k + 1].0,
        ({
            let w = windows_from(pos, len, win);
            w.last().0 + w.last().1 == len
        }),
    decreases len - pos,
{
    if len - pos > win {
        lemma_windows_tile(pos + win, len, win);
        let next = windows_from(pos + win, len, win);
        let w = windows_from(pos, len, win);
        assert(w == seq![(pos, win)] + next);
        assert forall|k: int| 0 <= k < w.len() implies 1 <= (#[trigger] w[k]).1 <= win by {
            if k > 0 {
                assert(w[k] == next[k - 1]);
            }
        }
        assert forall|k: int| 0 <= k < w.len() - 1 implies (#[trigger] w[k]).0 + w[k].1 == w[k + 1].0 by {
            if k > 0 {
                assert(w[k] == next[k - 1]);
                assert(w[k + 1] == next[k]);
            } else {
                assert(w[1] == next[0]);
            }
        }
        assert(w.last() == next.last());
    }
}

/// A window of exactly `win` samples: `pcm[start..start + take]` followed by
/// `silence`.
pub fn padded_window<S: Copy>(pcm: &[S], start: usize, take: usize, win: usize, silence: S) -> (r: Vec<S>)
    requires
        take <= win,
        start + take <= pcm@.len(),
    ensures
        r@.len() == win,
        r@.take(take as int) == pcm@.subrange(start as int, start + take),
        forall|k: int| take <= k < win ==> r@[k] == silence,
{
    let mut out: Vec<S> = Vec::new();
    let mut i: usize = 0;
    while i < win
        invariant
            0 <= i <= win,
            take <= win,
            start + take <= pcm@.len(),
            out@.len() == i,
            forall|k: int| 0 <= k < i && k < take ==> out@[k] == pcm@[start + k],
            forall|k: int| take <= k < i ==> out@[k] == silence,
        decreases win - i,
    {
        if i < take {
            assert(start + i < pcm.len());
            out.push(pcm[start + i]);
        } else {
            out.push(silence);
        }
        i += 1;
    }
    assert(out@.take(take as int) =~= pcm@.subrange(start as int, start + take));
    out
}

/// The model input of a window: the context followed by the window.
pub fn window_input<S: Copy>(context: &[S], window: &[S]) -> (r: Vec<S>)
    ensures
        r@ == context@ + window@,
{
    let mut out: Vec<S> = Vec::new();
    let mut i: usize = 0;
    while i < context.len()
        invariant
            0 <= i <= context.len(),
            out@ == context@.take(i as int),
        decreases context.len() - i,
    {
        out.push(context[i]);
        i += 1;
        assert(out@ =~= context@.take(i as int));
    }
    let mut j: usize = 0;
    while j < window.len()
        invariant
            0 <= j <= window.len(),
            out@ == context@ + window@.take(j as int),
        decreases window.len() - j,
    {
        out.push(window[j]);
        j += 1;
        assert(out@ =~= context@ + window@.take(j as int));
    }
    assert(context@.take(context.len() as int) =~= context@);
    assert(window@.take(window.len() as int) =~= window@);
    out
}

/// The context carried to the next window: the last `ctx_n` samples of the
/// model input, or the old context when the input is shorter.
pub fn next_context<S: Copy>(context: Vec<S>, input: &[S], ctx_n: usize) -> (r: Vec<S>)
    ensures
        input@.len() >= ctx_n ==> r@ == input@.subrange(input@.len() - ctx_n, input@.len() as int),
        input@.len() < ctx_n ==> r@ == context@,
{
    if input.len() >= ctx_n {
        let mut out: Vec<S> = Vec::new();
        let start = input.len() - ctx_n;
        let mut i = start;
        while i < input.len()
            invariant
                start <= i <= input.len(),
                start == input@.len() - ctx_n,
                out@ == input@.subrange(start as int, i as int),
            decreases input.len() - i,
        {
            out.push(input[i]);
            i += 1;
            assert(out@ =~= input@.subrange(start as int, i as int));
        }
        out
    } else {
        context
    }
}

} // verus!
