//! The commit policy of incremental live transcription.
//!
//! A growing window of audio, starting at a committed cursor, is transcribed
//! into segments. Every segment but the last is stable and committed; the last
//! one is committed once enough audio follows its end. When nothing could be
//! committed and the window has grown past its maximum length, the whole
//! window is committed so that the cost of each pass stays bounded.
//!
//! The two time comparisons (whether the trailing segment is followed by
//! enough audio, and whether the window is past its maximum length) are made
//! by the caller on its timestamps; the policy below decides from them.
use vstd::prelude::*;

use crate::text::{push_char, trim, trim_end, trim_start, trim_str, is_white_space};

verus! {

/// The texts of a sequence of segments.
pub open spec fn texts_of(ts: Seq<String>) -> Seq<Seq<char>> {
    ts.map_values(|t: String| t@)
}

/// The segment texts, each trimmed, joined by single spaces.
pub open spec fn join_trimmed(ts: Seq<Seq<char>>) -> Seq<char>
    decreases ts.len(),
{
    if ts.len() == 0 {
        Seq::empty()
    } else if ts.len() == 1 {
        trim(ts[0])
    } else {
        join_trimmed(ts.drop_last()) + seq![' '] + trim(ts.last())
    }
}

/// Each segment text trimmed and followed by one space, all concatenated.
pub open spec fn spaced_trimmed(ts: Seq<Seq<char>>) -> Seq<char>
    decreases ts.len(),
{
    if ts.len() == 0 {
        Seq::empty()
    } else {
        spaced_trimmed(ts.drop_last()) + trim(ts.last()) + seq![' ']
    }
}

/// How many leading segments are stable: all but the last, and the last one
/// too when enough audio follows it.
pub open spec fn stable_count(n: nat, last_stable: bool) -> nat {
    if n == 0 {
        0
    } else if last_stable {
        n
    } else {
        (n - 1) as nat
    }
}

/// The outcome of applying the commit policy to one window's segments.
#[derive(Debug, Clone)]
pub struct CommitPlan {
    /// Newly finalized text (may be empty).
    pub committed_text: String,
    /// Index of the segment whose end the cursor advances to, if anything
    /// was committed.
    pub commit_through: Option<usize>,
    /// Volatile preview of the in-progress tail (empty when text was committed).
    pub pending_text: String,
}

/// The plan that the policy gives for segment texts `ts`.
pub open spec fn commit_plan_spec(
    ts: Seq<Seq<char>>,
    last_stable: bool,
    over_max_window: bool,
    committed: Seq<char>,
    through: Option<usize>,
    pending: Seq<char>,
) -> bool {
    let n = ts.len();
    let k = stable_count(n, last_stable);
    if k > 0 {
        &&& committed == trim(join_trimmed(ts.take(k as int)))
        &&& through == Some((k - 1) as usize)
        &&& pending == Seq::<char>::empty()
    } else if over_max_window {
        &&& committed == trim(join_trimmed(ts))
        &&& through == (if n > 0 {
            Some((n - 1) as usize)
        } else {
            None
        })
        &&& pending == Seq::<char>::empty()
    } else {
        &&& committed == Seq::<char>::empty()
        &&& through == None::<usize>
        &&& pending == join_trimmed(ts)
    }
}

proof fn lemma_trim_start_append(x: Seq<char>, t: Seq<char>)
    ensures
        trim_start(x + t) == (if trim_start(x).len() > 0 {
            trim_start(x) + t
        } else {
            trim_start(t)
        }),
    decreases x.len(),
{
    if x.len() == 0 {
        assert(x + t =~= t);
    } else if is_white_space(x[0]) {
        assert((x + t).drop_first() =~= x.drop_first() + t);
        lemma_trim_start_append(x.drop_first(), t);
    } else {
        assert((x + t)[0] == x[0]);
    }
}

proof fn lemma_trim_empty_of_white(x: Seq<char>)
    requires
        trim_start(x).len() == 0,
    ensures
        trim(x) == Seq::<char>::empty(),
{
}

/// Trailing white space does not change the trimmed text.
proof fn lemma_trim_push_space(x: Seq<char>)
    ensures
        trim(x + seq![' ']) == trim(x),
{
    lemma_trim_start_append(x, seq![' ']);
    assert(is_white_space(' '));
    if trim_start(x).len() > 0 {
        let y = trim_start(x) + seq![' '];
        assert(y.last() == ' ');
        assert(y.drop_last() =~= trim_start(x));
        assert(trim_end(y) == trim_end(trim_start(x)));
    } else {
        let sp = seq![' '];
        assert(sp.drop_first() =~= Seq::<char>::empty());
        assert(sp[0] == ' ');
        assert(trim_start(sp) == trim_start(sp.drop_first()));
        assert(trim_start(x + sp).len() == 0);
        lemma_trim_empty_of_white(x);
        lemma_trim_empty_of_white(x + sp);
    }
}

/// The spaced concatenation is the joined text followed by one space.
proof fn lemma_spaced_is_joined(ts: Seq<Seq<char>>)
    requires
        ts.len() > 0,
    ensures
        spaced_trimmed(ts) == join_trimmed(ts) + seq![' '],
    decreases ts.len(),
{
    if ts.len() == 1 {
        assert(ts.drop_last() =~= Seq::<Seq<char>>::empty());
        assert(spaced_trimmed(ts.drop_last()) =~= Seq::<char>::empty());
        assert(spaced_trimmed(ts) =~= trim(ts[0]) + seq![' ']);
    } else {
        lemma_spaced_is_joined(ts.drop_last());
        assert(spaced_trimmed(ts) =~= join_trimmed(ts) + seq![' ']);
    }
}

/// What the policy commits, by case: with the trailing segment stable,
/// every segment; with at least two segments and the trailing one not
/// stable, every segment but the trailing one, however long the window;
/// only when nothing is stable and the window is past its maximum, every
/// segment; otherwise nothing, with every segment as the preview.
pub proof fn lemma_commit_plan_cases(
    ts: Seq<Seq<char>>,
    last_stable: bool,
    over_max_window: bool,
    committed: Seq<char>,
    through: Option<usize>,
    pending: Seq<char>,
)
    requires
        commit_plan_spec(ts, last_stable, over_max_window, committed, through, pending),
    ensures
        last_stable && ts.len() > 0 ==> through == Some((ts.len() - 1) as usize) && committed
            == trim(join_trimmed(ts)) && pending.len() == 0,
        !last_stable && ts.len() >= 2 ==> through == Some((ts.len() - 2) as usize) && committed
            == trim(join_trimmed(ts.take(ts.len() - 1))) && pending.len() == 0,
        !last_stable && ts.len() == 1 && over_max_window ==> through == Some(0usize) && committed
            == trim(join_trimmed(ts)) && pending.len() == 0,
        (ts.len() == 0 || (!last_stable && ts.len() == 1 && !over_max_window)) ==> through
            == None::<usize> && committed.len() == 0 && pending == join_trimmed(ts),
{
    if last_stable && ts.len() > 0 {
        assert(ts.take(ts.len() as int) =~= ts);
    }
}

/// The texts of the segments, each trimmed, joined by single spaces.
pub fn join_segments(texts: &[String]) -> (r: String)
    ensures
        r@ == join_trimmed(texts_of(texts@)),
{
    let ghost ts = texts_of(texts@);
    let n = texts.len();
    let mut out = String::new();
    let mut i: usize = 0;
    while i < n
        invariant
            n == texts@.len(),
            ts == texts_of(texts@),
            i <= n,
            out@ == join_trimmed(ts.take(i as int)),
        decreases n - i,
    {
        let piece = trim_str(texts[i].as_str());
        if i > 0 {
            push_char(&mut out, ' ');
        }
        out.append(piece.as_str());
        proof {
            let next = ts.take(i + 1);
            assert(next.drop_last() =~= ts.take(i as int));
            assert(next.last() == texts@[i as int]@);
            if i == 0 {
                assert(ts.take(0) =~= Seq::<Seq<char>>::empty());
            }
        }
        i = i + 1;
    }
    assert(ts.take(n as int) =~= ts);
    out
}

/// Applies the live commit policy to one window's segment texts.
///
/// `last_stable` tells whether enough audio follows the end of the last
/// segment; `over_max_window` whether the window is longer than its maximum.
pub fn commit_policy(texts: &[String], last_stable: bool, over_max_window: bool) -> (r: CommitPlan)
    ensures
        commit_plan_spec(
            texts_of(texts@),
            last_stable,
            over_max_window,
            r.committed_text@,
            r.commit_through,
            r.pending_text@,
        ),
        // Either text is committed or there is a preview, never both.
        r.commit_through is Some ==> r.pending_text@.len() == 0,
        // The cursor only ever moves to the end of one of the segments.
        r.commit_through matches Some(j) ==> j < texts@.len(),
        // Every segment but the trailing one is committed.
        texts@.len() >= 2 ==> (r.commit_through matches Some(j) && j + 2 >= texts@.len()),
        // Past the maximum window something is always committed.
        over_max_window && texts@.len() > 0 ==> r.commit_through is Some,
        // When nothing is committed the preview shows every segment.
        r.commit_through is None ==> r.pending_text@ == join_trimmed(texts_of(texts@)),
        // A trailing segment that is not stable stays out of the commit
        // whenever another segment can be committed, whatever the window.
        !last_stable && texts@.len() >= 2 ==> r.commit_through == Some((texts@.len() - 2) as usize)
            && r.committed_text@ == trim(join_trimmed(texts_of(texts@).take(texts@.len() - 1))),
        // A stable trailing segment is committed with all the others.
        last_stable && texts@.len() > 0 ==> r.commit_through == Some((texts@.len() - 1) as usize)
            && r.committed_text@ == trim(join_trimmed(texts_of(texts@))),
{
    let ghost ts = texts_of(texts@);
    let n = texts.len();
    let mut committed = String::new();
    let mut commit_to: Option<usize> = None;
    let mut i: usize = 0;
    while i < n
        invariant_except_break
            n == texts@.len(),
            ts == texts_of(texts@),
            i <= n,
            !last_stable && n > 0 ==> i < n,
            committed@ == spaced_trimmed(ts.take(i as int)),
            commit_to == (if i > 0 {
                Some((i - 1) as usize)
            } else {
                None
            }),
        ensures
            n == texts@.len(),
            ts == texts_of(texts@),
            i == stable_count(n as nat, last_stable),
            committed@ == spaced_trimmed(ts.take(i as int)),
            commit_to == (if i > 0 {
                Some((i - 1) as usize)
            } else {
                None
            }),
        decreases n - i,
    {
        let is_last = i == n - 1;
        let stable = !is_last || last_stable;
        if !stable {
            break;
        }
        let piece = trim_str(texts[i].as_str());
        committed.append(piece.as_str());
        push_char(&mut committed, ' ');
        commit_to = Some(i);
        proof {
            let next = ts.take(i + 1);
            assert(next.drop_last() =~= ts.take(i as int));
            assert(next.last() == texts@[i as int]@);
        }
        i = i + 1;
    }
    if commit_to.is_none() && over_max_window {
        committed = join_segments(texts);
        commit_to = if n > 0 {
            Some(n - 1)
        } else {
            None
        };
    } else if i > 0 {
        proof {
            lemma_spaced_is_joined(ts.take(i as int));
            lemma_trim_push_space(join_trimmed(ts.take(i as int)));
        }
    }
    let pending = if commit_to.is_some() {
        String::new()
    } else {
        join_segments(texts)
    };
    let committed_text = trim_str(committed.as_str());
    proof {
        if i == 0 && !over_max_window {
            assert(ts.take(0) =~= Seq::<Seq<char>>::empty());
        }
        if i == 0 && over_max_window && n == 0 {
            assert(ts =~= Seq::<Seq<char>>::empty());
        }
    }
    proof {
        lemma_commit_plan_cases(
            ts,
            last_stable,
            over_max_window,
            committed_text@,
            commit_to,
            pending@,
        );
    }
    CommitPlan { committed_text, commit_through: commit_to, pending_text: pending }
}

} // verus!
