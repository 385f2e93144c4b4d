//! The transform stack: the save/restore state machine of the drawing
//! context.
//!
//! A transform is modeled symbolically, as the sequence of transform steps
//! composed onto it since the identity; the backend performs the matrix
//! arithmetic when the recorded operations are replayed. The stack is never
//! empty: `save` pushes a copy of the top, `restore` pops unless only the
//! base entry remains, and a mutation touches only the top. The lemmas at
//! the end prove the governing laws: the depth never drops below one, and
//! a save, any balanced body, and the matching restore leave the whole
//! stack — the active transform included — exactly as it was.

use vstd::prelude::*;

verus! {

/// One transform step composed onto the active transform. Coordinates are
/// fixed-point scalars; the rotation angle is in fixed-point radians.
#[derive(Clone, Copy, Debug, PartialEq, Eq, Structural)]
pub enum TransformOp {
    Translate { x: i64, y: i64 },
    Rotate { rad: i64 },
    Scale { x: i64, y: i64 },
}

/// The mathematical value of a transform stack: one symbolic transform per
/// entry, bottom first.
pub open spec fn stack_view(s: Seq<Vec<TransformOp>>) -> Seq<Seq<TransformOp>> {
    s.map(|i: int, v: Vec<TransformOp>| v@)
}

/// Copies a transform entry.
pub(crate) fn copy_transform_ops(v: &Vec<TransformOp>) -> (r: Vec<TransformOp>)
    ensures
        r@ == v@,
{
    let mut r: Vec<TransformOp> = Vec::new();
    let mut i: usize = 0;
    while i < v.len()
        invariant
            i <= v.len(),
            r@ == v@.subrange(0, i as int),
        decreases v.len() - i,
    {
        r.push(v[i]);
        proof {
            assert(r@ =~= v@.subrange(0, i + 1 as int));
        }
        i += 1;
    }
    proof {
        assert(r@ =~= v@);
    }
    r
}

/// What a single API call does to the transform stack.
pub enum StackOp {
    /// `save()`: duplicates the top entry.
    Save,
    /// `restore()`: pops, unless only the base entry remains.
    Restore,
    /// `translate`, `rotate` or `scale`: composes a step onto the top.
    Mutate(TransformOp),
}

/// The stack after one operation.
pub open spec fn apply_stack_op(s: Seq<Seq<TransformOp>>, op: StackOp) -> Seq<Seq<TransformOp>> {
    match op {
        StackOp::Save => s.push(s.last()),
        StackOp::Restore => if s.len() > 1 {
            s.drop_last()
        } else {
            s
        },
        StackOp::Mutate(t) => s.update(s.len() - 1, s.last().push(t)),
    }
}

/// The stack after a whole program of operations.
pub open spec fn run_stack(s: Seq<Seq<TransformOp>>, prog: Seq<StackOp>) -> Seq<Seq<TransformOp>>
    decreases prog.len(),
{
    if prog.len() == 0 {
        s
    } else {
        run_stack(apply_stack_op(s, prog.first()), prog.drop_first())
    }
}

/// How many of the first `n` operations are saves.
pub open spec fn saves_in(prog: Seq<StackOp>, n: int) -> int
    decreases n,
{
    if n <= 0 {
        0
    } else {
        saves_in(prog, n - 1) + (if prog[n - 1] is Save {
            1int
        } else {
            0int
        })
    }
}

/// How many of the first `n` operations are restores.
pub open spec fn restores_in(prog: Seq<StackOp>, n: int) -> int
    decreases n,
{
    if n <= 0 {
        0
    } else {
        restores_in(prog, n - 1) + (if prog[n - 1] is Restore {
            1int
        } else {
            0int
        })
    }
}

/// In every prefix of the program, restores outnumber saves by at most `k`.
pub open spec fn slack_ok(prog: Seq<StackOp>, k: int) -> bool {
    forall|n: int| 0 <= n <= prog.len() ==> #[trigger] restores_in(prog, n) <= saves_in(prog, n) + k
}

/// Dropping the first operation shifts the prefix counts by the head's
/// contribution.
proof fn lemma_counts_shift(prog: Seq<StackOp>, n: int)
    requires
        prog.len() >= 1,
        0 <= n <= prog.len() - 1,
    ensures
        saves_in(prog.drop_first(), n) == saves_in(prog, n + 1) - (if prog[0] is Save {
            1int
        } else {
            0int
        }),
        restores_in(prog.drop_first(), n) == restores_in(prog, n + 1) - (if prog[0] is Restore {
            1int
        } else {
            0int
        }),
    decreases n,
{
    if n > 0 {
        lemma_counts_shift(prog, n - 1);
    } else {
        assert(saves_in(prog, 1) == saves_in(prog, 0) + (if prog[0] is Save {
            1int
        } else {
            0int
        }));
        assert(restores_in(prog, 1) == restores_in(prog, 0) + (if prog[0] is Restore {
            1int
        } else {
            0int
        }));
    }
}

/// The depth of the transform stack never drops below one.
pub proof fn lemma_depth_never_below_one(s: Seq<Seq<TransformOp>>, prog: Seq<StackOp>)
    requires
        s.len() >= 1,
    ensures
        run_stack(s, prog).len() >= 1,
    decreases prog.len(),
{
    if prog.len() > 0 {
        lemma_depth_never_below_one(apply_stack_op(s, prog.first()), prog.drop_first());
    }
}

/// Running a program whose prefixes never let restores outnumber saves by
/// more than `k` leaves the length shifted by the save/restore balance and
/// leaves every entry more than `k` below the old top untouched.
pub proof fn lemma_run_preserves_below(s: Seq<Seq<TransformOp>>, prog: Seq<StackOp>, k: int)
    requires
        0 <= k,
        k + 1 <= s.len(),
        slack_ok(prog, k),
    ensures
        run_stack(s, prog).len() == s.len() + saves_in(prog, prog.len() as int) - restores_in(
            prog,
            prog.len() as int,
        ),
        forall|i: int| 0 <= i < s.len() - 1 - k ==> #[trigger] run_stack(s, prog)[i] == s[i],
    decreases prog.len(),
{
    if prog.len() == 0 {
        return ;
    }
    let rest = prog.drop_first();
    assert forall|n: int| 0 <= n <= rest.len() implies #[trigger] restores_in(rest, n) <= saves_in(
        rest,
        n,
    ) + (k + 1) by {
        lemma_counts_shift(prog, n);
        assert(restores_in(prog, n + 1) <= saves_in(prog, n + 1) + k);
    }
    lemma_counts_shift(prog, prog.len() - 1);
    match prog.first() {
        StackOp::Save => {
            let s1 = s.push(s.last());
            lemma_run_preserves_below(s1, rest, k + 1);
        },
        StackOp::Restore => {
            assert(restores_in(prog, 1) <= saves_in(prog, 1) + k);
            assert(prog[0] == prog.first());
            assert(saves_in(prog, 0) == 0 && restores_in(prog, 0) == 0);
            assert(saves_in(prog, 1) == 0 && restores_in(prog, 1) == 1);
            assert(k >= 1);
            let s1 = s.drop_last();
            assert forall|n: int| 0 <= n <= rest.len() implies #[trigger] restores_in(rest, n)
                <= saves_in(rest, n) + (k - 1) by {
                lemma_counts_shift(prog, n);
                assert(restores_in(prog, n + 1) <= saves_in(prog, n + 1) + k);
            }
            lemma_run_preserves_below(s1, rest, k - 1);
        },
        StackOp::Mutate(t) => {
            let s1 = s.update(s.len() - 1, s.last().push(t));
            assert forall|n: int| 0 <= n <= rest.len() implies #[trigger] restores_in(rest, n)
                <= saves_in(rest, n) + k by {
                lemma_counts_shift(prog, n);
                assert(restores_in(prog, n + 1) <= saves_in(prog, n + 1) + k);
            }
            lemma_run_preserves_below(s1, rest, k);
        },
    }
}

/// Pushing an entry pushes its view.
pub proof fn lemma_stack_view_push(s: Seq<Vec<TransformOp>>, v: Vec<TransformOp>)
    ensures
        stack_view(s.push(v)) == stack_view(s).push(v@),
{
    assert(stack_view(s.push(v)) =~= stack_view(s).push(v@));
}

/// Dropping the last entry drops its view.
pub proof fn lemma_stack_view_drop_last(s: Seq<Vec<TransformOp>>)
    requires
        s.len() >= 1,
    ensures
        stack_view(s.drop_last()) == stack_view(s).drop_last(),
{
    assert(stack_view(s.drop_last()) =~= stack_view(s).drop_last());
}

/// Updating an entry updates its view.
pub proof fn lemma_stack_view_update(s: Seq<Vec<TransformOp>>, i: int, v: Vec<TransformOp>)
    requires
        0 <= i < s.len(),
    ensures
        stack_view(s.update(i, v)) == stack_view(s).update(i, v@),
{
    assert(stack_view(s.update(i, v)) =~= stack_view(s).update(i, v@));
}

/// Running a single operation applies it.
pub proof fn lemma_run_one(s: Seq<Seq<TransformOp>>, op: StackOp)
    ensures
        run_stack(s, seq![op]) == apply_stack_op(s, op),
{
    let p = seq![op];
    assert(p.len() == 1);
    assert(p.first() == op);
    assert(p.drop_first() =~= Seq::<StackOp>::empty());
    assert(run_stack(apply_stack_op(s, op), p.drop_first()) == apply_stack_op(s, op));
}

/// Running the concatenation of two programs runs them in turn.
pub proof fn lemma_run_append(s: Seq<Seq<TransformOp>>, a: Seq<StackOp>, b: Seq<StackOp>)
    ensures
        run_stack(s, a + b) == run_stack(run_stack(s, a), b),
    decreases a.len(),
{
    if a.len() == 0 {
        assert(a + b =~= b);
    } else {
        assert((a + b).first() == a.first());
        assert((a + b).drop_first() =~= a.drop_first() + b);
        lemma_run_append(apply_stack_op(s, a.first()), a.drop_first(), b);
    }
}

/// A save, any body whose own saves and restores are balanced and whose
/// prefixes never restore more than they saved, and the matching restore
/// return the stack — the active transform included — exactly to its value
/// before the save. In particular, interleaving saves with matching
/// restores restores the transform to each pre-save value, however the
/// transform was mutated in between.
pub proof fn lemma_save_body_restore(s: Seq<Seq<TransformOp>>, body: Seq<StackOp>)
    requires
        s.len() >= 1,
        slack_ok(body, 0),
        saves_in(body, body.len() as int) == restores_in(body, body.len() as int),
    ensures
        run_stack(s, seq![StackOp::Save] + body + seq![StackOp::Restore]) == s,
{
    let prog = seq![StackOp::Save] + body + seq![StackOp::Restore];
    let s1 = s.push(s.last());
    lemma_run_append(s, seq![StackOp::Save] + body, seq![StackOp::Restore]);
    lemma_run_append(s, seq![StackOp::Save], body);
    assert((seq![StackOp::Save] + body + seq![StackOp::Restore]) =~= (seq![StackOp::Save] + body)
        + seq![StackOp::Restore]);
    lemma_run_one(s, StackOp::Save);
    let s2 = run_stack(s1, body);
    lemma_run_preserves_below(s1, body, 0);
    assert(s2.len() == s1.len());
    assert(forall|i: int| 0 <= i < s.len() ==> #[trigger] s2[i] == s1[i]);
    let s3 = run_stack(s2, seq![StackOp::Restore]);
    lemma_run_one(s2, StackOp::Restore);
    assert(s2.len() == s.len() + 1);
    assert(s3 =~= s);
}

} // verus!
