//! A mathematical model of the engine's circular buffers.
//!
//! Both the per-channel sample window and the detector's energy history are a
//! fixed-capacity sequence plus a write cursor: each write lands at the
//! cursor and the cursor advances by one, wrapping to the front after the
//! last slot (that is, it advances modulo the capacity). The lemmas here pin
//! down what a run of consecutive writes leaves in such a buffer.

use vstd::prelude::*;

verus! {

/// One circular write: `v` lands at the cursor, the cursor advances modulo
/// the capacity. The result is the pair (new contents, new cursor).
pub open spec fn insert_model<T>(buf: Seq<T>, pos: int, v: T) -> (Seq<T>, int) {
    (buf.update(pos, v), if pos + 1 == buf.len() { 0int } else { pos + 1 })
}

/// A run of circular writes, oldest first.
pub open spec fn inserts_model<T>(buf: Seq<T>, pos: int, vals: Seq<T>) -> (Seq<T>, int)
    decreases vals.len(),
{
    if vals.len() == 0 {
        (buf, pos)
    } else {
        let stepped = insert_model(buf, pos, vals[0]);
        inserts_model(stepped.0, stepped.1, vals.subrange(1, vals.len() as int))
    }
}

/// As long as a run of writes does not wrap around, it overwrites exactly the
/// segment starting at the cursor and leaves every other slot alone.
pub proof fn lemma_inserts_segment<T>(buf: Seq<T>, pos: int, vals: Seq<T>)
    requires
        buf.len() >= 1,
        0 <= pos < buf.len(),
        pos + vals.len() <= buf.len(),
    ensures
        ({
            let m = inserts_model(buf, pos, vals);
            &&& m.0.len() == buf.len()
            &&& forall|j: int|
                0 <= j < buf.len() ==> #[trigger] m.0[j] == (if pos <= j < pos + vals.len() {
                    vals[j - pos]
                } else {
                    buf[j]
                })
            &&& m.1 == (if pos + vals.len() == buf.len() {
                0int
            } else {
                pos + vals.len()
            })
        }),
    decreases vals.len(),
{
    if vals.len() == 0 {
        assert(inserts_model(buf, pos, vals) == (buf, pos));
    } else {
        let stepped = insert_model(buf, pos, vals[0]);
        let rest = vals.subrange(1, vals.len() as int);
        assert(inserts_model(buf, pos, vals) == inserts_model(stepped.0, stepped.1, rest));
        if pos + 1 == buf.len() {
            // The run fits before the wrap, so this was its only write.
            assert(vals.len() == 1);
            assert(rest.len() == 0);
            assert(inserts_model(stepped.0, stepped.1, rest) == (stepped.0, stepped.1));
        } else {
            lemma_inserts_segment(stepped.0, pos + 1, rest);
        }
    }
}

/// A run of exactly `buf.len()` writes starting at cursor zero replaces the
/// whole contents with the written values, in order, and returns the cursor
/// to zero.
pub proof fn lemma_fill_from_start<T>(buf: Seq<T>, vals: Seq<T>)
    requires
        buf.len() >= 1,
        vals.len() == buf.len(),
    ensures
        inserts_model(buf, 0, vals).0 == vals,
        inserts_model(buf, 0, vals).1 == 0,
{
    lemma_inserts_segment(buf, 0, vals);
    assert(inserts_model(buf, 0, vals).0 =~= vals);
}

/// Writing `a` followed by `b` is the same as writing `a + b` in one run.
pub proof fn lemma_inserts_append<T>(buf: Seq<T>, pos: int, a: Seq<T>, b: Seq<T>)
    ensures
        ({
            let first = inserts_model(buf, pos, a);
            inserts_model(buf, pos, a + b) == inserts_model(first.0, first.1, b)
        }),
    decreases a.len(),
{
    if a.len() == 0 {
        assert(a + b =~= b);
    } else {
        let stepped = insert_model(buf, pos, a[0]);
        assert((a + b)[0] == a[0]);
        assert((a + b).subrange(1, (a + b).len() as int) =~= a.subrange(
            1,
            a.len() as int,
        ) + b);
        lemma_inserts_append(stepped.0, stepped.1, a.subrange(1, a.len() as int), b);
    }
}

} // verus!
