use vstd::prelude::*;

verus! {

/// A coordinate axis about which an elemental rotation turns.
#[derive(Clone, Copy, Debug, PartialEq, Eq, Structural)]
pub enum Axis {
    X,
    Y,
    Z,
}

/// The Earth-orientation quantity that gives an angle its magnitude.
#[derive(Clone, Copy, Debug, PartialEq, Eq, Structural)]
pub enum AngleSource {
    /// Polar motion along the x axis (`xp`).
    PolarX,
    /// Polar motion along the y axis (`yp`).
    PolarY,
    /// Greenwich mean sidereal time (1982 model) at the epoch.
    SiderealTime,
}

/// An angle: the value of `source`, negated when `negated` holds.
#[derive(Clone, Copy, Debug, PartialEq, Eq, Structural)]
pub struct Angle {
    pub source: AngleSource,
    pub negated: bool,
}

/// An elemental rotation about `axis` by `angle`.
#[derive(Clone, Copy, Debug, PartialEq, Eq, Structural)]
pub struct Rotation {
    pub axis: Axis,
    pub angle: Angle,
}

/// The transpose of an elemental rotation: the same axis, the angle negated.
pub open spec fn transpose_of(r: Rotation) -> Rotation {
    Rotation { axis: r.axis, angle: Angle { source: r.angle.source, negated: !r.angle.negated } }
}

/// The transpose of the product that a chain stands for: the chain reversed,
/// each rotation transposed.
pub open spec fn transpose_chain(s: Seq<Rotation>) -> Seq<Rotation> {
    Seq::new(s.len(), |i: int| transpose_of(s[s.len() - 1 - i]))
}

/// No two neighbours of the chain cancel each other.
pub open spec fn is_reduced(s: Seq<Rotation>) -> bool {
    forall|i: int| 0 <= i < s.len() - 1 ==> #[trigger] s[i + 1] != transpose_of(s[i])
}

/// Multiplies a reduced chain on the right by `r`: a last rotation that `r`
/// undoes is removed, else `r` is appended.
pub open spec fn push_reduced(stack: Seq<Rotation>, r: Rotation) -> Seq<Rotation> {
    if stack.len() > 0 && stack.last() == transpose_of(r) {
        stack.drop_last()
    } else {
        stack.push(r)
    }
}

/// Multiplies `stack` on the right by each rotation of `s` in turn.
pub open spec fn push_all(stack: Seq<Rotation>, s: Seq<Rotation>) -> Seq<Rotation>
    decreases s.len(),
{
    if s.len() == 0 {
        stack
    } else {
        push_reduced(push_all(stack, s.drop_last()), s.last())
    }
}

/// The chain `s` with every pair of neighbours that cancel removed.
pub open spec fn reduce(s: Seq<Rotation>) -> Seq<Rotation> {
    push_all(Seq::empty(), s)
}

proof fn lemma_transpose_involutive(r: Rotation)
    ensures
        transpose_of(transpose_of(r)) == r,
{
}

proof fn lemma_push_reduced_keeps_reduced(stack: Seq<Rotation>, r: Rotation)
    requires
        is_reduced(stack),
    ensures
        is_reduced(push_reduced(stack, r)),
{
    let t = push_reduced(stack, r);
    if stack.len() > 0 && stack.last() == transpose_of(r) {
        assert forall|i: int| 0 <= i < t.len() - 1 implies #[trigger] t[i + 1] != transpose_of(t[i]) by {
            assert(t[i] == stack[i] && t[i + 1] == stack[i + 1]);
        }
    } else {
        assert forall|i: int| 0 <= i < t.len() - 1 implies #[trigger] t[i + 1] != transpose_of(t[i]) by {
            if i + 1 == stack.len() {
                lemma_transpose_involutive(r);
            } else {
                assert(t[i] == stack[i] && t[i + 1] == stack[i + 1]);
            }
        }
    }
}

proof fn lemma_push_all_keeps_reduced(stack: Seq<Rotation>, s: Seq<Rotation>)
    requires
        is_reduced(stack),
    ensures
        is_reduced(push_all(stack, s)),
    decreases s.len(),
{
    if s.len() > 0 {
        lemma_push_all_keeps_reduced(stack, s.drop_last());
        lemma_push_reduced_keeps_reduced(push_all(stack, s.drop_last()), s.last());
    }
}

proof fn lemma_push_all_append(stack: Seq<Rotation>, a: Seq<Rotation>, b: Seq<Rotation>)
    ensures
        push_all(stack, a + b) == push_all(push_all(stack, a), b),
    decreases b.len(),
{
    if b.len() == 0 {
        assert(a + b =~= a);
    } else {
        assert((a + b).drop_last() =~= a + b.drop_last());
        lemma_push_all_append(stack, a, b.drop_last());
    }
}

/// On a reduced chain, a rotation followed by its transpose leaves the chain as it was.
proof fn lemma_push_then_undo(stack: Seq<Rotation>, r: Rotation)
    requires
        is_reduced(stack),
    ensures
        push_reduced(push_reduced(stack, r), transpose_of(r)) == stack,
{
    lemma_transpose_involutive(r);
    if stack.len() > 0 && stack.last() == transpose_of(r) {
        let t = stack.drop_last();
        if t.len() > 0 {
            assert(stack[t.len() - 1 + 1] != transpose_of(stack[t.len() - 1]));
        }
        assert(t.push(transpose_of(r)) =~= stack);
    } else {
        assert(stack.push(r).drop_last() =~= stack);
    }
}

proof fn lemma_push_chain_then_transpose(stack: Seq<Rotation>, s: Seq<Rotation>)
    requires
        is_reduced(stack),
    ensures
        push_all(stack, s + transpose_chain(s)) == stack,
    decreases s.len(),
{
    if s.len() > 0 {
        let x = s[0];
        let rest = s.drop_first();
        let first = seq![x];
        let middle = rest + transpose_chain(rest);
        let last = seq![transpose_of(x)];
        assert(s + transpose_chain(s) =~= first + middle + last);
        lemma_push_all_append(stack, first + middle, last);
        lemma_push_all_append(stack, first, middle);
        assert(first.drop_last() =~= Seq::<Rotation>::empty());
        assert(push_all(stack, first.drop_last()) == stack);
        assert(push_all(stack, first) == push_reduced(stack, x));
        lemma_push_reduced_keeps_reduced(stack, x);
        lemma_push_chain_then_transpose(push_reduced(stack, x), rest);
        assert(last.drop_last() =~= Seq::<Rotation>::empty());
        let pushed = push_reduced(stack, x);
        assert(push_all(pushed, last.drop_last()) == pushed);
        assert(push_all(stack, first + middle) == pushed);
        assert(push_all(pushed, last) == push_reduced(pushed, transpose_of(x)));
        lemma_push_then_undo(stack, x);
    } else {
        assert(s + transpose_chain(s) =~= s);
    }
}

/// Transposing a chain twice gives the chain back.
pub proof fn lemma_transpose_chain_involutive(s: Seq<Rotation>)
    ensures
        transpose_chain(transpose_chain(s)) == s,
{
    assert(transpose_chain(transpose_chain(s)) =~= s);
}

/// An elemental rotation times its transpose is the identity, in either
/// order: the transpose of a one-rotation chain is that rotation with its
/// angle negated, and the two cancel to the empty chain.
pub proof fn lemma_elemental_orthonormal(r: Rotation)
    ensures
        transpose_chain(seq![r]) == seq![transpose_of(r)],
        reduce(seq![r, transpose_of(r)]) == Seq::<Rotation>::empty(),
        reduce(seq![transpose_of(r), r]) == Seq::<Rotation>::empty(),
{
    assert(transpose_chain(seq![r]) =~= seq![transpose_of(r)]);
    lemma_round_trip(seq![r]);
    assert(seq![r] + seq![transpose_of(r)] =~= seq![r, transpose_of(r)]);
    assert(seq![transpose_of(r)] + seq![r] =~= seq![transpose_of(r), r]);
}

/// Round trip: a chain followed by its transpose, or its transpose followed
/// by it, reduces to the empty chain (the identity).
pub proof fn lemma_round_trip(s: Seq<Rotation>)
    ensures
        reduce(s + transpose_chain(s)) == Seq::<Rotation>::empty(),
        reduce(transpose_chain(s) + s) == Seq::<Rotation>::empty(),
{
    lemma_push_chain_then_transpose(Seq::empty(), s);
    lemma_push_chain_then_transpose(Seq::empty(), transpose_chain(s));
    lemma_transpose_chain_involutive(s);
}

impl Rotation {
    /// The transpose of this rotation: the same axis, the angle negated.
    pub fn transpose(&self) -> (r: Rotation)
        ensures
            r == transpose_of(*self),
    {
        Rotation {
            axis: self.axis,
            angle: Angle { source: self.angle.source, negated: !self.angle.negated },
        }
    }
}

/// The transpose of the product that `chain` stands for.
pub fn transposed(chain: &Vec<Rotation>) -> (r: Vec<Rotation>)
    ensures
        r@ == transpose_chain(chain@),
{
    let n = chain.len();
    let mut out: Vec<Rotation> = Vec::with_capacity(n);
    let mut i: usize = 0;
    while i < n
        invariant
            n == chain@.len(),
            i <= n,
            out@.len() == i,
            forall|j: int| 0 <= j < i ==> #[trigger] out@[j] == transpose_of(chain@[n - 1 - j]),
        decreases n - i,
    {
        out.push(chain[n - 1 - i].transpose());
        i = i + 1;
    }
    assert(out@ =~= transpose_chain(chain@));
    out
}

/// Multiplies the reduced chain `stack` on the right by each rotation of `s`.
fn push_all_into(stack: &mut Vec<Rotation>, s: &Vec<Rotation>)
    ensures
        final(stack)@ == push_all(old(stack)@, s@),
{
    let ghost start = stack@;
    let mut i: usize = 0;
    while i < s.len()
        invariant
            i <= s@.len(),
            stack@ == push_all(start, s@.take(i as int)),
        decreases s@.len() - i,
    {
        let r = s[i];
        assert(s@.take(i as int + 1).drop_last() =~= s@.take(i as int));
        let n = stack.len();
        if n > 0 && stack[n - 1] == r.transpose() {
            stack.pop();
        } else {
            stack.push(r);
        }
        i = i + 1;
    }
    assert(s@.take(s@.len() as int) =~= s@);
}

/// The product `outer · inner`, as a chain from which every pair of
/// neighbours that cancel has been removed.
pub fn compose(outer: &Vec<Rotation>, inner: &Vec<Rotation>) -> (r: Vec<Rotation>)
    ensures
        r@ == reduce(outer@ + inner@),
        is_reduced(r@),
{
    let mut stack: Vec<Rotation> = Vec::new();
    push_all_into(&mut stack, outer);
    push_all_into(&mut stack, inner);
    proof {
        lemma_push_all_append(Seq::empty(), outer@, inner@);
        lemma_push_all_keeps_reduced(Seq::empty(), outer@ + inner@);
    }
    stack
}

} // verus!
