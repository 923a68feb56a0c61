use vstd::prelude::*;

use crate::rotation::{compose, reduce, Angle, AngleSource, Axis, Rotation};

verus! {

/// The elemental rotation about `axis` by the value of `source`, negated when `negated` holds.
pub open spec fn rot(axis: Axis, source: AngleSource, negated: bool) -> Rotation {
    Rotation { axis, angle: Angle { source, negated } }
}

/// The polar-motion matrix of the direct path: `W = Rx(-xp) · Ry(-yp)`.
pub open spec fn polar_motion_chain() -> Seq<Rotation> {
    seq![rot(Axis::X, AngleSource::PolarX, true), rot(Axis::Y, AngleSource::PolarY, true)]
}

/// The Earth-rotation matrix of the direct path: `R3 = Rz(-gmst)`.
pub open spec fn earth_rotation_chain() -> Seq<Rotation> {
    seq![rot(Axis::Z, AngleSource::SiderealTime, true)]
}

/// The direct TEME to ITRS transform: `W · R3`.
pub open spec fn teme_to_itrs_chain() -> Seq<Rotation> {
    seq![
        rot(Axis::X, AngleSource::PolarX, true),
        rot(Axis::Y, AngleSource::PolarY, true),
        rot(Axis::Z, AngleSource::SiderealTime, true),
    ]
}

/// The polar-motion matrix of the CIO method with the TIO locator `s'` fixed
/// at zero, so that its rotation about Z is the identity: `Rx(-yp) · Ry(-xp)`.
pub open spec fn polar_motion_matrix_chain() -> Seq<Rotation> {
    seq![rot(Axis::X, AngleSource::PolarY, true), rot(Axis::Y, AngleSource::PolarX, true)]
}

/// The CIO-method transform, with the celestial-to-intermediate matrix held
/// at the identity and the Earth rotation taken with the direct transform's
/// sign: `POM · Rz(-gmst)`.
pub open spec fn teme_to_itrs_matrix_chain() -> Seq<Rotation> {
    seq![
        rot(Axis::X, AngleSource::PolarY, true),
        rot(Axis::Y, AngleSource::PolarX, true),
        rot(Axis::Z, AngleSource::SiderealTime, true),
    ]
}

/// The chain `s` without the rotations whose angle comes from a source in `zero`.
pub open spec fn drop_sources(s: Seq<Rotation>, zero: Seq<AngleSource>) -> Seq<Rotation>
    decreases s.len(),
{
    if s.len() == 0 {
        s
    } else if zero.contains(s.last().angle.source) {
        drop_sources(s.drop_last(), zero)
    } else {
        drop_sources(s.drop_last(), zero).push(s.last())
    }
}

/// The polar-motion matrix `W = Rx(-xp) · Ry(-yp)` of the direct transform.
pub fn polar_motion() -> (r: Vec<Rotation>)
    ensures
        r@ == polar_motion_chain(),
{
    let r = vec![
        Rotation { axis: Axis::X, angle: Angle { source: AngleSource::PolarX, negated: true } },
        Rotation { axis: Axis::Y, angle: Angle { source: AngleSource::PolarY, negated: true } },
    ];
    assert(r@ =~= polar_motion_chain());
    r
}

/// The Earth-rotation matrix `R3 = Rz(-gmst)` of the direct transform.
pub fn earth_rotation() -> (r: Vec<Rotation>)
    ensures
        r@ == earth_rotation_chain(),
{
    let r = vec![
        Rotation {
            axis: Axis::Z,
            angle: Angle { source: AngleSource::SiderealTime, negated: true },
        },
    ];
    assert(r@ =~= earth_rotation_chain());
    r
}

/// The direct TEME to ITRS transform `W · R3`: applied to a TEME position it
/// gives the ITRS position.
pub fn teme_to_itrs_rotations() -> (r: Vec<Rotation>)
    ensures
        r@ == teme_to_itrs_chain(),
{
    let w = polar_motion();
    let r3 = earth_rotation();
    let r = compose(&w, &r3);
    proof {
        let s = w@ + r3@;
        assert(s =~= teme_to_itrs_chain());
        reveal_with_fuel(crate::rotation::push_all, 4);
        assert(s.drop_last().drop_last().drop_last() =~= Seq::<Rotation>::empty());
        assert(reduce(s) =~= s);
    }
    r
}

/// The polar-motion matrix of the CIO method with `s'` fixed at zero,
/// `Rx(-yp) · Ry(-xp)`.
pub fn polar_motion_matrix() -> (r: Vec<Rotation>)
    ensures
        r@ == polar_motion_matrix_chain(),
{
    let r = vec![
        Rotation { axis: Axis::X, angle: Angle { source: AngleSource::PolarY, negated: true } },
        Rotation { axis: Axis::Y, angle: Angle { source: AngleSource::PolarX, negated: true } },
    ];
    assert(r@ =~= polar_motion_matrix_chain());
    r
}

/// The CIO-method TEME to ITRS matrix `POM · Rz(-gmst) · C2I`, with the
/// celestial-to-intermediate matrix `C2I` held at the identity (the empty
/// chain) and the sidereal time standing for the Earth rotation angle, taken
/// with the same sign as in the direct transform.
pub fn teme_to_itrs_matrix_rotations() -> (r: Vec<Rotation>)
    ensures
        r@ == teme_to_itrs_matrix_chain(),
{
    let pom = polar_motion_matrix();
    let era = vec![
        Rotation {
            axis: Axis::Z,
            angle: Angle { source: AngleSource::SiderealTime, negated: true },
        },
    ];
    let c2i: Vec<Rotation> = Vec::new();
    let c2t = compose(&pom, &era);
    let r = compose(&c2t, &c2i);
    proof {
        let s = pom@ + era@;
        assert(s =~= teme_to_itrs_matrix_chain());
        reveal_with_fuel(crate::rotation::push_all, 4);
        assert(s.drop_last().drop_last().drop_last() =~= Seq::<Rotation>::empty());
        assert(reduce(s) =~= s);
        let t = c2t@ + c2i@;
        assert(t =~= s);
        assert(reduce(t) =~= s);
    }
    r
}

/// The rotations of `chain` whose angle does not come from a source in
/// `zero`: where those sources are zero, a rotation by them is the identity.
pub fn without_sources(chain: &Vec<Rotation>, zero: &Vec<AngleSource>) -> (r: Vec<Rotation>)
    ensures
        r@ == drop_sources(chain@, zero@),
{
    let mut out: Vec<Rotation> = Vec::new();
    let mut i: usize = 0;
    while i < chain.len()
        invariant
            i <= chain@.len(),
            out@ == drop_sources(chain@.take(i as int), zero@),
        decreases chain@.len() - i,
    {
        let r = chain[i];
        assert(chain@.take(i as int + 1).drop_last() =~= chain@.take(i as int));
        let mut found = false;
        let mut j: usize = 0;
        while j < zero.len()
            invariant
                j <= zero@.len(),
                found == (exists|k: int| 0 <= k < j && zero@[k] == r.angle.source),
            decreases zero@.len() - j,
        {
            if zero[j] == r.angle.source {
                found = true;
            }
            j = j + 1;
        }
        if !found {
            out.push(r);
        }
        i = i + 1;
    }
    assert(chain@.take(chain@.len() as int) =~= chain@);
    out
}

/// With polar motion at zero, the direct transform and the CIO-method
/// matrix are the same chain: a single rotation about Z by the negated
/// sidereal time.
pub proof fn lemma_zero_polar_motion_paths()
    ensures
        ({
            let zero = seq![AngleSource::PolarX, AngleSource::PolarY];
            &&& drop_sources(teme_to_itrs_chain(), zero) == seq![
                rot(Axis::Z, AngleSource::SiderealTime, true),
            ]
            &&& drop_sources(teme_to_itrs_matrix_chain(), zero) == drop_sources(
                teme_to_itrs_chain(),
                zero,
            )
        }),
{
    let zero = seq![AngleSource::PolarX, AngleSource::PolarY];
    assert(zero[0] == AngleSource::PolarX && zero[1] == AngleSource::PolarY);
    assert(!zero.contains(AngleSource::SiderealTime));
    let d = teme_to_itrs_chain();
    let m = teme_to_itrs_matrix_chain();
    reveal_with_fuel(drop_sources, 4);
    assert(d.drop_last().drop_last().drop_last() =~= Seq::<Rotation>::empty());
    assert(m.drop_last().drop_last().drop_last() =~= Seq::<Rotation>::empty());
    assert(drop_sources(d, zero) =~= seq![rot(Axis::Z, AngleSource::SiderealTime, true)]);
    assert(drop_sources(m, zero) =~= seq![rot(Axis::Z, AngleSource::SiderealTime, true)]);
}

} // verus!
