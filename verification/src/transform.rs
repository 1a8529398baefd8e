//! World transforms, the listener frame, and listener-relative positions.
//!
//! A transform is carried as the 16 column-major entries of a world matrix,
//! each the bit pattern of a 32-bit floating-point number.  The one piece
//! of floating-point work — mapping an entity's world matrix into the
//! listener's local frame and reading off the translation — is delegated
//! to the external matrix library behind a trusted wrapper.

use vstd::prelude::*;

verus! {

/// Bit pattern of the floating-point number one.
pub const FLOAT_ONE_BITS: u32 = 0x3F80_0000;

/// A three-component vector, each component the bit pattern of a 32-bit
/// floating-point number.
#[derive(Clone, Copy, PartialEq, Eq, Structural, Debug)]
pub struct Vec3Bits {
    pub x: u32,
    pub y: u32,
    pub z: u32,
}

impl Vec3Bits {
    /// The components in order.
    pub open spec fn as_seq(self) -> Seq<u32> {
        seq![self.x, self.y, self.z]
    }
}

/// A world-space velocity attached to an entity, passed through to the
/// voice unchanged (it is not re-expressed in the listener frame).
#[derive(Clone, Copy, PartialEq, Eq, Structural, Debug)]
pub struct Velocity(pub Vec3Bits);

/// An entity's world transform: the 16 column-major entries of its world
/// matrix as floating-point bit patterns.
#[derive(Clone, Copy)]
pub struct WorldTransform {
    pub cols: [u32; 16],
}

/// The column-major entries of the identity matrix.
pub open spec fn identity_cols() -> Seq<u32> {
    seq![
        FLOAT_ONE_BITS,
        0u32,
        0u32,
        0u32,
        0u32,
        FLOAT_ONE_BITS,
        0u32,
        0u32,
        0u32,
        0u32,
        FLOAT_ONE_BITS,
        0u32,
        0u32,
        0u32,
        0u32,
        FLOAT_ONE_BITS,
    ]
}

/// The identity transform: the listener frame used when no listener
/// entity exists, leaving world positions unchanged.
pub fn identity_transform() -> (t: WorldTransform)
    ensures
        t.cols@ == identity_cols(),
{
    let t = WorldTransform {
        cols: [
            FLOAT_ONE_BITS,
            0u32,
            0u32,
            0u32,
            0u32,
            FLOAT_ONE_BITS,
            0u32,
            0u32,
            0u32,
            0u32,
            FLOAT_ONE_BITS,
            0u32,
            0u32,
            0u32,
            0u32,
            FLOAT_ONE_BITS,
        ],
    };
    proof {
        assert(t.cols@ =~= identity_cols());
    }
    t
}

/// Translation of `inverse(listener) * entity`: the position of the
/// entity's world matrix expressed in the listener's local frame, as
/// three floating-point bit patterns.
pub uninterp spec fn rel_of(listener: Seq<u32>, entity: Seq<u32>) -> Seq<u32>;

/// Relies on glam's `Mat4`: `inverse`, the matrix product, and the
/// translation column `w_axis`.  The result is a pure function of the two
/// matrices; the byte casts only re-type the bit patterns.
#[verifier::external_body]
pub(crate) fn relative_translation(listener: &WorldTransform, entity: &WorldTransform) -> (r:
    Vec3Bits)
    ensures
        r.as_seq() == rel_of(listener.cols@, entity.cols@),
{
    let l = glam::Mat4::from_cols_array(bytemuck::cast_ref(&listener.cols));
    let e = glam::Mat4::from_cols_array(bytemuck::cast_ref(&entity.cols));
    let w = (l.inverse() * e).w_axis;
    Vec3Bits { x: w.x.to_bits(), y: w.y.to_bits(), z: w.z.to_bits() }
}

/// Tag for the entity whose transform defines the listener frame.
pub struct AmbisonicCenter;

/// An entity tagged as listener reference, with its world transform.
#[derive(Clone, Copy)]
pub struct ListenerEntry {
    pub entity: u64,
    pub transform: WorldTransform,
}

/// The listener entry the synchronization uses when one or more entities
/// are tagged as listener: among several, the first with the lowest
/// entity identifier — a deterministic tie-break for the ambiguous case.
pub open spec fn chosen_listener(s: Seq<ListenerEntry>) -> ListenerEntry
    recommends
        s.len() > 0,
    decreases s.len(),
{
    if s.len() <= 1 {
        s[0]
    } else {
        let prior = chosen_listener(s.drop_last());
        if s.last().entity < prior.entity {
            s.last()
        } else {
            prior
        }
    }
}

/// The world matrix of the listener frame: the identity when no listener
/// entity exists, else the chosen listener's matrix.
pub open spec fn listener_cols(s: Seq<ListenerEntry>) -> Seq<u32> {
    if s.len() == 0 {
        identity_cols()
    } else {
        chosen_listener(s).transform.cols@
    }
}

/// Resolve the listener frame for one frame's synchronization pass.
pub fn resolve_listener(listeners: &Vec<ListenerEntry>) -> (t: WorldTransform)
    ensures
        t.cols@ == listener_cols(listeners@),
        listeners@.len() > 0 ==> t == chosen_listener(listeners@).transform,
{
    if listeners.len() == 0 {
        identity_transform()
    } else {
        let mut best: ListenerEntry = listeners[0];
        let mut i: usize = 1;
        while i < listeners.len()
            invariant
                1 <= i <= listeners@.len(),
                best == chosen_listener(listeners@.take(i as int)),
            decreases listeners@.len() - i,
        {
            proof {
                assert(listeners@.take(i + 1).drop_last() =~= listeners@.take(i as int));
                assert(listeners@.take(i + 1).last() == listeners@[i as int]);
            }
            let candidate = listeners[i];
            if candidate.entity < best.entity {
                best = candidate;
            }
            i = i + 1;
        }
        proof {
            assert(listeners@.take(listeners@.len() as int) =~= listeners@);
        }
        best.transform
    }
}

} // verus!
