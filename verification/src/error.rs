//! The ways in which bringing a robot into the simulation can be refused.

use vstd::prelude::*;

verus! {

/// Why a robot could not be brought into the simulation.
#[derive(Clone, Copy, Debug, PartialEq, Eq, Structural)]
pub enum SpawnError {
    /// The description and the physics template disagree on the number of
    /// links.
    LinkCountMismatch { description: usize, template: usize },
    /// The link's geometry is a cylinder or a capsule, which cannot be drawn.
    UnsupportedGeometry { link: usize },
    /// A joint of the physics template names a link that the template does
    /// not have.
    JointOutOfRange,
    /// A joint of the physics template locks something that is none of its
    /// six axes.
    JointAxesOutOfRange,
    /// The joints of the physics template close a loop or hang a link under
    /// two others, so they make no trees of the links.
    JointsNoTree,
    /// The engine did not hand back one body per link and one answer per
    /// joint.
    InsertionMismatch { links: usize, bodies: usize },
    /// A body that the engine handed back is not in the body set.
    BodyMissing,
    /// The engine handed back one body for two links.
    BodyShared,
    /// The joint table did not take every joint, so the robot is no jointed
    /// tree.
    JointMissing,
    /// Contacts between the robot's own links are not switched off.
    SelfContactsOn,
}

} // verus!
