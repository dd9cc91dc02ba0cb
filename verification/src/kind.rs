//! The closed family of solids, addressable by ordinal.

use vstd::prelude::*;

verus! {

/// What the hold-and-drop cursor is doing.
#[derive(Debug, Clone, Copy, PartialEq, Eq, Structural)]
pub enum Phase {
    PEmpty,
    PHold,
    PRelease,
    PDown,
    /// One past the last phase; never a phase of its own.
    PEnd,
}

/// Number of phases.
pub const PHASE_COUNT: usize = 4;

impl Phase {
    /// The ordinal of a phase, `PHASE_COUNT` for the end mark.
    pub open spec fn ordinal(self) -> int {
        match self {
            Phase::PEmpty => 0,
            Phase::PHold => 1,
            Phase::PRelease => 2,
            Phase::PDown => 3,
            Phase::PEnd => 4,
        }
    }

    /// The phase with ordinal `u`, if there is one.
    pub fn from_usize(u: usize) -> (r: Option<Phase>)
        ensures
            u < PHASE_COUNT ==> r is Some && r->0.ordinal() == u,
            u >= PHASE_COUNT ==> r is None,
    {
        match u {
            0 => Some(Phase::PEmpty),
            1 => Some(Phase::PHold),
            2 => Some(Phase::PRelease),
            3 => Some(Phase::PDown),
            _ => None,
        }
    }

    /// The ordinal as a machine integer.
    pub fn index(self) -> (r: usize)
        ensures
            r == self.ordinal(),
    {
        match self {
            Phase::PEmpty => 0,
            Phase::PHold => 1,
            Phase::PRelease => 2,
            Phase::PDown => 3,
            Phase::PEnd => 4,
        }
    }
}

/// A generatable solid. The fullerene family comes in pairs, `N0` textured
/// from one shared image and `N1` textured face by face.
#[derive(Debug, Clone, Copy, PartialEq, Eq, Structural)]
pub enum PE {
    ETetra,
    ECube,
    ECubeCenter,
    EOcta,
    ERSphere,
    ECylinder,
    ECapsule,
    ECone,
    ETorus,
    ERTorus,
    ERing,
    ETube,
    EHalfPipe,
    EPin,
    ERevolutionN0,
    ERevolutionN1,
    EIcosahedronN0,
    EIcosahedronN1,
    EDodecahedronN0,
    EDodecahedronN1,
    EDodecahedronCenterN0,
    EDodecahedronCenterN1,
    EC60N0,
    EC60N1,
    EC60CenterN0,
    EC60CenterN1,
    /// One past the last solid; never a solid of its own.
    End,
}

/// Number of solids.
pub const KIND_COUNT: usize = 26;

/// Number of poses in which a solid is dropped.
pub const POSE_COUNT: usize = 5;

/// Number of tints in which a solid is dropped.
pub const TINT_COUNT: usize = 9;

/// Number of families of solids.
pub const FAMILY_COUNT: usize = 20;

/// The solid with ordinal `u`; the end mark for what is no ordinal of a solid.
pub open spec fn kind_at(u: int) -> PE {
    if u == 0 {
        PE::ETetra
    } else if u == 1 {
        PE::ECube
    } else if u == 2 {
        PE::ECubeCenter
    } else if u == 3 {
        PE::EOcta
    } else if u == 4 {
        PE::ERSphere
    } else if u == 5 {
        PE::ECylinder
    } else if u == 6 {
        PE::ECapsule
    } else if u == 7 {
        PE::ECone
    } else if u == 8 {
        PE::ETorus
    } else if u == 9 {
        PE::ERTorus
    } else if u == 10 {
        PE::ERing
    } else if u == 11 {
        PE::ETube
    } else if u == 12 {
        PE::EHalfPipe
    } else if u == 13 {
        PE::EPin
    } else if u == 14 {
        PE::ERevolutionN0
    } else if u == 15 {
        PE::ERevolutionN1
    } else if u == 16 {
        PE::EIcosahedronN0
    } else if u == 17 {
        PE::EIcosahedronN1
    } else if u == 18 {
        PE::EDodecahedronN0
    } else if u == 19 {
        PE::EDodecahedronN1
    } else if u == 20 {
        PE::EDodecahedronCenterN0
    } else if u == 21 {
        PE::EDodecahedronCenterN1
    } else if u == 22 {
        PE::EC60N0
    } else if u == 23 {
        PE::EC60N1
    } else if u == 24 {
        PE::EC60CenterN0
    } else if u == 25 {
        PE::EC60CenterN1
    } else {
        PE::End
    }
}

impl PE {
    /// The ordinal of a solid, `KIND_COUNT` for the end mark.
    pub open spec fn ordinal(self) -> int {
        match self {
            PE::ETetra => 0,
            PE::ECube => 1,
            PE::ECubeCenter => 2,
            PE::EOcta => 3,
            PE::ERSphere => 4,
            PE::ECylinder => 5,
            PE::ECapsule => 6,
            PE::ECone => 7,
            PE::ETorus => 8,
            PE::ERTorus => 9,
            PE::ERing => 10,
            PE::ETube => 11,
            PE::EHalfPipe => 12,
            PE::EPin => 13,
            PE::ERevolutionN0 => 14,
            PE::ERevolutionN1 => 15,
            PE::EIcosahedronN0 => 16,
            PE::EIcosahedronN1 => 17,
            PE::EDodecahedronN0 => 18,
            PE::EDodecahedronN1 => 19,
            PE::EDodecahedronCenterN0 => 20,
            PE::EDodecahedronCenterN1 => 21,
            PE::EC60N0 => 22,
            PE::EC60N1 => 23,
            PE::EC60CenterN0 => 24,
            PE::EC60CenterN1 => 25,
            PE::End => 26,
        }
    }

    /// Whether this is a solid and not the end mark.
    pub open spec fn is_solid(self) -> bool {
        self != PE::End
    }

    /// The solid with ordinal `u`, if there is one.
    pub fn from_usize(u: usize) -> (r: Option<PE>)
        ensures
            u < KIND_COUNT ==> r == Some(kind_at(u as int)) && r->0.ordinal() == u,
            u >= KIND_COUNT ==> r is None,
    {
        match u {
            0 => Some(PE::ETetra),
            1 => Some(PE::ECube),
            2 => Some(PE::ECubeCenter),
            3 => Some(PE::EOcta),
            4 => Some(PE::ERSphere),
            5 => Some(PE::ECylinder),
            6 => Some(PE::ECapsule),
            7 => Some(PE::ECone),
            8 => Some(PE::ETorus),
            9 => Some(PE::ERTorus),
            10 => Some(PE::ERing),
            11 => Some(PE::ETube),
            12 => Some(PE::EHalfPipe),
            13 => Some(PE::EPin),
            14 => Some(PE::ERevolutionN0),
            15 => Some(PE::ERevolutionN1),
            16 => Some(PE::EIcosahedronN0),
            17 => Some(PE::EIcosahedronN1),
            18 => Some(PE::EDodecahedronN0),
            19 => Some(PE::EDodecahedronN1),
            20 => Some(PE::EDodecahedronCenterN0),
            21 => Some(PE::EDodecahedronCenterN1),
            22 => Some(PE::EC60N0),
            23 => Some(PE::EC60N1),
            24 => Some(PE::EC60CenterN0),
            25 => Some(PE::EC60CenterN1),
            _ => None,
        }
    }

    /// The ordinal as a machine integer.
    pub fn index(self) -> (r: usize)
        ensures
            r == self.ordinal(),
            r <= KIND_COUNT,
            r < KIND_COUNT <==> self.is_solid(),
    {
        match self {
            PE::ETetra => 0,
            PE::ECube => 1,
            PE::ECubeCenter => 2,
            PE::EOcta => 3,
            PE::ERSphere => 4,
            PE::ECylinder => 5,
            PE::ECapsule => 6,
            PE::ECone => 7,
            PE::ETorus => 8,
            PE::ERTorus => 9,
            PE::ERing => 10,
            PE::ETube => 11,
            PE::EHalfPipe => 12,
            PE::EPin => 13,
            PE::ERevolutionN0 => 14,
            PE::ERevolutionN1 => 15,
            PE::EIcosahedronN0 => 16,
            PE::EIcosahedronN1 => 17,
            PE::EDodecahedronN0 => 18,
            PE::EDodecahedronN1 => 19,
            PE::EDodecahedronCenterN0 => 20,
            PE::EDodecahedronCenterN1 => 21,
            PE::EC60N0 => 22,
            PE::EC60N1 => 23,
            PE::EC60CenterN0 => 24,
            PE::EC60CenterN1 => 25,
            PE::End => 26,
        }
    }

    /// The name that instances of a solid carry as their origin. Both solids
    /// of a pair carry one name.
    pub open spec fn name_spec(self) -> Seq<char> {
        match self {
            PE::ETetra => "tetra"@,
            PE::ECube => "cube"@,
            PE::ECubeCenter => "cube_center"@,
            PE::EOcta => "octa"@,
            PE::ERSphere => "r_sphere"@,
            PE::ECylinder => "cylinder"@,
            PE::ECapsule => "capsule"@,
            PE::ECone => "cone"@,
            PE::ETorus => "torus"@,
            PE::ERTorus => "r_torus"@,
            PE::ERing => "ring"@,
            PE::ETube => "tube"@,
            PE::EHalfPipe => "half_pipe"@,
            PE::EPin => "pin"@,
            PE::ERevolutionN0 => "revolution"@,
            PE::ERevolutionN1 => "revolution"@,
            PE::EIcosahedronN0 => "icosahedron"@,
            PE::EIcosahedronN1 => "icosahedron"@,
            PE::EDodecahedronN0 => "dodecahedron"@,
            PE::EDodecahedronN1 => "dodecahedron"@,
            PE::EDodecahedronCenterN0 => "dodecahedron_center"@,
            PE::EDodecahedronCenterN1 => "dodecahedron_center"@,
            PE::EC60N0 => "c60"@,
            PE::EC60N1 => "c60"@,
            PE::EC60CenterN0 => "c60_center"@,
            PE::EC60CenterN1 => "c60_center"@,
            PE::End => "nothing"@,
        }
    }

    /// The name that instances of a solid carry as their origin.
    pub fn name(self) -> (r: &'static str)
        ensures
            r@ == self.name_spec(),
    {
        match self {
            PE::ETetra => "tetra",
            PE::ECube => "cube",
            PE::ECubeCenter => "cube_center",
            PE::EOcta => "octa",
            PE::ERSphere => "r_sphere",
            PE::ECylinder => "cylinder",
            PE::ECapsule => "capsule",
            PE::ECone => "cone",
            PE::ETorus => "torus",
            PE::ERTorus => "r_torus",
            PE::ERing => "ring",
            PE::ETube => "tube",
            PE::EHalfPipe => "half_pipe",
            PE::EPin => "pin",
            PE::ERevolutionN0 => "revolution",
            PE::ERevolutionN1 => "revolution",
            PE::EIcosahedronN0 => "icosahedron",
            PE::EIcosahedronN1 => "icosahedron",
            PE::EDodecahedronN0 => "dodecahedron",
            PE::EDodecahedronN1 => "dodecahedron",
            PE::EDodecahedronCenterN0 => "dodecahedron_center",
            PE::EDodecahedronCenterN1 => "dodecahedron_center",
            PE::EC60N0 => "c60",
            PE::EC60N1 => "c60",
            PE::EC60CenterN0 => "c60_center",
            PE::EC60CenterN1 => "c60_center",
            PE::End => "nothing",
        }
    }

    /// Which of a pair a solid is: 1 for the second, 0 for the first and for
    /// a solid without a pair.
    pub open spec fn parity_spec(self) -> int {
        match self {
            PE::ERevolutionN1 | PE::EIcosahedronN1 | PE::EDodecahedronN1 | PE::EDodecahedronCenterN1 | PE::EC60N1 | PE::EC60CenterN1 => 1,
            _ => 0,
        }
    }

    /// Which of a pair a solid is.
    pub fn parity(self) -> (r: usize)
        ensures
            r == self.parity_spec(),
            r <= 1,
    {
        match self {
            PE::ERevolutionN1 | PE::EIcosahedronN1 | PE::EDodecahedronN1 | PE::EDodecahedronCenterN1 | PE::EC60N1 | PE::EC60CenterN1 => 1,
            _ => 0,
        }
    }

    /// The family of a solid: both solids of a pair are of one family, and
    /// so are all solids that carry one name. `FAMILY_COUNT` for the end mark.
    pub open spec fn family_spec(self) -> int {
        match self {
            PE::ETetra => 0,
            PE::ECube => 1,
            PE::ECubeCenter => 2,
            PE::EOcta => 3,
            PE::ERSphere => 4,
            PE::ECylinder => 5,
            PE::ECapsule => 6,
            PE::ECone => 7,
            PE::ETorus => 8,
            PE::ERTorus => 9,
            PE::ERing => 10,
            PE::ETube => 11,
            PE::EHalfPipe => 12,
            PE::EPin => 13,
            PE::ERevolutionN0 | PE::ERevolutionN1 => 14,
            PE::EIcosahedronN0 | PE::EIcosahedronN1 => 15,
            PE::EDodecahedronN0 | PE::EDodecahedronN1 => 16,
            PE::EDodecahedronCenterN0 | PE::EDodecahedronCenterN1 => 17,
            PE::EC60N0 | PE::EC60N1 => 18,
            PE::EC60CenterN0 | PE::EC60CenterN1 => 19,
            PE::End => 20,
        }
    }

    /// The family of a solid.
    pub fn family(self) -> (r: usize)
        ensures
            r == self.family_spec(),
            r <= FAMILY_COUNT,
            r < FAMILY_COUNT <==> self.is_solid(),
    {
        match self {
            PE::ETetra => 0,
            PE::ECube => 1,
            PE::ECubeCenter => 2,
            PE::EOcta => 3,
            PE::ERSphere => 4,
            PE::ECylinder => 5,
            PE::ECapsule => 6,
            PE::ECone => 7,
            PE::ETorus => 8,
            PE::ERTorus => 9,
            PE::ERing => 10,
            PE::ETube => 11,
            PE::EHalfPipe => 12,
            PE::EPin => 13,
            PE::ERevolutionN0 | PE::ERevolutionN1 => 14,
            PE::EIcosahedronN0 | PE::EIcosahedronN1 => 15,
            PE::EDodecahedronN0 | PE::EDodecahedronN1 => 16,
            PE::EDodecahedronCenterN0 | PE::EDodecahedronCenterN1 => 17,
            PE::EC60N0 | PE::EC60N1 => 18,
            PE::EC60CenterN0 | PE::EC60CenterN1 => 19,
            PE::End => 20,
        }
    }

    /// Whether the whole surface of the solid can be seen from its centre.
    /// Rings, pipes and the pin have faces that look towards it.
    pub open spec fn star_shaped_spec(self) -> bool {
        match self {
            PE::ETorus | PE::ERTorus | PE::ERing | PE::ETube | PE::EHalfPipe | PE::EPin | PE::End => false,
            _ => true,
        }
    }

    /// Whether the whole surface of the solid can be seen from its centre.
    pub fn star_shaped(self) -> (r: bool)
        ensures
            r == self.star_shaped_spec(),
    {
        match self {
            PE::ETorus | PE::ERTorus | PE::ERing | PE::ETube | PE::EHalfPipe | PE::EPin | PE::End => false,
            _ => true,
        }
    }

    /// How an instance of the solid is turned when it is dropped: one of
    /// `POSE_COUNT` poses. Most solids stand on their second pose.
    pub open spec fn pose_spec(self) -> int {
        match self {
            PE::ETetra => 0,
            PE::ECubeCenter => 2,
            PE::ETorus => 0,
            PE::ERTorus => 4,
            PE::EHalfPipe => 3,
            PE::ERevolutionN0 => 2,
            PE::ERevolutionN1 => 4,
            _ => 1,
        }
    }

    /// How an instance of the solid is turned when it is dropped.
    pub fn pose(self) -> (r: usize)
        ensures
            r == self.pose_spec(),
            r < POSE_COUNT,
    {
        match self {
            PE::ETetra => 0,
            PE::ECubeCenter => 2,
            PE::ETorus => 0,
            PE::ERTorus => 4,
            PE::EHalfPipe => 3,
            PE::ERevolutionN0 => 2,
            PE::ERevolutionN1 => 4,
            _ => 1,
        }
    }
}

/// Solids of one family carry one name, and solids of two families two.
pub proof fn lemma_family_is_name(a: PE, b: PE)
    ensures
        a.family_spec() == b.family_spec() <==> a.name_spec() == b.name_spec(),
{
    lemma_names_differ();
}

/// Every solid is the solid of its ordinal.
pub proof fn lemma_kind_at(kind: PE)
    ensures
        kind_at(kind.ordinal()) == kind,
{
}

/// Two solids with the same ordinal are the same solid.
pub proof fn lemma_ordinal_injective(a: PE, b: PE)
    requires
        a.ordinal() == b.ordinal(),
    ensures
        a == b,
{
}


proof fn lemma_word_tetra()
    ensures
        crate::key::valid_origin("tetra"@),
{
    reveal_strlit("tetra");
    let s = "tetra"@;
    assert forall|i: int| 0 <= i < s.len() implies crate::key::is_word(#[trigger] s[i]) by {
            if i == 0 {
            }
            if i == 1 {
            }
            if i == 2 {
            }
            if i == 3 {
            }
            if i == 4 {
            }
        }
}

proof fn lemma_word_cube()
    ensures
        crate::key::valid_origin("cube"@),
{
    reveal_strlit("cube");
    let s = "cube"@;
    assert forall|i: int| 0 <= i < s.len() implies crate::key::is_word(#[trigger] s[i]) by {
            if i == 0 {
            }
            if i == 1 {
            }
            if i == 2 {
            }
            if i == 3 {
            }
        }
}

proof fn lemma_word_cube_center()
    ensures
        crate::key::valid_origin("cube_center"@),
{
    reveal_strlit("cube_center");
    let s = "cube_center"@;
    assert forall|i: int| 0 <= i < s.len() implies crate::key::is_word(#[trigger] s[i]) by {
            if i == 0 {
            }
            if i == 1 {
            }
            if i == 2 {
            }
            if i == 3 {
            }
            if i == 4 {
            }
            if i == 5 {
            }
            if i == 6 {
            }
            if i == 7 {
            }
            if i == 8 {
            }
            if i == 9 {
            }
            if i == 10 {
            }
        }
}

proof fn lemma_word_octa()
    ensures
        crate::key::valid_origin("octa"@),
{
    reveal_strlit("octa");
    let s = "octa"@;
    assert forall|i: int| 0 <= i < s.len() implies crate::key::is_word(#[trigger] s[i]) by {
            if i == 0 {
            }
            if i == 1 {
            }
            if i == 2 {
            }
            if i == 3 {
            }
        }
}

proof fn lemma_word_r_sphere()
    ensures
        crate::key::valid_origin("r_sphere"@),
{
    reveal_strlit("r_sphere");
    let s = "r_sphere"@;
    assert forall|i: int| 0 <= i < s.len() implies crate::key::is_word(#[trigger] s[i]) by {
            if i == 0 {
            }
            if i == 1 {
            }
            if i == 2 {
            }
            if i == 3 {
            }
            if i == 4 {
            }
            if i == 5 {
            }
            if i == 6 {
            }
            if i == 7 {
            }
        }
}

proof fn lemma_word_cylinder()
    ensures
        crate::key::valid_origin("cylinder"@),
{
    reveal_strlit("cylinder");
    let s = "cylinder"@;
    assert forall|i: int| 0 <= i < s.len() implies crate::key::is_word(#[trigger] s[i]) by {
            if i == 0 {
            }
            if i == 1 {
            }
            if i == 2 {
            }
            if i == 3 {
            }
            if i == 4 {
            }
            if i == 5 {
            }
            if i == 6 {
            }
            if i == 7 {
            }
        }
}

proof fn lemma_word_capsule()
    ensures
        crate::key::valid_origin("capsule"@),
{
    reveal_strlit("capsule");
    let s = "capsule"@;
    assert forall|i: int| 0 <= i < s.len() implies crate::key::is_word(#[trigger] s[i]) by {
            if i == 0 {
            }
            if i == 1 {
            }
            if i == 2 {
            }
            if i == 3 {
            }
            if i == 4 {
            }
            if i == 5 {
            }
            if i == 6 {
            }
        }
}

proof fn lemma_word_cone()
    ensures
        crate::key::valid_origin("cone"@),
{
    reveal_strlit("cone");
    let s = "cone"@;
    assert forall|i: int| 0 <= i < s.len() implies crate::key::is_word(#[trigger] s[i]) by {
            if i == 0 {
            }
            if i == 1 {
            }
            if i == 2 {
            }
            if i == 3 {
            }
        }
}

proof fn lemma_word_torus()
    ensures
        crate::key::valid_origin("torus"@),
{
    reveal_strlit("torus");
    let s = "torus"@;
    assert forall|i: int| 0 <= i < s.len() implies crate::key::is_word(#[trigger] s[i]) by {
            if i == 0 {
            }
            if i == 1 {
            }
            if i == 2 {
            }
            if i == 3 {
            }
            if i == 4 {
            }
        }
}

proof fn lemma_word_r_torus()
    ensures
        crate::key::valid_origin("r_torus"@),
{
    reveal_strlit("r_torus");
    let s = "r_torus"@;
    assert forall|i: int| 0 <= i < s.len() implies crate::key::is_word(#[trigger] s[i]) by {
            if i == 0 {
            }
            if i == 1 {
            }
            if i == 2 {
            }
            if i == 3 {
            }
            if i == 4 {
            }
            if i == 5 {
            }
            if i == 6 {
            }
        }
}

proof fn lemma_word_ring()
    ensures
        crate::key::valid_origin("ring"@),
{
    reveal_strlit("ring");
    let s = "ring"@;
    assert forall|i: int| 0 <= i < s.len() implies crate::key::is_word(#[trigger] s[i]) by {
            if i == 0 {
            }
            if i == 1 {
            }
            if i == 2 {
            }
            if i == 3 {
            }
        }
}

proof fn lemma_word_tube()
    ensures
        crate::key::valid_origin("tube"@),
{
    reveal_strlit("tube");
    let s = "tube"@;
    assert forall|i: int| 0 <= i < s.len() implies crate::key::is_word(#[trigger] s[i]) by {
            if i == 0 {
            }
            if i == 1 {
            }
            if i == 2 {
            }
            if i == 3 {
            }
        }
}

proof fn lemma_word_half_pipe()
    ensures
        crate::key::valid_origin("half_pipe"@),
{
    reveal_strlit("half_pipe");
    let s = "half_pipe"@;
    assert forall|i: int| 0 <= i < s.len() implies crate::key::is_word(#[trigger] s[i]) by {
            if i == 0 {
            }
            if i == 1 {
            }
            if i == 2 {
            }
            if i == 3 {
            }
            if i == 4 {
            }
            if i == 5 {
            }
            if i == 6 {
            }
            if i == 7 {
            }
            if i == 8 {
            }
        }
}

proof fn lemma_word_pin()
    ensures
        crate::key::valid_origin("pin"@),
{
    reveal_strlit("pin");
    let s = "pin"@;
    assert forall|i: int| 0 <= i < s.len() implies crate::key::is_word(#[trigger] s[i]) by {
            if i == 0 {
            }
            if i == 1 {
            }
            if i == 2 {
            }
        }
}

proof fn lemma_word_revolution()
    ensures
        crate::key::valid_origin("revolution"@),
{
    reveal_strlit("revolution");
    let s = "revolution"@;
    assert forall|i: int| 0 <= i < s.len() implies crate::key::is_word(#[trigger] s[i]) by {
            if i == 0 {
            }
            if i == 1 {
            }
            if i == 2 {
            }
            if i == 3 {
            }
            if i == 4 {
            }
            if i == 5 {
            }
            if i == 6 {
            }
            if i == 7 {
            }
            if i == 8 {
            }
            if i == 9 {
            }
        }
}

proof fn lemma_word_icosahedron()
    ensures
        crate::key::valid_origin("icosahedron"@),
{
    reveal_strlit("icosahedron");
    let s = "icosahedron"@;
    assert forall|i: int| 0 <= i < s.len() implies crate::key::is_word(#[trigger] s[i]) by {
            if i == 0 {
            }
            if i == 1 {
            }
            if i == 2 {
            }
            if i == 3 {
            }
            if i == 4 {
            }
            if i == 5 {
            }
            if i == 6 {
            }
            if i == 7 {
            }
            if i == 8 {
            }
            if i == 9 {
            }
            if i == 10 {
            }
        }
}

proof fn lemma_word_dodecahedron()
    ensures
        crate::key::valid_origin("dodecahedron"@),
{
    reveal_strlit("dodecahedron");
    let s = "dodecahedron"@;
    assert forall|i: int| 0 <= i < s.len() implies crate::key::is_word(#[trigger] s[i]) by {
            if i == 0 {
            }
            if i == 1 {
            }
            if i == 2 {
            }
            if i == 3 {
            }
            if i == 4 {
            }
            if i == 5 {
            }
            if i == 6 {
            }
            if i == 7 {
            }
            if i == 8 {
            }
            if i == 9 {
            }
            if i == 10 {
            }
            if i == 11 {
            }
        }
}

proof fn lemma_word_dodecahedron_center()
    ensures
        crate::key::valid_origin("dodecahedron_center"@),
{
    reveal_strlit("dodecahedron_center");
    let s = "dodecahedron_center"@;
    assert forall|i: int| 0 <= i < s.len() implies crate::key::is_word(#[trigger] s[i]) by {
            if i == 0 {
            }
            if i == 1 {
            }
            if i == 2 {
            }
            if i == 3 {
            }
            if i == 4 {
            }
            if i == 5 {
            }
            if i == 6 {
            }
            if i == 7 {
            }
            if i == 8 {
            }
            if i == 9 {
            }
            if i == 10 {
            }
            if i == 11 {
            }
            if i == 12 {
            }
            if i == 13 {
            }
            if i == 14 {
            }
            if i == 15 {
            }
            if i == 16 {
            }
            if i == 17 {
            }
            if i == 18 {
            }
        }
}

proof fn lemma_word_c60()
    ensures
        crate::key::valid_origin("c60"@),
{
    reveal_strlit("c60");
    let s = "c60"@;
    assert forall|i: int| 0 <= i < s.len() implies crate::key::is_word(#[trigger] s[i]) by {
            if i == 0 {
            }
            if i == 1 {
            }
            if i == 2 {
            }
        }
}

proof fn lemma_word_c60_center()
    ensures
        crate::key::valid_origin("c60_center"@),
{
    reveal_strlit("c60_center");
    let s = "c60_center"@;
    assert forall|i: int| 0 <= i < s.len() implies crate::key::is_word(#[trigger] s[i]) by {
            if i == 0 {
            }
            if i == 1 {
            }
            if i == 2 {
            }
            if i == 3 {
            }
            if i == 4 {
            }
            if i == 5 {
            }
            if i == 6 {
            }
            if i == 7 {
            }
            if i == 8 {
            }
            if i == 9 {
            }
        }
}

proof fn lemma_word_nothing()
    ensures
        crate::key::valid_origin("nothing"@),
{
    reveal_strlit("nothing");
    let s = "nothing"@;
    assert forall|i: int| 0 <= i < s.len() implies crate::key::is_word(#[trigger] s[i]) by {
            if i == 0 {
            }
            if i == 1 {
            }
            if i == 2 {
            }
            if i == 3 {
            }
            if i == 4 {
            }
            if i == 5 {
            }
            if i == 6 {
            }
        }
}

/// The name of every solid is an origin that a key can carry.
pub proof fn lemma_name_is_origin(kind: PE)
    ensures
        crate::key::valid_origin(kind.name_spec()),
{
    match kind {
        PE::ETetra => lemma_word_tetra(),
        PE::ECube => lemma_word_cube(),
        PE::ECubeCenter => lemma_word_cube_center(),
        PE::EOcta => lemma_word_octa(),
        PE::ERSphere => lemma_word_r_sphere(),
        PE::ECylinder => lemma_word_cylinder(),
        PE::ECapsule => lemma_word_capsule(),
        PE::ECone => lemma_word_cone(),
        PE::ETorus => lemma_word_torus(),
        PE::ERTorus => lemma_word_r_torus(),
        PE::ERing => lemma_word_ring(),
        PE::ETube => lemma_word_tube(),
        PE::EHalfPipe => lemma_word_half_pipe(),
        PE::EPin => lemma_word_pin(),
        PE::ERevolutionN0 => lemma_word_revolution(),
        PE::ERevolutionN1 => lemma_word_revolution(),
        PE::EIcosahedronN0 => lemma_word_icosahedron(),
        PE::EIcosahedronN1 => lemma_word_icosahedron(),
        PE::EDodecahedronN0 => lemma_word_dodecahedron(),
        PE::EDodecahedronN1 => lemma_word_dodecahedron(),
        PE::EDodecahedronCenterN0 => lemma_word_dodecahedron_center(),
        PE::EDodecahedronCenterN1 => lemma_word_dodecahedron_center(),
        PE::EC60N0 => lemma_word_c60(),
        PE::EC60N1 => lemma_word_c60(),
        PE::EC60CenterN0 => lemma_word_c60_center(),
        PE::EC60CenterN1 => lemma_word_c60_center(),
        PE::End => lemma_word_nothing(),
    }
}


/// The names of the families differ from one another.
pub proof fn lemma_names_differ()
    ensures
        "tetra"@ != "cube"@,
        "tetra"@ != "cube_center"@,
        "tetra"@ != "octa"@,
        "tetra"@ != "r_sphere"@,
        "tetra"@ != "cylinder"@,
        "tetra"@ != "capsule"@,
        "tetra"@ != "cone"@,
        "tetra"@ != "torus"@,
        "tetra"@ != "r_torus"@,
        "tetra"@ != "ring"@,
        "tetra"@ != "tube"@,
        "tetra"@ != "half_pipe"@,
        "tetra"@ != "pin"@,
        "tetra"@ != "revolution"@,
        "tetra"@ != "icosahedron"@,
        "tetra"@ != "dodecahedron"@,
        "tetra"@ != "dodecahedron_center"@,
        "tetra"@ != "c60"@,
        "tetra"@ != "c60_center"@,
        "tetra"@ != "nothing"@,
        "cube"@ != "cube_center"@,
        "cube"@ != "octa"@,
        "cube"@ != "r_sphere"@,
        "cube"@ != "cylinder"@,
        "cube"@ != "capsule"@,
        "cube"@ != "cone"@,
        "cube"@ != "torus"@,
        "cube"@ != "r_torus"@,
        "cube"@ != "ring"@,
        "cube"@ != "tube"@,
        "cube"@ != "half_pipe"@,
        "cube"@ != "pin"@,
        "cube"@ != "revolution"@,
        "cube"@ != "icosahedron"@,
        "cube"@ != "dodecahedron"@,
        "cube"@ != "dodecahedron_center"@,
        "cube"@ != "c60"@,
        "cube"@ != "c60_center"@,
        "cube"@ != "nothing"@,
        "cube_center"@ != "octa"@,
        "cube_center"@ != "r_sphere"@,
        "cube_center"@ != "cylinder"@,
        "cube_center"@ != "capsule"@,
        "cube_center"@ != "cone"@,
        "cube_center"@ != "torus"@,
        "cube_center"@ != "r_torus"@,
        "cube_center"@ != "ring"@,
        "cube_center"@ != "tube"@,
        "cube_center"@ != "half_pipe"@,
        "cube_center"@ != "pin"@,
        "cube_center"@ != "revolution"@,
        "cube_center"@ != "icosahedron"@,
        "cube_center"@ != "dodecahedron"@,
        "cube_center"@ != "dodecahedron_center"@,
        "cube_center"@ != "c60"@,
        "cube_center"@ != "c60_center"@,
        "cube_center"@ != "nothing"@,
        "octa"@ != "r_sphere"@,
        "octa"@ != "cylinder"@,
        "octa"@ != "capsule"@,
        "octa"@ != "cone"@,
        "octa"@ != "torus"@,
        "octa"@ != "r_torus"@,
        "octa"@ != "ring"@,
        "octa"@ != "tube"@,
        "octa"@ != "half_pipe"@,
        "octa"@ != "pin"@,
        "octa"@ != "revolution"@,
        "octa"@ != "icosahedron"@,
        "octa"@ != "dodecahedron"@,
        "octa"@ != "dodecahedron_center"@,
        "octa"@ != "c60"@,
        "octa"@ != "c60_center"@,
        "octa"@ != "nothing"@,
        "r_sphere"@ != "cylinder"@,
        "r_sphere"@ != "capsule"@,
        "r_sphere"@ != "cone"@,
        "r_sphere"@ != "torus"@,
        "r_sphere"@ != "r_torus"@,
        "r_sphere"@ != "ring"@,
        "r_sphere"@ != "tube"@,
        "r_sphere"@ != "half_pipe"@,
        "r_sphere"@ != "pin"@,
        "r_sphere"@ != "revolution"@,
        "r_sphere"@ != "icosahedron"@,
        "r_sphere"@ != "dodecahedron"@,
        "r_sphere"@ != "dodecahedron_center"@,
        "r_sphere"@ != "c60"@,
        "r_sphere"@ != "c60_center"@,
        "r_sphere"@ != "nothing"@,
        "cylinder"@ != "capsule"@,
        "cylinder"@ != "cone"@,
        "cylinder"@ != "torus"@,
        "cylinder"@ != "r_torus"@,
        "cylinder"@ != "ring"@,
        "cylinder"@ != "tube"@,
        "cylinder"@ != "half_pipe"@,
        "cylinder"@ != "pin"@,
        "cylinder"@ != "revolution"@,
        "cylinder"@ != "icosahedron"@,
        "cylinder"@ != "dodecahedron"@,
        "cylinder"@ != "dodecahedron_center"@,
        "cylinder"@ != "c60"@,
        "cylinder"@ != "c60_center"@,
        "cylinder"@ != "nothing"@,
        "capsule"@ != "cone"@,
        "capsule"@ != "torus"@,
        "capsule"@ != "r_torus"@,
        "capsule"@ != "ring"@,
        "capsule"@ != "tube"@,
        "capsule"@ != "half_pipe"@,
        "capsule"@ != "pin"@,
        "capsule"@ != "revolution"@,
        "capsule"@ != "icosahedron"@,
        "capsule"@ != "dodecahedron"@,
        "capsule"@ != "dodecahedron_center"@,
        "capsule"@ != "c60"@,
        "capsule"@ != "c60_center"@,
        "capsule"@ != "nothing"@,
        "cone"@ != "torus"@,
        "cone"@ != "r_torus"@,
        "cone"@ != "ring"@,
        "cone"@ != "tube"@,
        "cone"@ != "half_pipe"@,
        "cone"@ != "pin"@,
        "cone"@ != "revolution"@,
        "cone"@ != "icosahedron"@,
        "cone"@ != "dodecahedron"@,
        "cone"@ != "dodecahedron_center"@,
        "cone"@ != "c60"@,
        "cone"@ != "c60_center"@,
        "cone"@ != "nothing"@,
        "torus"@ != "r_torus"@,
        "torus"@ != "ring"@,
        "torus"@ != "tube"@,
        "torus"@ != "half_pipe"@,
        "torus"@ != "pin"@,
        "torus"@ != "revolution"@,
        "torus"@ != "icosahedron"@,
        "torus"@ != "dodecahedron"@,
        "torus"@ != "dodecahedron_center"@,
        "torus"@ != "c60"@,
        "torus"@ != "c60_center"@,
        "torus"@ != "nothing"@,
        "r_torus"@ != "ring"@,
        "r_torus"@ != "tube"@,
        "r_torus"@ != "half_pipe"@,
        "r_torus"@ != "pin"@,
        "r_torus"@ != "revolution"@,
        "r_torus"@ != "icosahedron"@,
        "r_torus"@ != "dodecahedron"@,
        "r_torus"@ != "dodecahedron_center"@,
        "r_torus"@ != "c60"@,
        "r_torus"@ != "c60_center"@,
        "r_torus"@ != "nothing"@,
        "ring"@ != "tube"@,
        "ring"@ != "half_pipe"@,
        "ring"@ != "pin"@,
        "ring"@ != "revolution"@,
        "ring"@ != "icosahedron"@,
        "ring"@ != "dodecahedron"@,
        "ring"@ != "dodecahedron_center"@,
        "ring"@ != "c60"@,
        "ring"@ != "c60_center"@,
        "ring"@ != "nothing"@,
        "tube"@ != "half_pipe"@,
        "tube"@ != "pin"@,
        "tube"@ != "revolution"@,
        "tube"@ != "icosahedron"@,
        "tube"@ != "dodecahedron"@,
        "tube"@ != "dodecahedron_center"@,
        "tube"@ != "c60"@,
        "tube"@ != "c60_center"@,
        "tube"@ != "nothing"@,
        "half_pipe"@ != "pin"@,
        "half_pipe"@ != "revolution"@,
        "half_pipe"@ != "icosahedron"@,
        "half_pipe"@ != "dodecahedron"@,
        "half_pipe"@ != "dodecahedron_center"@,
        "half_pipe"@ != "c60"@,
        "half_pipe"@ != "c60_center"@,
        "half_pipe"@ != "nothing"@,
        "pin"@ != "revolution"@,
        "pin"@ != "icosahedron"@,
        "pin"@ != "dodecahedron"@,
        "pin"@ != "dodecahedron_center"@,
        "pin"@ != "c60"@,
        "pin"@ != "c60_center"@,
        "pin"@ != "nothing"@,
        "revolution"@ != "icosahedron"@,
        "revolution"@ != "dodecahedron"@,
        "revolution"@ != "dodecahedron_center"@,
        "revolution"@ != "c60"@,
        "revolution"@ != "c60_center"@,
        "revolution"@ != "nothing"@,
        "icosahedron"@ != "dodecahedron"@,
        "icosahedron"@ != "dodecahedron_center"@,
        "icosahedron"@ != "c60"@,
        "icosahedron"@ != "c60_center"@,
        "icosahedron"@ != "nothing"@,
        "dodecahedron"@ != "dodecahedron_center"@,
        "dodecahedron"@ != "c60"@,
        "dodecahedron"@ != "c60_center"@,
        "dodecahedron"@ != "nothing"@,
        "dodecahedron_center"@ != "c60"@,
        "dodecahedron_center"@ != "c60_center"@,
        "dodecahedron_center"@ != "nothing"@,
        "c60"@ != "c60_center"@,
        "c60"@ != "nothing"@,
        "c60_center"@ != "nothing"@,
{
    reveal_strlit("tetra");
    reveal_strlit("cube");
    reveal_strlit("cube_center");
    reveal_strlit("octa");
    reveal_strlit("r_sphere");
    reveal_strlit("cylinder");
    reveal_strlit("capsule");
    reveal_strlit("cone");
    reveal_strlit("torus");
    reveal_strlit("r_torus");
    reveal_strlit("ring");
    reveal_strlit("tube");
    reveal_strlit("half_pipe");
    reveal_strlit("pin");
    reveal_strlit("revolution");
    reveal_strlit("icosahedron");
    reveal_strlit("dodecahedron");
    reveal_strlit("dodecahedron_center");
    reveal_strlit("c60");
    reveal_strlit("c60_center");
    reveal_strlit("nothing");
    assert("tetra"@.len() == 5);
    assert("cube"@.len() == 4);
    assert("cube_center"@.len() == 11);
    assert("octa"@.len() == 4);
    assert("r_sphere"@.len() == 8);
    assert("cylinder"@.len() == 8);
    assert("capsule"@.len() == 7);
    assert("cone"@.len() == 4);
    assert("torus"@.len() == 5);
    assert("r_torus"@.len() == 7);
    assert("ring"@.len() == 4);
    assert("tube"@.len() == 4);
    assert("half_pipe"@.len() == 9);
    assert("pin"@.len() == 3);
    assert("revolution"@.len() == 10);
    assert("icosahedron"@.len() == 11);
    assert("dodecahedron"@.len() == 12);
    assert("dodecahedron_center"@.len() == 19);
    assert("c60"@.len() == 3);
    assert("c60_center"@.len() == 10);
    assert("nothing"@.len() == 7);
    assert("tetra"@[1] != "torus"@[1]);
    assert("cube"@[0] != "octa"@[0]);
    assert("cube"@[1] != "cone"@[1]);
    assert("cube"@[0] != "ring"@[0]);
    assert("cube"@[0] != "tube"@[0]);
    assert("cube_center"@[0] != "icosahedron"@[0]);
    assert("octa"@[0] != "cone"@[0]);
    assert("octa"@[0] != "ring"@[0]);
    assert("octa"@[0] != "tube"@[0]);
    assert("r_sphere"@[0] != "cylinder"@[0]);
    assert("capsule"@[0] != "r_torus"@[0]);
    assert("capsule"@[0] != "nothing"@[0]);
    assert("cone"@[0] != "ring"@[0]);
    assert("cone"@[0] != "tube"@[0]);
    assert("r_torus"@[0] != "nothing"@[0]);
    assert("ring"@[0] != "tube"@[0]);
    assert("pin"@[0] != "c60"@[0]);
    assert("revolution"@[0] != "c60_center"@[0]);
}

} // verus!
