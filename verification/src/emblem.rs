//! The emblem's static design data: the boundary polygons of the letter
//! mark at its center, enumerated once at scene setup and handed to the
//! polygon extrusion builder.

use vstd::prelude::*;

use crate::fixed::COORD_LIMIT;
use crate::mesh::Vec2Fx;

verus! {

/// One named sub-shape of the letter mark: an ordered loop of boundary
/// points forming a simple polygon.
#[derive(Clone)]
pub struct RPartDefinition {
    pub name: &'static str,
    pub points: Vec<Vec2Fx>,
}

/// The exact boundary points of part `k` of the letter mark, in drawing
/// order: the design table that [`get_all_r_parts`] promises to return.
pub open spec fn r_part_points(k: int) -> Seq<Vec2Fx> {
    if k == 0 {
        seq![
            Vec2Fx { x: -140_000_000i64, y: 90_000_000 },
            Vec2Fx { x: 60_000_000, y: 90_000_000 },
            Vec2Fx { x: 60_000_000, y: 50_000_000 },
            Vec2Fx { x: -100_000_000i64, y: 50_000_000 },
        ]
    } else if k == 1 {
        seq![
            Vec2Fx { x: -80_000_000i64, y: 50_000_000 },
            Vec2Fx { x: -30_000_000i64, y: 50_000_000 },
            Vec2Fx { x: -30_000_000i64, y: -50_000_000i64 },
            Vec2Fx { x: -80_000_000i64, y: -50_000_000i64 },
        ]
    } else if k == 2 {
        seq![
            Vec2Fx { x: 60_000_000, y: 90_000_000 },
            Vec2Fx { x: 85_000_000, y: 60_000_000 },
            Vec2Fx { x: 100_000_000, y: 30_000_000 },
            Vec2Fx { x: 85_000_000, y: 0 },
            Vec2Fx { x: 60_000_000, y: -30_000_000i64 },
        ]
    } else if k == 3 {
        seq![
            Vec2Fx { x: 60_000_000, y: 50_000_000 },
            Vec2Fx { x: 40_000_000, y: 50_000_000 },
            Vec2Fx { x: 60_000_000, y: 10_000_000 },
            Vec2Fx { x: 40_000_000, y: 10_000_000 },
        ]
    } else if k == 4 {
        seq![
            Vec2Fx { x: -80_000_000i64, y: -50_000_000i64 },
            Vec2Fx { x: -10_000_000i64, y: -50_000_000i64 },
            Vec2Fx { x: -10_000_000i64, y: -80_000_000i64 },
            Vec2Fx { x: -140_000_000i64, y: -80_000_000i64 },
            Vec2Fx { x: -160_000_000i64, y: -50_000_000i64 },
        ]
    } else if k == 5 {
        seq![
            Vec2Fx { x: 60_000_000, y: -30_000_000i64 },
            Vec2Fx { x: 60_000_000, y: 10_000_000 },
            Vec2Fx { x: -30_000_000i64, y: 10_000_000 },
            Vec2Fx { x: -30_000_000i64, y: -30_000_000i64 },
        ]
    } else if k == 6 {
        seq![
            Vec2Fx { x: 60_000_000, y: -30_000_000i64 },
            Vec2Fx { x: 20_000_000, y: -30_000_000i64 },
            Vec2Fx { x: 60_000_000, y: -50_000_000i64 },
            Vec2Fx { x: 100_000_000, y: -50_000_000i64 },
        ]
    } else {
        seq![
            Vec2Fx { x: 160_000_000, y: -50_000_000i64 },
            Vec2Fx { x: 30_000_000, y: -50_000_000i64 },
            Vec2Fx { x: 30_000_000, y: -80_000_000i64 },
            Vec2Fx { x: 120_000_000, y: -80_000_000i64 },
        ]
    }
}

/// All sub-shapes of the letter mark, in drawing order: exactly the eight
/// named parts of [`r_part_points`]. Every part has at least three boundary
/// points, so the polygon builder accepts each, and every coordinate is
/// small enough for the layout arithmetic.
pub fn get_all_r_parts() -> (r: Vec<RPartDefinition>)
    ensures
        r@.len() == 8,
        forall|k: int| 0 <= k < 8 ==> #[trigger] r@[k].points@ == r_part_points(k),
        r@[0].name@ == "Haut du R"@,
        r@[1].name@ == "Gauche du R"@,
        r@[2].name@ == "Arrondi du R"@,
        r@[3].name@ == "Centre du R"@,
        r@[4].name@ == "Pied gauche du R"@,
        r@[5].name@ == "Milieu du R"@,
        r@[6].name@ == "Jambe droite du R"@,
        r@[7].name@ == "Pied droit du R"@,
        forall|k: int| 0 <= k < 8 ==> #[trigger] r@[k].points@.len() >= 3,
        forall|k: int, j: int|
            0 <= k < 8 && 0 <= j < r@[k].points@.len() ==> -COORD_LIMIT
                <= #[trigger] r@[k].points@[j].x <= COORD_LIMIT && -COORD_LIMIT
                <= r@[k].points@[j].y <= COORD_LIMIT,
{
    let mut parts: Vec<RPartDefinition> = Vec::new();

    let mut pts: Vec<Vec2Fx> = Vec::new();
    pts.push(Vec2Fx { x: -140_000_000, y: 90_000_000 });
    pts.push(Vec2Fx { x: 60_000_000, y: 90_000_000 });
    pts.push(Vec2Fx { x: 60_000_000, y: 50_000_000 });
    pts.push(Vec2Fx { x: -100_000_000, y: 50_000_000 });
    parts.push(RPartDefinition { name: "Haut du R", points: pts });

    let mut pts: Vec<Vec2Fx> = Vec::new();
    pts.push(Vec2Fx { x: -80_000_000, y: 50_000_000 });
    pts.push(Vec2Fx { x: -30_000_000, y: 50_000_000 });
    pts.push(Vec2Fx { x: -30_000_000, y: -50_000_000 });
    pts.push(Vec2Fx { x: -80_000_000, y: -50_000_000 });
    parts.push(RPartDefinition { name: "Gauche du R", points: pts });

    let mut pts: Vec<Vec2Fx> = Vec::new();
    pts.push(Vec2Fx { x: 60_000_000, y: 90_000_000 });
    pts.push(Vec2Fx { x: 85_000_000, y: 60_000_000 });
    pts.push(Vec2Fx { x: 100_000_000, y: 30_000_000 });
    pts.push(Vec2Fx { x: 85_000_000, y: 0 });
    pts.push(Vec2Fx { x: 60_000_000, y: -30_000_000 });
    parts.push(RPartDefinition { name: "Arrondi du R", points: pts });

    let mut pts: Vec<Vec2Fx> = Vec::new();
    pts.push(Vec2Fx { x: 60_000_000, y: 50_000_000 });
    pts.push(Vec2Fx { x: 40_000_000, y: 50_000_000 });
    pts.push(Vec2Fx { x: 60_000_000, y: 10_000_000 });
    pts.push(Vec2Fx { x: 40_000_000, y: 10_000_000 });
    parts.push(RPartDefinition { name: "Centre du R", points: pts });

    let mut pts: Vec<Vec2Fx> = Vec::new();
    pts.push(Vec2Fx { x: -80_000_000, y: -50_000_000 });
    pts.push(Vec2Fx { x: -10_000_000, y: -50_000_000 });
    pts.push(Vec2Fx { x: -10_000_000, y: -80_000_000 });
    pts.push(Vec2Fx { x: -140_000_000, y: -80_000_000 });
    pts.push(Vec2Fx { x: -160_000_000, y: -50_000_000 });
    parts.push(RPartDefinition { name: "Pied gauche du R", points: pts });

    let mut pts: Vec<Vec2Fx> = Vec::new();
    pts.push(Vec2Fx { x: 60_000_000, y: -30_000_000 });
    pts.push(Vec2Fx { x: 60_000_000, y: 10_000_000 });
    pts.push(Vec2Fx { x: -30_000_000, y: 10_000_000 });
    pts.push(Vec2Fx { x: -30_000_000, y: -30_000_000 });
    parts.push(RPartDefinition { name: "Milieu du R", points: pts });

    let mut pts: Vec<Vec2Fx> = Vec::new();
    pts.push(Vec2Fx { x: 60_000_000, y: -30_000_000 });
    pts.push(Vec2Fx { x: 20_000_000, y: -30_000_000 });
    pts.push(Vec2Fx { x: 60_000_000, y: -50_000_000 });
    pts.push(Vec2Fx { x: 100_000_000, y: -50_000_000 });
    parts.push(RPartDefinition { name: "Jambe droite du R", points: pts });

    let mut pts: Vec<Vec2Fx> = Vec::new();
    pts.push(Vec2Fx { x: 160_000_000, y: -50_000_000 });
    pts.push(Vec2Fx { x: 30_000_000, y: -50_000_000 });
    pts.push(Vec2Fx { x: 30_000_000, y: -80_000_000 });
    pts.push(Vec2Fx { x: 120_000_000, y: -80_000_000 });
    parts.push(RPartDefinition { name: "Pied droit du R", points: pts });

    proof {
        assert(parts@[0].points@ =~= r_part_points(0));
        assert(parts@[1].points@ =~= r_part_points(1));
        assert(parts@[2].points@ =~= r_part_points(2));
        assert(parts@[3].points@ =~= r_part_points(3));
        assert(parts@[4].points@ =~= r_part_points(4));
        assert(parts@[5].points@ =~= r_part_points(5));
        assert(parts@[6].points@ =~= r_part_points(6));
        assert(parts@[7].points@ =~= r_part_points(7));
    }
    parts
}

} // verus!
