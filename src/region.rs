use vstd::prelude::*;

verus! {

/// Largest magnitude of any coordinate or extent in a well-formed layout.
pub const LIMIT: i64 = 1_000_000_000;

/// A disk in the horizontal plane, centred at `(cx, cz)`.
#[derive(Clone, Copy, Debug)]
pub struct Disk {
    pub cx: i64,
    pub cz: i64,
    pub radius: i64,
}

/// An axis-aligned square in the horizontal plane, centred at `(cx, cz)`.
#[derive(Clone, Copy, Debug)]
pub struct SquareArea {
    pub cx: i64,
    pub cz: i64,
    pub half: i64,
}

/// The region a sample was classified into.
#[derive(Clone, Copy, Debug, PartialEq, Eq, Structural)]
pub enum Region {
    Circle,
    Square,
}

/// Failures of the simulation core.
#[derive(Clone, Copy, Debug, PartialEq, Eq, Structural)]
pub enum SimError {
    /// A position lies inside both detection regions at once.
    RegionMembershipAmbiguous,
}

pub open spec fn in_limit(v: int) -> bool {
    -LIMIT <= v <= LIMIT
}

impl Disk {
    pub open spec fn wf(&self) -> bool {
        in_limit(self.cx as int) && in_limit(self.cz as int) && 0 <= self.radius <= LIMIT
    }

    /// The closed disk holds the point `(x, z)`.
    pub open spec fn holds(&self, x: int, z: int) -> bool {
        (x - self.cx) * (x - self.cx) + (z - self.cz) * (z - self.cz)
            <= self.radius * self.radius
    }

    pub fn contains(&self, x: i64, z: i64) -> (r: bool)
        requires
            self.wf(),
            in_limit(x as int),
            in_limit(z as int),
        ensures
            r == self.holds(x as int, z as int),
    {
        let dx = x as i128 - self.cx as i128;
        let dz = z as i128 - self.cz as i128;
        let rr = self.radius as i128;
        assert(dx * dx <= 4_000_000_000_000_000_000) by (nonlinear_arith)
            requires
                -2_000_000_000 <= dx <= 2_000_000_000,
        ;
        assert(dz * dz <= 4_000_000_000_000_000_000) by (nonlinear_arith)
            requires
                -2_000_000_000 <= dz <= 2_000_000_000,
        ;
        assert(rr * rr <= 1_000_000_000_000_000_000) by (nonlinear_arith)
            requires
                0 <= rr <= 1_000_000_000,
        ;
        assert(0 <= dx * dx && 0 <= dz * dz) by (nonlinear_arith);
        dx * dx + dz * dz <= rr * rr
    }
}

impl SquareArea {
    pub open spec fn wf(&self) -> bool {
        in_limit(self.cx as int) && in_limit(self.cz as int) && 0 <= self.half <= LIMIT
    }

    /// The closed square holds the point `(x, z)`.
    pub open spec fn holds(&self, x: int, z: int) -> bool {
        -self.half <= x - self.cx <= self.half && -self.half <= z - self.cz <= self.half
    }

    pub fn contains(&self, x: i64, z: i64) -> (r: bool)
        requires
            self.wf(),
            in_limit(x as int),
            in_limit(z as int),
        ensures
            r == self.holds(x as int, z as int),
    {
        let dx = x - self.cx;
        let dz = z - self.cz;
        -self.half <= dx && dx <= self.half && -self.half <= dz && dz <= self.half
    }
}

/// The two detection regions of a layout.
#[derive(Clone, Copy, Debug)]
pub struct Regions {
    pub circle: Disk,
    pub square: SquareArea,
}

impl Regions {
    pub open spec fn wf(&self) -> bool {
        self.circle.wf() && self.square.wf()
    }

    /// What a point at the detection plane is classified as.
    pub open spec fn classify_spec(&self, x: int, z: int) -> Result<Option<Region>, SimError> {
        let c = self.circle.holds(x, z);
        let s = self.square.holds(x, z);
        if c && s {
            Err(SimError::RegionMembershipAmbiguous)
        } else if c {
            Ok(Some(Region::Circle))
        } else if s {
            Ok(Some(Region::Square))
        } else {
            Ok(None)
        }
    }

    /// Classifies a point at the detection plane: inside the disk, inside the
    /// square, or in neither; a point inside both is an error.
    pub fn classify(&self, x: i64, z: i64) -> (r: Result<Option<Region>, SimError>)
        requires
            self.wf(),
            in_limit(x as int),
            in_limit(z as int),
        ensures
            r == self.classify_spec(x as int, z as int),
    {
        let c = self.circle.contains(x, z);
        let s = self.square.contains(x, z);
        if c && s {
            Err(SimError::RegionMembershipAmbiguous)
        } else if c {
            Ok(Some(Region::Circle))
        } else if s {
            Ok(Some(Region::Square))
        } else {
            Ok(None)
        }
    }
}

} // verus!
