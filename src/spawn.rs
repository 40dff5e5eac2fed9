use vstd::prelude::*;

verus! {

/// How a set of rays is laid out around one origin.
#[derive(Clone, Copy, Debug, PartialEq, Eq, Structural)]
pub enum SpawnMode {
    /// Rays evenly spaced over a full turn.
    LightBulb,
    /// One ray pointing at a tracked target.
    SingleRay,
    /// Rays spread over a field of view centred on a tracked heading.
    Fov,
}

/// A ray's angle as the fraction `num / den` of its mode's angular range:
/// of a full turn from the x axis for `LightBulb`, of the field of view from
/// the tracked heading for `Fov` and `SingleRay`.
#[derive(Clone, Copy, Debug, PartialEq, Eq, Structural)]
pub struct AngleSlot {
    pub num: i64,
    pub den: i64,
}

/// How many rays a mode spawns for a requested count.
pub open spec fn ray_count(mode: SpawnMode, ray_num: nat) -> nat {
    match mode {
        SpawnMode::SingleRay => 1,
        _ => ray_num,
    }
}

/// The slot of ray `i`. In a fan of `n >= 2` rays, ray `i` sits at
/// `(2i - (n - 1)) / (2(n - 1))` of the field of view, so the rays run
/// linearly from minus half of it to plus half of it.
pub open spec fn slot_of(mode: SpawnMode, ray_num: nat, i: int) -> AngleSlot {
    match mode {
        SpawnMode::LightBulb => AngleSlot { num: i as i64, den: ray_num as i64 },
        SpawnMode::SingleRay => AngleSlot { num: 0, den: 1 },
        SpawnMode::Fov => if ray_num <= 1 {
            AngleSlot { num: 0, den: 1 }
        } else {
            AngleSlot { num: (2 * i - (ray_num - 1)) as i64, den: (2 * (ray_num - 1)) as i64 }
        },
    }
}

/// The angle slots of the rays that `mode` spawns for `ray_num`, in order.
pub fn spawn_slots(mode: SpawnMode, ray_num: usize) -> (r: Vec<AngleSlot>)
    requires
        ray_num <= 0x1fff_ffff_ffff_ffff,
    ensures
        r@.len() == ray_count(mode, ray_num as nat),
        forall|i: int| 0 <= i < r@.len() ==> r@[i] == slot_of(mode, ray_num as nat, i),
{
    let mut r: Vec<AngleSlot> = Vec::new();
    match mode {
        SpawnMode::SingleRay => {
            r.push(AngleSlot { num: 0, den: 1 });
        },
        SpawnMode::LightBulb => {
            let mut i: usize = 0;
            while i < ray_num
                invariant
                    mode == SpawnMode::LightBulb,
                    ray_num <= 0x1fff_ffff_ffff_ffff,
                    i <= ray_num,
                    r@.len() == i,
                    forall|k: int| 0 <= k < i ==> r@[k] == slot_of(mode, ray_num as nat, k),
                decreases ray_num - i,
            {
                r.push(AngleSlot { num: i as i64, den: ray_num as i64 });
                i = i + 1;
            }
        },
        SpawnMode::Fov => {
            if ray_num == 1 {
                r.push(AngleSlot { num: 0, den: 1 });
            } else {
                let n: i64 = ray_num as i64;
                let mut i: usize = 0;
                while i < ray_num
                    invariant
                        mode == SpawnMode::Fov,
                        ray_num <= 0x1fff_ffff_ffff_ffff,
                        ray_num != 1,
                        n == ray_num,
                        i <= ray_num,
                        r@.len() == i,
                        forall|k: int| 0 <= k < i ==> r@[k] == slot_of(mode, ray_num as nat, k),
                    decreases ray_num - i,
                {
                    let k: i64 = i as i64;
                    r.push(AngleSlot { num: 2 * k - (n - 1), den: 2 * (n - 1) });
                    i = i + 1;
                }
            }
        },
    }
    r
}

/// A field-of-view fan of two or more rays is evenly spaced, runs from
/// minus half of the field of view to plus half of it (so it is centred on
/// the heading and spans all of it), and gives no two rays the same angle.
pub proof fn lemma_fov_fan_even(ray_num: nat, i: int, j: int)
    requires
        2 <= ray_num <= 0x1fff_ffff_ffff_ffff,
        0 <= i < ray_num,
        0 <= j < ray_num,
    ensures
        slot_of(SpawnMode::Fov, ray_num, i).den == slot_of(SpawnMode::Fov, ray_num, j).den,
        slot_of(SpawnMode::Fov, ray_num, j).num - slot_of(SpawnMode::Fov, ray_num, i).num == 2 * (j - i),
        slot_of(SpawnMode::Fov, ray_num, 0).num * 2 == -slot_of(SpawnMode::Fov, ray_num, 0).den,
        slot_of(SpawnMode::Fov, ray_num, ray_num - 1).num * 2 == slot_of(SpawnMode::Fov, ray_num, 0).den,
        i != j ==> slot_of(SpawnMode::Fov, ray_num, i) != slot_of(SpawnMode::Fov, ray_num, j),
{
}

} // verus!
