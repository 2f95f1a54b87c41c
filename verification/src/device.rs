//! Physical-device selection: pick the first (device, queue family) pair whose
//! family advertises graphics capability and reports presentation support for
//! the target surface.

use vstd::prelude::*;
use crate::RenderError;

verus! {

/// What selection reads of one queue family: whether it advertises graphics,
/// and the outcome of the presentation-support probe for the target surface.
/// `None` means the probe itself errored; such a family is skipped (fail-open
/// to "unsupported"), never fatal.
#[derive(Clone, Copy, Debug)]
pub struct QueueFamilyInfo {
    pub supports_graphics: bool,
    pub present_support: Option<bool>,
}

/// A family qualifies when it advertises graphics and the presentation probe
/// succeeded with a positive answer.
pub open spec fn qualifies(f: QueueFamilyInfo) -> bool {
    f.supports_graphics && f.present_support == Some(true)
}

/// Whether any (device, family) pair in the enumeration qualifies.
pub open spec fn any_qualifying(devices: Seq<Vec<QueueFamilyInfo>>) -> bool {
    exists|i: int, j: int|
        0 <= i < devices.len() && 0 <= j < devices[i]@.len() && qualifies(devices[i]@[j])
}

/// Selects the first (device index, queue family index) pair, in enumeration
/// order, whose family qualifies. Fails with `NoSuitableDevice` exactly when
/// no pair qualifies.
pub fn select_device(devices: &Vec<Vec<QueueFamilyInfo>>) -> (r: Result<
    (usize, u32),
    RenderError,
>)
    requires
        forall|i: int| 0 <= i < devices@.len() ==> devices@[i]@.len() <= 0xffff_ffff,
    ensures
        match r {
            Ok((d, q)) => {
                &&& d < devices@.len()
                &&& (q as int) < devices@[d as int]@.len()
                &&& qualifies(devices@[d as int]@[q as int])
                &&& forall|i: int, j: int|
                    0 <= i < d && 0 <= j < devices@[i]@.len() ==> !qualifies(devices@[i]@[j])
                &&& forall|j: int| 0 <= j < q ==> !qualifies(devices@[d as int]@[j])
            },
            Err(e) => e == RenderError::NoSuitableDevice && !any_qualifying(devices@),
        },
        r is Ok <==> any_qualifying(devices@),
{
    let n = devices.len();
    let mut d: usize = 0;
    while d < n
        invariant
            n == devices@.len(),
            d <= n,
            forall|i: int| 0 <= i < devices@.len() ==> devices@[i]@.len() <= 0xffff_ffff,
            forall|i: int, j: int|
                0 <= i < d && 0 <= j < devices@[i]@.len() ==> !qualifies(devices@[i]@[j]),
        decreases n - d,
    {
        let families = &devices[d];
        let m = families.len();
        let mut q: usize = 0;
        while q < m
            invariant
                n == devices@.len(),
                d < n,
                families@ == devices@[d as int]@,
                m == devices@[d as int]@.len(),
                m <= 0xffff_ffff,
                q <= m,
                forall|i: int, j: int|
                    0 <= i < d && 0 <= j < devices@[i]@.len() ==> !qualifies(devices@[i]@[j]),
                forall|j: int| 0 <= j < q ==> !qualifies(devices@[d as int]@[j]),
            decreases m - q,
        {
            let f = families[q];
            let present = match f.present_support {
                Some(b) => b,
                None => false,
            };
            if f.supports_graphics && present {
                return Ok((d, q as u32));
            }
            q += 1;
        }
        d += 1;
    }
    Err(RenderError::NoSuitableDevice)
}

/// Uniqueness of selection: over any enumeration in which exactly one
/// (device, family) pair qualifies, every selection that meets the selector's
/// contract — it returns a qualifying pair — returns exactly that pair.
pub proof fn lemma_unique_qualifying_selected(
    devices: Seq<Vec<QueueFamilyInfo>>,
    d: int,
    q: int,
    rd: int,
    rq: int,
)
    requires
        0 <= d < devices.len(),
        0 <= q < devices[d]@.len(),
        qualifies(devices[d]@[q]),
        forall|i: int, j: int|
            0 <= i < devices.len() && 0 <= j < devices[i]@.len() && !(i == d && j == q)
                ==> !qualifies(devices[i]@[j]),
        0 <= rd < devices.len(),
        0 <= rq < devices[rd]@.len(),
        qualifies(devices[rd]@[rq]),
    ensures
        rd == d,
        rq == q,
{
}

} // verus!
