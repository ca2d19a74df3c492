//! A plain model of the physical devices that the driver reports, and the
//! policy that picks one of them.
use vstd::prelude::*;

verus! {

/// The class of a physical device, as the driver reports it.
#[derive(Clone, Copy, Debug, PartialEq, Eq, Structural)]
pub enum DeviceClass {
    DiscreteGpu,
    IntegratedGpu,
    VirtualGpu,
    Cpu,
    Other,
}

/// Rank of a device class: a lower rank is preferred.
pub open spec fn class_rank(c: DeviceClass) -> nat {
    match c {
        DeviceClass::DiscreteGpu => 0,
        DeviceClass::IntegratedGpu => 1,
        DeviceClass::VirtualGpu => 2,
        DeviceClass::Cpu => 3,
        DeviceClass::Other => 4,
    }
}

/// What one queue family of a device offers.
#[derive(Clone, Copy, Debug, PartialEq, Eq, Structural)]
pub struct QueueFamilyInfo {
    /// The family supports graphics operations.
    pub graphics: bool,
    /// The family can present to the surface that selection was asked about.
    pub presentable: bool,
}

/// What selection reads of one physical device.
#[derive(Clone, Debug)]
pub struct DeviceInfo {
    /// Names of the device-level extensions that the device supports.
    pub extensions: Vec<String>,
    pub class: DeviceClass,
    /// The device's queue families, in index order.
    pub queue_families: Vec<QueueFamilyInfo>,
}

/// A family qualifies when it supports graphics and, where a surface is given,
/// presentation on it.
pub open spec fn family_qualifies(f: QueueFamilyInfo, with_surface: bool) -> bool {
    f.graphics && (!with_surface || f.presentable)
}

/// `k` is the index of the first qualifying family.
pub open spec fn is_first_family(fams: Seq<QueueFamilyInfo>, with_surface: bool, k: int) -> bool {
    &&& 0 <= k < fams.len()
    &&& family_qualifies(fams[k], with_surface)
    &&& forall|j: int| 0 <= j < k ==> !family_qualifies(#[trigger] fams[j], with_surface)
}

pub open spec fn has_qualifying_family(fams: Seq<QueueFamilyInfo>, with_surface: bool) -> bool {
    exists|k: int| 0 <= k < fams.len() && family_qualifies(#[trigger] fams[k], with_surface)
}

/// `name` is among the extension names `exts`.
pub open spec fn has_extension(exts: Seq<String>, name: Seq<char>) -> bool {
    exists|j: int| 0 <= j < exts.len() && (#[trigger] exts[j])@ == name
}

/// The names held by a list of strings.
pub open spec fn names_of(v: Seq<String>) -> Seq<Seq<char>> {
    v.map_values(|s: String| s@)
}

/// Every required extension name is among `exts`.
pub open spec fn supports_all(exts: Seq<String>, required: Seq<Seq<char>>) -> bool {
    forall|i: int| 0 <= i < required.len() ==> has_extension(exts, #[trigger] required[i])
}

/// A device qualifies when it supports every required extension and has a
/// qualifying queue family.
pub open spec fn device_qualifies(d: DeviceInfo, required: Seq<Seq<char>>, with_surface: bool) -> bool {
    supports_all(d.extensions@, required) && has_qualifying_family(d.queue_families@, with_surface)
}

/// Device `k` is the one selection picks: it qualifies, no qualifying device has
/// a better class, and every earlier qualifying device has a worse class.
pub open spec fn is_selection(
    devices: Seq<DeviceInfo>,
    required: Seq<Seq<char>>,
    with_surface: bool,
    k: int,
) -> bool {
    &&& 0 <= k < devices.len()
    &&& device_qualifies(devices[k], required, with_surface)
    &&& forall|j: int|
        0 <= j < devices.len() && device_qualifies(#[trigger] devices[j], required, with_surface)
            ==> class_rank(devices[k].class) <= class_rank(devices[j].class)
    &&& forall|j: int|
        0 <= j < k && device_qualifies(#[trigger] devices[j], required, with_surface)
            ==> class_rank(devices[k].class) < class_rank(devices[j].class)
}

pub open spec fn none_qualifies(devices: Seq<DeviceInfo>, required: Seq<Seq<char>>, with_surface: bool) -> bool {
    forall|j: int| 0 <= j < devices.len() ==> !device_qualifies(#[trigger] devices[j], required, with_surface)
}

/// Selection is deterministic: on the same devices, requirements and surface
/// there is exactly one device that selection may pick.
pub proof fn lemma_selection_unique(
    devices: Seq<DeviceInfo>,
    required: Seq<Seq<char>>,
    with_surface: bool,
    k1: int,
    k2: int,
)
    requires
        is_selection(devices, required, with_surface, k1),
        is_selection(devices, required, with_surface, k2),
    ensures
        k1 == k2,
{
    if k1 < k2 {
        assert(device_qualifies(devices[k1], required, with_surface));
    } else if k2 < k1 {
        assert(device_qualifies(devices[k2], required, with_surface));
    }
}

/// Where a discrete GPU and an integrated GPU both qualify, the selected device
/// is a discrete GPU, whatever the order in which they are listed.
pub proof fn lemma_discrete_preferred(
    devices: Seq<DeviceInfo>,
    required: Seq<Seq<char>>,
    with_surface: bool,
    discrete: int,
    integrated: int,
    k: int,
)
    requires
        0 <= discrete < devices.len(),
        0 <= integrated < devices.len(),
        devices[discrete].class == DeviceClass::DiscreteGpu,
        devices[integrated].class == DeviceClass::IntegratedGpu,
        device_qualifies(devices[discrete], required, with_surface),
        device_qualifies(devices[integrated], required, with_surface),
        is_selection(devices, required, with_surface, k),
    ensures
        devices[k].class == DeviceClass::DiscreteGpu,
        k != integrated,
{
    assert(class_rank(devices[k].class) <= class_rank(devices[discrete].class));
}

/// Of two qualifying devices of the same class, the one listed later is never
/// selected; where no other device qualifies, the earlier one is.
pub proof fn lemma_first_of_equals(
    devices: Seq<DeviceInfo>,
    required: Seq<Seq<char>>,
    with_surface: bool,
    first: int,
    second: int,
    k: int,
)
    requires
        0 <= first < second < devices.len(),
        devices[first].class == devices[second].class,
        device_qualifies(devices[first], required, with_surface),
        device_qualifies(devices[second], required, with_surface),
        is_selection(devices, required, with_surface, k),
    ensures
        k != second,
        (forall|j: int|
            0 <= j < devices.len() && j != first && j != second
                ==> !device_qualifies(#[trigger] devices[j], required, with_surface)) ==> k == first,
{
    if k == second {
        assert(class_rank(devices[k].class) < class_rank(devices[first].class));
    }
    if forall|j: int|
        0 <= j < devices.len() && j != first && j != second
            ==> !device_qualifies(#[trigger] devices[j], required, with_surface) {
        assert(device_qualifies(devices[k], required, with_surface));
    }
}

/// The bit of a queue family's flags that marks graphics support
/// (`VK_QUEUE_GRAPHICS_BIT`).
pub const QUEUE_GRAPHICS_BIT: u32 = 1;

/// The family flags `bits` include graphics.
pub open spec fn has_graphics_bit(bits: u32) -> bool {
    bits & QUEUE_GRAPHICS_BIT != 0
}

/// One of the first `n` flag pairs names `name` and is set.
pub open spec fn flagged_before(flags: Seq<(String, bool)>, n: int, name: Seq<char>) -> bool {
    exists|m: int| 0 <= m < n && (#[trigger] flags[m]).1 && flags[m].0@ == name
}

/// The description of a device from what the driver answered: the names of
/// the extensions flagged as supported, the class, and for each queue family
/// whether its flags include graphics, and whether they do and the family
/// answered `Some(true)` when asked about presentation.
pub fn device_info_from(
    flags: &Vec<(String, bool)>,
    family_flags: &Vec<u32>,
    support: &Vec<Option<bool>>,
    class: DeviceClass,
) -> (r: DeviceInfo)
    requires
        support@.len() == family_flags@.len(),
    ensures
        forall|j: int| 0 <= j < r.extensions@.len() ==> flagged_before(flags@, flags@.len() as int, (#[trigger] r.extensions@[j])@),
        forall|i: int| 0 <= i < flags@.len() && (#[trigger] flags@[i]).1 ==> has_extension(r.extensions@, flags@[i].0@),
        r.class == class,
        r.queue_families@.len() == family_flags@.len(),
        forall|k: int| 0 <= k < family_flags@.len() ==> (#[trigger] r.queue_families@[k]) == (QueueFamilyInfo {
            graphics: has_graphics_bit(family_flags@[k]),
            presentable: has_graphics_bit(family_flags@[k]) && support@[k] == Some(true),
        }),
{
    let mut extensions: Vec<String> = Vec::new();
    let mut i: usize = 0;
    while i < flags.len()
        invariant
            i <= flags@.len(),
            forall|j: int| 0 <= j < extensions@.len() ==> flagged_before(flags@, i as int, (#[trigger] extensions@[j])@),
            forall|m: int| 0 <= m < i && (#[trigger] flags@[m]).1 ==> has_extension(extensions@, flags@[m].0@),
        decreases flags@.len() - i,
    {
        proof {
            assert forall|j: int| 0 <= j < extensions@.len() implies flagged_before(flags@, i + 1, (#[trigger] extensions@[j])@) by {
                let m = choose|m: int| 0 <= m < i && (#[trigger] flags@[m]).1 && flags@[m].0@ == extensions@[j]@;
                assert(0 <= m < i + 1);
            }
        }
        if flags[i].1 {
            let name = flags[i].0.clone();
            let ghost before = extensions@;
            extensions.push(name);
            proof {
                let n = extensions@.len() - 1;
                assert(extensions@[n] == name);
                assert forall|m: int| 0 <= m < i + 1 && (#[trigger] flags@[m]).1 implies has_extension(extensions@, flags@[m].0@) by {
                    if m < i {
                        let jj = choose|jj: int| 0 <= jj < before.len() && (#[trigger] before[jj])@ == flags@[m].0@;
                        assert(extensions@[jj] == before[jj]);
                    } else {
                        assert(extensions@[n]@ == flags@[m].0@);
                    }
                }
                assert forall|j: int| 0 <= j < extensions@.len() implies flagged_before(flags@, i + 1, (#[trigger] extensions@[j])@) by {
                    if j < n {
                        assert(extensions@[j] == before[j]);
                        let m = choose|m: int| 0 <= m < i && (#[trigger] flags@[m]).1 && flags@[m].0@ == before[j]@;
                        assert(0 <= m < i + 1 && flags@[m].1 && flags@[m].0@ == extensions@[j]@);
                    } else {
                        assert(flags@[i as int].0@ == extensions@[j]@);
                        assert(0 <= i < i + 1 && flags@[i as int].1);
                    }
                }
            }
        }
        i = i + 1;
    }
    let mut queue_families: Vec<QueueFamilyInfo> = Vec::new();
    let mut k: usize = 0;
    while k < family_flags.len()
        invariant
            k <= family_flags@.len(),
            support@.len() == family_flags@.len(),
            queue_families@.len() == k,
            forall|j: int| 0 <= j < k ==> (#[trigger] queue_families@[j]) == (QueueFamilyInfo {
                graphics: has_graphics_bit(family_flags@[j]),
                presentable: has_graphics_bit(family_flags@[j]) && support@[j] == Some(true),
            }),
        decreases family_flags@.len() - k,
    {
        let graphics = family_flags[k] & QUEUE_GRAPHICS_BIT != 0;
        let presentable = graphics && match support[k] {
            Some(b) => b,
            None => false,
        };
        queue_families.push(QueueFamilyInfo { graphics, presentable });
        k = k + 1;
    }
    DeviceInfo { extensions, class, queue_families }
}

/// The rank of a device class; discrete GPUs rank first.
pub fn class_rank_of(c: DeviceClass) -> (r: u8)
    ensures
        r as nat == class_rank(c),
{
    match c {
        DeviceClass::DiscreteGpu => 0,
        DeviceClass::IntegratedGpu => 1,
        DeviceClass::VirtualGpu => 2,
        DeviceClass::Cpu => 3,
        DeviceClass::Other => 4,
    }
}

/// Whether `name` is among `exts`.
pub fn contains_extension(exts: &Vec<String>, name: &String) -> (r: bool)
    ensures
        r == has_extension(exts@, name@),
{
    let mut j: usize = 0;
    while j < exts.len()
        invariant
            j <= exts@.len(),
            forall|m: int| 0 <= m < j ==> (#[trigger] exts@[m])@ != name@,
        decreases exts@.len() - j,
    {
        if exts[j] == *name {
            return true;
        }
        j = j + 1;
    }
    false
}

/// Whether every name of `required` is among `exts`.
pub fn contains_all_extensions(exts: &Vec<String>, required: &Vec<String>) -> (r: bool)
    ensures
        r == supports_all(exts@, names_of(required@)),
{
    let mut i: usize = 0;
    while i < required.len()
        invariant
            i <= required@.len(),
            forall|m: int| 0 <= m < i ==> has_extension(exts@, #[trigger] names_of(required@)[m]),
        decreases required@.len() - i,
    {
        if !contains_extension(exts, &required[i]) {
            assert(names_of(required@)[i as int] == required@[i as int]@);
            return false;
        }
        i = i + 1;
    }
    true
}

/// The index of the first queue family that supports graphics and, where
/// `with_surface` holds, presentation; `None` when there is none.
pub fn first_qualifying_family(fams: &Vec<QueueFamilyInfo>, with_surface: bool) -> (r: Option<usize>)
    ensures
        r is None <==> !has_qualifying_family(fams@, with_surface),
        r matches Some(k) ==> is_first_family(fams@, with_surface, k as int),
{
    let mut k: usize = 0;
    while k < fams.len()
        invariant
            k <= fams@.len(),
            forall|j: int| 0 <= j < k ==> !family_qualifies(#[trigger] fams@[j], with_surface),
        decreases fams@.len() - k,
    {
        let f = fams[k];
        if f.graphics && (!with_surface || f.presentable) {
            return Some(k);
        }
        k = k + 1;
    }
    None
}

/// Picks a device and queue family: among the devices that support every
/// required extension and have a family with graphics (and presentation, where
/// a surface is given), the one of the best class, the first listed among
/// equals, with its first such family.
pub fn select_candidate(devices: &Vec<DeviceInfo>, required: &Vec<String>, with_surface: bool) -> (r: Option<(usize, u32)>)
    requires
        forall|i: int| 0 <= i < devices@.len() ==> (#[trigger] devices@[i]).queue_families@.len() <= u32::MAX,
    ensures
        r is None <==> none_qualifies(devices@, names_of(required@), with_surface),
        r matches Some((k, q)) ==> {
            &&& is_selection(devices@, names_of(required@), with_surface, k as int)
            &&& is_first_family(devices@[k as int].queue_families@, with_surface, q as int)
        },
{
    let mut best: Option<(usize, u32)> = None;
    let mut best_rank: u8 = 5;
    let mut i: usize = 0;
    while i < devices.len()
        invariant
            i <= devices@.len(),
            forall|m: int| 0 <= m < devices@.len() ==> (#[trigger] devices@[m]).queue_families@.len() <= u32::MAX,
            best is None ==> none_qualifies(devices@.subrange(0, i as int), names_of(required@), with_surface),
            best is None ==> best_rank == 5,
            best matches Some((k, q)) ==> {
                &&& k < i
                &&& best_rank as nat == class_rank(devices@[k as int].class)
                &&& is_selection(devices@.subrange(0, i as int), names_of(required@), with_surface, k as int)
                &&& is_first_family(devices@[k as int].queue_families@, with_surface, q as int)
            },
        decreases devices@.len() - i,
    {
        let d = &devices[i];
        if contains_all_extensions(&d.extensions, required) {
            match first_qualifying_family(&d.queue_families, with_surface) {
                Some(q) => {
                    let rank = class_rank_of(d.class);
                    if rank < best_rank {
                        best = Some((i, q as u32));
                        best_rank = rank;
                    }
                },
                None => {},
            }
        }
        proof {
            let s0 = devices@.subrange(0, i as int);
            let s1 = devices@.subrange(0, i + 1);
            assert forall|j: int| 0 <= j < i implies s1[j] == s0[j] by {}
            assert(s1[i as int] == devices@[i as int]);
        }
        i = i + 1;
    }
    proof {
        assert(devices@.subrange(0, devices@.len() as int) =~= devices@);
    }
    best
}

} // verus!
