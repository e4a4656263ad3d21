//! Metal device selection: which GPU to use, which GPU family a device
//! belongs to, and whether devices suit Syphon.

use vstd::prelude::*;
use crate::error::SyphonError;

verus! {

/// Information about a Metal GPU device.
#[derive(Debug, Clone)]
pub struct MetalDeviceInfo {
    /// The address of the device object (`id<MTLDevice>`); 0 is no device.
    pub device_id: usize,
    /// Human-readable device name (e.g. "Apple M1 Pro").
    pub name: String,
    /// Whether this is the system's default device.
    pub is_default: bool,
    /// Whether this is a low-power (integrated) GPU.
    pub is_low_power: bool,
    /// Whether this is a removable (eGPU) device.
    pub is_removable: bool,
    /// Whether this device has unified memory (Apple Silicon, Intel integrated).
    pub has_unified_memory: bool,
    /// Recommended maximum working set size in bytes, when the device reports one.
    pub recommended_max_working_set_size: Option<u64>,
    /// Metal GPU family (e.g. "Apple7", "Mac2").
    pub gpu_family: Option<String>,
}

/// The GPU family names of two devices are both known and equal.
pub open spec fn same_family(a: Option<String>, b: Option<String>) -> bool {
    match (a, b) {
        (Some(x), Some(y)) => x@ == y@,
        _ => false,
    }
}

/// Whether devices `a` and `b` are compatible for texture sharing: on macOS,
/// the same device or two devices of the same known GPU family.
pub open spec fn compatible_for_sharing(a: MetalDeviceInfo, b: MetalDeviceInfo, on_macos: bool) -> bool {
    on_macos && (a.device_id == b.device_id || same_family(a.gpu_family, b.gpu_family))
}

/// A device that is neither low-power nor has unified memory: a discrete GPU.
pub open spec fn is_discrete(d: MetalDeviceInfo) -> bool {
    !d.is_low_power && !d.has_unified_memory
}

/// A device that has unified memory and is not low-power: Apple Silicon.
pub open spec fn is_apple_silicon(d: MetalDeviceInfo) -> bool {
    d.has_unified_memory && !d.is_low_power
}

impl MetalDeviceInfo {
    /// Builds the description of a device from the properties it reports.
    /// A reported working set size of 0 means the device reports none.
    pub fn from_properties(
        device_id: usize,
        name: String,
        is_default: bool,
        is_low_power: bool,
        is_removable: bool,
        has_unified_memory: bool,
        reported_working_set_size: u64,
        gpu_family: Option<String>,
    ) -> (info: Self)
        ensures
            info.device_id == device_id,
            info.name == name,
            info.is_default == is_default,
            info.is_low_power == is_low_power,
            info.is_removable == is_removable,
            info.has_unified_memory == has_unified_memory,
            info.recommended_max_working_set_size == (if reported_working_set_size > 0 {
                Some(reported_working_set_size)
            } else {
                None
            }),
            info.gpu_family == gpu_family,
    {
        MetalDeviceInfo {
            device_id,
            name,
            is_default,
            is_low_power,
            is_removable,
            has_unified_memory,
            recommended_max_working_set_size: if reported_working_set_size > 0 {
                Some(reported_working_set_size)
            } else {
                None
            },
            gpu_family,
        }
    }

    /// Whether this is a high-performance GPU: a discrete GPU or an Apple
    /// Silicon GPU, that is any GPU that is not low-power.
    pub fn is_high_performance(&self) -> (r: bool)
        ensures
            r == (is_apple_silicon(*self) || is_discrete(*self)),
            r == !self.is_low_power,
    {
        if self.has_unified_memory && !self.is_low_power {
            return true;
        }
        if !self.has_unified_memory && !self.is_low_power {
            return true;
        }
        false
    }

    /// Whether two descriptions are of the same physical GPU.
    pub fn is_same_device(&self, other: &MetalDeviceInfo) -> (r: bool)
        ensures
            r == (self.device_id == other.device_id),
    {
        self.device_id == other.device_id
    }

    /// Whether two devices are compatible for texture sharing: the same
    /// device, or two devices of the same known GPU family. Metal exists only
    /// on macOS; `on_macos` says whether this runs there, and elsewhere no
    /// two devices are compatible.
    pub fn is_compatible_with(&self, other: &MetalDeviceInfo, on_macos: bool) -> (r: bool)
        ensures
            r == (on_macos && (self.device_id == other.device_id || same_family(self.gpu_family, other.gpu_family))),
            r == compatible_for_sharing(*self, *other, on_macos),
    {
        if !on_macos {
            return false;
        }
        if self.is_same_device(other) {
            return true;
        }
        match (&self.gpu_family, &other.gpu_family) {
            (Some(a), Some(b)) => *a == *b,
            _ => false,
        }
    }
}

} // verus!

verus! {

/// Metal GPU family identifiers that the family lookup asks a device about.
pub const FAMILY_APPLE1: u64 = 1001;
pub const FAMILY_APPLE2: u64 = 1002;
pub const FAMILY_APPLE3: u64 = 1003;
pub const FAMILY_APPLE4: u64 = 1004;
pub const FAMILY_APPLE5: u64 = 1005;
pub const FAMILY_APPLE6: u64 = 1006;
pub const FAMILY_APPLE7: u64 = 1007;
pub const FAMILY_APPLE8: u64 = 1008;
/// Reported under the name "Mac2".
pub const FAMILY_MAC_FIRST: u64 = 5001;
/// Reported under the name "Mac1".
pub const FAMILY_MAC_SECOND: u64 = 5002;

/// The family identifiers a device is asked about, in the order they are
/// tried.
pub fn family_probe_order() -> (ids: Vec<u64>)
    ensures
        ids@ == seq![
            FAMILY_APPLE1, FAMILY_APPLE8, FAMILY_APPLE7, FAMILY_APPLE6, FAMILY_APPLE5,
            FAMILY_APPLE4, FAMILY_APPLE3, FAMILY_APPLE2, FAMILY_MAC_FIRST, FAMILY_MAC_SECOND,
        ],
{
    vec![
        FAMILY_APPLE1, FAMILY_APPLE8, FAMILY_APPLE7, FAMILY_APPLE6, FAMILY_APPLE5,
        FAMILY_APPLE4, FAMILY_APPLE3, FAMILY_APPLE2, FAMILY_MAC_FIRST, FAMILY_MAC_SECOND,
    ]
}

/// The name of the GPU family of a device that supports the families in
/// `supported`: for a device of the Apple1 family, the highest Apple family
/// it supports; otherwise "Mac2" or "Mac1" as it supports family 5001 or
/// 5002; otherwise none.
pub open spec fn gpu_family_of(supported: Seq<u64>) -> Option<Seq<char>> {
    if supported.contains(FAMILY_APPLE1) {
        if supported.contains(FAMILY_APPLE8) {
            Some("Apple8"@)
        } else if supported.contains(FAMILY_APPLE7) {
            Some("Apple7"@)
        } else if supported.contains(FAMILY_APPLE6) {
            Some("Apple6"@)
        } else if supported.contains(FAMILY_APPLE5) {
            Some("Apple5"@)
        } else if supported.contains(FAMILY_APPLE4) {
            Some("Apple4"@)
        } else if supported.contains(FAMILY_APPLE3) {
            Some("Apple3"@)
        } else if supported.contains(FAMILY_APPLE2) {
            Some("Apple2"@)
        } else {
            Some("Apple1"@)
        }
    } else if supported.contains(FAMILY_MAC_FIRST) {
        Some("Mac2"@)
    } else if supported.contains(FAMILY_MAC_SECOND) {
        Some("Mac1"@)
    } else {
        None
    }
}

fn supports(supported: &Vec<u64>, family: u64) -> (r: bool)
    ensures
        r == supported@.contains(family),
{
    let mut i: usize = 0;
    while i < supported.len()
        invariant
            i <= supported@.len(),
            forall|j: int| 0 <= j < i ==> supported@[j] != family,
        decreases supported@.len() - i,
    {
        if supported[i] == family {
            assert(supported@[i as int] == family);
            return true;
        }
        i = i + 1;
    }
    false
}

/// The name of the GPU family of a device, given the family identifiers it
/// reports supporting (see [`gpu_family_of`]).
pub fn gpu_family_name(supported: &Vec<u64>) -> (r: Option<String>)
    ensures
        match r {
            Some(name) => gpu_family_of(supported@) == Some(name@),
            None => gpu_family_of(supported@) is None,
        },
{
    let label = if supports(supported, FAMILY_APPLE1) {
        if supports(supported, FAMILY_APPLE8) {
            "Apple8"
        } else if supports(supported, FAMILY_APPLE7) {
            "Apple7"
        } else if supports(supported, FAMILY_APPLE6) {
            "Apple6"
        } else if supports(supported, FAMILY_APPLE5) {
            "Apple5"
        } else if supports(supported, FAMILY_APPLE4) {
            "Apple4"
        } else if supports(supported, FAMILY_APPLE3) {
            "Apple3"
        } else if supports(supported, FAMILY_APPLE2) {
            "Apple2"
        } else {
            "Apple1"
        }
    } else if supports(supported, FAMILY_MAC_FIRST) {
        "Mac2"
    } else if supports(supported, FAMILY_MAC_SECOND) {
        "Mac1"
    } else {
        return None;
    };
    Some(label.to_owned())
}

/// The kinds of device that the high-performance recommendation looks for,
/// in order of preference.
#[derive(Debug, Clone, Copy, PartialEq, Eq)]
pub enum DeviceKind {
    Discrete,
    AppleSilicon,
    NotLowPower,
    SystemDefault,
}

pub open spec fn of_kind(kind: DeviceKind, d: MetalDeviceInfo) -> bool {
    match kind {
        DeviceKind::Discrete => is_discrete(d),
        DeviceKind::AppleSilicon => is_apple_silicon(d),
        DeviceKind::NotLowPower => !d.is_low_power,
        DeviceKind::SystemDefault => d.is_default,
    }
}

/// No device of the list is of the kind.
pub open spec fn none_of_kind(kind: DeviceKind, devices: Seq<MetalDeviceInfo>) -> bool {
    forall|i: int| 0 <= i < devices.len() ==> !of_kind(kind, #[trigger] devices[i])
}

/// `d` is the first device of the list of the kind.
pub open spec fn first_of_kind(kind: DeviceKind, devices: Seq<MetalDeviceInfo>, d: MetalDeviceInfo) -> bool {
    exists|i: int|
        0 <= i < devices.len() && devices[i] == d && of_kind(kind, d)
            && forall|j: int| 0 <= j < i ==> !of_kind(kind, #[trigger] devices[j])
}

/// The device recommended for high-performance rendering among `devices`,
/// with `system_default` as the last resort: none when there is no device;
/// else the first discrete GPU; else the first Apple Silicon GPU; else the
/// first GPU that is not low-power; else the first device marked default;
/// else `system_default`.
pub open spec fn recommendation(devices: Seq<MetalDeviceInfo>, system_default: Option<MetalDeviceInfo>, r: Option<MetalDeviceInfo>) -> bool {
    if devices.len() == 0 {
        r is None
    } else if !none_of_kind(DeviceKind::Discrete, devices) {
        r matches Some(d) && first_of_kind(DeviceKind::Discrete, devices, d)
    } else if !none_of_kind(DeviceKind::AppleSilicon, devices) {
        r matches Some(d) && first_of_kind(DeviceKind::AppleSilicon, devices, d)
    } else if !none_of_kind(DeviceKind::NotLowPower, devices) {
        r matches Some(d) && first_of_kind(DeviceKind::NotLowPower, devices, d)
    } else if !none_of_kind(DeviceKind::SystemDefault, devices) {
        r matches Some(d) && first_of_kind(DeviceKind::SystemDefault, devices, d)
    } else {
        r == system_default
    }
}

fn is_of_kind(kind: DeviceKind, d: &MetalDeviceInfo) -> (r: bool)
    ensures
        r == of_kind(kind, *d),
{
    match kind {
        DeviceKind::Discrete => !d.is_low_power && !d.has_unified_memory,
        DeviceKind::AppleSilicon => d.has_unified_memory && !d.is_low_power,
        DeviceKind::NotLowPower => !d.is_low_power,
        DeviceKind::SystemDefault => d.is_default,
    }
}

fn position_of_kind(kind: DeviceKind, devices: &Vec<MetalDeviceInfo>) -> (r: Option<usize>)
    ensures
        r is None <==> none_of_kind(kind, devices@),
        r matches Some(i) ==> i < devices@.len() && of_kind(kind, devices@[i as int])
            && forall|j: int| 0 <= j < i ==> !of_kind(kind, #[trigger] devices@[j]),
{
    let mut i: usize = 0;
    while i < devices.len()
        invariant
            i <= devices@.len(),
            forall|j: int| 0 <= j < i ==> !of_kind(kind, #[trigger] devices@[j]),
        decreases devices@.len() - i,
    {
        if is_of_kind(kind, &devices[i]) {
            return Some(i);
        }
        i = i + 1;
    }
    None
}

/// Get the recommended GPU for high-performance rendering (see
/// [`recommendation`]).
#[verifier::loop_isolation(false)]
pub fn recommended_high_performance_device(
    devices: Vec<MetalDeviceInfo>,
    system_default: Option<MetalDeviceInfo>,
) -> (r: Option<MetalDeviceInfo>)
    ensures
        recommendation(devices@, system_default, r),
{
    if devices.len() == 0 {
        return None;
    }
    let ghost all = devices@;
    let mut devices = devices;
    let kinds = [DeviceKind::Discrete, DeviceKind::AppleSilicon, DeviceKind::NotLowPower, DeviceKind::SystemDefault];
    let mut k: usize = 0;
    while k < 4
        invariant
            devices@ == all,
            all.len() > 0,
            k <= 4,
            kinds@ == seq![DeviceKind::Discrete, DeviceKind::AppleSilicon, DeviceKind::NotLowPower, DeviceKind::SystemDefault],
            forall|j: int| 0 <= j < k ==> none_of_kind(#[trigger] kinds@[j], all),
        decreases 4 - k,
    {
        let kind = kinds[k];
        if let Some(i) = position_of_kind(kind, &devices) {
            let d = devices.remove(i);
            assert(first_of_kind(kind, all, d));
            return Some(d);
        }
        k = k + 1;
    }
    system_default
}

/// Checks that a device suits Syphon: there is a device (`device_id` is not
/// 0) and it can render single-sampled textures.
pub fn check_device_compatibility(device_id: usize, supports_single_sample: bool) -> (r: Result<(), SyphonError>)
    ensures
        device_id == 0 ==> (r matches Err(SyphonError::InvalidParameter(m)) && m@ == "Device pointer is null"@),
        device_id != 0 && !supports_single_sample ==> (r matches Err(SyphonError::InvalidParameter(m))
            && m@ == "Device does not support required texture formats"@),
        device_id != 0 && supports_single_sample ==> r is Ok,
{
    if device_id == 0 {
        return Err(SyphonError::InvalidParameter("Device pointer is null".to_owned()));
    }
    if !supports_single_sample {
        return Err(SyphonError::InvalidParameter("Device does not support required texture formats".to_owned()));
    }
    Ok(())
}

/// Validates a render device against the server's device: both must be
/// present. Different devices are accepted (they only cost GPU-to-GPU
/// transfers).
pub fn validate_device_match(render_device: usize, syphon_device: usize) -> (r: Result<(), SyphonError>)
    ensures
        render_device != 0 && syphon_device != 0 <==> r is Ok,
        render_device == 0 || syphon_device == 0 ==> (r matches Err(SyphonError::InvalidParameter(m))
            && m@ == "Device pointer is null"@),
{
    if render_device == 0 || syphon_device == 0 {
        return Err(SyphonError::InvalidParameter("Device pointer is null".to_owned()));
    }
    Ok(())
}

} // verus!

verus! {

/// When some device is not low-power, the recommended device is one of the
/// list and is not low-power either.
pub proof fn lemma_recommendation_is_high_performance(
    devices: Seq<MetalDeviceInfo>,
    system_default: Option<MetalDeviceInfo>,
    r: Option<MetalDeviceInfo>,
)
    requires
        recommendation(devices, system_default, r),
        exists|i: int| 0 <= i < devices.len() && !(#[trigger] devices[i]).is_low_power,
    ensures
        r matches Some(d) && !d.is_low_power && devices.contains(d),
{
    let i = choose|i: int| 0 <= i < devices.len() && !(#[trigger] devices[i]).is_low_power;
    assert(of_kind(DeviceKind::NotLowPower, devices[i]));
    if !none_of_kind(DeviceKind::Discrete, devices) {
        let d = r->Some_0;
        let k = choose|k: int|
            0 <= k < devices.len() && devices[k] == d && of_kind(DeviceKind::Discrete, d)
                && forall|j: int| 0 <= j < k ==> !of_kind(DeviceKind::Discrete, #[trigger] devices[j]);
        assert(devices[k] == d);
    } else if !none_of_kind(DeviceKind::AppleSilicon, devices) {
        let d = r->Some_0;
        let k = choose|k: int|
            0 <= k < devices.len() && devices[k] == d && of_kind(DeviceKind::AppleSilicon, d)
                && forall|j: int| 0 <= j < k ==> !of_kind(DeviceKind::AppleSilicon, #[trigger] devices[j]);
        assert(devices[k] == d);
    } else {
        assert(!none_of_kind(DeviceKind::NotLowPower, devices));
        let d = r->Some_0;
        let k = choose|k: int|
            0 <= k < devices.len() && devices[k] == d && of_kind(DeviceKind::NotLowPower, d)
                && forall|j: int| 0 <= j < k ==> !of_kind(DeviceKind::NotLowPower, #[trigger] devices[j]);
        assert(devices[k] == d);
    }
}

} // verus!

verus! {

/// On macOS, two devices whose GPU families are both known and carry the
/// same name are compatible for texture sharing, whatever that name is.
pub proof fn lemma_same_named_family_is_compatible(a: MetalDeviceInfo, b: MetalDeviceInfo, f: String, g: String)
    requires
        a.gpu_family == Some(f),
        b.gpu_family == Some(g),
        f@ == g@,
    ensures
        compatible_for_sharing(a, b, true),
{
}

/// Compatibility is symmetric; on macOS every device is compatible with
/// itself; off macOS no two devices are compatible; and two different
/// devices whose families are not both known are not compatible.
pub proof fn lemma_compatibility_shape(a: MetalDeviceInfo, b: MetalDeviceInfo, on_macos: bool)
    ensures
        compatible_for_sharing(a, b, on_macos) == compatible_for_sharing(b, a, on_macos),
        compatible_for_sharing(a, a, true),
        !compatible_for_sharing(a, b, false),
        a.device_id != b.device_id && (a.gpu_family is None || b.gpu_family is None)
            ==> !compatible_for_sharing(a, b, on_macos),
        (a.gpu_family matches Some(f) && b.gpu_family matches Some(g) && f@ != g@ && a.device_id != b.device_id)
            ==> !compatible_for_sharing(a, b, on_macos),
{
}

/// The name of Apple GPU family `n` (1 to 8).
pub open spec fn apple_family_name(n: int) -> Seq<char> {
    if n == 1 { "Apple1"@ }
    else if n == 2 { "Apple2"@ }
    else if n == 3 { "Apple3"@ }
    else if n == 4 { "Apple4"@ }
    else if n == 5 { "Apple5"@ }
    else if n == 6 { "Apple6"@ }
    else if n == 7 { "Apple7"@ }
    else { "Apple8"@ }
}

/// A device of the Apple1 family is named by the highest Apple family
/// (1001 to 1008) it supports, whatever Mac families it also supports.
pub proof fn lemma_apple_device_named_by_highest_apple_family(supported: Seq<u64>, n: int)
    requires
        supported.contains(FAMILY_APPLE1),
        1 <= n <= 8,
        supported.contains((1000 + n) as u64),
        forall|f: u64| #[trigger] supported.contains(f) && 1001 <= f <= 1008 ==> f <= 1000 + n,
    ensures
        gpu_family_of(supported) == Some(apple_family_name(n)),
{
    assert(supported.contains(FAMILY_APPLE8) ==> 1008 <= 1000 + n);
    assert(supported.contains(FAMILY_APPLE7) ==> 1007 <= 1000 + n);
    assert(supported.contains(FAMILY_APPLE6) ==> 1006 <= 1000 + n);
    assert(supported.contains(FAMILY_APPLE5) ==> 1005 <= 1000 + n);
    assert(supported.contains(FAMILY_APPLE4) ==> 1004 <= 1000 + n);
    assert(supported.contains(FAMILY_APPLE3) ==> 1003 <= 1000 + n);
    assert(supported.contains(FAMILY_APPLE2) ==> 1002 <= 1000 + n);
}

/// A device that does not support the Apple1 family is named "Mac2" when it
/// supports family 5001, else "Mac1" when it supports 5002, else not at all.
pub proof fn lemma_other_device_named_by_mac_family(supported: Seq<u64>)
    requires
        !supported.contains(FAMILY_APPLE1),
    ensures
        supported.contains(FAMILY_MAC_FIRST) ==> gpu_family_of(supported) == Some("Mac2"@),
        !supported.contains(FAMILY_MAC_FIRST) && supported.contains(FAMILY_MAC_SECOND)
            ==> gpu_family_of(supported) == Some("Mac1"@),
        !supported.contains(FAMILY_MAC_FIRST) && !supported.contains(FAMILY_MAC_SECOND)
            ==> gpu_family_of(supported) is None,
{
}

} // verus!
