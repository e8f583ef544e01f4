//! Metrics collection: a fixed set of local platform facts gathered at each
//! tick. Collection never fails a tick: a probe that produced nothing is
//! recorded as the placeholder empty string instead.

use vstd::prelude::*;
use vstd::string::StringExecFns;

verus! {

/// One tick's report: identity, capture time, platform facts, and the
/// configured custom properties. Built fresh each tick and discarded after
/// the send.
pub struct MetricsSnapshot {
    pub node_id: String,
    pub timestamp_ms: u64,
    pub os_family: String,
    pub os_version: String,
    pub cpu_features: Vec<String>,
    pub custom_properties: Vec<(String, String)>,
}

/// The SIMD flag for a given ssse3 probe result.
pub open spec fn spec_simd_flag(ssse3: bool) -> Seq<char> {
    if ssse3 {
        "+SIMD"@
    } else {
        "-SIMD"@
    }
}

/// The AVX flag for a given avx2 probe result.
pub open spec fn spec_avx_flag(avx2: bool) -> Seq<char> {
    if avx2 {
        "+AVX"@
    } else {
        "-AVX"@
    }
}

/// The relevant CPU features enabled at compile time. This build enables no
/// optional SIMD paths, so both flags are reported off.
pub fn compile_cpu_features() -> (r: Vec<&'static str>)
    ensures
        r@.len() == 2,
        r@[0]@ == "-SIMD"@,
        r@[1]@ == "-AVX"@,
{
    let mut features: Vec<&'static str> = Vec::new();
    features.push("-SIMD");
    features.push("-AVX");
    features
}

/// The relevant CPU features enabled at run time. Detection is the caller's:
/// it reports whether the machine is x86-64 and whether the ssse3 and avx2
/// probes succeeded; on other architectures nothing is probed and the list
/// is empty.
pub fn runtime_cpu_features(x86_64: bool, ssse3: bool, avx2: bool) -> (r: Vec<&'static str>)
    ensures
        !x86_64 ==> r@.len() == 0,
        x86_64 ==> r@.len() == 2 && r@[0]@ == spec_simd_flag(ssse3) && r@[1]@ == spec_avx_flag(
            avx2,
        ),
{
    let mut features: Vec<&'static str> = Vec::new();
    if x86_64 {
        if ssse3 {
            features.push("+SIMD");
        } else {
            features.push("-SIMD");
        }
        if avx2 {
            features.push("+AVX");
        } else {
            features.push("-AVX");
        }
    }
    features
}

/// The runtime CPU feature flags as owned strings for a snapshot.
pub fn cpu_feature_strings(x86_64: bool, ssse3: bool, avx2: bool) -> (r: Vec<String>)
    ensures
        !x86_64 ==> r@.len() == 0,
        x86_64 ==> r@.len() == 2 && r@[0]@ == spec_simd_flag(ssse3) && r@[1]@ == spec_avx_flag(
            avx2,
        ),
{
    let flags = runtime_cpu_features(x86_64, ssse3, avx2);
    let mut out: Vec<String> = Vec::new();
    let mut i: usize = 0;
    while i < flags.len()
        invariant
            i <= flags@.len(),
            out@.len() == i,
            forall|j: int| 0 <= j < i ==> out@[j]@ == flags@[j]@,
            !x86_64 ==> flags@.len() == 0,
            x86_64 ==> flags@.len() == 2 && flags@[0]@ == spec_simd_flag(ssse3) && flags@[1]@
                == spec_avx_flag(avx2),
        decreases flags@.len() - i,
    {
        out.push(String::from_str(flags[i]));
        i = i + 1;
    }
    out
}

/// The probed value to record: the probe's result, or the placeholder empty
/// string where the probe produced nothing.
pub open spec fn spec_probed_or_placeholder(probed: Option<String>) -> Seq<char> {
    match probed {
        Some(v) => v@,
        None => Seq::<char>::empty(),
    }
}

/// Builds one tick's snapshot from probe results. Collection never fails:
/// a probe that produced nothing (`None`) is recorded as the placeholder
/// empty string, and every other field is pinned to its input.
pub fn collect(
    node_id: &str,
    timestamp_ms: u64,
    os_family: Option<String>,
    os_version: Option<String>,
    x86_64: bool,
    ssse3: bool,
    avx2: bool,
    custom_properties: Vec<(String, String)>,
) -> (s: MetricsSnapshot)
    ensures
        s.node_id@ == node_id@,
        s.timestamp_ms == timestamp_ms,
        s.os_family@ == spec_probed_or_placeholder(os_family),
        s.os_version@ == spec_probed_or_placeholder(os_version),
        !x86_64 ==> s.cpu_features@.len() == 0,
        x86_64 ==> s.cpu_features@.len() == 2 && s.cpu_features@[0]@ == spec_simd_flag(ssse3)
            && s.cpu_features@[1]@ == spec_avx_flag(avx2),
        s.custom_properties == custom_properties,
{
    let family: String = match os_family {
        Some(f) => f,
        None => String::new(),
    };
    let version: String = match os_version {
        Some(v) => v,
        None => String::new(),
    };
    MetricsSnapshot {
        node_id: String::from_str(node_id),
        timestamp_ms,
        os_family: family,
        os_version: version,
        cpu_features: cpu_feature_strings(x86_64, ssse3, avx2),
        custom_properties,
    }
}

/// Relies on os_type::current_platform: probes the local platform and hands
/// back the detected OS family (the Debug rendering of the `OSType` variant)
/// and its version. What comes back depends on the machine the process runs
/// on, so nothing is assumed of the values.
#[verifier::external_body]
fn probe_platform() -> (r: (String, String)) {
    let info = os_type::current_platform();
    (format!("{:?}", info.os_type), info.version)
}

/// Gathers a snapshot from the local machine: OS family and version from the
/// platform probe, CPU flags as the caller detected them. The two probed
/// fields vary by machine; every other field is pinned as in `collect`.
pub fn collect_local(
    node_id: &str,
    timestamp_ms: u64,
    x86_64: bool,
    ssse3: bool,
    avx2: bool,
    custom_properties: Vec<(String, String)>,
) -> (s: MetricsSnapshot)
    ensures
        s.node_id@ == node_id@,
        s.timestamp_ms == timestamp_ms,
        !x86_64 ==> s.cpu_features@.len() == 0,
        x86_64 ==> s.cpu_features@.len() == 2 && s.cpu_features@[0]@ == spec_simd_flag(ssse3)
            && s.cpu_features@[1]@ == spec_avx_flag(avx2),
        s.custom_properties == custom_properties,
{
    let (family, version) = probe_platform();
    collect(
        node_id,
        timestamp_ms,
        Some(family),
        Some(version),
        x86_64,
        ssse3,
        avx2,
        custom_properties,
    )
}

} // verus!
