//! A snapshot of host identity, gathered once at startup and handed to the
//! chat layer as a preamble. The readings come from the host through
//! trusted wrappers; assembling and rendering them is verified. The caller
//! serializes the snapshot on a copy of its own.

use vstd::prelude::*;

use crate::numeric::gib_hundredths;
use crate::numeric::memory_text;
use crate::numeric::spec_gib_hundredths;
use crate::numeric::spec_memory_text;
use crate::numeric::spec_uptime_text;
use crate::numeric::uptime_text;

verus! {

/// A snapshot of the host: operating system, kernel, uptime, hostname,
/// processor, memory and user, each as readable text.
pub struct SystemInfo {
    pub os: String,
    pub kernel: String,
    pub uptime: String,
    pub hostname: String,
    pub cpu: String,
    pub memory: String,
    pub user: String,
}

#[verifier::external_type_specification]
#[verifier::external_body]
pub struct ExSystem(sysinfo::System);

/// Relies on sysinfo::System::new_all: a refreshed snapshot of the host.
#[verifier::external_body]
fn system_snapshot() -> sysinfo::System {
    sysinfo::System::new_all()
}

/// Relies on sysinfo::System::long_os_version: the host's operating-system
/// name and version, where the platform reports one.
#[verifier::external_body]
fn os_version_text() -> Option<String> {
    sysinfo::System::long_os_version()
}

/// Relies on sysinfo::System::uptime: seconds since the host booted.
#[verifier::external_body]
fn uptime_secs() -> u64 {
    sysinfo::System::uptime()
}

/// Relies on sysinfo::System::cpus and sysinfo::Cpu::brand: the brand text
/// of the first processor, where the host reports any.
#[verifier::external_body]
fn cpu_brand(sys: &sysinfo::System) -> Option<String> {
    sys.cpus().first().map(|cpu| cpu.brand().to_string())
}

/// Relies on sysinfo::System::total_memory: the host's memory in bytes.
#[verifier::external_body]
fn total_memory_bytes(sys: &sysinfo::System) -> u64 {
    sys.total_memory()
}

/// Relies on uname::uname: the kernel release text, where the system call
/// succeeds.
#[verifier::external_body]
fn kernel_release() -> Option<String> {
    uname::uname().ok().map(|info| info.release)
}

/// Relies on whoami::hostname: the host's name, where it can be read.
#[verifier::external_body]
fn host_name() -> Option<String> {
    whoami::hostname().ok()
}

/// Relies on whoami::username: the current user's login name, where it can
/// be read.
#[verifier::external_body]
fn user_name() -> Option<String> {
    whoami::username().ok()
}

/// The given text, or the default where the reading failed.
pub open spec fn spec_or_default(reading: Option<String>, default: Seq<char>) -> Seq<char> {
    match reading {
        Some(s) => s@,
        None => default,
    }
}

fn or_default(reading: Option<String>, default: &'static str) -> (r: String)
    ensures
        r@ == spec_or_default(reading, default@),
{
    match reading {
        Some(s) => s,
        None => String::from_str(default),
    }
}

/// Assemble the snapshot from raw readings: failed readings fall back to a
/// fixed text, the uptime is rendered in seconds, and the memory in
/// gibibytes with two decimal places.
pub fn compose_system_info(
    os: Option<String>,
    kernel: Option<String>,
    up_secs: u64,
    hostname: Option<String>,
    cpu: Option<String>,
    memory_bytes: u64,
    user: Option<String>,
) -> (r: SystemInfo)
    ensures
        r.os@ == spec_or_default(os, "Unknown OS"@),
        r.kernel@ == spec_or_default(kernel, "unknown"@),
        r.uptime@ == spec_uptime_text(up_secs as nat),
        r.hostname@ == spec_or_default(hostname, "unknown"@),
        r.cpu@ == spec_or_default(cpu, "Unknown CPU"@),
        r.memory@ == spec_memory_text(spec_gib_hundredths(memory_bytes as nat)),
        r.user@ == spec_or_default(user, "unknown"@),
{
    SystemInfo {
        os: or_default(os, "Unknown OS"),
        kernel: or_default(kernel, "unknown"),
        uptime: uptime_text(up_secs),
        hostname: or_default(hostname, "unknown"),
        cpu: or_default(cpu, "Unknown CPU"),
        memory: memory_text(gib_hundredths(memory_bytes)),
        user: or_default(user, "unknown"),
    }
}

impl SystemInfo {
    /// Gather the snapshot from the host. The readings are whatever the
    /// host reports; the rendered uptime and memory always have the shapes
    /// that `compose_system_info` gives them.
    pub fn new() -> (r: SystemInfo)
        ensures
            exists|secs: u64| r.uptime@ == spec_uptime_text(secs as nat),
            exists|bytes: u64|
                r.memory@ == spec_memory_text(spec_gib_hundredths(bytes as nat)),
    {
        let sys = system_snapshot();
        let os = os_version_text();
        let kernel = kernel_release();
        let up = uptime_secs();
        let hostname = host_name();
        let cpu = cpu_brand(&sys);
        let memory = total_memory_bytes(&sys);
        let user = user_name();
        let r = compose_system_info(os, kernel, up, hostname, cpu, memory, user);
        proof {
            assert(r.uptime@ == spec_uptime_text(up as nat));
            assert(r.memory@ == spec_memory_text(spec_gib_hundredths(memory as nat)));
        }
        r
    }
}

} // verus!
