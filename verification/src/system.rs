//! The main service's system endpoints: hardware information, service health,
//! file and folder access, and the container listing of app management.
use vstd::prelude::*;

use crate::error::AppError;
use crate::response::ApiResponse;
use crate::text::{trim, trim_ws};

verus! {

/// Information about the machine, read through `sysinfo`.
#[verifier::external_type_specification]
#[verifier::external_body]
pub struct ExSystem(sysinfo::System);

/// Reads the machine's information: `sysinfo::System::new_all`. What it holds
/// depends on the machine; nothing is claimed of it.
#[verifier::external_body]
fn system_new_all() -> sysinfo::System {
    sysinfo::System::new_all()
}

/// The brand of each CPU of `sys`, in order: `System::cpus` and `Cpu::brand`.
/// Nothing is claimed of them: they depend on the machine.
#[verifier::external_body]
fn cpu_brands(sys: &sysinfo::System) -> Vec<String> {
    sys.cpus().iter().map(|c| c.brand().to_string()).collect()
}

/// The total memory of `sys` in bytes: `System::total_memory`. It depends on
/// the machine; nothing is claimed of it.
#[verifier::external_body]
fn total_memory(sys: &sysinfo::System) -> u64 {
    sys.total_memory()
}

/// The machine's host name: `System::host_name`. Machine dependent.
#[verifier::external_body]
fn host_name() -> Option<String> {
    sysinfo::System::host_name()
}

/// The operating system's name: `System::name`. Machine dependent.
#[verifier::external_body]
fn os_name() -> Option<String> {
    sysinfo::System::name()
}

/// The operating system's version: `System::os_version`. Machine dependent.
#[verifier::external_body]
fn os_version() -> Option<String> {
    sysinfo::System::os_version()
}

/// The kernel's version: `System::kernel_version`. Machine dependent.
#[verifier::external_body]
fn kernel_version() -> Option<String> {
    sysinfo::System::kernel_version()
}

/// Hardware and OS information.
#[derive(Debug, Clone)]
pub struct HardwareInfo {
    /// Number of CPU cores.
    pub cpu_count: usize,
    /// CPU brand string (e.g. "Intel Core i7").
    pub cpu_brand: String,
    /// Total physical memory in bytes.
    pub total_memory: u64,
    /// System hostname.
    pub hostname: String,
    /// OS name (e.g. "Linux").
    pub os_name: String,
    /// OS version string.
    pub os_version: String,
    /// Kernel version string.
    pub kernel_version: String,
}

/// The characters of an optional string, or none at all when it is absent.
pub open spec fn text_or_empty(o: Option<String>) -> Seq<char> {
    match o {
        Some(s) => s@,
        None => Seq::empty(),
    }
}

fn unwrap_or_empty(o: Option<String>) -> (r: String)
    ensures
        r@ == text_or_empty(o),
{
    match o {
        Some(s) => s,
        None => String::new(),
    }
}

/// Assembles hardware information: the CPU count is the number of CPU brands
/// read, the brand is the first one's (empty when there are none), and absent
/// names are empty.
pub fn hardware_info(
    brands: Vec<String>,
    total_memory: u64,
    hostname: Option<String>,
    os_name: Option<String>,
    os_version: Option<String>,
    kernel_version: Option<String>,
) -> (r: HardwareInfo)
    ensures
        r.cpu_count == brands@.len(),
        brands@.len() > 0 ==> r.cpu_brand@ == brands@[0]@,
        brands@.len() == 0 ==> r.cpu_brand@ == Seq::<char>::empty(),
        r.total_memory == total_memory,
        r.hostname@ == text_or_empty(hostname),
        r.os_name@ == text_or_empty(os_name),
        r.os_version@ == text_or_empty(os_version),
        r.kernel_version@ == text_or_empty(kernel_version),
{
    let cpu_brand = if brands.len() > 0 {
        brands[0].clone()
    } else {
        String::new()
    };
    HardwareInfo {
        cpu_count: brands.len(),
        cpu_brand,
        total_memory,
        hostname: unwrap_or_empty(hostname),
        os_name: unwrap_or_empty(os_name),
        os_version: unwrap_or_empty(os_version),
        kernel_version: unwrap_or_empty(kernel_version),
    }
}

/// Returns hardware and OS information for the current system. The values
/// depend on the machine; what is stated is how they are assembled.
pub fn get_hardware_info() -> (r: HardwareInfo)
    ensures
        r.cpu_count == 0 ==> r.cpu_brand@ == Seq::<char>::empty(),
{
    let sys = system_new_all();
    let brands = cpu_brands(&sys);
    let mem = total_memory(&sys);
    hardware_info(brands, mem, host_name(), os_name(), os_version(), kernel_version())
}

/// Status of CapeOS services (running vs not running).
#[derive(Debug, Clone)]
pub struct HealthServices {
    /// List of service names that are active.
    pub running: Vec<String>,
    /// List of service names that are not active.
    pub not_running: Vec<String>,
}

/// The text `String::from_utf8_lossy` makes of `bytes`.
pub uninterp spec fn utf8_lossy(bytes: Seq<u8>) -> Seq<char>;

/// The characters of ASCII bytes, one for one.
pub open spec fn ascii_chars(bytes: Seq<u8>) -> Seq<char> {
    bytes.map_values(|b: u8| b as char)
}

/// `String::from_utf8_lossy`: valid UTF-8 is decoded as it is and invalid
/// sequences are replaced. Stated here: the text is a function of the bytes,
/// and ASCII bytes become the same characters.
#[verifier::external_body]
fn from_utf8_lossy(bytes: &[u8]) -> (r: String)
    ensures
        r@ == utf8_lossy(bytes@),
        (forall|i: int| 0 <= i < bytes@.len() ==> bytes@[i] < 128) ==> r@ == ascii_chars(bytes@),
{
    String::from_utf8_lossy(bytes).into_owned()
}

/// A service is active when `systemctl is-active` printed `active`, give or
/// take surrounding whitespace.
pub open spec fn reports_active(output: Option<Seq<u8>>) -> bool {
    match output {
        Some(o) => trim_ws(utf8_lossy(o)) == "active"@,
        None => false,
    }
}

/// Whether the output of `systemctl is-active` reports the service active.
pub fn is_active_output(output: &Option<Vec<u8>>) -> (r: bool)
    ensures
        r == reports_active(match output {
            Some(o) => Some(o@),
            None => None,
        }),
{
    match output {
        Some(o) => {
            let text = from_utf8_lossy(o.as_slice());
            let t = trim(text.as_str());
            let active = String::from_str("active");
            t == active
        },
        None => false,
    }
}

/// The units of `units` whose output reports them active (`want`) or not
/// (`!want`), in order.
pub open spec fn units_with_status(
    units: Seq<Seq<char>>,
    outputs: Seq<Option<Seq<u8>>>,
    want: bool,
) -> Seq<Seq<char>>
    decreases units.len(),
{
    if units.len() == 0 || outputs.len() < units.len() {
        Seq::empty()
    } else {
        let prev = units_with_status(
            units.drop_last(),
            outputs.subrange(0, units.len() - 1),
            want,
        );
        if reports_active(outputs[units.len() - 1]) == want {
            prev.push(units.last())
        } else {
            prev
        }
    }
}

/// Law: every unit is reported either running or not running.
pub proof fn law_units_partitioned(units: Seq<Seq<char>>, outputs: Seq<Option<Seq<u8>>>)
    requires
        outputs.len() == units.len(),
    ensures
        units_with_status(units, outputs, true).len() + units_with_status(
            units,
            outputs,
            false,
        ).len() == units.len(),
    decreases units.len(),
{
    if units.len() > 0 {
        law_units_partitioned(units.drop_last(), outputs.subrange(0, units.len() - 1));
    }
}

/// The characters of each string of a list.
pub open spec fn texts(v: Seq<String>) -> Seq<Seq<char>> {
    v.map_values(|s: String| s@)
}

/// The bytes of each optional output of a list.
pub open spec fn output_bytes(v: Seq<Option<Vec<u8>>>) -> Seq<Option<Seq<u8>>> {
    v.map_values(
        |o: Option<Vec<u8>>|
            match o {
                Some(b) => Some(b@),
                None => None,
            },
    )
}

/// Sorts services into running and not running by their `systemctl
/// is-active` output (none when the command could not be run).
pub fn classify_services(units: Vec<String>, outputs: Vec<Option<Vec<u8>>>) -> (r: HealthServices)
    requires
        units@.len() == outputs@.len(),
    ensures
        texts(r.running@) == units_with_status(texts(units@), output_bytes(outputs@), true),
        texts(r.not_running@) == units_with_status(texts(units@), output_bytes(outputs@), false),
{
    let n = units.len();
    let mut running: Vec<String> = Vec::new();
    let mut not_running: Vec<String> = Vec::new();
    let mut i: usize = 0;
    while i < n
        invariant
            n == units@.len(),
            n == outputs@.len(),
            i <= n,
            texts(running@) == units_with_status(
                texts(units@).subrange(0, i as int),
                output_bytes(outputs@).subrange(0, i as int),
                true,
            ),
            texts(not_running@) == units_with_status(
                texts(units@).subrange(0, i as int),
                output_bytes(outputs@).subrange(0, i as int),
                false,
            ),
        decreases n - i,
    {
        let ghost u = texts(units@).subrange(0, i + 1);
        let ghost o = output_bytes(outputs@).subrange(0, i + 1);
        assert(u.drop_last() =~= texts(units@).subrange(0, i as int));
        assert(o.subrange(0, i as int) =~= output_bytes(outputs@).subrange(0, i as int));
        assert(o[i as int] == output_bytes(outputs@)[i as int]);
        let active = is_active_output(&outputs[i]);
        let name = units[i].clone();
        let ghost prev_running = running@;
        let ghost prev_not_running = not_running@;
        if active {
            running.push(name);
            assert(texts(running@) =~= texts(prev_running).push(name@));
        } else {
            not_running.push(name);
            assert(texts(not_running@) =~= texts(prev_not_running).push(name@));
        }
        proof {
            assert(u.last() == units@[i as int]@);
        }
        i = i + 1;
    }
    assert(texts(units@).subrange(0, n as int) =~= texts(units@));
    assert(output_bytes(outputs@).subrange(0, n as int) =~= output_bytes(outputs@));
    HealthServices { running, not_running }
}

/// The systemd unit of each CapeOS service, in the order they are reported.
pub open spec fn capeos_units() -> Seq<Seq<char>> {
    seq![
        "capeos-gateway"@ + ".service"@,
        "capeos-message-bus"@ + ".service"@,
        "capeos-user-service"@ + ".service"@,
        "capeos-local-storage"@ + ".service"@,
        "capeos-app-management"@ + ".service"@,
        "capeos"@ + ".service"@,
    ]
}

fn unit_name(service: &str) -> (r: String)
    ensures
        r@ == service@ + ".service"@,
{
    let mut s = String::from_str(service);
    s.append(".service");
    s
}

/// The systemd units of the CapeOS services.
pub fn service_units() -> (r: Vec<String>)
    ensures
        texts(r@) == capeos_units(),
{
    let mut v: Vec<String> = Vec::new();
    v.push(unit_name("capeos-gateway"));
    v.push(unit_name("capeos-message-bus"));
    v.push(unit_name("capeos-user-service"));
    v.push(unit_name("capeos-local-storage"));
    v.push(unit_name("capeos-app-management"));
    v.push(unit_name("capeos"));
    assert(texts(v@) =~= capeos_units());
    v
}

/// Reports which CapeOS services are running, given the `systemctl
/// is-active` output of each unit of `service_units`, in order.
pub fn health_services(outputs: Vec<Option<Vec<u8>>>) -> (r: ApiResponse<HealthServices>)
    requires
        outputs@.len() == 6,
    ensures
        r.success == 200,
        r.message@ == "ok"@,
        r.data matches Some(h) && texts(h.running@) == units_with_status(
            capeos_units(),
            output_bytes(outputs@),
            true,
        ) && texts(h.not_running@) == units_with_status(
            capeos_units(),
            output_bytes(outputs@),
            false,
        ),
{
    let units = service_units();
    let h = classify_services(units, outputs);
    ApiResponse::ok(h)
}

/// Answers `200 ok` with the release version.
pub fn get_version() -> (r: ApiResponse<String>)
    ensures
        r.success == 200,
        r.message@ == "ok"@,
        r.data matches Some(v) && v@ == crate::paths::VERSION@,
{
    ApiResponse::ok(String::from_str(crate::paths::VERSION))
}

/// Answers `200 ok` with the machine's hardware information.
pub fn get_hardware() -> (r: ApiResponse<HardwareInfo>)
    ensures
        r.success == 200,
        r.message@ == "ok"@,
        r.data matches Some(h) && (h.cpu_count == 0 ==> h.cpu_brand@ == Seq::<char>::empty()),
{
    ApiResponse::ok(get_hardware_info())
}

/// Query parameter for path-based endpoints (file content, directory listing).
#[derive(Debug, Clone)]
pub struct PathQuery {
    /// Optional path; defaults to `/` if not provided.
    pub path: Option<String>,
}

/// The path a query asks for: its `path`, or `/` when it has none.
pub fn query_path(q: &PathQuery) -> (r: String)
    ensures
        q.path matches Some(p) ==> r@ == p@,
        q.path is None ==> r@ == "/"@,
{
    match &q.path {
        Some(p) => p.clone(),
        None => String::from_str("/"),
    }
}

/// A single entry in a directory listing.
#[derive(Debug, Clone)]
pub struct DirEntry {
    /// File or directory name.
    pub name: String,
    /// True if this entry is a directory.
    pub is_dir: bool,
    /// File size in bytes (0 for directories).
    pub size: u64,
}

/// A directory entry from its name and, when they could be read, whether it
/// is a directory and its length; a directory's size is 0, and unreadable
/// metadata counts as a file of size 0.
pub fn dir_entry(name: String, meta: Option<(bool, u64)>) -> (r: DirEntry)
    ensures
        r.name == name,
        meta matches Some(m) ==> r.is_dir == m.0 && r.size == (if m.0 {
            0
        } else {
            m.1
        }),
        meta is None ==> !r.is_dir && r.size == 0,
{
    match meta {
        Some((is_dir, len)) => DirEntry { name, is_dir, size: if is_dir {
            0
        } else {
            len
        } },
        None => DirEntry { name, is_dir: false, size: 0 },
    }
}

/// The answer to a file content request: the content, or `NotFound` with the
/// reason the file could not be read.
pub fn file_content_result(read: Result<String, String>) -> (r: Result<String, AppError>)
    ensures
        read matches Ok(c) ==> r == Ok::<String, AppError>(c),
        read matches Err(e) ==> (r matches Err(AppError::NotFound(m)) && m == e),
{
    match read {
        Ok(c) => Ok(c),
        Err(e) => Err(AppError::NotFound(e)),
    }
}

/// The answer to a directory listing request: `200 ok` with the entries, or
/// `NotFound` with the reason the directory could not be opened.
pub fn list_dir_result(read: Result<Vec<DirEntry>, String>) -> (r: Result<
    ApiResponse<Vec<DirEntry>>,
    AppError,
>)
    ensures
        read matches Ok(entries) ==> (r matches Ok(resp) && resp.success == 200 && resp.message@
            == "ok"@ && resp.data == Some(entries)),
        read matches Err(e) ==> (r matches Err(AppError::NotFound(m)) && m == e),
{
    match read {
        Ok(entries) => Ok(ApiResponse::ok(entries)),
        Err(e) => Err(AppError::NotFound(e)),
    }
}

/// Information about a Docker container.
#[derive(Debug, Clone)]
pub struct ContainerInfo {
    /// Container ID (e.g., `abc123def456`).
    pub id: String,
    /// Container name (e.g., `/my-app`).
    pub name: String,
    /// Docker image used by the container.
    pub image: String,
    /// Container state (e.g., `running`, `exited`, `created`).
    pub state: String,
}

/// A container's information from what Docker reported: absent fields are
/// empty, and the name is the container's first name.
pub fn container_info(
    id: Option<String>,
    names: Option<Vec<String>>,
    image: Option<String>,
    state: Option<String>,
) -> (r: ContainerInfo)
    ensures
        r.id@ == text_or_empty(id),
        r.image@ == text_or_empty(image),
        r.state@ == text_or_empty(state),
        names matches Some(n) ==> (n@.len() > 0 ==> r.name@ == n@[0]@),
        !(names matches Some(n) && n@.len() > 0) ==> r.name@ == Seq::<char>::empty(),
{
    let name = match names {
        Some(n) => if n.len() > 0 {
            n[0].clone()
        } else {
            String::new()
        },
        None => String::new(),
    };
    ContainerInfo {
        id: unwrap_or_empty(id),
        name,
        image: unwrap_or_empty(image),
        state: unwrap_or_empty(state),
    }
}

/// Lists all Docker containers: `200 ok` with the containers when Docker
/// answered, with an empty list when it could not be reached.
pub fn list_containers(listed: Option<Vec<ContainerInfo>>) -> (r: ApiResponse<Vec<ContainerInfo>>)
    ensures
        r.success == 200,
        r.message@ == "ok"@,
        listed matches Some(l) ==> r.data == Some(l),
        listed is None ==> (r.data matches Some(l) && l@.len() == 0),
{
    match listed {
        Some(l) => ApiResponse::ok(l),
        None => ApiResponse::ok(Vec::new()),
    }
}

} // verus!
