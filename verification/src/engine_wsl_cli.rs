//! The engine reached through the `docker` command inside a WSL distribution:
//! the command lines it runs and the reading of what they print.

use vstd::prelude::*;
use crate::engine::EngineKind;
use crate::models::{ContainerRow, ImageRow, VolumeRow};
use crate::text::{
    chars_of, concat2, concat3, is_ascii_digit, is_white_space, is_white_space_char, owned,
    parse_u64, parse_u64_spec, split_char, split_on, strings_view, trim, trim_bounds,
    trim_str, eq_chars_str,
};

verus! {

/// Runs `docker` inside one WSL distribution.
pub struct WslCliEngine {
    distro: String,
}

impl WslCliEngine {
    pub closed spec fn distro_view(&self) -> Seq<char> {
        self.distro@
    }

    pub fn new(distro: String) -> (r: WslCliEngine)
        ensures
            r.distro_view() == distro@,
    {
        WslCliEngine { distro }
    }

    /// The distribution that runs `docker`.
    pub fn distro(&self) -> (r: &str)
        ensures
            r@ == self.distro_view(),
    {
        self.distro.as_str()
    }

    pub fn kind(&self) -> (r: EngineKind)
        ensures
            r == EngineKind::WslCli,
    {
        EngineKind::WslCli
    }

    /// The name shown in the status line: `WSL CLI (<distro>)`.
    pub fn name(&self) -> (r: String)
        ensures
            r@ == "WSL CLI ("@ + self.distro_view() + ")"@,
    {
        concat3("WSL CLI (", self.distro.as_str(), ")")
    }

    /// The arguments of `wsl.exe` that run `args` in the distribution:
    /// `-d <distro> --` followed by `args`.
    pub fn wsl_args(&self, args: &Vec<String>) -> (r: Vec<String>)
        ensures
            strings_view(r@) == seq!["-d"@, self.distro_view(), "--"@] + strings_view(args@),
    {
        let mut r: Vec<String> = Vec::new();
        r.push(owned("-d"));
        r.push(self.distro.clone());
        r.push(owned("--"));
        let ghost head = strings_view(r@);
        let mut i: usize = 0;
        while i < args.len()
            invariant
                i <= args.len(),
                head == seq!["-d"@, self.distro@, "--"@],
                strings_view(r@) == head + strings_view(args@).take(i as int),
            decreases args.len() - i,
        {
            let ghost before = strings_view(r@);
            r.push(args[i].clone());
            assert(strings_view(r@) =~= before.push(args@[i as int]@));
            assert(strings_view(args@).take(i + 1) =~= strings_view(args@).take(i as int).push(
                args@[i as int]@,
            ));
            i = i + 1;
            assert(strings_view(r@) =~= head + strings_view(args@).take(i as int));
        }
        assert(strings_view(args@).take(i as int) =~= strings_view(args@));
        assert(strings_view(r@) =~= seq!["-d"@, self.distro@, "--"@] + strings_view(args@));
        r
    }
}

/// What the engine is asked to do through `docker`.
#[derive(Debug, Clone)]
pub enum WslRequest {
    ListContainers,
    Start(String),
    Stop(String),
    Restart(String),
    /// The last `tail` lines of a container's log.
    Logs { tail: String, id: String },
    Stats(String),
    ListImages,
    RemoveImage { id: String, force: bool },
    ListVolumes,
    RemoveVolume { name: String, force: bool },
    StartEngine,
}

/// The format of one line of `docker ps`.
pub open spec fn ps_format() -> Seq<char> {
    "{{.ID}}\t{{.Names}}\t{{.Image}}\t{{.State}}\t{{.Status}}"@
}

/// The format of the line of `docker stats`.
pub open spec fn stats_format() -> Seq<char> {
    "{{.CPUPerc}}\t{{.MemUsage}}\t{{.MemPerc}}\t{{.NetIO}}\t{{.BlockIO}}\t{{.PIDs}}"@
}

/// The format of one line of `docker images`.
pub open spec fn images_format() -> Seq<char> {
    "{{.ID}}\t{{.Repository}}:{{.Tag}}\t{{.Size}}\t{{.CreatedSince}}"@
}

/// The format of one line of `docker volume ls`.
pub open spec fn volumes_format() -> Seq<char> {
    "{{.Name}}\t{{.Driver}}"@
}

/// The command line, inside the distribution, that carries out a request.
pub open spec fn request_args(r: WslRequest) -> Seq<Seq<char>> {
    match r {
        WslRequest::ListContainers => seq!["docker"@, "ps"@, "-a"@, "--format"@, ps_format()],
        WslRequest::Start(id) => seq!["docker"@, "start"@, id@],
        WslRequest::Stop(id) => seq!["docker"@, "stop"@, id@],
        WslRequest::Restart(id) => seq!["docker"@, "restart"@, id@],
        WslRequest::Logs { tail, id } => seq!["docker"@, "logs"@, "--tail"@, tail@, id@],
        WslRequest::Stats(id) => seq![
            "docker"@,
            "stats"@,
            "--no-stream"@,
            "--format"@,
            stats_format(),
            id@,
        ],
        WslRequest::ListImages => seq!["docker"@, "images"@, "--format"@, images_format()],
        WslRequest::RemoveImage { id, force } => if force {
            seq!["docker"@, "rmi"@, "-f"@, id@]
        } else {
            seq!["docker"@, "rmi"@, id@]
        },
        WslRequest::ListVolumes => seq!["docker"@, "volume"@, "ls"@, "--format"@, volumes_format()],
        WslRequest::RemoveVolume { name, force } => if force {
            seq!["docker"@, "volume"@, "rm"@, "-f"@, name@]
        } else {
            seq!["docker"@, "volume"@, "rm"@, name@]
        },
        WslRequest::StartEngine => seq!["sudo"@, "systemctl"@, "start"@, "docker"@],
    }
}

/// What each request asks of `docker`: every container, running or not, for
/// the list; one snapshot of a container's stats; the last lines of its log;
/// removals forced exactly when asked; and the container, image or volume
/// named last.
pub proof fn law_request_commands(id: String, tail: String, force: bool)
    ensures
        request_args(WslRequest::ListContainers) == seq![
            "docker"@,
            "ps"@,
            "-a"@,
            "--format"@,
            "{{.ID}}\t{{.Names}}\t{{.Image}}\t{{.State}}\t{{.Status}}"@,
        ],
        request_args(WslRequest::Start(id)) == seq!["docker"@, "start"@, id@],
        request_args(WslRequest::Stop(id)) == seq!["docker"@, "stop"@, id@],
        request_args(WslRequest::Restart(id)) == seq!["docker"@, "restart"@, id@],
        request_args(WslRequest::Logs { tail, id }) == seq!["docker"@, "logs"@, "--tail"@, tail@, id@],
        request_args(WslRequest::Stats(id)) == seq![
            "docker"@,
            "stats"@,
            "--no-stream"@,
            "--format"@,
            "{{.CPUPerc}}\t{{.MemUsage}}\t{{.MemPerc}}\t{{.NetIO}}\t{{.BlockIO}}\t{{.PIDs}}"@,
            id@,
        ],
        request_args(WslRequest::ListImages) == seq![
            "docker"@,
            "images"@,
            "--format"@,
            "{{.ID}}\t{{.Repository}}:{{.Tag}}\t{{.Size}}\t{{.CreatedSince}}"@,
        ],
        request_args(WslRequest::ListVolumes) == seq![
            "docker"@,
            "volume"@,
            "ls"@,
            "--format"@,
            "{{.Name}}\t{{.Driver}}"@,
        ],
        request_args(WslRequest::RemoveImage { id, force }) == (if force {
            seq!["docker"@, "rmi"@, "-f"@, id@]
        } else {
            seq!["docker"@, "rmi"@, id@]
        }),
        request_args(WslRequest::RemoveVolume { name: id, force }) == (if force {
            seq!["docker"@, "volume"@, "rm"@, "-f"@, id@]
        } else {
            seq!["docker"@, "volume"@, "rm"@, id@]
        }),
        request_args(WslRequest::StartEngine) == seq!["sudo"@, "systemctl"@, "start"@, "docker"@],
{
}

fn strings(parts: &[&str]) -> (r: Vec<String>)
    ensures
        r@.len() == parts@.len(),
        forall|i: int| 0 <= i < parts@.len() ==> (#[trigger] r@[i])@ == parts@[i]@,
{
    let mut r: Vec<String> = Vec::new();
    let mut i: usize = 0;
    while i < parts.len()
        invariant
            i <= parts.len(),
            r@.len() == i,
            forall|k: int| 0 <= k < i ==> (#[trigger] r@[k])@ == parts@[k]@,
        decreases parts.len() - i,
    {
        r.push(owned(parts[i]));
        i = i + 1;
    }
    r
}

/// The command line for a request.
pub fn request_command(r: &WslRequest) -> (args: Vec<String>)
    ensures
        strings_view(args@) == request_args(*r),
{
    let v = match r {
        WslRequest::ListContainers => strings(
            &["docker", "ps", "-a", "--format", "{{.ID}}\t{{.Names}}\t{{.Image}}\t{{.State}}\t{{.Status}}"],
        ),
        WslRequest::Start(id) => strings(&["docker", "start", id.as_str()]),
        WslRequest::Stop(id) => strings(&["docker", "stop", id.as_str()]),
        WslRequest::Restart(id) => strings(&["docker", "restart", id.as_str()]),
        WslRequest::Logs { tail, id } => strings(&["docker", "logs", "--tail", tail.as_str(), id.as_str()]),
        WslRequest::Stats(id) => strings(
            &[
                "docker",
                "stats",
                "--no-stream",
                "--format",
                "{{.CPUPerc}}\t{{.MemUsage}}\t{{.MemPerc}}\t{{.NetIO}}\t{{.BlockIO}}\t{{.PIDs}}",
                id.as_str(),
            ],
        ),
        WslRequest::ListImages => strings(
            &["docker", "images", "--format", "{{.ID}}\t{{.Repository}}:{{.Tag}}\t{{.Size}}\t{{.CreatedSince}}"],
        ),
        WslRequest::RemoveImage { id, force } => if *force {
            strings(&["docker", "rmi", "-f", id.as_str()])
        } else {
            strings(&["docker", "rmi", id.as_str()])
        },
        WslRequest::ListVolumes => strings(&["docker", "volume", "ls", "--format", "{{.Name}}\t{{.Driver}}"]),
        WslRequest::RemoveVolume { name, force } => if *force {
            strings(&["docker", "volume", "rm", "-f", name.as_str()])
        } else {
            strings(&["docker", "volume", "rm", name.as_str()])
        },
        WslRequest::StartEngine => strings(&["sudo", "systemctl", "start", "docker"]),
    };
    assert(strings_view(v@) =~= request_args(*r));
    v
}

} // verus!

verus! {

/// The fields of a line of tab-separated output, if it has at least `n` of them.
pub open spec fn fields_if(line: Seq<char>, n: nat) -> Option<Seq<Seq<char>>> {
    let p = split_on(line, '\t');
    if p.len() >= n {
        Some(p)
    } else {
        None
    }
}

/// The rows that `docker ps` lines describe: id, name, image, state and
/// status of each line with at least five fields; shorter lines are skipped.
pub open spec fn container_rows(lines: Seq<Seq<char>>) -> Seq<Seq<Seq<char>>>
    decreases lines.len(),
{
    if lines.len() == 0 {
        Seq::empty()
    } else {
        let prev = container_rows(lines.drop_last());
        match fields_if(lines.last(), 5) {
            Some(p) => prev.push(p.take(5)),
            None => prev,
        }
    }
}

pub open spec fn container_row_view(r: ContainerRow) -> Seq<Seq<char>> {
    seq![r.id@, r.name@, r.image@, r.state@, r.status@]
}

/// Reads the lines of `docker ps -a` in the format `ps_format`.
pub fn parse_container_lines(lines: &Vec<String>) -> (rows: Vec<ContainerRow>)
    ensures
        rows@.map_values(|r: ContainerRow| container_row_view(r)) == container_rows(strings_view(lines@)),
{
    let mut rows: Vec<ContainerRow> = Vec::new();
    let mut i: usize = 0;
    while i < lines.len()
        invariant
            i <= lines.len(),
            rows@.map_values(|r: ContainerRow| container_row_view(r)) == container_rows(
                strings_view(lines@).take(i as int),
            ),
        decreases lines.len() - i,
    {
        let ghost t = strings_view(lines@).take(i + 1);
        assert(t.drop_last() =~= strings_view(lines@).take(i as int));
        assert(t.last() == lines@[i as int]@);
        let parts = split_char(lines[i].as_str(), '\t');
        if parts.len() >= 5 {
            let ghost before = rows@.map_values(|r: ContainerRow| container_row_view(r));
            let row = ContainerRow {
                id: parts[0].clone(),
                name: parts[1].clone(),
                image: parts[2].clone(),
                state: parts[3].clone(),
                status: parts[4].clone(),
            };
            assert(container_row_view(row) =~= strings_view(parts@).take(5));
            rows.push(row);
            assert(rows@.map_values(|r: ContainerRow| container_row_view(r)) =~= before.push(
                strings_view(parts@).take(5),
            ));
        }
        i = i + 1;
    }
    assert(strings_view(lines@).take(i as int) =~= strings_view(lines@));
    rows
}

/// The rows that `docker images` lines describe: id, tags, size and age of
/// each line with at least four fields.
pub open spec fn image_rows(lines: Seq<Seq<char>>) -> Seq<Seq<Seq<char>>>
    decreases lines.len(),
{
    if lines.len() == 0 {
        Seq::empty()
    } else {
        let prev = image_rows(lines.drop_last());
        match fields_if(lines.last(), 4) {
            Some(p) => prev.push(p.take(4)),
            None => prev,
        }
    }
}

pub open spec fn image_row_view(r: ImageRow) -> Seq<Seq<char>> {
    seq![r.id@, r.tags@, r.size@, r.created@]
}

/// Reads the lines of `docker images` in the format `images_format`.
pub fn parse_image_lines(lines: &Vec<String>) -> (rows: Vec<ImageRow>)
    ensures
        rows@.map_values(|r: ImageRow| image_row_view(r)) == image_rows(strings_view(lines@)),
{
    let mut rows: Vec<ImageRow> = Vec::new();
    let mut i: usize = 0;
    while i < lines.len()
        invariant
            i <= lines.len(),
            rows@.map_values(|r: ImageRow| image_row_view(r)) == image_rows(
                strings_view(lines@).take(i as int),
            ),
        decreases lines.len() - i,
    {
        let ghost t = strings_view(lines@).take(i + 1);
        assert(t.drop_last() =~= strings_view(lines@).take(i as int));
        assert(t.last() == lines@[i as int]@);
        let parts = split_char(lines[i].as_str(), '\t');
        if parts.len() >= 4 {
            let ghost before = rows@.map_values(|r: ImageRow| image_row_view(r));
            let row = ImageRow {
                id: parts[0].clone(),
                tags: parts[1].clone(),
                size: parts[2].clone(),
                created: parts[3].clone(),
            };
            assert(image_row_view(row) =~= strings_view(parts@).take(4));
            rows.push(row);
            assert(rows@.map_values(|r: ImageRow| image_row_view(r)) =~= before.push(
                strings_view(parts@).take(4),
            ));
        }
        i = i + 1;
    }
    assert(strings_view(lines@).take(i as int) =~= strings_view(lines@));
    rows
}

/// The rows that `docker volume ls` lines describe: name and driver of each
/// line with at least two fields; the mount point is not listed, so it is empty.
pub open spec fn volume_rows(lines: Seq<Seq<char>>) -> Seq<Seq<Seq<char>>>
    decreases lines.len(),
{
    if lines.len() == 0 {
        Seq::empty()
    } else {
        let prev = volume_rows(lines.drop_last());
        match fields_if(lines.last(), 2) {
            Some(p) => prev.push(p.take(2).push(Seq::empty())),
            None => prev,
        }
    }
}

pub open spec fn volume_row_view(r: VolumeRow) -> Seq<Seq<char>> {
    seq![r.name@, r.driver@, r.mountpoint@]
}

/// Reads the lines of `docker volume ls` in the format `volumes_format`.
pub fn parse_volume_lines(lines: &Vec<String>) -> (rows: Vec<VolumeRow>)
    ensures
        rows@.map_values(|r: VolumeRow| volume_row_view(r)) == volume_rows(strings_view(lines@)),
{
    let mut rows: Vec<VolumeRow> = Vec::new();
    let mut i: usize = 0;
    while i < lines.len()
        invariant
            i <= lines.len(),
            rows@.map_values(|r: VolumeRow| volume_row_view(r)) == volume_rows(
                strings_view(lines@).take(i as int),
            ),
        decreases lines.len() - i,
    {
        let ghost t = strings_view(lines@).take(i + 1);
        assert(t.drop_last() =~= strings_view(lines@).take(i as int));
        assert(t.last() == lines@[i as int]@);
        let parts = split_char(lines[i].as_str(), '\t');
        if parts.len() >= 2 {
            let ghost before = rows@.map_values(|r: VolumeRow| volume_row_view(r));
            let row = VolumeRow {
                name: parts[0].clone(),
                driver: parts[1].clone(),
                mountpoint: String::new(),
            };
            assert(volume_row_view(row) =~= strings_view(parts@).take(2).push(Seq::empty()));
            rows.push(row);
            assert(rows@.map_values(|r: VolumeRow| volume_row_view(r)) =~= before.push(
                strings_view(parts@).take(2).push(Seq::empty()),
            ));
        }
        i = i + 1;
    }
    assert(strings_view(lines@).take(i as int) =~= strings_view(lines@));
    rows
}

} // verus!

verus! {

/// The two sides of a `used / limit` figure of `docker stats`, trimmed; the
/// right side is empty where there is no `/`.
pub open spec fn usage_pair_sides(s: Seq<char>) -> (Seq<char>, Seq<char>) {
    let p = split_on(s, '/');
    (trim(p[0]), if p.len() > 1 { trim(p[1]) } else { Seq::empty() })
}

/// Splits a `used / limit` figure into its two sides.
pub fn usage_pair_texts(input: &str) -> (r: (String, String))
    ensures
        (r.0@, r.1@) == usage_pair_sides(input@),
{
    let parts = split_char(input, '/');
    proof {
        crate::text::law_split_nonempty(input@, '/');
    }
    assert(parts@[0]@ == split_on(input@, '/')[0]);
    let left = trim_str(parts[0].as_str());
    let right = if parts.len() > 1 {
        assert(parts@[1]@ == split_on(input@, '/')[1]);
        trim_str(parts[1].as_str())
    } else {
        String::new()
    };
    (left, right)
}

/// The digits and decimal points of an amount, in order.
pub open spec fn number_chars(s: Seq<char>) -> Seq<char>
    decreases s.len(),
{
    if s.len() == 0 {
        Seq::empty()
    } else if is_ascii_digit(s.last()) || s.last() == '.' {
        number_chars(s.drop_last()).push(s.last())
    } else {
        number_chars(s.drop_last())
    }
}

/// The other characters of an amount but white space: its unit.
pub open spec fn unit_chars(s: Seq<char>) -> Seq<char>
    decreases s.len(),
{
    if s.len() == 0 {
        Seq::empty()
    } else if is_ascii_digit(s.last()) || s.last() == '.' || is_white_space(s.last()) {
        unit_chars(s.drop_last())
    } else {
        unit_chars(s.drop_last()).push(s.last())
    }
}

/// The number of bytes in one of a unit: decimal (`kB`, `MB`, ...) and binary
/// (`KiB`, `MiB`, ...) prefixes up to tera; none for an unknown unit.
pub open spec fn unit_multiplier(u: Seq<char>) -> Option<u64> {
    if u.len() == 0 || u == "B"@ {
        Some(1)
    } else if u == "kB"@ || u == "KB"@ {
        Some(1000)
    } else if u == "KiB"@ {
        Some(1024)
    } else if u == "MB"@ {
        Some(1000000)
    } else if u == "MiB"@ {
        Some(1048576)
    } else if u == "GB"@ {
        Some(1000000000)
    } else if u == "GiB"@ {
        Some(1073741824)
    } else if u == "TB"@ {
        Some(1000000000000)
    } else if u == "TiB"@ {
        Some(1099511627776)
    } else {
        None
    }
}

/// How an amount such as `1.5GiB` reads: its number text and the bytes per
/// unit; none for blank text or an unknown unit.
pub open spec fn amount_split(s: Seq<char>) -> Option<(Seq<char>, u64)> {
    let t = trim(s);
    if t.len() == 0 {
        None
    } else {
        match unit_multiplier(unit_chars(t)) {
            Some(m) => Some((number_chars(t), m)),
            None => None,
        }
    }
}

fn multiplier_of(u: &Vec<char>) -> (r: Option<u64>)
    ensures
        r == unit_multiplier(u@),
{
    if u.len() == 0 || eq_chars_str(u, "B") {
        Some(1)
    } else if eq_chars_str(u, "kB") || eq_chars_str(u, "KB") {
        Some(1000)
    } else if eq_chars_str(u, "KiB") {
        Some(1024)
    } else if eq_chars_str(u, "MB") {
        Some(1000000)
    } else if eq_chars_str(u, "MiB") {
        Some(1048576)
    } else if eq_chars_str(u, "GB") {
        Some(1000000000)
    } else if eq_chars_str(u, "GiB") {
        Some(1073741824)
    } else if eq_chars_str(u, "TB") {
        Some(1000000000000)
    } else if eq_chars_str(u, "TiB") {
        Some(1099511627776)
    } else {
        None
    }
}

/// Splits an amount of bytes into its number text and the bytes per unit. The
/// number itself is read as a decimal fraction by the caller.
pub fn amount_parts(input: &str) -> (r: Option<(String, u64)>)
    ensures
        match r {
            Some((n, m)) => amount_split(input@) == Some((n@, m)),
            None => amount_split(input@) is None,
        },
{
    let v = chars_of(input);
    let (a, b) = trim_bounds(&v);
    if a == b {
        return None;
    }
    let ghost t = v@.subrange(a as int, b as int);
    let mut number: Vec<char> = Vec::new();
    let mut unit: Vec<char> = Vec::new();
    let mut i: usize = a;
    while i < b
        invariant
            a <= i <= b <= v.len(),
            t == v@.subrange(a as int, b as int),
            number@ == number_chars(t.take(i - a)),
            unit@ == unit_chars(t.take(i - a)),
        decreases b - i,
    {
        let c = v[i];
        proof {
            let s = t.take(i + 1 - a);
            assert(s.drop_last() =~= t.take(i - a));
            assert(s.last() == c);
        }
        if ('0' <= c && c <= '9') || c == '.' {
            number.push(c);
        } else if !is_white_space_char(c) {
            unit.push(c);
        }
        i = i + 1;
    }
    assert(t.take(b - a) =~= t);
    match multiplier_of(&unit) {
        Some(m) => Some((crate::text::string_from_chars(number.as_slice()), m)),
        None => None,
    }
}

/// The columns of one line of `docker stats`, and the process count read as a number.
#[derive(Debug, Clone)]
pub struct StatsColumns {
    pub cpu_percent: String,
    pub mem_usage: String,
    pub mem_percent: String,
    pub net_io: String,
    pub block_io: String,
    pub pids: String,
    /// The process count; 0 where the column is not a number.
    pub pids_value: u64,
}

/// What the output of `docker stats --no-stream` for container `id` reads as:
/// the six columns of its first line, or an error message.
pub open spec fn stats_columns(lines: Seq<Seq<char>>, id: Seq<char>) -> Result<Seq<Seq<char>>, Seq<char>> {
    if lines.len() == 0 {
        Err("No stats returned for container "@ + id)
    } else if split_on(lines[0], '\t').len() < 6 {
        Err("Unexpected stats output for container "@ + id)
    } else {
        Ok(split_on(lines[0], '\t').take(6))
    }
}

/// The process count of a `PIDs` column: its number, or 0.
pub open spec fn pids_count(s: Seq<char>) -> u64 {
    match parse_u64_spec(trim(s)) {
        Some(n) => n,
        None => 0,
    }
}

/// Reads the output of `docker stats --no-stream` in the format `stats_format`.
pub fn parse_stats_lines(lines: &Vec<String>, id: &str) -> (r: Result<StatsColumns, String>)
    ensures
        match r {
            Ok(c) => {
                &&& stats_columns(strings_view(lines@), id@) == Ok::<Seq<Seq<char>>, Seq<char>>(
                    seq![c.cpu_percent@, c.mem_usage@, c.mem_percent@, c.net_io@, c.block_io@, c.pids@],
                )
                &&& c.pids_value == pids_count(c.pids@)
            },
            Err(e) => stats_columns(strings_view(lines@), id@) == Err::<Seq<Seq<char>>, Seq<char>>(e@),
        },
{
    if lines.len() == 0 {
        return Err(concat2("No stats returned for container ", id));
    }
    let parts = split_char(lines[0].as_str(), '\t');
    assert(strings_view(lines@)[0] == lines@[0]@);
    if parts.len() < 6 {
        return Err(concat2("Unexpected stats output for container ", id));
    }
    let pid_text = chars_of(trim_str(parts[5].as_str()).as_str());
    let pids_value = match parse_u64(&pid_text) {
        Some(n) => n,
        None => 0,
    };
    let c = StatsColumns {
        cpu_percent: parts[0].clone(),
        mem_usage: parts[1].clone(),
        mem_percent: parts[2].clone(),
        net_io: parts[3].clone(),
        block_io: parts[4].clone(),
        pids: parts[5].clone(),
        pids_value,
    };
    assert(strings_view(parts@).take(6) =~= seq![
        c.cpu_percent@,
        c.mem_usage@,
        c.mem_percent@,
        c.net_io@,
        c.block_io@,
        c.pids@,
    ]);
    Ok(c)
}

} // verus!
