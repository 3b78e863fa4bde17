//! What the service decides and reports when it starts.

use vstd::prelude::*;

use crate::decimal::decimal;
use crate::decimal::parse_decimal;
use crate::text::ascii_lowercase;
use crate::text::contains_text;
use crate::text::sort_texts;
use crate::text::starts_with_text;
use crate::text::trim_text;

verus! {

/// The environment variable that sets the log level.
pub const LOG_LEVEL_ENV: &'static str = "YV_STREAMER_SOFTWARE_LOG_LEVEL";

/// The port that the service listens on where none is set.
pub const DEFAULT_PORT: u16 = 8080;

/// The first of two settings that is there.
pub open spec fn first_setting(
    first: Option<Seq<char>>,
    second: Option<Seq<char>>,
) -> Option<Seq<char>> {
    match first {
        Some(value) => Some(value),
        None => second,
    }
}

/// The log filter: the explicit level, or else the general one, without white
/// space around it; `info` where there is none or nothing is left of it.
pub open spec fn log_filter(
    log_level: Option<Seq<char>>,
    rust_log: Option<Seq<char>>,
) -> Seq<char> {
    match first_setting(log_level, rust_log) {
        Some(value) => if crate::text::trimmed(value).len() > 0 {
            crate::text::trimmed(value)
        } else {
            "info"@
        },
        None => "info"@,
    }
}

/// The log filter that two settings make.
pub fn resolve_log_filter(log_level: Option<String>, rust_log: Option<String>) -> (r: String)
    ensures
        r@ == log_filter(
            crate::request::string_view(log_level),
            crate::request::string_view(rust_log),
        ),
{
    let setting: Option<String> = match log_level {
        Some(value) => Some(value),
        None => rust_log,
    };
    match setting {
        Some(value) => {
            let filter: String = trim_text(value.as_str());
            if filter.as_str().is_empty() {
                "info".to_owned()
            } else {
                filter
            }
        },
        None => "info".to_owned(),
    }
}

/// A log filter that lets debug or trace lines through somewhere, in any case
/// of letters.
pub open spec fn is_verbose(filter: Seq<char>) -> bool {
    crate::text::has_part(crate::text::lowered(filter), "debug"@) || crate::text::has_part(
        crate::text::lowered(filter),
        "trace"@,
    )
}

/// Whether a log filter asks for the report at the start.
pub fn should_emit_debug_boot_report(filter: &str) -> (r: bool)
    ensures
        r == is_verbose(filter@),
{
    let lower: String = ascii_lowercase(filter);
    contains_text(lower.as_str(), "debug") || contains_text(lower.as_str(), "trace")
}

/// The names of video devices among the names in a directory.
pub open spec fn video_names(names: Seq<Seq<char>>) -> Seq<Seq<char>> {
    names.filter(|name: Seq<char>| "video"@.is_prefix_of(name))
}

/// The names of video devices among the names in a directory, in lexicographic
/// order.
pub fn detect_video_devices_in_dir(names: &Vec<String>) -> (r: Vec<String>)
    ensures
        crate::text::in_order(crate::text::texts(r@)),
        crate::text::texts(r@).to_multiset() == video_names(
            crate::text::texts(names@),
        ).to_multiset(),
{
    let mut found: Vec<String> = Vec::new();
    let mut i: usize = 0;
    let ghost all = crate::text::texts(names@);
    let ghost is_video = |name: Seq<char>| "video"@.is_prefix_of(name);
    proof {
        reveal(Seq::filter);
        assert(all.take(0).filter(is_video) =~= crate::text::texts(found@));
    }
    while i < names.len()
        invariant
            i <= names@.len(),
            all == crate::text::texts(names@),
            is_video == (|name: Seq<char>| "video"@.is_prefix_of(name)),
            crate::text::texts(found@) == all.take(i as int).filter(is_video),
        decreases names@.len() - i,
    {
        proof {
            reveal(Seq::filter);
            assert(all.take(i + 1).drop_last() =~= all.take(i as int));
            assert(all.take(i + 1).last() == names@[i as int]@);
        }
        let ghost before = crate::text::texts(found@);
        if starts_with_text(names[i].as_str(), "video") {
            found.push(names[i].clone());
            assert(crate::text::texts(found@) =~= before.push(names@[i as int]@));
        }
        i += 1;
    }
    assert(all.take(all.len() as int) =~= all);
    sort_texts(found)
}

/// The address that a setting names, else any address.
pub open spec fn host_of(setting: Option<Seq<char>>) -> Seq<char> {
    match setting {
        Some(value) => value,
        None => "0.0.0.0"@,
    }
}

/// The address that the service listens on.
pub fn resolve_host(host: Option<String>) -> (r: String)
    ensures
        r@ == host_of(crate::request::string_view(host)),
        r@ == (match host {
            Some(value) => value@,
            None => "0.0.0.0"@,
        }),
{
    match host {
        Some(value) => value,
        None => "0.0.0.0".to_owned(),
    }
}

/// The port that a setting names: a number of 16 bits, else the default.
pub open spec fn port_of(setting: Option<Seq<char>>) -> u16 {
    match setting {
        Some(value) => match crate::decimal::parsed(value, u16::MAX as nat) {
            Some(port) => port as u16,
            None => DEFAULT_PORT,
        },
        None => DEFAULT_PORT,
    }
}

/// The port that the service listens on.
pub fn resolve_port(port: Option<String>) -> (r: u16)
    ensures
        r == port_of(crate::request::string_view(port)),
{
    match port {
        Some(value) => match parse_decimal(value.as_str(), u16::MAX as u64) {
            Some(number) => number as u16,
            None => DEFAULT_PORT,
        },
        None => DEFAULT_PORT,
    }
}

/// The text of an address and a port.
pub open spec fn address_text(host: Seq<char>, port: u16) -> Seq<char> {
    host + ":"@ + crate::decimal::decimal_text(port as nat)
}

/// The text of an address and a port.
pub fn listen_address(host: &str, port: u16) -> (r: String)
    ensures
        r@ == address_text(host@, port),
{
    host.to_owned().concat(":").concat(decimal(port as u64).as_str())
}

/// How much a line of the log matters.
#[derive(Clone, Copy, Debug, PartialEq, Eq, Structural)]
pub enum LogLevel {
    Debug,
    Warn,
}

/// A line for the log.
#[derive(Debug)]
pub struct LogLine {
    pub level: LogLevel,
    pub text: String,
}

/// The value of a line for the log.
pub struct LineModel {
    pub level: LogLevel,
    pub text: Seq<char>,
}

impl View for LogLine {
    type V = LineModel;

    open spec fn view(&self) -> LineModel {
        LineModel { level: self.level, text: self.text@ }
    }
}

/// What a device says of its current format.
#[derive(Debug)]
pub struct FormatSummary {
    pub width: u32,
    pub height: u32,
    /// The four-character code, where it is text.
    pub fourcc: Option<String>,
}

/// What a device says of itself.
#[derive(Debug)]
pub struct CapabilitySummary {
    pub card: String,
    pub driver: String,
}

/// What an open device says, or why it does not.
#[derive(Debug)]
pub struct DeviceSummary {
    pub capabilities: Result<CapabilitySummary, String>,
    pub format: Result<FormatSummary, String>,
}

/// A device that was found, and what it says, or why it cannot be opened.
#[derive(Debug)]
pub struct DeviceReport {
    pub path: String,
    pub summary: Result<DeviceSummary, String>,
}

/// The text on the format of a device.
pub open spec fn format_text(format: Result<FormatSummary, String>) -> Seq<char> {
    match format {
        Ok(format) => crate::request::resolution_text(format.width, format.height) + " "@ + (
        match format.fourcc {
            Some(code) => code@,
            None => "unknown"@,
        }),
        Err(error) => "format unavailable: "@ + error@,
    }
}

/// The text on the capabilities of a device.
pub open spec fn capability_text(capabilities: Result<CapabilitySummary, String>) -> Seq<char> {
    match capabilities {
        Ok(caps) => caps.card@ + " ("@ + caps.driver@ + ")"@,
        Err(error) => "capabilities unavailable: "@ + error@,
    }
}

/// The line on a device that was found.
pub open spec fn device_line(device: DeviceReport) -> LineModel {
    match device.summary {
        Ok(summary) => LineModel {
            level: LogLevel::Debug,
            text: "Detected video device "@ + device.path@ + " => "@ + capability_text(
                summary.capabilities,
            ) + " ["@ + format_text(summary.format) + "]"@,
        },
        Err(error) => LineModel {
            level: LogLevel::Warn,
            text: "Detected video device "@ + device.path@ + " but failed to open it: "@ + error@,
        },
    }
}

/// The text on the format of a device.
fn describe_format(format: &Result<FormatSummary, String>) -> (r: String)
    ensures
        r@ == format_text(*format),
{
    match format {
        Ok(format) => {
            let mut text: String = decimal(format.width as u64);
            text.append("x");
            text.append(decimal(format.height as u64).as_str());
            text.append(" ");
            match &format.fourcc {
                Some(code) => text.append(code.as_str()),
                None => text.append("unknown"),
            }
            text
        },
        Err(error) => "format unavailable: ".to_owned().concat(error.as_str()),
    }
}

/// The text on the capabilities of a device.
fn describe_capabilities(capabilities: &Result<CapabilitySummary, String>) -> (r: String)
    ensures
        r@ == capability_text(*capabilities),
{
    match capabilities {
        Ok(caps) => caps.card.clone().concat(" (").concat(caps.driver.as_str()).concat(")"),
        Err(error) => "capabilities unavailable: ".to_owned().concat(error.as_str()),
    }
}

/// The line on a device that was found.
pub fn log_video_device_details(device: &DeviceReport) -> (r: LogLine)
    ensures
        r@ == device_line(*device),
{
    let start: String = "Detected video device ".to_owned().concat(device.path.as_str());
    match &device.summary {
        Ok(summary) => LogLine {
            level: LogLevel::Debug,
            text: start.concat(" => ").concat(
                describe_capabilities(&summary.capabilities).as_str(),
            ).concat(" [").concat(describe_format(&summary.format).as_str()).concat("]"),
        },
        Err(error) => LogLine {
            level: LogLevel::Warn,
            text: start.concat(" but failed to open it: ").concat(error.as_str()),
        },
    }
}

/// A list of texts as it is shown for debugging.
pub uninterp spec fn debug_texts(list: Seq<Seq<char>>) -> Seq<char>;

/// The `Debug` form of a list of strings, as the format `{:?}` writes it.
#[verifier::external_body]
fn debug_list(list: &Vec<String>) -> (r: String)
    ensures
        r@ == debug_texts(crate::text::texts(list@)),
{
    format!("{:?}", list)
}

/// A list of paths as it is shown for debugging.
pub uninterp spec fn debug_paths(list: Seq<Seq<char>>) -> Seq<char>;

/// The `Debug` form of a list of `PathBuf`, as the format `{:?}` writes it. Of
/// some characters it can differ from that of a list of strings.
#[verifier::external_body]
fn debug_path_list(list: &Vec<String>) -> (r: String)
    ensures
        r@ == debug_paths(crate::text::texts(list@)),
{
    let paths: Vec<std::path::PathBuf> = list.iter().map(std::path::PathBuf::from).collect();
    format!("{:?}", paths)
}

/// A line that matters for debugging.
pub open spec fn debug_line(text: Seq<char>) -> LineModel {
    LineModel { level: LogLevel::Debug, text }
}

/// The lines on a scan for devices.
pub open spec fn scan_lines(scan: Result<Seq<DeviceReport>, Seq<char>>) -> Seq<LineModel> {
    match scan {
        Ok(devices) => if devices.len() == 0 {
            seq![debug_line("No /dev/video* nodes detected during startup"@)]
        } else {
            seq![
                debug_line(
                    "Detected "@ + crate::decimal::decimal_text(devices.len())
                        + " video device node(s): "@ + debug_paths(
                        devices.map_values(|device: DeviceReport| device.path@),
                    ),
                ),
            ] + devices.map_values(|device: DeviceReport| device_line(device))
        },
        Err(error) => seq![
            LineModel {
                level: LogLevel::Warn,
                text: "Failed to enumerate /dev/video* nodes during startup: "@ + error,
            },
        ],
    }
}

/// The line on the cameras that are managed.
pub open spec fn cameras_line(active: Seq<Seq<char>>) -> LineModel {
    if active.len() == 0 {
        debug_line(
            "No managed camera workers are active yet; workers are created lazily on first request"@,
        )
    } else {
        debug_line("Managed camera workers already active at startup: "@ + debug_texts(active))
    }
}

/// The lines of the report at the start.
pub open spec fn report_lines(
    host: Seq<char>,
    port: u16,
    scan: Result<Seq<DeviceReport>, Seq<char>>,
    active: Seq<Seq<char>>,
) -> Seq<LineModel> {
    seq![
        debug_line("Initialization step 1/4: resolved logging configuration"@),
        debug_line("Initialization step 2/4: resolved bind target to "@ + address_text(host, port)),
        debug_line("Initialization step 3/4: scanning V4L2 devices under /dev"@),
    ] + scan_lines(scan) + seq![
        debug_line("Initialization step 4/4: inspecting managed camera workers"@),
        cameras_line(active),
    ]
}

/// The values of a row of lines.
pub open spec fn lines(list: Seq<LogLine>) -> Seq<LineModel> {
    list.map_values(|line: LogLine| line@)
}

/// The value of what came of a scan for devices.
pub open spec fn scan_view(scan: Result<Vec<DeviceReport>, String>) -> Result<
    Seq<DeviceReport>,
    Seq<char>,
> {
    match scan {
        Ok(devices) => Ok(devices@),
        Err(error) => Err(error@),
    }
}

/// Adds a line that matters for debugging.
fn push_debug(report: &mut Vec<LogLine>, text: String)
    ensures
        lines(final(report)@) == lines(old(report)@).push(debug_line(text@)),
{
    report.push(LogLine { level: LogLevel::Debug, text });
    assert(lines(report@) =~= lines(old(report)@).push(debug_line(text@)));
}

/// Adds the lines on the devices that were found.
fn push_devices(report: &mut Vec<LogLine>, devices: &Vec<DeviceReport>)
    requires
        devices@.len() > 0,
    ensures
        lines(final(report)@) == lines(old(report)@) + scan_lines(Ok(devices@)),
{
    let ghost start = lines(report@);
    let mut paths: Vec<String> = Vec::new();
    let mut i: usize = 0;
    while i < devices.len()
        invariant
            i <= devices@.len(),
            paths@.len() == i,
            forall|j: int| 0 <= j < i ==> (#[trigger] paths@[j])@ == devices@[j].path@,
        decreases devices@.len() - i,
    {
        paths.push(devices[i].path.clone());
        i += 1;
    }
    assert(crate::text::texts(paths@) =~= devices@.map_values(|device: DeviceReport| device.path@));
    let heading: String = "Detected ".to_owned().concat(
        decimal(devices.len() as u64).as_str(),
    ).concat(" video device node(s): ").concat(debug_path_list(&paths).as_str());
    push_debug(report, heading);
    let ghost details = devices@.map_values(|device: DeviceReport| device_line(device));
    let ghost headed = lines(report@);
    let mut k: usize = 0;
    assert(lines(report@) =~= headed + details.take(0));
    while k < devices.len()
        invariant
            k <= devices@.len(),
            details == devices@.map_values(|device: DeviceReport| device_line(device)),
            lines(report@) == headed + details.take(k as int),
        decreases devices@.len() - k,
    {
        let ghost before = lines(report@);
        let line: LogLine = log_video_device_details(&devices[k]);
        report.push(line);
        k += 1;
        assert(lines(report@) =~= before.push(details[k - 1]));
        assert(lines(report@) =~= headed + details.take(k as int));
    }
    assert(lines(report@) =~= start + scan_lines(Ok(devices@)));
}

/// The report at the start: the steps of the initialization, the devices that
/// were found and what they say, and the cameras that are managed.
pub fn log_debug_boot_report(
    host: &str,
    port: u16,
    scan: &Result<Vec<DeviceReport>, String>,
    active_cameras: &Vec<String>,
) -> (r: Vec<LogLine>)
    ensures
        lines(r@) == report_lines(
            host@,
            port,
            scan_view(*scan),
            crate::text::texts(active_cameras@),
        ),
{
    let mut report: Vec<LogLine> = Vec::new();
    push_debug(
        &mut report,
        "Initialization step 1/4: resolved logging configuration".to_owned(),
    );
    push_debug(
        &mut report,
        "Initialization step 2/4: resolved bind target to ".to_owned().concat(
            listen_address(host, port).as_str(),
        ),
    );
    push_debug(
        &mut report,
        "Initialization step 3/4: scanning V4L2 devices under /dev".to_owned(),
    );
    let ghost begun = lines(report@);
    match scan {
        Ok(devices) => if devices.len() == 0 {
            push_debug(&mut report, "No /dev/video* nodes detected during startup".to_owned());
        } else {
            push_devices(&mut report, devices);
        },
        Err(error) => {
            let line = LogLine {
                level: LogLevel::Warn,
                text: "Failed to enumerate /dev/video* nodes during startup: ".to_owned().concat(
                    error.as_str(),
                ),
            };
            report.push(line);
        },
    }
    assert(lines(report@) =~= begun + scan_lines(scan_view(*scan)));
    push_debug(
        &mut report,
        "Initialization step 4/4: inspecting managed camera workers".to_owned(),
    );
    if active_cameras.len() == 0 {
        push_debug(
            &mut report,
            "No managed camera workers are active yet; workers are created lazily on first request".to_owned(),
        );
    } else {
        push_debug(
            &mut report,
            "Managed camera workers already active at startup: ".to_owned().concat(
                debug_list(active_cameras).as_str(),
            ),
        );
    }
    assert(lines(report@) =~= report_lines(
        host@,
        port,
        scan_view(*scan),
        crate::text::texts(active_cameras@),
    ));
    report
}

/// The explicit log level wins over the general one.
pub proof fn law_explicit_level_wins(
    log_level: Seq<char>,
    rust_log: Option<Seq<char>>,
    other: Option<Seq<char>>,
)
    ensures
        log_filter(Some(log_level), rust_log) == log_filter(Some(log_level), other),
{
}

/// Without any setting the log level is `info`, and there is no report.
pub proof fn law_default_level_is_info()
    ensures
        log_filter(None, None) == "info"@,
        !is_verbose("info"@),
{
    reveal_strlit("info");
    reveal_strlit("debug");
    reveal_strlit("trace");
}

/// The log filter is never empty.
pub proof fn law_log_filter_not_empty(log_level: Option<Seq<char>>, rust_log: Option<Seq<char>>)
    ensures
        log_filter(log_level, rust_log).len() > 0,
{
    reveal_strlit("info");
}

/// Every device that was found has its line in the report, after the heading.
pub proof fn law_every_device_is_reported(
    host: Seq<char>,
    port: u16,
    devices: Seq<DeviceReport>,
    active: Seq<Seq<char>>,
    i: int,
)
    requires
        0 <= i < devices.len(),
    ensures
        report_lines(host, port, Ok(devices), active).len() == devices.len() + 6,
        report_lines(host, port, Ok(devices), active)[i + 4] == device_line(devices[i]),
{
}

/// The explicit level is used where it is set, else the general one, without the
/// white space around it; where nothing is left of the one that is used, or none is
/// set, the level is `info`.
pub proof fn law_level_that_is_set_is_used(
    log_level: Seq<char>,
    rust_log: Option<Seq<char>>,
    general: Seq<char>,
)
    ensures
        crate::text::trimmed(log_level).len() > 0 ==> log_filter(Some(log_level), rust_log)
            == crate::text::trimmed(log_level),
        crate::text::trimmed(log_level).len() == 0 ==> log_filter(Some(log_level), rust_log)
            == "info"@,
        log_filter(None, Some(general)) == log_filter(Some(general), None),
{
}

/// A level that neither starts nor ends with white space is used as it is.
pub proof fn law_plain_level_is_kept(log_level: Seq<char>, rust_log: Option<Seq<char>>)
    requires
        log_level.len() > 0,
        !crate::text::is_white_space(log_level[0]),
        !crate::text::is_white_space(log_level.last()),
    ensures
        log_filter(Some(log_level), rust_log) == log_level,
        log_filter(None, Some(log_level)) == log_level,
{
    crate::text::law_plain_text_is_kept(log_level);
}

/// The letters of a word in lower case stand in a text at a position, each in either
/// case.
pub open spec fn spells(s: Seq<char>, at: int, word: Seq<char>) -> bool {
    &&& 0 <= at
    &&& at + word.len() <= s.len()
    &&& forall|k: int|
        0 <= k < word.len() ==> s[at + k] as int == #[trigger] word[k] as int || s[at + k] as int
            + 32 == word[k] as int
}

proof fn lemma_spelling(s: Seq<char>, at: int, word: Seq<char>)
    requires
        forall|k: int| 0 <= k < word.len() ==> 'a' <= #[trigger] word[k] <= 'z',
    ensures
        spells(s, at, word) <==> crate::text::part_at(crate::text::lowered(s), word, at),
{
    let lower = crate::text::lowered(s);
    if spells(s, at, word) {
        assert forall|k: int| 0 <= k < word.len() implies lower.subrange(at, at + word.len())[k]
            == #[trigger] word[k] by {
            assert(s[at + k] as int == word[k] as int || s[at + k] as int + 32 == word[k] as int);
        }
        assert(lower.subrange(at, at + word.len()) =~= word);
    }
    if crate::text::part_at(lower, word, at) {
        assert forall|k: int| 0 <= k < word.len() implies s[at + k] as int
            == #[trigger] word[k] as int || s[at + k] as int + 32 == word[k] as int by {
            assert(lower.subrange(at, at + word.len())[k] == word[k]);
        }
    }
}

/// A filter asks for the report exactly where the letters of `debug` or of `trace`
/// follow each other somewhere in it, each in either case.
pub proof fn law_report_is_asked_for_by_word(filter: Seq<char>)
    ensures
        is_verbose(filter) <==> (exists|at: int| #[trigger] spells(filter, at, "debug"@)) || (
        exists|at: int| #[trigger] spells(filter, at, "trace"@)),
{
    reveal_strlit("debug");
    reveal_strlit("trace");
    let lower = crate::text::lowered(filter);
    assert forall|at: int| #[trigger]
        spells(filter, at, "debug"@) == crate::text::part_at(lower, "debug"@, at) by {
        lemma_spelling(filter, at, "debug"@);
    }
    assert forall|at: int| #[trigger]
        spells(filter, at, "trace"@) == crate::text::part_at(lower, "trace"@, at) by {
        lemma_spelling(filter, at, "trace"@);
    }
    if crate::text::has_part(lower, "debug"@) {
        let at = choose|i: int| crate::text::part_at(lower, "debug"@, i);
        assert(spells(filter, at, "debug"@));
    }
    if crate::text::has_part(lower, "trace"@) {
        let at = choose|i: int| crate::text::part_at(lower, "trace"@, i);
        assert(spells(filter, at, "trace"@));
    }
}

/// The text starts with the letters of `video`.
pub open spec fn is_video_name(name: Seq<char>) -> bool {
    &&& name.len() >= 5
    &&& name[0] == 'v'
    &&& name[1] == 'i'
    &&& name[2] == 'd'
    &&& name[3] == 'e'
    &&& name[4] == 'o'
}

/// A name is found among the video devices as often as it is in the directory where
/// it starts with `video`, and never where it does not.
pub proof fn law_video_devices_are_found_by_name(names: Seq<Seq<char>>, name: Seq<char>)
    ensures
        is_video_name(name) ==> video_names(names).to_multiset().count(name)
            == names.to_multiset().count(name),
        !is_video_name(name) ==> video_names(names).to_multiset().count(name) == 0,
    decreases names.len(),
{
    reveal_strlit("video");
    assert("video"@ =~= seq!['v', 'i', 'd', 'e', 'o']);
    assert("video"@.is_prefix_of(name) <==> is_video_name(name)) by {
        if is_video_name(name) {
            assert(name.subrange(0, 5) =~= "video"@);
        }
        if "video"@.is_prefix_of(name) {
            assert(name.subrange(0, 5) =~= "video"@);
            assert(name.subrange(0, 5)[0] == 'v');
            assert(name.subrange(0, 5)[1] == 'i');
            assert(name.subrange(0, 5)[2] == 'd');
            assert(name.subrange(0, 5)[3] == 'e');
            assert(name.subrange(0, 5)[4] == 'o');
        }
    }
    let is_video = |name: Seq<char>| "video"@.is_prefix_of(name);
    reveal(Seq::filter);
    broadcast use vstd::seq_lib::group_to_multiset_ensures;

    if names.len() == 0 {
        assert(names =~= Seq::empty());
        assert(names.filter(is_video) =~= Seq::empty());
    } else {
        let rest = names.drop_last();
        law_video_devices_are_found_by_name(rest, name);
        assert(rest.push(names.last()) =~= names);
        vstd::seq_lib::to_multiset_build(rest, names.last());
        vstd::seq_lib::to_multiset_build(rest.filter(is_video), names.last());
    }
}

/// A setting names the address as it stands; without one any address will do.
pub proof fn law_host_is_as_set(host: Seq<char>)
    ensures
        host_of(Some(host)) == host,
        host_of(None) == "0.0.0.0"@,
{
}

/// A setting names the port where it reads as a number of 16 bits; any other, and
/// none, gives 8080.
pub proof fn law_port_is_as_set(setting: Seq<char>)
    ensures
        crate::decimal::parsed(setting, 65535) matches Some(port) ==> port_of(Some(setting))
            as nat == port,
        crate::decimal::parsed(setting, 65535) is None ==> port_of(Some(setting)) == 8080,
        port_of(None) == 8080,
{
}

/// The address and the port can be read back from the text: the address as it is, a
/// colon, and the port in decimal.
pub proof fn law_address_can_be_read_back(host: Seq<char>, port: u16)
    ensures
        ({
            let text = address_text(host, port);
            &&& text.len() > host.len() + 1
            &&& text.take(host.len() as int) == host
            &&& text[host.len() as int] == ':'
            &&& text.skip(host.len() + 1int) == crate::decimal::decimal_text(port as nat)
            &&& crate::decimal::parsed(text.skip(host.len() + 1int), 65535) == Some(port as nat)
        }),
{
    reveal_strlit(":");
    let text = address_text(host, port);
    assert(text.take(host.len() as int) =~= host);
    assert(text.skip(host.len() + 1int) =~= crate::decimal::decimal_text(port as nat));
    crate::decimal::law_decimal_round_trip(port as nat, 65535);
    crate::decimal::lemma_decimal_digits(port as nat);
}

/// The value of a line has its level and its text.
pub proof fn law_line_value(line: LogLine)
    ensures
        line@.level == line.level,
        line@.text == line.text@,
{
}

/// The line on a device names its path. Where it could not be opened the line is a
/// warning and ends with the reason; else it is for debugging and tells the card and
/// the driver, or why it cannot, and the format as width, height and code, or why it
/// cannot.
pub proof fn law_device_line_tells_what_was_found(device: DeviceReport)
    ensures
        ({
            let line = device_line(device);
            let start = "Detected video device "@ + device.path@;
            match device.summary {
                Err(error) => {
                    &&& line.level == LogLevel::Warn
                    &&& line.text == start + " but failed to open it: "@ + error@
                },
                Ok(summary) => {
                    &&& line.level == LogLevel::Debug
                    &&& line.text == start + " => "@ + (match summary.capabilities {
                        Ok(caps) => caps.card@ + " ("@ + caps.driver@ + ")"@,
                        Err(error) => "capabilities unavailable: "@ + error@,
                    }) + " ["@ + (match summary.format {
                        Ok(format) => crate::decimal::decimal_text(format.width as nat) + "x"@
                            + crate::decimal::decimal_text(format.height as nat) + " "@ + (
                        match format.fourcc {
                            Some(code) => code@,
                            None => "unknown"@,
                        }),
                        Err(error) => "format unavailable: "@ + error@,
                    }) + "]"@
                },
            }
        }),
{
}

/// The report always tells of its four steps, with the address that was bound, and
/// ends with the cameras; what the scan found stands between the third step and the
/// fourth.
pub proof fn law_report_tells_the_steps(
    host: Seq<char>,
    port: u16,
    scan: Result<Seq<DeviceReport>, Seq<char>>,
    active: Seq<Seq<char>>,
)
    ensures
        ({
            let report = report_lines(host, port, scan, active);
            let n = report.len() as int;
            &&& n >= 6
            &&& report[0] == (LineModel {
                level: LogLevel::Debug,
                text: "Initialization step 1/4: resolved logging configuration"@,
            })
            &&& report[1] == (LineModel {
                level: LogLevel::Debug,
                text: "Initialization step 2/4: resolved bind target to "@ + address_text(
                    host,
                    port,
                ),
            })
            &&& report[2] == (LineModel {
                level: LogLevel::Debug,
                text: "Initialization step 3/4: scanning V4L2 devices under /dev"@,
            })
            &&& report[n - 2] == (LineModel {
                level: LogLevel::Debug,
                text: "Initialization step 4/4: inspecting managed camera workers"@,
            })
            &&& report[n - 1].level == LogLevel::Debug
            &&& active.len() == 0 ==> report[n - 1].text
                == "No managed camera workers are active yet; workers are created lazily on first request"@
            &&& active.len() > 0 ==> report[n - 1].text
                == "Managed camera workers already active at startup: "@ + debug_texts(active)
        }),
{
}

/// The report tells of the scan: that it failed and why, as a warning; that it found
/// nothing; or how many devices it found, which, and a line on each, in order.
pub proof fn law_report_tells_of_the_scan(
    host: Seq<char>,
    port: u16,
    error: Seq<char>,
    devices: Seq<DeviceReport>,
    paths: Seq<Seq<char>>,
    active: Seq<Seq<char>>,
    i: int,
)
    requires
        paths.len() == devices.len(),
        forall|j: int| 0 <= j < devices.len() ==> #[trigger] paths[j] == devices[j].path@,
        0 <= i < devices.len(),
    ensures
        ({
            let failed = report_lines(host, port, Err(error), active);
            let none = report_lines(host, port, Ok(Seq::empty()), active);
            let some = report_lines(host, port, Ok(devices), active);
            &&& failed.len() == 6
            &&& failed[3] == (LineModel {
                level: LogLevel::Warn,
                text: "Failed to enumerate /dev/video* nodes during startup: "@ + error,
            })
            &&& none.len() == 6
            &&& none[3] == (LineModel {
                level: LogLevel::Debug,
                text: "No /dev/video* nodes detected during startup"@,
            })
            &&& some.len() == 6 + devices.len()
            &&& some[3] == (LineModel {
                level: LogLevel::Debug,
                text: "Detected "@ + crate::decimal::decimal_text(devices.len())
                    + " video device node(s): "@ + debug_paths(paths),
            })
            &&& some[4 + i] == device_line(devices[i])
        }),
{
    assert(paths =~= devices.map_values(|device: DeviceReport| device.path@));
}

/// The lines of a report are those of its list, in their places, and what came of a
/// scan has the value of its devices or of its error.
pub proof fn law_values_of_lines_and_scans(
    list: Seq<LogLine>,
    i: int,
    devices: Vec<DeviceReport>,
    error: String,
)
    requires
        0 <= i < list.len(),
    ensures
        lines(list).len() == list.len(),
        lines(list)[i] == list[i]@,
        scan_view(Ok(devices)) == Ok::<Seq<DeviceReport>, Seq<char>>(devices@),
        scan_view(Err(error)) == Err::<Seq<DeviceReport>, Seq<char>>(error@),
{
}

} // verus!
