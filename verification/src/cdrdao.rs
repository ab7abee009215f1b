use vstd::prelude::*;
use vstd::utf8::{decode_utf8, valid_utf8};

use crate::scan::{drive_views, first_line, first_line_of, parse_scanbus, scanbus_drives, CdDrive};
use vstd::string::StrSliceExecFns;

use crate::text::{
    decimal, parse_u64, push_char, push_decimal, push_str, string_views, unsigned_value,
};

verus! {

/// What `String::from_utf8_lossy` gives for bytes: their UTF-8 decoding, with
/// each invalid sequence replaced by U+FFFD.
pub uninterp spec fn spec_utf8_lossy(b: Seq<u8>) -> Seq<char>;

/// Calls `String::from_utf8_lossy`. Its documentation says valid UTF-8 comes back
/// unchanged; for other bytes the result is taken to be the one that
/// `spec_utf8_lossy` names, and how invalid sequences are replaced is not stated.
#[verifier::external_body]
pub(crate) fn utf8_lossy(b: &[u8]) -> (s: String)
    ensures
        s@ == spec_utf8_lossy(b@),
        valid_utf8(b@) ==> s@ == decode_utf8(b@),
{
    String::from_utf8_lossy(b).into_owned()
}

/// Calls `String::from_utf8`: the decoded string for valid UTF-8, `None` otherwise.
#[verifier::external_body]
pub(crate) fn utf8_decode(b: Vec<u8>) -> (r: Option<String>)
    ensures
        valid_utf8(b@) ==> r is Some && r->Some_0@ == decode_utf8(b@),
        !valid_utf8(b@) ==> r is None,
{
    String::from_utf8(b).ok()
}

/// Common paths where cdrdao might be installed, in the order they are tried:
/// the program on the search path, then absolute install locations.
pub fn cdrdao_paths() -> (v: Vec<&'static str>)
    ensures
        v@ == cdrdao_paths_spec(),
{
    let v = vec!["cdrdao", "/opt/homebrew/bin/cdrdao", "/usr/local/bin/cdrdao", "/usr/bin/cdrdao", "/bin/cdrdao"];
    assert(v@ =~= cdrdao_paths_spec());
    v
}

/// The first candidate path whose probe succeeded, given the probe results for
/// the candidates of `cdrdao_paths` in order.
pub fn select_cdrdao(found: &Vec<bool>) -> (r: Option<&'static str>)
    ensures
        (exists|i: int| 0 <= i < found@.len() && i < 5 && found@[i]) <==> r is Some,
        r matches Some(p) ==> exists|i: int|
            0 <= i < found@.len() && i < 5 && #[trigger] found@[i] && p == cdrdao_paths_spec()[i]
                && forall|j: int| 0 <= j < i ==> !found@[j],
{
    let paths = cdrdao_paths();
    let mut i: usize = 0;
    while i < found.len() && i < 5
        invariant
            paths@ == cdrdao_paths_spec(),
            i <= 5,
            i <= found@.len(),
            forall|j: int| 0 <= j < i ==> !found@[j],
        decreases 5 - i,
    {
        if found[i] {
            return Some(paths[i]);
        }
        i = i + 1;
    }
    None
}

/// The candidate paths of `cdrdao_paths`.
pub open spec fn cdrdao_paths_spec() -> Seq<&'static str> {
    seq!["cdrdao", "/opt/homebrew/bin/cdrdao", "/usr/local/bin/cdrdao", "/usr/bin/cdrdao", "/bin/cdrdao"]
}

/// Check if cdrdao is available, given where it was found.
pub fn is_available(found: &Option<&str>) -> (b: bool)
    ensures
        b == found is Some,
{
    found.is_some()
}

/// CD-TEXT driver mode for burning; different drives need different driver
/// configurations for CD-TEXT support.
#[derive(Debug, Clone, Copy, PartialEq, Eq, Structural)]
pub enum CdTextDriver {
    /// No CD-TEXT - burn audio only without metadata
    Disabled,
    /// Let cdrdao auto-detect the driver (no --driver flag)
    Auto,
    /// Use generic-mmc-raw driver (common for CD-TEXT)
    GenericMmcRaw,
    /// Use generic-mmc with 0x10 flag (force R-W sub-channel writing)
    GenericMmcSubchannel,
    /// Use generic-mmc with 0x20000 flag (force CUE sheet, for some Pioneer drives)
    GenericMmcCueSheet,
}

/// The `--driver` value a mode passes to cdrdao, if any.
pub open spec fn driver_value(d: CdTextDriver) -> Option<Seq<char>> {
    match d {
        CdTextDriver::Disabled => None,
        CdTextDriver::Auto => None,
        CdTextDriver::GenericMmcRaw => Some("generic-mmc-raw"@),
        CdTextDriver::GenericMmcSubchannel => Some("generic-mmc:0x10"@),
        CdTextDriver::GenericMmcCueSheet => Some("generic-mmc:0x20000"@),
    }
}

impl Default for CdTextDriver {
    fn default() -> (d: CdTextDriver)
        ensures
            d == CdTextDriver::Auto,
    {
        CdTextDriver::Auto
    }
}

impl CdTextDriver {
    /// Get the driver arguments for cdrdao.
    pub fn driver_args(&self) -> (r: Option<(&'static str, &'static str)>)
        ensures
            match driver_value(*self) {
                Some(v) => r matches Some((f, x)) && f@ == "--driver"@ && x@ == v,
                None => r is None,
            },
    {
        match self {
            CdTextDriver::Disabled => None,
            CdTextDriver::Auto => None,
            CdTextDriver::GenericMmcRaw => Some(("--driver", "generic-mmc-raw")),
            CdTextDriver::GenericMmcSubchannel => Some(("--driver", "generic-mmc:0x10")),
            CdTextDriver::GenericMmcCueSheet => Some(("--driver", "generic-mmc:0x20000")),
        }
    }

    /// Get a human-readable label for this driver mode.
    pub fn label(&self) -> (s: &'static str)
        ensures
            s@ == match *self {
                CdTextDriver::Disabled => "Disabled"@,
                CdTextDriver::Auto => "Auto"@,
                CdTextDriver::GenericMmcRaw => "Raw Mode"@,
                CdTextDriver::GenericMmcSubchannel => "Sub-channel Mode"@,
                CdTextDriver::GenericMmcCueSheet => "CUE Sheet Mode"@,
            },
    {
        match self {
            CdTextDriver::Disabled => "Disabled",
            CdTextDriver::Auto => "Auto",
            CdTextDriver::GenericMmcRaw => "Raw Mode",
            CdTextDriver::GenericMmcSubchannel => "Sub-channel Mode",
            CdTextDriver::GenericMmcCueSheet => "CUE Sheet Mode",
        }
    }

    /// Get a description for this driver mode.
    pub fn description(&self) -> (s: &'static str)
        ensures
            s@ == match *self {
                CdTextDriver::Disabled => "No CD-TEXT metadata"@,
                CdTextDriver::Auto => "Let cdrdao auto-detect driver"@,
                CdTextDriver::GenericMmcRaw => "generic-mmc-raw (most compatible)"@,
                CdTextDriver::GenericMmcSubchannel => "generic-mmc:0x10 (force sub-channel)"@,
                CdTextDriver::GenericMmcCueSheet => "generic-mmc:0x20000 (Pioneer drives)"@,
            },
    {
        match self {
            CdTextDriver::Disabled => "No CD-TEXT metadata",
            CdTextDriver::Auto => "Let cdrdao auto-detect driver",
            CdTextDriver::GenericMmcRaw => "generic-mmc-raw (most compatible)",
            CdTextDriver::GenericMmcSubchannel => "generic-mmc:0x10 (force sub-channel)",
            CdTextDriver::GenericMmcCueSheet => "generic-mmc:0x20000 (Pioneer drives)",
        }
    }

    /// Create from index (for UI dropdown): 0 to 3 are Auto, raw, sub-channel and
    /// CUE sheet mode; any other index gives Auto.
    pub fn from_index(index: i32) -> (d: CdTextDriver)
        ensures
            d == match index {
                1 => CdTextDriver::GenericMmcRaw,
                2 => CdTextDriver::GenericMmcSubchannel,
                3 => CdTextDriver::GenericMmcCueSheet,
                _ => CdTextDriver::Auto,
            },
    {
        match index {
            0 => CdTextDriver::Auto,
            1 => CdTextDriver::GenericMmcRaw,
            2 => CdTextDriver::GenericMmcSubchannel,
            3 => CdTextDriver::GenericMmcCueSheet,
            _ => CdTextDriver::Auto,
        }
    }
}

/// Burn options.
#[derive(Debug)]
pub struct BurnOptions {
    /// CD drive device path
    pub device: String,
    /// Burn speed (0 = auto)
    pub speed: u32,
    /// Simulate burn (don't actually write)
    pub simulate: bool,
    /// Eject disc after burning
    pub eject: bool,
    /// CD-TEXT driver mode
    pub cd_text_driver: CdTextDriver,
}

impl Default for BurnOptions {
    fn default() -> (o: BurnOptions)
        ensures
            o.device@ == "/dev/sr0"@,
            o.speed == 0,
            !o.simulate,
            o.eject,
            o.cd_text_driver == CdTextDriver::Auto,
    {
        BurnOptions {
            device: String::from_str("/dev/sr0"),
            speed: 0,
            simulate: false,
            eject: true,
            cd_text_driver: CdTextDriver::Auto,
        }
    }
}

/// `s` without the `x` characters at its end.
pub open spec fn without_trailing_x(s: Seq<char>) -> Seq<char>
    decreases s.len(),
{
    if s.len() > 0 && s.last() == 'x' {
        without_trailing_x(s.drop_last())
    } else {
        s
    }
}

/// The burn speed for a speed menu choice: 0 (the drive decides) for the
/// automatic choice, otherwise the number before the trailing `x`, or 0 where
/// there is no number that fits a `u32`.
pub open spec fn speed_of_choice(choice: Seq<char>) -> u32 {
    if choice == "Auto (let drive decide)"@ {
        0
    } else {
        match unsigned_value(without_trailing_x(choice)) {
            Some(v) => if v <= u32::MAX {
                v as u32
            } else {
                0
            },
            None => 0,
        }
    }
}

/// The burn speed for a speed menu choice such as "Auto (let drive decide)" or "8x".
pub fn speed_from_choice(choice: &str) -> (speed: u32)
    ensures
        speed == speed_of_choice(choice@),
{
    let auto = String::from_str("Auto (let drive decide)");
    let owned = String::from_str(choice);
    if owned == auto {
        return 0;
    }
    let n = choice.unicode_len();
    let mut j: usize = n;
    assert(choice@.take(n as int) =~= choice@);
    while j > 0 && choice.get_char(j - 1) == 'x'
        invariant
            n == choice@.len(),
            j <= n,
            without_trailing_x(choice@) == without_trailing_x(choice@.take(j as int)),
        decreases j,
    {
        assert(choice@.take(j as int).drop_last() =~= choice@.take(j - 1));
        j = j - 1;
    }
    let ghost stripped = choice@.take(j as int);
    assert(without_trailing_x(stripped) == stripped) by {
        if j > 0 {
            assert(stripped.last() == choice@[j - 1]);
        }
    }
    let mut digits = String::new();
    let mut k: usize = 0;
    while k < j
        invariant
            n == choice@.len(),
            k <= j <= n,
            stripped == choice@.take(j as int),
            digits@ == stripped.take(k as int),
        decreases j - k,
    {
        push_char(&mut digits, choice.get_char(k));
        assert(stripped.take(k + 1) =~= stripped.take(k as int).push(choice@[k as int]));
        k = k + 1;
    }
    assert(stripped.take(j as int) =~= stripped);
    match parse_u64(digits.as_str()) {
        Some(v) => if v <= 4294967295 {
            v as u32
        } else {
            0
        },
        None => 0,
    }
}

/// Errors in running cdrdao.
#[derive(Debug)]
pub enum CdrdaoError {
    /// cdrdao was not found.
    NotInstalled,
    /// cdrdao could not be started: reason.
    ExecutionError(String),
    /// cdrdao reported failure: its error output.
    CommandFailed(String),
    /// Burning failed: cdrdao's error output.
    BurnFailed(String),
}

/// What running cdrdao printed and whether it succeeded.
#[derive(Debug)]
pub struct CommandOutput {
    /// Whether the process exited successfully
    pub success: bool,
    /// What it wrote to standard output
    pub stdout: Vec<u8>,
    /// What it wrote to standard error
    pub stderr: Vec<u8>,
}

/// How an attempt to run cdrdao went.
#[derive(Debug)]
pub enum CommandRun {
    /// No cdrdao binary was found.
    NotInstalled,
    /// The process could not be started: reason.
    SpawnFailed(String),
    /// The process ran to its end.
    Finished(CommandOutput),
}

/// The arguments for reading the version: `--version`.
pub fn version_args() -> (v: Vec<String>)
    ensures
        string_views(v@) == seq!["--version"@],
{
    let v = vec![String::from_str("--version")];
    assert(string_views(v@) =~= seq!["--version"@]);
    v
}

/// The first line of `s`, or "unknown" when it has none.
pub open spec fn first_line_or_unknown(s: Seq<char>) -> Seq<char> {
    match first_line(s) {
        Some(l) => l,
        None => "unknown"@,
    }
}

/// What the version query gives: when cdrdao ran and succeeded, the first line
/// of its error output if that is valid UTF-8, else of its standard output if
/// that is; nothing in every other case.
pub open spec fn version_text(run: CommandRun) -> Option<Seq<char>> {
    match run {
        CommandRun::Finished(o) => if o.success && valid_utf8(o.stderr@) {
            Some(first_line_or_unknown(decode_utf8(o.stderr@)))
        } else if o.success && valid_utf8(o.stdout@) {
            Some(first_line_or_unknown(decode_utf8(o.stdout@)))
        } else {
            None
        },
        _ => None,
    }
}

/// Get the cdrdao version string from running it with `version_args`.
pub fn version(run: CommandRun) -> (r: Option<String>)
    ensures
        match version_text(run) {
            Some(t) => r matches Some(s) && s@ == t,
            None => r is None,
        },
{
    match run {
        CommandRun::Finished(o) => {
            if !o.success {
                return None;
            }
            let text = match utf8_decode(o.stderr) {
                Some(t) => t,
                None => match utf8_decode(o.stdout) {
                    Some(t) => t,
                    None => {
                        return None;
                    },
                },
            };
            match first_line_of(text.as_str()) {
                Some(l) => Some(l),
                None => Some(String::from_str("unknown")),
            }
        },
        _ => None,
    }
}

/// The arguments for listing drives: `scanbus`.
pub fn list_drives_args() -> (v: Vec<String>)
    ensures
        string_views(v@) == seq!["scanbus"@],
{
    let v = vec![String::from_str("scanbus")];
    assert(string_views(v@) =~= seq!["scanbus"@]);
    v
}

/// List available CD drives from running cdrdao with `list_drives_args`. cdrdao
/// writes the drives to its error output, so both outputs are searched, standard
/// output first.
pub fn list_drives(run: CommandRun) -> (r: Result<Vec<CdDrive>, CdrdaoError>)
    ensures
        match run {
            CommandRun::NotInstalled => r matches Err(CdrdaoError::NotInstalled),
            CommandRun::SpawnFailed(e) => r matches Err(CdrdaoError::ExecutionError(m)) && m == e,
            CommandRun::Finished(o) => if o.success {
                r matches Ok(d) && drive_views(d@) == scanbus_drives(
                    spec_utf8_lossy(o.stdout@) + spec_utf8_lossy(o.stderr@),
                )
            } else {
                r matches Err(CdrdaoError::CommandFailed(m)) && m@ == spec_utf8_lossy(o.stderr@)
            },
        },
{
    match run {
        CommandRun::NotInstalled => Err(CdrdaoError::NotInstalled),
        CommandRun::SpawnFailed(e) => Err(CdrdaoError::ExecutionError(e)),
        CommandRun::Finished(o) => {
            if !o.success {
                return Err(CdrdaoError::CommandFailed(utf8_lossy(o.stderr.as_slice())));
            }
            let mut combined = utf8_lossy(o.stdout.as_slice());
            let err = utf8_lossy(o.stderr.as_slice());
            push_str(&mut combined, err.as_str());
            Ok(parse_scanbus(combined.as_str()))
        },
    }
}

/// The arguments for burning `toc_file` with `options`.
pub open spec fn burn_arg_texts(options: &BurnOptions, toc_file: Seq<char>) -> Seq<Seq<char>> {
    seq!["write"@, "--device"@, options.device@] + (match driver_value(options.cd_text_driver) {
        Some(v) => seq!["--driver"@, v],
        None => Seq::empty(),
    }) + (if options.speed > 0 {
        seq!["--speed"@, decimal(options.speed as nat)]
    } else {
        Seq::empty()
    }) + (if options.simulate {
        seq!["--simulate"@]
    } else {
        Seq::empty()
    }) + (if options.eject {
        seq!["--eject"@]
    } else {
        Seq::empty()
    }) + seq!["-v"@, "2"@, toc_file]
}

/// A cdrdao invocation with fixed burn options.
#[derive(Debug)]
pub struct Cdrdao {
    options: BurnOptions,
}

/// Appends an owned copy of `s` to `v`.
fn push_arg(v: &mut Vec<String>, s: &str)
    ensures
        string_views(final(v)@) == string_views(old(v)@).push(s@),
{
    let mut a = String::new();
    push_str(&mut a, s);
    v.push(a);
    assert(string_views(final(v)@) =~= string_views(old(v)@).push(s@));
}

impl Cdrdao {
    /// A cdrdao invocation with the given options.
    pub fn new(options: BurnOptions) -> (c: Cdrdao)
        ensures
            c.options() == options,
    {
        Cdrdao { options }
    }

    /// The options this invocation burns with.
    pub closed spec fn options(&self) -> BurnOptions {
        self.options
    }

    /// The device this invocation writes to.
    pub fn device(&self) -> (d: &str)
        ensures
            d@ == self.options().device@,
    {
        self.options.device.as_str()
    }

    /// The arguments for burning the TOC file at `toc_file`.
    pub fn burn_args(&self, toc_file: &str) -> (v: Vec<String>)
        ensures
            string_views(v@) == burn_arg_texts(&self.options(), toc_file@),
    {
        let mut args: Vec<String> = Vec::new();
        push_arg(&mut args, "write");
        push_arg(&mut args, "--device");
        push_arg(&mut args, self.options.device.as_str());
        let ghost a0 = string_views(args@);
        if let Some((flag, value)) = self.options.cd_text_driver.driver_args() {
            push_arg(&mut args, flag);
            push_arg(&mut args, value);
        }
        let ghost a1 = string_views(args@);
        if self.options.speed > 0 {
            push_arg(&mut args, "--speed");
            let mut speed = String::new();
            push_decimal(&mut speed, self.options.speed as u64);
            push_arg(&mut args, speed.as_str());
        }
        let ghost a2 = string_views(args@);
        if self.options.simulate {
            push_arg(&mut args, "--simulate");
        }
        let ghost a3 = string_views(args@);
        if self.options.eject {
            push_arg(&mut args, "--eject");
        }
        let ghost a4 = string_views(args@);
        push_arg(&mut args, "-v");
        push_arg(&mut args, "2");
        push_arg(&mut args, toc_file);
        proof {
            reveal_strlit("2");
            assert(a0 =~= seq!["write"@, "--device"@, self.options.device@]);
            assert(a1 =~= a0 + (match driver_value(self.options.cd_text_driver) {
                Some(v) => seq!["--driver"@, v],
                None => Seq::empty(),
            }));
            assert(a2 =~= a1 + (if self.options.speed > 0 {
                seq!["--speed"@, decimal(self.options.speed as nat)]
            } else {
                Seq::empty()
            }));
            assert(a3 =~= a2 + (if self.options.simulate {
                seq!["--simulate"@]
            } else {
                Seq::empty()
            }));
            assert(a4 =~= a3 + (if self.options.eject {
                seq!["--eject"@]
            } else {
                Seq::empty()
            }));
        }
        assert(string_views(args@) =~= burn_arg_texts(&self.options(), toc_file@));
        args
    }

    /// What burning gives from running cdrdao with `burn_args`.
    pub fn burn_result(&self, run: CommandRun) -> (r: Result<(), CdrdaoError>)
        ensures
            match run {
                CommandRun::NotInstalled => r matches Err(CdrdaoError::NotInstalled),
                CommandRun::SpawnFailed(e) => r matches Err(CdrdaoError::ExecutionError(m)) && m
                    == e,
                CommandRun::Finished(o) => if o.success {
                    r is Ok
                } else {
                    r matches Err(CdrdaoError::BurnFailed(m)) && m@ == spec_utf8_lossy(o.stderr@)
                },
            },
    {
        match run {
            CommandRun::NotInstalled => Err(CdrdaoError::NotInstalled),
            CommandRun::SpawnFailed(e) => Err(CdrdaoError::ExecutionError(e)),
            CommandRun::Finished(o) => {
                if !o.success {
                    return Err(CdrdaoError::BurnFailed(utf8_lossy(o.stderr.as_slice())));
                }
                Ok(())
            },
        }
    }

    /// The invocation for a dry run: the same options, simulating.
    pub fn simulate(&self) -> (c: Cdrdao)
        ensures
            c.options().device == self.options().device,
            c.options().speed == self.options().speed,
            c.options().simulate,
            c.options().eject == self.options().eject,
            c.options().cd_text_driver == self.options().cd_text_driver,
    {
        Cdrdao {
            options: BurnOptions {
                device: self.options.device.clone(),
                speed: self.options.speed,
                simulate: true,
                eject: self.options.eject,
                cd_text_driver: self.options.cd_text_driver,
            },
        }
    }

    /// The arguments for reading disc information.
    pub fn disc_info_args(&self) -> (v: Vec<String>)
        ensures
            string_views(v@) == seq!["disk-info"@, "--device"@, self.options().device@],
    {
        let mut args: Vec<String> = Vec::new();
        push_arg(&mut args, "disk-info");
        push_arg(&mut args, "--device");
        push_arg(&mut args, self.options.device.as_str());
        assert(string_views(args@) =~= seq!["disk-info"@, "--device"@, self.options().device@]);
        args
    }

    /// Read disc info from running cdrdao with `disc_info_args`.
    pub fn disc_info(&self, run: CommandRun) -> (r: Result<String, CdrdaoError>)
        ensures
            match run {
                CommandRun::NotInstalled => r matches Err(CdrdaoError::NotInstalled),
                CommandRun::SpawnFailed(e) => r matches Err(CdrdaoError::ExecutionError(m)) && m
                    == e,
                CommandRun::Finished(o) => if o.success {
                    r matches Ok(s) && s@ == spec_utf8_lossy(o.stdout@)
                } else {
                    r matches Err(CdrdaoError::CommandFailed(m)) && m@ == spec_utf8_lossy(
                        o.stderr@,
                    )
                },
            },
    {
        match run {
            CommandRun::NotInstalled => Err(CdrdaoError::NotInstalled),
            CommandRun::SpawnFailed(e) => Err(CdrdaoError::ExecutionError(e)),
            CommandRun::Finished(o) => {
                if !o.success {
                    return Err(CdrdaoError::CommandFailed(utf8_lossy(o.stderr.as_slice())));
                }
                Ok(utf8_lossy(o.stdout.as_slice()))
            },
        }
    }

    /// The arguments for blanking a CD-RW disc.
    pub fn blank_args(&self) -> (v: Vec<String>)
        ensures
            string_views(v@) == seq![
                "blank"@,
                "--device"@,
                self.options().device@,
                "--blank-mode"@,
                "minimal"@,
            ],
    {
        let mut args: Vec<String> = Vec::new();
        push_arg(&mut args, "blank");
        push_arg(&mut args, "--device");
        push_arg(&mut args, self.options.device.as_str());
        push_arg(&mut args, "--blank-mode");
        push_arg(&mut args, "minimal");
        assert(string_views(args@) =~= seq![
            "blank"@,
            "--device"@,
            self.options().device@,
            "--blank-mode"@,
            "minimal"@,
        ]);
        args
    }

    /// Blank a CD-RW disc: what running cdrdao with `blank_args` gives.
    pub fn blank(&self, run: CommandRun) -> (r: Result<(), CdrdaoError>)
        ensures
            match run {
                CommandRun::NotInstalled => r matches Err(CdrdaoError::NotInstalled),
                CommandRun::SpawnFailed(e) => r matches Err(CdrdaoError::ExecutionError(m)) && m
                    == e,
                CommandRun::Finished(o) => if o.success {
                    r is Ok
                } else {
                    r matches Err(CdrdaoError::CommandFailed(m)) && m@ == spec_utf8_lossy(
                        o.stderr@,
                    )
                },
            },
    {
        match run {
            CommandRun::NotInstalled => Err(CdrdaoError::NotInstalled),
            CommandRun::SpawnFailed(e) => Err(CdrdaoError::ExecutionError(e)),
            CommandRun::Finished(o) => {
                if !o.success {
                    return Err(CdrdaoError::CommandFailed(utf8_lossy(o.stderr.as_slice())));
                }
                Ok(())
            },
        }
    }
}

} // verus!
