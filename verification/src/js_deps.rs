//! Install JS deps only when the lockfile/manifest fingerprint changed.

use vstd::prelude::*;
use crate::text;

verus! {

/// File inside `node_modules` that holds the fingerprint of the last install.
pub const STAMP_NAME: &'static str = ".shuvgrok-deps-stamp";

/// The files whose contents decide whether dependencies are current, in the
/// order in which they are fingerprinted.
pub const FINGERPRINT_FILES: [&'static str; 8] = [
    "package.json",
    "pnpm-lock.yaml",
    "pnpm-workspace.yaml",
    "bun.lock",
    "bun.lockb",
    "yarn.lock",
    "package-lock.json",
    "bunfig.toml",
];

/// A JavaScript package manager.
#[derive(Debug, Clone, Copy, PartialEq, Eq, Structural)]
pub enum JsPackageManager {
    Bun,
    Pnpm,
    Yarn,
    Npm,
}

impl JsPackageManager {
    /// The name of the manager's program.
    pub open spec fn name(self) -> Seq<char> {
        match self {
            JsPackageManager::Bun => "bun"@,
            JsPackageManager::Pnpm => "pnpm"@,
            JsPackageManager::Yarn => "yarn"@,
            JsPackageManager::Npm => "npm"@,
        }
    }

    /// The manager of that name.
    pub open spec fn named(name: Seq<char>) -> Option<JsPackageManager> {
        if name == "bun"@ {
            Some(JsPackageManager::Bun)
        } else if name == "pnpm"@ {
            Some(JsPackageManager::Pnpm)
        } else if name == "yarn"@ {
            Some(JsPackageManager::Yarn)
        } else if name == "npm"@ {
            Some(JsPackageManager::Npm)
        } else {
            None
        }
    }

    /// The name of the manager's program.
    pub fn as_str(self) -> (r: &'static str)
        ensures
            r@ == self.name(),
    {
        match self {
            JsPackageManager::Bun => "bun",
            JsPackageManager::Pnpm => "pnpm",
            JsPackageManager::Yarn => "yarn",
            JsPackageManager::Npm => "npm",
        }
    }
}

/// What came of bringing the dependencies up to date.
#[derive(Debug, Clone, Copy, PartialEq, Eq, Structural)]
pub enum EnsureJsDepsOutcome {
    SkippedNoJsProject,
    SkippedStampMatch { manager: JsPackageManager },
    TrustedExisting { manager: JsPackageManager },
    Installed { manager: JsPackageManager },
}

/// What stands in `s` before the first `sep`, or all of it.
pub open spec fn up_to(s: Seq<char>, sep: Seq<char>) -> Seq<char> {
    match text::split_once(s, sep) {
        Some((head, _)) => head,
        None => s,
    }
}

fn up_to_text<'a>(s: &'a str, sep: &str) -> (r: &'a str)
    ensures
        r@ == up_to(s@, sep@),
{
    match text::split_once_text(s, sep) {
        Some((head, _)) => head,
        None => s,
    }
}

/// The quoted value behind the first `"packageManager"` key of a manifest.
pub open spec fn manager_field(text: Seq<char>) -> Option<Seq<char>> {
    match text::split_once(text, "\"packageManager\""@) {
        None => None,
        Some((_, after)) => match text::split_once(after, ":"@) {
            None => None,
            Some((_, rest)) => match text::strip_prefix(text::trim_start(rest), "\""@) {
                None => None,
                Some(quoted) => Some(up_to(quoted, "\""@)),
            },
        },
    }
}

/// The quoted value behind the first `"packageManager"` key of a manifest.
pub fn package_manager_field(text: &str) -> (r: Option<&str>)
    ensures
        match r {
            Some(v) => manager_field(text@) == Some(v@),
            None => manager_field(text@) is None,
        },
{
    match text::split_once_text(text, "\"packageManager\"") {
        None => None,
        Some((_, after)) => match text::split_once_text(after, ":") {
            None => None,
            Some((_, rest)) => match text::strip_prefix_text(text::trim_start_text(rest), "\"") {
                None => None,
                Some(quoted) => Some(up_to_text(quoted, "\"")),
            },
        },
    }
}

/// Which lockfiles a project root holds.
#[derive(Debug, Clone, Copy, PartialEq, Eq, Structural)]
pub struct Lockfiles {
    pub bun_lockb: bool,
    pub bun_lock: bool,
    pub pnpm_lock: bool,
    pub yarn_lock: bool,
    pub package_lock: bool,
}

/// The manager that a project's lockfiles point to.
pub open spec fn lockfile_manager(locks: Lockfiles) -> Option<JsPackageManager> {
    if locks.bun_lockb || locks.bun_lock {
        Some(JsPackageManager::Bun)
    } else if locks.pnpm_lock {
        Some(JsPackageManager::Pnpm)
    } else if locks.yarn_lock {
        Some(JsPackageManager::Yarn)
    } else if locks.package_lock {
        Some(JsPackageManager::Npm)
    } else {
        None
    }
}

/// The manager that a manifest's `packageManager` field names, up to its
/// version.
pub open spec fn declared_manager(package_json: Option<Seq<char>>) -> Option<JsPackageManager> {
    match package_json {
        None => None,
        Some(text) => match manager_field(text) {
            None => None,
            Some(field) => JsPackageManager::named(up_to(field, "@"@)),
        },
    }
}

/// The manager of a project: the declared one where it is known, else the one
/// its lockfiles point to.
pub open spec fn project_manager(
    package_json: Option<Seq<char>>,
    locks: Lockfiles,
) -> Option<JsPackageManager> {
    match declared_manager(package_json) {
        Some(manager) => Some(manager),
        None => lockfile_manager(locks),
    }
}

/// The contents of an optional text.
pub open spec fn text_view(text: Option<&str>) -> Option<Seq<char>> {
    match text {
        Some(text) => Some(text@),
        None => None,
    }
}

/// Detects bun, pnpm, yarn or npm from the text of `package.json` (none where
/// it could not be read), then from lockfiles.
pub fn detect_js_package_manager(package_json: Option<&str>, locks: Lockfiles) -> (r: Option<
    JsPackageManager,
>)
    ensures
        r == project_manager(text_view(package_json), locks),
{
    if let Some(text) = package_json {
        if let Some(field) = package_manager_field(text) {
            let name: &str = up_to_text(field, "@");
            if text::same_text(name, "bun") {
                return Some(JsPackageManager::Bun);
            }
            if text::same_text(name, "pnpm") {
                return Some(JsPackageManager::Pnpm);
            }
            if text::same_text(name, "yarn") {
                return Some(JsPackageManager::Yarn);
            }
            if text::same_text(name, "npm") {
                return Some(JsPackageManager::Npm);
            }
        }
    }
    if locks.bun_lockb || locks.bun_lock {
        return Some(JsPackageManager::Bun);
    }
    if locks.pnpm_lock {
        return Some(JsPackageManager::Pnpm);
    }
    if locks.yarn_lock {
        return Some(JsPackageManager::Yarn);
    }
    if locks.package_lock {
        return Some(JsPackageManager::Npm);
    }
    None
}

/// What `rapidhash::v3::rapidhash_v3` gives for these bytes.
pub uninterp spec fn rapidhash_v3_value(data: Seq<u8>) -> u64;

/// Calls `rapidhash::v3::rapidhash_v3`, the V3 hash of a byte string under the
/// crate's fixed default seed. The contract says no more than that equal bytes
/// have equal hashes.
#[verifier::external_body]
fn rapidhash_v3(data: &[u8]) -> (r: u64)
    ensures
        r == rapidhash_v3_value(data@),
{
    rapidhash::v3::rapidhash_v3(data)
}

/// The bytes that one present file adds to the fingerprint: its name, a zero
/// byte, its length as eight little-endian bytes, and its contents.
pub open spec fn file_record(name: Seq<char>, bytes: Seq<u8>) -> Seq<u8> {
    vstd::utf8::encode_utf8(name) + seq![0u8] + vstd::bytes::spec_u64_to_le_bytes(
        bytes.len() as u64,
    ) + bytes
}

/// The bytes of the present files from the `i`-th on. A file that could not be
/// read adds nothing.
pub open spec fn records_from(contents: Seq<Option<Vec<u8>>>, i: int) -> Seq<u8>
    decreases FINGERPRINT_FILES@.len() - i,
{
    if i >= FINGERPRINT_FILES@.len() {
        Seq::empty()
    } else {
        (match contents[i] {
            Some(bytes) => file_record(FINGERPRINT_FILES@[i]@, bytes@),
            None => Seq::empty(),
        }) + records_from(contents, i + 1)
    }
}

/// The fingerprint of a project whose [`FINGERPRINT_FILES`] hold `contents`.
pub open spec fn fingerprint(contents: Seq<Option<Vec<u8>>>) -> Seq<char> {
    text::hex(rapidhash_v3_value(records_from(contents, 0)) as nat, 16)
}

fn push_bytes(buf: &mut Vec<u8>, bytes: &[u8])
    ensures
        final(buf)@ == old(buf)@ + bytes@,
{
    buf.extend_from_slice(bytes);
    proof {
        assert(buf@ =~= old(buf)@ + bytes@);
    }
}

/// Joins the records of the present files, in order, into what is hashed.
pub fn fingerprint_input(contents: &Vec<Option<Vec<u8>>>) -> (r: Vec<u8>)
    requires
        contents@.len() == FINGERPRINT_FILES@.len(),
    ensures
        r@ == records_from(contents@, 0),
{
    let mut buf: Vec<u8> = Vec::new();
    let mut i: usize = 0;
    while i < FINGERPRINT_FILES.len()
        invariant
            i <= FINGERPRINT_FILES@.len(),
            contents@.len() == FINGERPRINT_FILES@.len(),
            records_from(contents@, 0) == buf@ + records_from(contents@, i as int),
        decreases FINGERPRINT_FILES@.len() - i,
    {
        let ghost before = buf@;
        let name: &'static str = FINGERPRINT_FILES[i];
        if let Some(bytes) = &contents[i] {
            push_bytes(&mut buf, name.as_bytes());
            buf.push(0);
            push_bytes(&mut buf, vstd::bytes::u64_to_le_bytes(bytes.len() as u64).as_slice());
            push_bytes(&mut buf, bytes.as_slice());
            proof {
                assert(buf@ =~= before + file_record(name@, bytes@));
            }
        }
        proof {
            assert(buf@ + records_from(contents@, i + 1) =~= before + records_from(
                contents@,
                i as int,
            ));
        }
        i = i + 1;
    }
    proof {
        assert(buf@ + records_from(contents@, i as int) =~= buf@);
    }
    buf
}

/// The fingerprint of a project, given what each of [`FINGERPRINT_FILES`]
/// holds (none where it could not be read).
pub fn js_deps_fingerprint(contents: &Vec<Option<Vec<u8>>>) -> (r: String)
    requires
        contents@.len() == FINGERPRINT_FILES@.len(),
    ensures
        r@ == fingerprint(contents@),
{
    let buf: Vec<u8> = fingerprint_input(contents);
    text::hex_text(rapidhash_v3(buf.as_slice()), 16)
}

/// What to do about a project's dependencies.
#[derive(Debug, Clone, Copy, PartialEq, Eq, Structural)]
pub enum DepsPlan {
    /// Nothing to do.
    Done(EnsureJsDepsOutcome),
    /// Stamp the existing `node_modules` and trust it.
    Trust { manager: JsPackageManager },
    /// Run the manager's install command, then stamp.
    Install { manager: JsPackageManager },
}

/// Whether a stamp file's text records this fingerprint.
pub open spec fn stamp_records(stamp: Seq<char>, want: Seq<char>) -> bool {
    text::trim(stamp) == want
}

/// What to do, given the project's manager, whether `node_modules` is a
/// directory, and the stamp in it (none where it could not be read).
pub open spec fn deps_plan(
    manager: Option<JsPackageManager>,
    node_modules_is_dir: bool,
    stamp: Option<Seq<char>>,
    want: Seq<char>,
) -> DepsPlan {
    match manager {
        None => DepsPlan::Done(EnsureJsDepsOutcome::SkippedNoJsProject),
        Some(manager) => if !node_modules_is_dir {
            DepsPlan::Install { manager }
        } else {
            match stamp {
                None => DepsPlan::Trust { manager },
                Some(have) => if stamp_records(have, want) {
                    DepsPlan::Done(EnsureJsDepsOutcome::SkippedStampMatch { manager })
                } else {
                    DepsPlan::Install { manager }
                },
            }
        },
    }
}

/// Trusts `node_modules` when present and unstamped; installs only on stamp
/// mismatch or when it is missing.
pub fn plan_js_deps(
    manager: Option<JsPackageManager>,
    node_modules_is_dir: bool,
    stamp: Option<&str>,
    want: &str,
) -> (r: DepsPlan)
    ensures
        r == deps_plan(manager, node_modules_is_dir, text_view(stamp), want@),
{
    let manager: JsPackageManager = match manager {
        None => {
            return DepsPlan::Done(EnsureJsDepsOutcome::SkippedNoJsProject);
        },
        Some(manager) => manager,
    };
    if node_modules_is_dir {
        match stamp {
            None => {
                return DepsPlan::Trust { manager };
            },
            Some(have) => {
                if text::same_text(text::trim_text(have), want) {
                    return DepsPlan::Done(EnsureJsDepsOutcome::SkippedStampMatch { manager });
                }
            },
        }
    }
    DepsPlan::Install { manager }
}

/// The text to write into the stamp file for this fingerprint.
pub fn stamp_text(fingerprint: &str) -> (r: String)
    ensures
        r@ == fingerprint@ + "\n"@,
{
    let mut r: String = fingerprint.to_owned();
    r.append("\n");
    r
}

/// The arguments of the manager's install command.
pub open spec fn install_words(manager: JsPackageManager, has_package_lock: bool) -> Seq<
    Seq<char>,
> {
    match manager {
        JsPackageManager::Bun => seq!["install"@, "--frozen-lockfile"@],
        JsPackageManager::Pnpm => seq!["install"@, "--frozen-lockfile"@],
        JsPackageManager::Yarn => seq!["install"@, "--immutable"@],
        JsPackageManager::Npm => if has_package_lock {
            seq!["ci"@]
        } else {
            seq!["install"@]
        },
    }
}

/// The arguments of the manager's install command; the program is
/// [`JsPackageManager::as_str`].
pub fn install_args(manager: JsPackageManager, has_package_lock: bool) -> (r: Vec<&'static str>)
    ensures
        r@.map_values(|word: &'static str| word@) == install_words(manager, has_package_lock),
{
    let mut args: Vec<&'static str> = Vec::new();
    match manager {
        JsPackageManager::Bun => {
            args.push("install");
            args.push("--frozen-lockfile");
        },
        JsPackageManager::Pnpm => {
            args.push("install");
            args.push("--frozen-lockfile");
        },
        JsPackageManager::Yarn => {
            args.push("install");
            args.push("--immutable");
        },
        JsPackageManager::Npm => {
            if has_package_lock {
                args.push("ci");
            } else {
                args.push("install");
            }
        },
    }
    proof {
        assert(args@.map_values(|word: &'static str| word@) =~= install_words(
            manager,
            has_package_lock,
        ));
    }
    args
}

/// The message for an install command that could not be started.
pub fn install_not_started(manager: JsPackageManager) -> (r: String)
    ensures
        r@ == manager.name() + " install failed to start"@,
{
    let mut r: String = manager.as_str().to_owned();
    r.append(" install failed to start");
    r
}

/// An exit code as it is shown in messages; none where a signal ended the
/// command.
pub open spec fn exit_code_shown(code: Option<i32>) -> Seq<char> {
    match code {
        Some(code) => "Some("@ + text::signed_decimal(code as int) + ")"@,
        None => "None"@,
    }
}

/// The message for an install command that ran and failed.
pub open spec fn install_failure(
    manager: JsPackageManager,
    code: Option<i32>,
    stderr: Seq<char>,
) -> Seq<char> {
    manager.name() + " install failed (status "@ + exit_code_shown(code) + "): "@ + stderr
}

/// The outcome of an install command that ran.
pub fn finish_install(
    manager: JsPackageManager,
    success: bool,
    code: Option<i32>,
    stderr: &str,
) -> (r: Result<EnsureJsDepsOutcome, String>)
    ensures
        match r {
            Ok(outcome) => success && outcome == (EnsureJsDepsOutcome::Installed { manager }),
            Err(message) => !success && message@ == install_failure(manager, code, stderr@),
        },
{
    if success {
        return Ok(EnsureJsDepsOutcome::Installed { manager });
    }
    let mut message: String = manager.as_str().to_owned();
    message.append(" install failed (status ");
    match code {
        Some(code) => {
            let shown: String = text::signed_decimal_text(code as i64);
            let ghost before = message@;
            message.append("Some(");
            message.append(shown.as_str());
            message.append(")");
            proof {
                assert(message@ =~= before + exit_code_shown(Some(code)));
            }
        },
        None => {
            message.append("None");
        },
    }
    message.append("): ");
    message.append(stderr);
    Err(message)
}

/// How running the install command went.
#[derive(Debug, Clone, PartialEq, Eq)]
pub enum InstallRun {
    /// It was not started.
    NotStarted,
    /// It ran and failed.
    Failed { code: Option<i32>, stderr: String },
    /// It succeeded, and the project then has this fingerprint.
    Succeeded { fingerprint: String },
}

/// How a plan ended: what to report, and the text to write to the stamp file,
/// where it is to be written.
#[derive(Debug, Clone, PartialEq, Eq)]
pub struct DepsEnd {
    pub outcome: EnsureJsDepsOutcome,
    pub stamp: Option<String>,
}

/// What to report and what to stamp once `plan` is carried out, or the message
/// for an install that failed. A stamp is written on trust, with the fingerprint
/// that was wanted, and after an install that succeeded, with the one found
/// then.
pub open spec fn deps_end(plan: DepsPlan, want: Seq<char>, run: InstallRun) -> Result<
    (EnsureJsDepsOutcome, Option<Seq<char>>),
    Seq<char>,
> {
    match plan {
        DepsPlan::Done(outcome) => Ok((outcome, None)),
        DepsPlan::Trust { manager } => Ok(
            (EnsureJsDepsOutcome::TrustedExisting { manager }, Some(want + "\n"@)),
        ),
        DepsPlan::Install { manager } => match run {
            InstallRun::NotStarted => Err(manager.name() + " install failed to start"@),
            InstallRun::Failed { code, stderr } => Err(install_failure(manager, code, stderr@)),
            InstallRun::Succeeded { fingerprint } => Ok(
                (EnsureJsDepsOutcome::Installed { manager }, Some(fingerprint@ + "\n"@)),
            ),
        },
    }
}

/// What to report and what to stamp once `plan` is carried out. `run` says how
/// the install command went, where the plan asks for one.
pub fn settle(plan: DepsPlan, want: &str, run: InstallRun) -> (r: Result<DepsEnd, String>)
    ensures
        match (r, deps_end(plan, want@, run)) {
            (Ok(end), Ok((outcome, stamp))) => end.outcome == outcome && (match end.stamp {
                Some(text) => stamp == Some(text@),
                None => stamp is None,
            }),
            (Err(message), Err(text)) => message@ == text,
            _ => false,
        },
{
    match plan {
        DepsPlan::Done(outcome) => Ok(DepsEnd { outcome, stamp: None }),
        DepsPlan::Trust { manager } => Ok(
            DepsEnd {
                outcome: EnsureJsDepsOutcome::TrustedExisting { manager },
                stamp: Some(stamp_text(want)),
            },
        ),
        DepsPlan::Install { manager } => match run {
            InstallRun::NotStarted => Err(install_not_started(manager)),
            InstallRun::Failed { code, stderr } => match finish_install(
                manager,
                false,
                code,
                stderr.as_str(),
            ) {
                Ok(outcome) => Ok(DepsEnd { outcome, stamp: None }),
                Err(message) => Err(message),
            },
            InstallRun::Succeeded { fingerprint } => match finish_install(
                manager,
                true,
                None,
                "",
            ) {
                Ok(outcome) => Ok(
                    DepsEnd { outcome, stamp: Some(stamp_text(fingerprint.as_str())) },
                ),
                Err(message) => Err(message),
            },
        },
    }
}

/// A stamp is written only on trust or after an install that succeeded.
pub proof fn law_only_trust_or_success_is_stamped(plan: DepsPlan, want: Seq<char>, run: InstallRun)
    requires
        deps_end(plan, want, run) is Ok,
        deps_end(plan, want, run)->Ok_0.1 is Some,
    ensures
        plan is Trust || (plan is Install && run is Succeeded),
{
}

/// Whatever ends with a stamp of the project's fingerprint is skipped the next
/// time, as long as that fingerprint and the manager stay.
pub proof fn law_stamped_end_is_skipped(
    plan: DepsPlan,
    want: Seq<char>,
    run: InstallRun,
    manager: JsPackageManager,
    contents: Seq<Option<Vec<u8>>>,
)
    requires
        deps_end(plan, want, run) is Ok,
        deps_end(plan, want, run)->Ok_0.1 is Some,
        plan is Trust ==> want == fingerprint(contents),
        run matches InstallRun::Succeeded { fingerprint: found } ==> found@ == fingerprint(contents),
    ensures
        deps_plan(
            Some(manager),
            true,
            deps_end(plan, want, run)->Ok_0.1,
            fingerprint(contents),
        ) == DepsPlan::Done(EnsureJsDepsOutcome::SkippedStampMatch { manager }),
{
    law_stamped_project_is_skipped(manager, contents);
}

proof fn lemma_hex_is_tight(v: nat, width: nat)
    ensures
        hex_is_tight(v, width),
    decreases width,
{
    if width > 0 {
        lemma_hex_is_tight(v / 16, (width - 1) as nat);
        assert forall|i: int| 0 <= i < width implies !text::is_whitespace(
            #[trigger] text::hex(v, width)[i],
        ) by {
            if i == width - 1 {
                assert(text::hex(v, width)[i] == text::hex_char((v % 16) as int));
            } else {
                assert(text::hex(v, width)[i] == text::hex(v / 16, (width - 1) as nat)[i]);
            }
        }
    }
}

spec fn hex_is_tight(v: nat, width: nat) -> bool {
    &&& text::hex(v, width).len() == width
    &&& forall|i: int| 0 <= i < width ==> !text::is_whitespace(#[trigger] text::hex(v, width)[i])
}

/// Once a project is stamped with its fingerprint, nothing is installed until
/// that fingerprint changes.
pub proof fn law_stamped_project_is_skipped(
    manager: JsPackageManager,
    contents: Seq<Option<Vec<u8>>>,
)
    ensures
        deps_plan(
            Some(manager),
            true,
            Some(fingerprint(contents) + "\n"@),
            fingerprint(contents),
        ) == DepsPlan::Done(EnsureJsDepsOutcome::SkippedStampMatch { manager }),
{
    let v = rapidhash_v3_value(records_from(contents, 0)) as nat;
    let want = text::hex(v, 16);
    lemma_hex_is_tight(v, 16);
    reveal_strlit("\n");
    let stamp = want + "\n"@;
    assert(!text::is_whitespace(stamp[0]));
    assert(text::trim_start(stamp) == stamp);
    assert(stamp.drop_last() =~= want);
    assert(text::is_whitespace(stamp.last()));
    assert(text::trim_end(want) == want);
    assert(text::trim_end(stamp) == text::trim_end(want));
}

proof fn lemma_hex_injective(a: nat, b: nat, width: nat)
    requires
        text::hex(a, width) == text::hex(b, width),
        a < vstd::arithmetic::power::pow(16, width),
        b < vstd::arithmetic::power::pow(16, width),
    ensures
        a == b,
    decreases width,
{
    reveal(vstd::arithmetic::power::pow);
    if width > 0 {
        let p = vstd::arithmetic::power::pow(16, (width - 1) as nat);
        let x = text::hex(a / 16, (width - 1) as nat);
        let y = text::hex(b / 16, (width - 1) as nat);
        assert(text::hex(a, width).drop_last() =~= x);
        assert(text::hex(b, width).drop_last() =~= y);
        assert(text::hex(a, width).last() == text::hex_char((a % 16) as int));
        assert(text::hex(b, width).last() == text::hex_char((b % 16) as int));
        assert(a / 16 < p && b / 16 < p);
        lemma_hex_injective(a / 16, b / 16, (width - 1) as nat);
        assert(a % 16 == b % 16);
    }
}

/// Two projects share a fingerprint exactly when the bytes hashed for them
/// have the same hash.
pub proof fn law_fingerprint_shows_hash(a: Seq<Option<Vec<u8>>>, b: Seq<Option<Vec<u8>>>)
    ensures
        fingerprint(a) == fingerprint(b) <==> rapidhash_v3_value(records_from(a, 0))
            == rapidhash_v3_value(records_from(b, 0)),
{
    let x = rapidhash_v3_value(records_from(a, 0)) as nat;
    let y = rapidhash_v3_value(records_from(b, 0)) as nat;
    if fingerprint(a) == fingerprint(b) {
        assert(vstd::arithmetic::power::pow(16, 16) == 0x1_0000_0000_0000_0000int) by {
            reveal_with_fuel(vstd::arithmetic::power::pow, 17);
        }
        lemma_hex_injective(x, y, 16);
    }
}

/// What a file holds, or that it could not be read.
pub open spec fn file_view(file: Option<Vec<u8>>) -> Option<Seq<u8>> {
    match file {
        Some(bytes) => Some(bytes@),
        None => None,
    }
}

/// The name of the `i`-th fingerprinted file, as bytes.
spec fn name_bytes(i: int) -> Seq<u8> {
    vstd::utf8::encode_utf8(FINGERPRINT_FILES@[i]@)
}

proof fn lemma_names(i: int, j: int)
    requires
        0 <= i < FINGERPRINT_FILES@.len(),
        0 <= j < FINGERPRINT_FILES@.len(),
    ensures
        i != j ==> name_bytes(i) != name_bytes(j),
        forall|k: int| 0 <= k < name_bytes(i).len() ==> #[trigger] name_bytes(i)[k] != 0,
{
    reveal_strlit("package.json");
    reveal_strlit("pnpm-lock.yaml");
    reveal_strlit("pnpm-workspace.yaml");
    reveal_strlit("bun.lock");
    reveal_strlit("bun.lockb");
    reveal_strlit("yarn.lock");
    reveal_strlit("package-lock.json");
    reveal_strlit("bunfig.toml");
    let a = FINGERPRINT_FILES@[i]@;
    let b = FINGERPRINT_FILES@[j]@;
    assert(vstd::utf8::is_ascii_chars(a));
    assert(vstd::utf8::is_ascii_chars(b));
    vstd::utf8::is_ascii_chars_encode_utf8(a);
    vstd::utf8::is_ascii_chars_encode_utf8(b);
    assert forall|k: int| 0 <= k < name_bytes(i).len() implies #[trigger] name_bytes(i)[k] != 0 by {
        assert(a[k] as u8 == name_bytes(i)[k]);
        assert(a[k] != '\0');
    }
    if i != j && name_bytes(i) == name_bytes(j) {
        assert(a.len() == b.len());
        assert(a[0] as u8 == name_bytes(i)[0]);
        assert(b[0] as u8 == name_bytes(j)[0]);
    }
}

/// Whether `s` begins with the record head of the `j`-th file.
spec fn headed_by(s: Seq<u8>, j: int) -> bool {
    let n = name_bytes(j).len() as int;
    s.len() > n && s.take(n) == name_bytes(j) && s[n] == 0
}

proof fn lemma_records_head(contents: Seq<Option<Vec<u8>>>, i: int)
    requires
        0 <= i,
        contents.len() == FINGERPRINT_FILES@.len(),
        records_from(contents, i).len() > 0,
    ensures
        exists|j: int|
            i <= j < FINGERPRINT_FILES@.len() && #[trigger] headed_by(
                records_from(contents, i),
                j,
            ),
    decreases FINGERPRINT_FILES@.len() - i,
{
    let whole = records_from(contents, i);
    let rest = records_from(contents, i + 1);
    match contents[i] {
        Some(bytes) => {
            let n = name_bytes(i).len() as int;
            assert(whole.take(n) =~= name_bytes(i));
            assert(headed_by(whole, i));
        },
        None => {
            assert(whole =~= rest);
            lemma_records_head(contents, i + 1);
        },
    }
}

proof fn lemma_one_head(s: Seq<u8>, i: int, j: int)
    requires
        0 <= i < FINGERPRINT_FILES@.len(),
        0 <= j < FINGERPRINT_FILES@.len(),
        headed_by(s, i),
        headed_by(s, j),
    ensures
        i == j,
{
    lemma_names(i, j);
    lemma_names(j, i);
    let m = name_bytes(i).len() as int;
    let n = name_bytes(j).len() as int;
    if m < n {
        assert(s.take(n)[m] == s[m]);
    } else if n < m {
        assert(s.take(m)[n] == s[n]);
    }
}

#[verifier::spinoff_prover]
#[verifier::rlimit(50)]
proof fn lemma_records_injective(
    a: Seq<Option<Vec<u8>>>,
    b: Seq<Option<Vec<u8>>>,
    i: int,
    at: int,
)
    requires
        a.len() == FINGERPRINT_FILES@.len(),
        b.len() == FINGERPRINT_FILES@.len(),
        0 <= i <= at < FINGERPRINT_FILES@.len(),
        records_from(a, i) == records_from(b, i),
    ensures
        file_view(a[at]) == file_view(b[at]),
    decreases FINGERPRINT_FILES@.len() - i,
{
    let whole = records_from(a, i);
    let rest_a = records_from(a, i + 1);
    let rest_b = records_from(b, i + 1);
    match (a[i], b[i]) {
        (Some(x), Some(y)) => {
            vstd::bytes::lemma_auto_spec_u64_to_from_le_bytes();
            let n = name_bytes(i).len() as int;
            assert(x.len() == x@.len() && y.len() == y@.len());
            let lx = vstd::bytes::spec_u64_to_le_bytes(x@.len() as u64);
            let ly = vstd::bytes::spec_u64_to_le_bytes(y@.len() as u64);
            assert(whole.subrange(n + 1, n + 9) =~= lx);
            assert(whole.subrange(n + 1, n + 9) =~= ly);
            assert(vstd::bytes::spec_u64_from_le_bytes(lx) == x@.len() as u64);
            assert(vstd::bytes::spec_u64_from_le_bytes(ly) == y@.len() as u64);
            assert(x@.len() == y@.len());
            let m = n + 9 + x@.len();
            assert(whole.subrange(n + 9, m) =~= x@);
            assert(whole.subrange(n + 9, m) =~= y@);
            assert(whole.skip(m) =~= rest_a);
            assert(whole.skip(m) =~= rest_b);
        },
        (None, None) => {
            assert(whole =~= rest_a);
            assert(whole =~= rest_b);
        },
        (Some(x), None) => {
            assert(whole =~= rest_b);
            lemma_records_head(b, i + 1);
            let j = choose|j: int|
                i + 1 <= j < FINGERPRINT_FILES@.len() && #[trigger] headed_by(rest_b, j);
            assert(whole.take(name_bytes(i).len() as int) =~= name_bytes(i));
            assert(headed_by(whole, i));
            lemma_one_head(whole, i, j);
        },
        (None, Some(y)) => {
            assert(whole =~= rest_a);
            lemma_records_head(a, i + 1);
            let j = choose|j: int|
                i + 1 <= j < FINGERPRINT_FILES@.len() && #[trigger] headed_by(rest_a, j);
            assert(whole.take(name_bytes(i).len() as int) =~= name_bytes(i));
            assert(headed_by(whole, i));
            lemma_one_head(whole, i, j);
        },
    }
    if i < at {
        lemma_records_injective(a, b, i + 1, at);
    }
}

/// The bytes that are hashed tell any two projects apart: they agree only
/// where every fingerprinted file is missing from both or holds the same.
pub proof fn law_fingerprint_input_is_faithful(
    a: Seq<Option<Vec<u8>>>,
    b: Seq<Option<Vec<u8>>>,
    i: int,
)
    requires
        a.len() == FINGERPRINT_FILES@.len(),
        b.len() == FINGERPRINT_FILES@.len(),
        records_from(a, 0) == records_from(b, 0),
        0 <= i < FINGERPRINT_FILES@.len(),
    ensures
        file_view(a[i]) == file_view(b[i]),
{
    lemma_records_injective(a, b, 0, i);
}

/// A project that was stamped while its files had another fingerprint is
/// installed anew.
pub proof fn law_changed_project_is_installed(
    manager: JsPackageManager,
    a: Seq<Option<Vec<u8>>>,
    b: Seq<Option<Vec<u8>>>,
)
    requires
        fingerprint(a) != fingerprint(b),
    ensures
        deps_plan(Some(manager), true, Some(fingerprint(a) + "\n"@), fingerprint(b)) == (
        DepsPlan::Install { manager }),
{
    let v = rapidhash_v3_value(records_from(a, 0)) as nat;
    let want = text::hex(v, 16);
    lemma_hex_is_tight(v, 16);
    reveal_strlit("\n");
    let none = Seq::<char>::empty();
    assert(none + want + "\n"@ =~= want + "\n"@);
    text::law_trim_takes_only_outer_whitespace(none, want, "\n"@);
}

/// Nothing is done about a project with dependencies in place only where its
/// stamp, without the whitespace round it, is the fingerprint that is wanted, to
/// the last character; any other stamp calls for an install.
pub proof fn law_only_the_wanted_stamp_is_skipped(
    manager: JsPackageManager,
    before: Seq<char>,
    stamped: Seq<char>,
    after: Seq<char>,
    want: Seq<char>,
)
    requires
        forall|i: int| 0 <= i < before.len() ==> text::is_whitespace(#[trigger] before[i]),
        forall|i: int| 0 <= i < after.len() ==> text::is_whitespace(#[trigger] after[i]),
        stamped.len() > 0 ==> !text::is_whitespace(stamped[0]) && !text::is_whitespace(
            stamped.last(),
        ),
    ensures
        stamped == want ==> deps_plan(Some(manager), true, Some(before + stamped + after), want)
            == DepsPlan::Done(EnsureJsDepsOutcome::SkippedStampMatch { manager }),
        stamped != want ==> deps_plan(Some(manager), true, Some(before + stamped + after), want)
            == (DepsPlan::Install { manager }),
{
    text::law_trim_takes_only_outer_whitespace(before, stamped, after);
}

/// Without a manager there is nothing to do, whatever else there is. Without
/// dependencies in place they are installed, whatever a stamp says. Dependencies
/// in place without a stamp are trusted.
pub proof fn law_missing_dependencies_are_installed(
    manager: JsPackageManager,
    is_dir: bool,
    stamp: Option<Seq<char>>,
    want: Seq<char>,
)
    ensures
        deps_plan(None, is_dir, stamp, want) == DepsPlan::Done(
            EnsureJsDepsOutcome::SkippedNoJsProject,
        ),
        deps_plan(Some(manager), false, stamp, want) == (DepsPlan::Install { manager }),
        deps_plan(Some(manager), true, None, want) == (DepsPlan::Trust { manager }),
        deps_plan(Some(manager), is_dir, stamp, want) is Done ==> is_dir && stamp is Some,
{
}

/// Each manager is found by the name of its program, and by no other.
pub proof fn law_managers_are_found_by_name(manager: JsPackageManager, name: Seq<char>)
    ensures
        JsPackageManager::Bun.name() == "bun"@,
        JsPackageManager::Pnpm.name() == "pnpm"@,
        JsPackageManager::Yarn.name() == "yarn"@,
        JsPackageManager::Npm.name() == "npm"@,
        JsPackageManager::named(manager.name()) == Some(manager),
        JsPackageManager::named(name) == Some(manager) ==> name == manager.name(),
        JsPackageManager::named(name) is None <==> name != "bun"@ && name != "pnpm"@ && name
            != "yarn"@ && name != "npm"@,
{
    reveal_strlit("bun");
    reveal_strlit("pnpm");
    reveal_strlit("yarn");
    reveal_strlit("npm");
    assert("bun"@[0] == 'b' && "npm"@[0] == 'n' && "pnpm"@[0] == 'p' && "yarn"@[0] == 'y');
}

/// A manifest gives the text between the quotes behind the first
/// `"packageManager"` and the colon that follows it.
pub proof fn law_manager_field_is_read(
    head: Seq<char>,
    gap: Seq<char>,
    blank: Seq<char>,
    value: Seq<char>,
    tail: Seq<char>,
)
    requires
        ({
            let key = "\"packageManager\""@;
            let whole = head + key + gap + ":"@ + blank + "\""@ + value + "\""@ + tail;
            forall|j: int|
                0 <= j < head.len() ==> #[trigger] whole.subrange(j, j + key.len()) != key
        }),
        !gap.contains(':'),
        forall|i: int| 0 <= i < blank.len() ==> text::is_whitespace(#[trigger] blank[i]),
        !value.contains('"'),
    ensures
        manager_field(
            head + "\"packageManager\""@ + gap + ":"@ + blank + "\""@ + value + "\""@ + tail,
        ) == Some(value),
{
    reveal_strlit(":");
    reveal_strlit("\"");
    let key = "\"packageManager\""@;
    let quote = "\""@;
    assert(quote =~= seq!['"']);
    assert(":"@ =~= seq![':']);
    let closed = value + quote + tail;
    let rest = blank + (quote + closed);
    let after = gap + ":"@ + rest;
    let whole = head + key + gap + ":"@ + blank + quote + value + quote + tail;
    assert(whole =~= head + key + after);
    let at = head.len() as int;
    assert(whole.subrange(at, at + key.len()) =~= key);
    assert forall|j: int| 0 <= j < at implies !text::occurs_at(whole, key, j) by {
        assert(whole.subrange(j, j + key.len()) != key);
    }
    text::lemma_find_is(whole, key, 0, at);
    assert(whole.skip(at + key.len()) =~= after);
    text::law_joined_parts_split_again(gap, ':', rest);
    assert((quote + closed)[0] == '"');
    lemma_trim_start_to(blank, quote + closed);
    text::law_strip_prefix_undoes_prefixing(rest, quote, closed);
    text::law_joined_parts_split_again(value, '"', tail);
}

proof fn lemma_trim_start_to(blank: Seq<char>, rest: Seq<char>)
    requires
        forall|i: int| 0 <= i < blank.len() ==> text::is_whitespace(#[trigger] blank[i]),
        rest.len() > 0,
        !text::is_whitespace(rest[0]),
    ensures
        text::trim_start(blank + rest) == rest,
    decreases blank.len(),
{
    if blank.len() > 0 {
        assert((blank + rest)[0] == blank[0]);
        assert((blank + rest).skip(1) =~= blank.skip(1) + rest);
        lemma_trim_start_to(blank.skip(1), rest);
    } else {
        assert(blank + rest =~= rest);
    }
}

/// A manifest without a `"packageManager"` gives no manager.
pub proof fn law_manifest_without_the_field_declares_nothing(text: Seq<char>, locks: Lockfiles)
    requires
        forall|j: int|
            0 <= j <= text.len() - "\"packageManager\""@.len() ==> #[trigger] text.subrange(
                j,
                j + "\"packageManager\""@.len(),
            ) != "\"packageManager\""@,
    ensures
        project_manager(Some(text), locks) == project_manager(None, locks),
{
    text::law_find_gives_the_first_place(text, "\"packageManager\""@);
    if text::find(text, "\"packageManager\""@) is Some {
        let i = text::find(text, "\"packageManager\""@)->0;
        assert(text.subrange(i, i + "\"packageManager\""@.len()) == "\"packageManager\""@);
    }
}

/// A manager that the manifest declares, with or without a version, is the
/// project's, whatever lockfiles there are; a declaration of something else leaves
/// it to them.
pub proof fn law_declared_manager_goes_before_lockfiles(
    text: Seq<char>,
    name: Seq<char>,
    version: Seq<char>,
    manager: JsPackageManager,
    locks: Lockfiles,
)
    requires
        !name.contains('@'),
        manager_field(text) == Some(name) || manager_field(text) == Some(name + "@"@ + version),
    ensures
        name == manager.name() ==> project_manager(Some(text), locks) == Some(manager),
        JsPackageManager::named(name) is None ==> project_manager(Some(text), locks)
            == project_manager(None, locks),
{
    reveal_strlit("@");
    assert("@"@ =~= seq!['@']);
    law_managers_are_found_by_name(manager, name);
    text::law_joined_parts_split_again(name, '@', version);
    text::law_find_gives_the_first_place(name, "@"@);
    if text::find(name, "@"@) is Some {
        let i = text::find(name, "@"@)->0;
        assert(name.subrange(i, i + 1)[0] == "@"@[0]);
        assert(name.contains(name[i]));
        assert(false);
    }
    assert(up_to(name, "@"@) == name);
    assert(up_to(name + "@"@ + version, "@"@) == name);
}

/// Without a declared manager, the first lockfile decides that is there, in the
/// order bun, pnpm, yarn, npm; with none there is no manager.
pub proof fn law_lockfiles_decide_in_order(locks: Lockfiles)
    ensures
        project_manager(None, locks) == Some(JsPackageManager::Bun) <==> locks.bun_lockb
            || locks.bun_lock,
        project_manager(None, locks) == Some(JsPackageManager::Pnpm) <==> locks.pnpm_lock
            && !locks.bun_lockb && !locks.bun_lock,
        project_manager(None, locks) == Some(JsPackageManager::Yarn) <==> locks.yarn_lock
            && !locks.pnpm_lock && !locks.bun_lockb && !locks.bun_lock,
        project_manager(None, locks) == Some(JsPackageManager::Npm) <==> locks.package_lock
            && !locks.yarn_lock && !locks.pnpm_lock && !locks.bun_lockb && !locks.bun_lock,
        project_manager(None, locks) is None <==> !locks.bun_lockb && !locks.bun_lock
            && !locks.pnpm_lock && !locks.yarn_lock && !locks.package_lock,
{
}

/// An install never changes the lockfile where the manager can be told so: npm
/// installs from it where it is there, and the other managers are told to keep
/// theirs, whatever npm has.
pub proof fn law_install_keeps_the_lockfile(manager: JsPackageManager, has_package_lock: bool)
    ensures
        ({
            let words = install_words(manager, has_package_lock);
            &&& words.len() > 0
            &&& manager != JsPackageManager::Npm ==> words.len() == 2 && words[0] == "install"@
                && words == install_words(manager, !has_package_lock)
            &&& manager == JsPackageManager::Bun || manager == JsPackageManager::Pnpm ==> words[1]
                == "--frozen-lockfile"@
            &&& manager == JsPackageManager::Yarn ==> words[1] == "--immutable"@
            &&& manager == JsPackageManager::Npm ==> words.len() == 1 && words[0] == (
            if has_package_lock {
                "ci"@
            } else {
                "install"@
            })
        }),
{
}

proof fn lemma_records_split(contents: Seq<Option<Vec<u8>>>, from: int, i: int)
    requires
        contents.len() == FINGERPRINT_FILES@.len(),
        0 <= from <= i < FINGERPRINT_FILES@.len(),
    ensures
        records_from(contents, from) == records_from(
            Seq::new(
                contents.len(),
                |k: int|
                    if k < i {
                        contents[k]
                    } else {
                        None
                    },
            ),
            from,
        ) + records_from(contents, i),
    decreases i - from,
{
    let first = Seq::new(
        contents.len(),
        |k: int|
            if k < i {
                contents[k]
            } else {
                None
            },
    );
    if from == i {
        lemma_no_records(first, i);
        assert(records_from(first, i) + records_from(contents, i) =~= records_from(contents, i));
    } else {
        lemma_records_split(contents, from + 1, i);
        assert(first[from] == contents[from]);
        assert(records_from(contents, from) =~= records_from(first, from) + records_from(
            contents,
            i,
        ));
    }
}

proof fn lemma_no_records(contents: Seq<Option<Vec<u8>>>, i: int)
    requires
        contents.len() == FINGERPRINT_FILES@.len(),
        0 <= i,
        forall|k: int| i <= k < contents.len() ==> contents[k] is None,
    ensures
        records_from(contents, i) == Seq::<u8>::empty(),
    decreases FINGERPRINT_FILES@.len() - i,
{
    if i < FINGERPRINT_FILES@.len() {
        lemma_no_records(contents, i + 1);
        assert(records_from(contents, i) =~= Seq::<u8>::empty());
    }
}

proof fn lemma_records_agree(a: Seq<Option<Vec<u8>>>, b: Seq<Option<Vec<u8>>>, i: int)
    requires
        a.len() == FINGERPRINT_FILES@.len(),
        b.len() == FINGERPRINT_FILES@.len(),
        0 <= i,
        forall|k: int| i <= k < a.len() ==> a[k] == b[k],
    ensures
        records_from(a, i) == records_from(b, i),
    decreases FINGERPRINT_FILES@.len() - i,
{
    if i < FINGERPRINT_FILES@.len() {
        lemma_records_agree(a, b, i + 1);
    }
}

/// What is hashed holds each present file in its place among the others, as its
/// name, a zero byte, the eight bytes of its length from the lowest up, and its
/// bytes. A missing file adds nothing.
pub proof fn law_each_present_file_is_hashed_in_order(contents: Seq<Option<Vec<u8>>>, i: int)
    requires
        contents.len() == FINGERPRINT_FILES@.len(),
        0 <= i < FINGERPRINT_FILES@.len(),
    ensures
        ({
            let before = Seq::new(
                contents.len(),
                |k: int|
                    if k < i {
                        contents[k]
                    } else {
                        None
                    },
            );
            let behind = Seq::new(
                contents.len(),
                |k: int|
                    if k > i {
                        contents[k]
                    } else {
                        None
                    },
            );
            records_from(contents, 0) == records_from(before, 0) + (match contents[i] {
                Some(bytes) => vstd::utf8::encode_utf8(FINGERPRINT_FILES@[i]@) + seq![0u8]
                    + vstd::bytes::spec_u64_to_le_bytes(bytes@.len() as u64) + bytes@,
                None => seq![],
            }) + records_from(behind, 0)
        }),
{
    let before = Seq::new(
        contents.len(),
        |k: int|
            if k < i {
                contents[k]
            } else {
                None
            },
    );
    let behind = Seq::new(
        contents.len(),
        |k: int|
            if k > i {
                contents[k]
            } else {
                None
            },
    );
    lemma_records_split(contents, 0, i);
    lemma_records_agree(contents, behind, i + 1);
    assert(behind[i] is None);
    assert(records_from(behind, i) =~= records_from(behind, i + 1));
    lemma_records_split(behind, 0, i);
    let none = Seq::new(
        behind.len(),
        |k: int|
            if k < i {
                behind[k]
            } else {
                None
            },
    );
    lemma_no_records(none, 0);
    assert(records_from(behind, 0) =~= records_from(contents, i + 1));
    let own = match contents[i] {
        Some(bytes) => vstd::utf8::encode_utf8(FINGERPRINT_FILES@[i]@) + seq![0u8]
            + vstd::bytes::spec_u64_to_le_bytes(bytes@.len() as u64) + bytes@,
        None => seq![],
    };
    assert(records_from(contents, i) == own + records_from(contents, i + 1));
    assert(records_from(before, 0) + own + records_from(behind, 0) =~= records_from(before, 0) + (
    own + records_from(contents, i + 1)));
}

/// A plan that asks for nothing ends as it says and stamps nothing. Trust stamps
/// the fingerprint that was wanted. An install that succeeds reports its manager
/// and stamps the fingerprint found behind it; one that fails stamps nothing and
/// says how it failed.
pub proof fn law_end_reports_what_was_done(
    outcome: EnsureJsDepsOutcome,
    manager: JsPackageManager,
    want: Seq<char>,
    run: InstallRun,
)
    ensures
        deps_end(DepsPlan::Done(outcome), want, run) == Ok::<
            (EnsureJsDepsOutcome, Option<Seq<char>>),
            Seq<char>,
        >((outcome, None)),
        deps_end(DepsPlan::Trust { manager }, want, run) == Ok::<
            (EnsureJsDepsOutcome, Option<Seq<char>>),
            Seq<char>,
        >((EnsureJsDepsOutcome::TrustedExisting { manager }, Some(want.push('\n')))),
        ({
            let end = deps_end(DepsPlan::Install { manager }, want, run);
            &&& end is Ok <==> run is Succeeded
            &&& run matches InstallRun::Succeeded { fingerprint: found } ==> end->Ok_0 == (
                EnsureJsDepsOutcome::Installed { manager },
                Some(found@.push('\n')),
            )
            &&& run is NotStarted ==> end->Err_0 == manager.name() + " install failed to start"@
            &&& run matches InstallRun::Failed { code: Some(code), stderr } ==> end->Err_0
                == manager.name() + " install failed (status Some("@ + text::signed_decimal(
                code as int,
            ) + ")): "@ + stderr@
            &&& run matches InstallRun::Failed { code: None, stderr } ==> end->Err_0
                == manager.name() + " install failed (status None): "@ + stderr@
        }),
{
    reveal_strlit("\n");
    reveal_strlit(" install failed (status ");
    reveal_strlit("Some(");
    reveal_strlit(")");
    reveal_strlit("): ");
    reveal_strlit(")): ");
    reveal_strlit("None");
    reveal_strlit(" install failed (status Some(");
    reveal_strlit(" install failed (status None): ");
    assert(want + "\n"@ =~= want.push('\n'));
    match run {
        InstallRun::NotStarted => {},
        InstallRun::Succeeded { fingerprint: found } => {
            assert(found@ + "\n"@ =~= found@.push('\n'));
        },
        InstallRun::Failed { code, stderr } => {
            match code {
                Some(code) => {
                    assert(install_failure(manager, Some(code), stderr@) =~= manager.name()
                        + " install failed (status Some("@ + text::signed_decimal(code as int)
                        + ")): "@ + stderr@);
                },
                None => {
                    assert(install_failure(manager, None, stderr@) =~= manager.name()
                        + " install failed (status None): "@ + stderr@);
                },
            }
        },
    }
}

/// A fingerprint is sixteen hexadecimal digits, with small letters.
pub proof fn law_fingerprint_is_sixteen_digits(contents: Seq<Option<Vec<u8>>>)
    ensures
        fingerprint(contents).len() == 16,
        forall|i: int|
            0 <= i < 16 ==> {
                let c = #[trigger] fingerprint(contents)[i];
                ('0' <= c && c <= '9') || ('a' <= c && c <= 'f')
            },
{
    let v = rapidhash_v3_value(records_from(contents, 0)) as nat;
    lemma_hex_is_hex(v, 16);
}

proof fn lemma_hex_is_hex(v: nat, width: nat)
    ensures
        text::hex(v, width).len() == width,
        forall|i: int|
            0 <= i < width ==> {
                let c = #[trigger] text::hex(v, width)[i];
                ('0' <= c && c <= '9') || ('a' <= c && c <= 'f')
            },
    decreases width,
{
    if width > 0 {
        lemma_hex_is_hex(v / 16, (width - 1) as nat);
        assert forall|i: int| 0 <= i < width implies {
            let c = #[trigger] text::hex(v, width)[i];
            ('0' <= c && c <= '9') || ('a' <= c && c <= 'f')
        } by {
            if i < width - 1 {
                assert(text::hex(v, width)[i] == text::hex(v / 16, (width - 1) as nat)[i]);
            }
        }
    }
}

/// The manifest's field is read as far as it is there: a key without a colon, or
/// without a quote behind the colon, gives nothing, and a quote that does not end
/// gives the rest of the text.
pub proof fn law_broken_manager_field_is_read_as_far_as_it_goes(
    head: Seq<char>,
    gap: Seq<char>,
    blank: Seq<char>,
    rest: Seq<char>,
    tail: Seq<char>,
)
    requires
        ({
            let key = "\"packageManager\""@;
            tail == key + gap || tail == key + gap + ":"@ + blank + rest
        }),
        ({
            let key = "\"packageManager\""@;
            forall|j: int|
                0 <= j < head.len() ==> #[trigger] (head + tail).subrange(j, j + key.len()) != key
        }),
        !gap.contains(':'),
        forall|i: int| 0 <= i < blank.len() ==> text::is_whitespace(#[trigger] blank[i]),
        rest.len() > 0 ==> !text::is_whitespace(rest[0]),
    ensures
        tail == "\"packageManager\""@ + gap ==> manager_field(head + tail) is None,
        tail == "\"packageManager\""@ + gap + ":"@ + blank + rest ==> {
            &&& rest.len() == 0 || rest[0] != '"' ==> manager_field(head + tail) is None
            &&& rest.len() > 0 && rest[0] == '"' && !rest.skip(1).contains('"') ==> manager_field(
                head + tail,
            ) == Some(rest.skip(1))
        },
{
    reveal_strlit(":");
    reveal_strlit("\"");
    let key = "\"packageManager\""@;
    let quote = "\""@;
    assert(quote =~= seq!['"']);
    assert(":"@ =~= seq![':']);
    let whole = head + tail;
    let at = head.len() as int;
    assert(whole.subrange(at, at + key.len()) =~= tail.take(key.len() as int));
    assert(tail.take(key.len() as int) =~= key);
    assert forall|j: int| 0 <= j < at implies !text::occurs_at(whole, key, j) by {
        assert(whole.subrange(j, j + key.len()) != key);
    }
    text::lemma_find_is(whole, key, 0, at);
    if tail == key + gap {
        assert(whole.skip(at + key.len()) =~= gap);
        text::law_find_gives_the_first_place(gap, ":"@);
        if text::find(gap, ":"@) is Some {
            let i = text::find(gap, ":"@)->0;
            assert(gap.subrange(i, i + 1)[0] == ":"@[0]);
            assert(gap.contains(gap[i]));
        }
    }
    if tail == key + gap + ":"@ + blank + rest {
        let after = gap + ":"@ + (blank + rest);
        assert(whole.skip(at + key.len()) =~= after);
        text::law_joined_parts_split_again(gap, ':', blank + rest);
        if rest.len() > 0 {
            lemma_trim_start_to(blank, rest);
            if rest[0] == '"' {
                assert(rest =~= quote + rest.skip(1));
                text::law_strip_prefix_undoes_prefixing(rest, quote, rest.skip(1));
                let value = rest.skip(1);
                text::law_find_gives_the_first_place(value, quote);
                if !value.contains('"') && text::find(value, quote) is Some {
                    let i = text::find(value, quote)->0;
                    assert(value.subrange(i, i + 1)[0] == quote[0]);
                    assert(value.contains(value[i]));
                }
            } else if text::strip_prefix(rest, quote) is Some {
                text::law_strip_prefix_undoes_prefixing(
                    rest,
                    quote,
                    text::strip_prefix(rest, quote)->0,
                );
                assert(rest[0] == quote[0]);
            }
        } else {
            text::law_trim_takes_only_outer_whitespace(blank, seq![], seq![]);
            assert(blank + rest =~= blank + Seq::<char>::empty() + Seq::<char>::empty());
        }
    }
}

/// The manifest comes first among the fingerprinted files, then the lockfiles and
/// settings of pnpm, bun, yarn and npm.
pub proof fn law_files_are_fingerprinted_in_this_order()
    ensures
        FINGERPRINT_FILES@.len() == 8,
        FINGERPRINT_FILES@[0]@ == "package.json"@,
        FINGERPRINT_FILES@[1]@ == "pnpm-lock.yaml"@,
        FINGERPRINT_FILES@[2]@ == "pnpm-workspace.yaml"@,
        FINGERPRINT_FILES@[3]@ == "bun.lock"@,
        FINGERPRINT_FILES@[4]@ == "bun.lockb"@,
        FINGERPRINT_FILES@[5]@ == "yarn.lock"@,
        FINGERPRINT_FILES@[6]@ == "package-lock.json"@,
        FINGERPRINT_FILES@[7]@ == "bunfig.toml"@,
{
}

} // verus!
