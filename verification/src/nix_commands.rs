//! The adapters around the external build, profile and activation tools:
//! the exact command lines they are invoked with, the well-known paths they
//! read and write, and the host-name lookup.  Each builder returns the full
//! argument vector, program first; running it is the caller's business.

use vstd::prelude::*;

use crate::strings::{
    ends_with_str, lemma_scan_len_props, scan_from, scan_len, substr_string, ScanKind,
};

verus! {

use vstd::string::StrSliceExecFns;
use vstd::string::StringExecFns;

/// `v.deep_view()[i]` is the view of `v`'s `i`-th element.
proof fn lemma_elt(v: Vec<String>, i: int)
    requires
        0 <= i < v@.len(),
    ensures
        v.deep_view()[i] == v@[i]@,
{
}

/// Append clones of all of `items` to `v`.
fn append_all(v: &mut Vec<String>, items: &Vec<String>)
    ensures
        final(v)@ == old(v)@ + items@,
{
    let mut i: usize = 0;
    while i < items.len()
        invariant
            i <= items@.len(),
            v@ == old(v)@ + items@.take(i as int),
        decreases items@.len() - i,
    {
        v.push(items[i].clone());
        proof {
            assert(old(v)@ + items@.take(i as int) + seq![items@[i as int]] =~= old(v)@
                + items@.take(i + 1));
        }
        i = i + 1;
    }
    proof {
        assert(items@.take(items@.len() as int) =~= items@);
    }
}

/// The fixed flags that enable the build tool's flake commands.
pub open spec fn spec_flake_flags() -> Seq<Seq<char>> {
    seq!["--extra-experimental-features"@, "nix-command flakes"@]
}

/// The fixed flags that enable the build tool's flake commands.
pub fn flake_flags() -> (v: Vec<String>)
    ensures
        v.deep_view() == spec_flake_flags(),
{
    let mut v: Vec<String> = Vec::new();
    v.push(String::from_str("--extra-experimental-features"));
    v.push(String::from_str("nix-command flakes"));
    proof {
        assert(v.deep_view() =~= spec_flake_flags());
    }
    v
}

/// The metadata subcommand to use: the newer name when the probe showed it
/// is supported, the legacy name otherwise.
pub fn metadata_subcommand(supports_metadata: bool) -> (r: String)
    ensures
        supports_metadata ==> r@ == "metadata"@,
        !supports_metadata ==> r@ == "info"@,
{
    if supports_metadata {
        String::from_str("metadata")
    } else {
        String::from_str("info")
    }
}

/// The command that probes whether the flake metadata subcommand is
/// supported.
pub open spec fn spec_metadata_probe_argv(flake_flags: Seq<Seq<char>>) -> Seq<Seq<char>> {
    seq!["nix"@] + flake_flags + seq!["flake"@, "metadata"@, "--version"@]
}

/// The command that probes whether the flake metadata subcommand is
/// supported.
pub fn nix_flake_metadata_probe_argv(flake_flags: &Vec<String>) -> (v: Vec<String>)
    ensures
        v.deep_view() == spec_metadata_probe_argv(flake_flags.deep_view()),
{
    let mut v: Vec<String> = Vec::new();
    v.push(String::from_str("nix"));
    append_all(&mut v, flake_flags);
    v.push(String::from_str("flake"));
    v.push(String::from_str("metadata"));
    v.push(String::from_str("--version"));
    proof {
        let ff = flake_flags@.len() as int;
        let spec = spec_metadata_probe_argv(flake_flags.deep_view());
        assert forall|i: int| 0 <= i < v@.len() implies v.deep_view()[i] == spec[i] by {
            lemma_elt(v, i);
            if 1 <= i < 1 + ff {
                assert(v@[i] == flake_flags@[i - 1]);
            }
        }
        assert(v.deep_view() =~= spec);
    }
    v
}

/// The command that queries the metadata of a reference in structured form.
pub open spec fn spec_metadata_argv(
    flake_flags: Seq<Seq<char>>,
    cmd: Seq<char>,
    extra_metadata_flags: Seq<Seq<char>>,
    flake: Seq<char>,
) -> Seq<Seq<char>> {
    seq!["nix"@] + flake_flags + seq!["flake"@, cmd, "--json"@] + extra_metadata_flags + seq![
        "--"@,
        flake,
    ]
}

/// The command that queries the metadata of the reference `flake` with the
/// chosen metadata subcommand.
pub fn get_flake_metadata_argv(
    flake_flags: &Vec<String>,
    cmd: &str,
    extra_metadata_flags: &Vec<String>,
    flake: &str,
) -> (v: Vec<String>)
    ensures
        v.deep_view() == spec_metadata_argv(
            flake_flags.deep_view(),
            cmd@,
            extra_metadata_flags.deep_view(),
            flake@,
        ),
{
    let mut v: Vec<String> = Vec::new();
    v.push(String::from_str("nix"));
    append_all(&mut v, flake_flags);
    v.push(String::from_str("flake"));
    v.push(cmd.to_owned());
    v.push(String::from_str("--json"));
    append_all(&mut v, extra_metadata_flags);
    v.push(String::from_str("--"));
    v.push(flake.to_owned());
    proof {
        let ff = flake_flags@.len() as int;
        let ee = extra_metadata_flags@.len() as int;
        let spec = spec_metadata_argv(
            flake_flags.deep_view(),
            cmd@,
            extra_metadata_flags.deep_view(),
            flake@,
        );
        assert forall|i: int| 0 <= i < v@.len() implies v.deep_view()[i] == spec[i] by {
            lemma_elt(v, i);
            if 1 <= i < 1 + ff {
                assert(v@[i] == flake_flags@[i - 1]);
            } else if 4 + ff <= i < 4 + ff + ee {
                assert(v@[i] == extra_metadata_flags@[i - 4 - ff]);
            }
        }
        assert(v.deep_view() =~= spec);
    }
    v
}

/// The build target for a resolved reference: the locked URL, the attribute
/// path and the system attribute under it.
pub open spec fn spec_flake_build_target(flake: Seq<char>, flake_attr: Seq<char>) -> Seq<char> {
    flake + "#"@ + flake_attr + ".system"@
}

/// The build target for a resolved reference.
pub fn flake_build_target(flake: &str, flake_attr: &str) -> (r: String)
    ensures
        r@ == spec_flake_build_target(flake@, flake_attr@),
{
    flake.to_owned().concat("#").concat(flake_attr).concat(".system")
}

/// The flake-mode build command: streamed progress, the run's output link,
/// the forwarded build flags, and the resolved target.
pub open spec fn spec_flake_build_argv(
    flake_flags: Seq<Seq<char>>,
    out_link: Seq<char>,
    extra_build_flags: Seq<Seq<char>>,
    target: Seq<char>,
) -> Seq<Seq<char>> {
    seq!["nix"@] + flake_flags + seq![
        "build"@,
        "--log-format"@,
        "internal-json"@,
        "-v"@,
        "--out-link"@,
        out_link,
    ] + extra_build_flags + seq!["--"@, target]
}

/// The flake-mode build command for the resolved reference.
pub fn nix_flake_build_argv(
    flake: &str,
    flake_attr: &str,
    flake_flags: &Vec<String>,
    out_link: &str,
    extra_build_flags: &Vec<String>,
) -> (v: Vec<String>)
    ensures
        v.deep_view() == spec_flake_build_argv(
            flake_flags.deep_view(),
            out_link@,
            extra_build_flags.deep_view(),
            spec_flake_build_target(flake@, flake_attr@),
        ),
{
    let mut v: Vec<String> = Vec::new();
    v.push(String::from_str("nix"));
    append_all(&mut v, flake_flags);
    v.push(String::from_str("build"));
    v.push(String::from_str("--log-format"));
    v.push(String::from_str("internal-json"));
    v.push(String::from_str("-v"));
    v.push(String::from_str("--out-link"));
    v.push(out_link.to_owned());
    append_all(&mut v, extra_build_flags);
    v.push(String::from_str("--"));
    v.push(flake_build_target(flake, flake_attr));
    proof {
        let ff = flake_flags@.len() as int;
        let ee = extra_build_flags@.len() as int;
        let spec = spec_flake_build_argv(
            flake_flags.deep_view(),
            out_link@,
            extra_build_flags.deep_view(),
            spec_flake_build_target(flake@, flake_attr@),
        );
        assert forall|i: int| 0 <= i < v@.len() implies v.deep_view()[i] == spec[i] by {
            lemma_elt(v, i);
            if 1 <= i < 1 + ff {
                assert(v@[i] == flake_flags@[i - 1]);
            } else if 7 + ff <= i < 7 + ff + ee {
                assert(v@[i] == extra_build_flags@[i - 7 - ff]);
            }
        }
        assert(v.deep_view() =~= spec);
    }
    v
}

/// The legacy expression-mode build command.
pub open spec fn spec_nix_build_argv(
    expression: Seq<char>,
    attr: Seq<char>,
    out_link: Seq<char>,
    extra_build_flags: Seq<Seq<char>>,
) -> Seq<Seq<char>> {
    seq!["nix-build"@, expression] + extra_build_flags + seq![
        "--out-link"@,
        out_link,
        "-A"@,
        attr,
    ]
}

/// The legacy expression-mode build command.
pub fn nix_build_argv(
    expression: &str,
    attr: &str,
    out_link: &str,
    extra_build_flags: &Vec<String>,
) -> (v: Vec<String>)
    ensures
        v.deep_view() == spec_nix_build_argv(
            expression@,
            attr@,
            out_link@,
            extra_build_flags.deep_view(),
        ),
{
    let mut v: Vec<String> = Vec::new();
    v.push(String::from_str("nix-build"));
    v.push(expression.to_owned());
    append_all(&mut v, extra_build_flags);
    v.push(String::from_str("--out-link"));
    v.push(out_link.to_owned());
    v.push(String::from_str("-A"));
    v.push(attr.to_owned());
    proof {
        let ee = extra_build_flags@.len() as int;
        let spec = spec_nix_build_argv(
            expression@,
            attr@,
            out_link@,
            extra_build_flags.deep_view(),
        );
        assert forall|i: int| 0 <= i < v@.len() implies v.deep_view()[i] == spec[i] by {
            lemma_elt(v, i);
            if 2 <= i < 2 + ee {
                assert(v@[i] == extra_build_flags@[i - 2]);
            }
        }
        assert(v.deep_view() =~= spec);
    }
    v
}

/// The best-effort diff report between the default profile's target and the
/// freshly built output.
pub open spec fn spec_nvd_diff_argv(out_link: Seq<char>) -> Seq<Seq<char>> {
    seq!["nvd"@, "diff"@, crate::runner::spec_default_profile(), out_link]
}

/// The best-effort diff report between the default profile's target and the
/// freshly built output.
pub fn nvd_diff_argv(out_link: &str) -> (v: Vec<String>)
    ensures
        v.deep_view() == spec_nvd_diff_argv(out_link@),
{
    let mut v: Vec<String> = Vec::new();
    v.push(String::from_str("nvd"));
    v.push(String::from_str("diff"));
    v.push(String::from_str("/nix/var/nix/profiles/system"));
    v.push(out_link.to_owned());
    proof {
        assert(v.deep_view() =~= spec_nvd_diff_argv(out_link@));
    }
    v
}

/// The profile tool invocation on a profile, escalated or direct, with the
/// extra flags appended.
pub open spec fn spec_profile_argv(
    escalate: bool,
    profile: Seq<char>,
    extra_profile_flags: Seq<Seq<char>>,
) -> Seq<Seq<char>> {
    let base = if escalate {
        seq!["sudo"@]
    } else {
        Seq::<Seq<char>>::empty()
    };
    base + seq!["nix-env"@, "-p"@, profile] + extra_profile_flags
}

/// The profile tool invocation used for rollback and generation listing.
/// Whether it escalates is the privilege policy's decision, taken
/// immediately before the call.
pub fn nix_env_profile_argv(
    escalate: bool,
    profile: &str,
    extra_profile_flags: &Vec<String>,
) -> (v: Vec<String>)
    ensures
        v.deep_view() == spec_profile_argv(escalate, profile@, extra_profile_flags.deep_view()),
{
    let mut v: Vec<String> = Vec::new();
    if escalate {
        v.push(String::from_str("sudo"));
    }
    v.push(String::from_str("nix-env"));
    v.push(String::from_str("-p"));
    v.push(profile.to_owned());
    append_all(&mut v, extra_profile_flags);
    proof {
        let base: int = if escalate { 1 } else { 0 };
        let ee = extra_profile_flags@.len() as int;
        let spec = spec_profile_argv(escalate, profile@, extra_profile_flags.deep_view());
        assert forall|i: int| 0 <= i < v@.len() implies v.deep_view()[i] == spec[i] by {
            lemma_elt(v, i);
            if base + 3 <= i < base + 3 + ee {
                assert(v@[i] == extra_profile_flags@[i - base - 3]);
            }
        }
        assert(v.deep_view() =~= spec);
    }
    v
}

/// The profile tool invocation that points the profile at a built output.
pub open spec fn spec_set_profile_argv(
    escalate: bool,
    profile: Seq<char>,
    system_config: Seq<char>,
) -> Seq<Seq<char>> {
    spec_profile_argv(escalate, profile, seq!["--set"@, system_config])
}

/// The profile tool invocation that points the profile at a built output.
/// Whether it escalates is the privilege policy's decision, taken
/// immediately before the call.
pub fn nix_env_set_profile_argv(escalate: bool, profile: &str, system_config: &str) -> (v: Vec<
    String,
>)
    ensures
        v.deep_view() == spec_set_profile_argv(escalate, profile@, system_config@),
{
    let mut v: Vec<String> = Vec::new();
    if escalate {
        v.push(String::from_str("sudo"));
    }
    v.push(String::from_str("nix-env"));
    v.push(String::from_str("-p"));
    v.push(profile.to_owned());
    v.push(String::from_str("--set"));
    v.push(system_config.to_owned());
    proof {
        assert(v.deep_view() =~= spec_set_profile_argv(escalate, profile@, system_config@));
    }
    v
}

/// The user-scope activation script inside a built configuration.
pub fn activate_user_command(system_config: &str) -> (r: String)
    ensures
        r@ == system_config@ + "/activate-user"@,
{
    system_config.to_owned().concat("/activate-user")
}

/// The system-scope activation command: the activation script inside the
/// configuration, escalated exactly when the identity is not the
/// administrator.
pub open spec fn spec_activate_system_argv(is_admin: bool, system_config: Seq<char>) -> Seq<
    Seq<char>,
> {
    if is_admin {
        seq![system_config + "/activate"@]
    } else {
        seq!["sudo"@, system_config + "/activate"@]
    }
}

/// The system-scope activation command.
pub fn activate_system_argv(is_admin: bool, system_config: &str) -> (v: Vec<String>)
    ensures
        v.deep_view() == spec_activate_system_argv(is_admin, system_config@),
{
    let mut v: Vec<String> = Vec::new();
    if !is_admin {
        v.push(String::from_str("sudo"));
    }
    v.push(system_config.to_owned().concat("/activate"));
    proof {
        assert(v.deep_view() =~= spec_activate_system_argv(is_admin, system_config@));
    }
    v
}

/// The editor target for a reference: the locked URL and the attribute path.
pub fn nix_edit_target(flake: &str, flake_attr: &str) -> (r: String)
    ensures
        r@ == flake@ + "#"@ + flake_attr@,
{
    flake.to_owned().concat("#").concat(flake_attr)
}

/// The build tool's editor command on a reference's source.
pub open spec fn spec_nix_edit_argv(
    flake_flags: Seq<Seq<char>>,
    target: Seq<char>,
) -> Seq<Seq<char>> {
    seq!["nix"@] + flake_flags + seq!["edit"@, "--"@, target]
}

/// The build tool's editor command on a reference's source.
pub fn nix_edit_argv(flake_flags: &Vec<String>, flake: &str, flake_attr: &str) -> (v: Vec<String>)
    ensures
        v.deep_view() == spec_nix_edit_argv(flake_flags.deep_view(), flake@ + "#"@ + flake_attr@),
{
    let mut v: Vec<String> = Vec::new();
    v.push(String::from_str("nix"));
    append_all(&mut v, flake_flags);
    v.push(String::from_str("edit"));
    v.push(String::from_str("--"));
    v.push(nix_edit_target(flake, flake_attr));
    proof {
        let ff = flake_flags@.len() as int;
        let spec = spec_nix_edit_argv(flake_flags.deep_view(), flake@ + "#"@ + flake_attr@);
        assert forall|i: int| 0 <= i < v@.len() implies v.deep_view()[i] == spec[i] by {
            lemma_elt(v, i);
            if 1 <= i < 1 + ff {
                assert(v@[i] == flake_flags@[i - 1]);
            }
        }
        assert(v.deep_view() =~= spec);
    }
    v
}

/// The command that locates a configuration source file.
pub fn nix_instantiate_find_file_argv(file: &str) -> (v: Vec<String>)
    ensures
        v.deep_view() == seq!["nix-instantiate"@, "--find-file"@, file@],
{
    let mut v: Vec<String> = Vec::new();
    v.push(String::from_str("nix-instantiate"));
    v.push(String::from_str("--find-file"));
    v.push(file.to_owned());
    proof {
        assert(v.deep_view() =~= seq!["nix-instantiate"@, "--find-file"@, file@]);
    }
    v
}

/// The flag that rolls the profile back one generation.
pub fn rollback_flags() -> (v: Vec<String>)
    ensures
        v.deep_view() == seq!["--rollback"@],
{
    let mut v: Vec<String> = Vec::new();
    v.push(String::from_str("--rollback"));
    proof {
        assert(v.deep_view() =~= seq!["--rollback"@]);
    }
    v
}

/// The flag that lists the profile's generations.
pub fn list_generations_flags() -> (v: Vec<String>)
    ensures
        v.deep_view() == seq!["--list-generations"@],
{
    let mut v: Vec<String> = Vec::new();
    v.push(String::from_str("--list-generations"));
    proof {
        assert(v.deep_view() =~= seq!["--list-generations"@]);
    }
    v
}

/// The pointer file inside the current generation that names the system
/// configuration, read by rollback.
pub fn system_config_path(profile: &str) -> (r: String)
    ensures
        r@ == profile@ + "/systemConfig"@,
{
    profile.to_owned().concat("/systemConfig")
}

/// The changelog file under a profile path.
pub fn changelog_path(profile: &str) -> (r: String)
    ensures
        r@ == profile@ + "/darwin-changes"@,
{
    profile.to_owned().concat("/darwin-changes")
}

/// The environment marker that tells the activation script it runs in check
/// mode: set before the user-scope activation of a check run.
pub fn check_activation_marker() -> (r: (String, String))
    ensures
        r.0@ == "checkActivation"@,
        r.1@ == "1"@,
{
    (String::from_str("checkActivation"), String::from_str("1"))
}

/// The editor to open a configuration file with: the editor-selection
/// variable when set, a well-known fallback otherwise.
pub fn editor_command(env_editor: Option<String>) -> (r: String)
    ensures
        env_editor matches Some(e) ==> r@ == e@,
        env_editor is None ==> r@ == "vi"@,
{
    match env_editor {
        Some(e) => e,
        None => String::from_str("vi"),
    }
}

/// Relies on gethostname::gethostname: the local host name, `None` when it
/// is not valid text.  The result depends on the machine, so nothing more
/// is stated of it.
#[verifier::external_body]
pub fn get_local_hostname() -> (r: Option<String>) {
    gethostname::gethostname().into_string().ok()
}

/// The suffix under which this tool is installed inside a system
/// configuration.
pub open spec fn spec_install_suffix() -> Seq<char> {
    "/sw/bin/darwin-rebuild"@
}

/// Whether `s` ends with the install suffix.
pub open spec fn spec_has_install_suffix(s: Seq<char>) -> bool {
    s.len() >= spec_install_suffix().len() && s.skip(s.len() - spec_install_suffix().len())
        == spec_install_suffix()
}

/// The system configuration path of the running executable's install
/// location: the invocation path with the well-known install suffix
/// stripped, or unchanged when the suffix is not there.
pub fn strip_install_suffix(argv0: &str) -> (r: String)
    ensures
        spec_has_install_suffix(argv0@) ==> r@ == argv0@.take(
            argv0@.len() - spec_install_suffix().len(),
        ),
        !spec_has_install_suffix(argv0@) ==> r@ == argv0@,
{
    let suffix = "/sw/bin/darwin-rebuild";
    if ends_with_str(argv0, suffix) {
        let n = argv0.unicode_len();
        let m = suffix.unicode_len();
        substr_string(argv0, 0, n - m)
    } else {
        argv0.to_owned()
    }
}

/// How many changelog lines a run prints at most.
pub const CHANGELOG_LINES: usize = 32;

/// `l` with a trailing carriage return removed.
pub open spec fn spec_strip_cr(l: Seq<char>) -> Seq<char> {
    if l.len() > 0 && l[l.len() - 1] == '\r' {
        l.drop_last()
    } else {
        l
    }
}

/// The lines of `s`: segments split at newlines, each segment's trailing
/// carriage return removed; a final segment without a newline is kept as it
/// stands, and a trailing newline opens no further line.
pub open spec fn spec_lines(s: Seq<char>) -> Seq<Seq<char>>
    decreases s.len(),
    via spec_lines_decreases
{
    if s.len() == 0 {
        Seq::empty()
    } else {
        let k = scan_len(ScanKind::LineEnd, s) as int;
        if k == s.len() {
            seq![s]
        } else {
            seq![spec_strip_cr(s.take(k))] + spec_lines(s.skip(k + 1))
        }
    }
}

#[via_fn]
proof fn spec_lines_decreases(s: Seq<char>) {
    lemma_scan_len_props(ScanKind::LineEnd, s);
}

/// The first `max` lines of `s`, or all of them when there are fewer.
pub open spec fn spec_first_lines(s: Seq<char>, max: int) -> Seq<Seq<char>> {
    if spec_lines(s).len() <= max {
        spec_lines(s)
    } else {
        spec_lines(s).take(max)
    }
}

/// The first `max` lines of the changelog text.
pub fn changelog_excerpt(text: &str, max: usize) -> (v: Vec<String>)
    ensures
        v.deep_view() == spec_first_lines(text@, max as int),
{
    let n = text.unicode_len();
    let mut pos: usize = 0;
    let mut out: Vec<String> = Vec::new();
    proof {
        assert(text@.skip(0) =~= text@);
        assert(spec_lines(text@).take(0) =~= out.deep_view());
    }
    while pos < n && out.len() < max
        invariant
            pos <= n,
            n == text@.len(),
            out@.len() <= max,
            out@.len() <= spec_lines(text@).len(),
            spec_lines(text@).take(out@.len() as int) =~= out.deep_view(),
            spec_lines(text@).skip(out@.len() as int) =~= spec_lines(text@.skip(pos as int)),
        decreases n - pos,
    {
        let ghost rem = text@.skip(pos as int);
        let ghost all = spec_lines(text@);
        let k = scan_from(text, pos, ScanKind::LineEnd);
        proof {
            assert(rem.len() > 0);
            assert(scan_len(ScanKind::LineEnd, rem) == k - pos);
        }
        let line = if k < n {
            if k > pos && text.get_char(k - 1) == '\r' {
                substr_string(text, pos, k - 1)
            } else {
                substr_string(text, pos, k)
            }
        } else {
            substr_string(text, pos, n)
        };
        proof {
            if k < n {
                let content = rem.take(k - pos);
                assert(content =~= text@.subrange(pos as int, k as int));
                if k > pos && text@[k - 1] == '\r' {
                    assert(content[content.len() - 1] == text@[k - 1]);
                    assert(spec_strip_cr(content) =~= text@.subrange(pos as int, k - 1));
                } else {
                    if content.len() > 0 {
                        assert(content[content.len() - 1] == text@[k - 1]);
                    }
                    assert(spec_strip_cr(content) =~= content);
                }
                assert(spec_lines(rem) == seq![spec_strip_cr(content)] + spec_lines(
                    rem.skip(k - pos + 1),
                ));
                assert(rem.skip(k - pos + 1) =~= text@.skip(k + 1));
            } else {
                assert(spec_lines(rem) == seq![rem]);
                assert(rem =~= text@.subrange(pos as int, n as int));
            }
            assert(line@ == spec_lines(rem)[0]);
        }
        out.push(line);
        let ghost cnt = out@.len() as int;
        proof {
            assert(all.skip(cnt - 1) =~= spec_lines(rem));
            assert(all.len() >= cnt);
            assert(all[cnt - 1] == spec_lines(rem)[0]);
            assert(all.take(cnt) =~= all.take(cnt - 1).push(all[cnt - 1]));
            assert(all.take(cnt) =~= out.deep_view());
            assert(all.skip(cnt) =~= spec_lines(rem).drop_first());
        }
        if k < n {
            pos = k + 1;
            proof {
                assert(spec_lines(rem).drop_first() =~= spec_lines(text@.skip(pos as int)));
            }
        } else {
            pos = n;
            proof {
                assert(text@.skip(pos as int).len() == 0);
                assert(spec_lines(rem).drop_first() =~= spec_lines(text@.skip(pos as int)));
            }
        }
    }
    proof {
        let all = spec_lines(text@);
        if pos >= n {
            assert(text@.skip(pos as int).len() == 0);
            assert(all.skip(out@.len() as int).len() == 0);
            assert(all.len() == out@.len());
            assert(out.deep_view() =~= spec_first_lines(text@, max as int));
        } else {
            assert(out@.len() == max);
            assert(text@.skip(pos as int).len() > 0);
            assert(spec_lines(text@.skip(pos as int)).len() >= 1);
            assert(all.len() - max == spec_lines(text@.skip(pos as int)).len());
            assert(out.deep_view() =~= spec_first_lines(text@, max as int));
        }
    }
    out
}

} // verus!
