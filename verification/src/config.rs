//! Environment resolution: an explicit, immutable configuration built once
//! from externally supplied values and mode-dependent defaults, then passed
//! into every component.
//!
//! For each key an externally set value wins verbatim; otherwise a default
//! is installed that depends on developer mode.  The version string has its
//! own precedence chain: external override, else the version parsed out of
//! the project manifest, else a fallback literal.

use vstd::prelude::*;

verus! {

use vstd::string::StrSliceExecFns;
use vstd::string::StringExecFns;
use crate::text::{find_first, lemma_find_first, split_char, split_lines, str_starts_with,
find_char};

/// A configuration problem that stops a sequence before it starts.
#[derive(Debug)]
pub enum ConfigError {
    /// Mutually exclusive startup flags were combined.
    ConflictingFlags,
    /// A required key has no external value and no default.
    MissingValue { key: String },
}

/// The externally supplied values for each configuration key, as found in
/// the process environment; `None` where the key is not set.
pub struct ExternalEnv {
    pub rust_dev_image: Option<String>,
    pub cr8s_version: Option<String>,
    pub fe_base_image: Option<String>,
    pub be_cli_image: Option<String>,
    pub fe_server_image: Option<String>,
    pub be_server_image: Option<String>,
    pub scratch_dir: Option<String>,
}

/// Mathematical model of `ExternalEnv`.
pub struct EnvV {
    pub rust_dev_image: Option<Seq<char>>,
    pub cr8s_version: Option<Seq<char>>,
    pub fe_base_image: Option<Seq<char>>,
    pub be_cli_image: Option<Seq<char>>,
    pub fe_server_image: Option<Seq<char>>,
    pub be_server_image: Option<Seq<char>>,
    pub scratch_dir: Option<Seq<char>>,
}

impl View for ExternalEnv {
    type V = EnvV;

    open spec fn view(&self) -> EnvV {
        EnvV {
            rust_dev_image: self.rust_dev_image.deep_view(),
            cr8s_version: self.cr8s_version.deep_view(),
            fe_base_image: self.fe_base_image.deep_view(),
            be_cli_image: self.be_cli_image.deep_view(),
            fe_server_image: self.fe_server_image.deep_view(),
            be_server_image: self.be_server_image.deep_view(),
            scratch_dir: self.scratch_dir.deep_view(),
        }
    }
}

impl ExternalEnv {
    /// An environment with no key set; every default applies.
    pub fn unset() -> (e: ExternalEnv)
        ensures
            e@ == (EnvV {
                rust_dev_image: Option::None,
                cr8s_version: Option::None,
                fe_base_image: Option::None,
                be_cli_image: Option::None,
                fe_server_image: Option::None,
                be_server_image: Option::None,
                scratch_dir: Option::None,
            }),
    {
        ExternalEnv {
            rust_dev_image: Option::None,
            cr8s_version: Option::None,
            fe_base_image: Option::None,
            be_cli_image: Option::None,
            fe_server_image: Option::None,
            be_server_image: Option::None,
            scratch_dir: Option::None,
        }
    }
}

/// The resolved configuration: every key has a value, fixed for the whole
/// invocation.
pub struct Config {
    pub dev_mode: bool,
    pub version: String,
    pub rust_dev_image: String,
    pub fe_base_image: String,
    pub be_cli_image: String,
    pub fe_server_image: String,
    pub be_server_image: String,
    pub scratch_dir: String,
}

/// Mathematical model of a `Config`.
pub struct ConfigV {
    pub dev_mode: bool,
    pub version: Seq<char>,
    pub rust_dev_image: Seq<char>,
    pub fe_base_image: Seq<char>,
    pub be_cli_image: Seq<char>,
    pub fe_server_image: Seq<char>,
    pub be_server_image: Seq<char>,
    pub scratch_dir: Seq<char>,
}

impl View for Config {
    type V = ConfigV;

    open spec fn view(&self) -> ConfigV {
        ConfigV {
            dev_mode: self.dev_mode,
            version: self.version@,
            rust_dev_image: self.rust_dev_image@,
            fe_base_image: self.fe_base_image@,
            be_cli_image: self.be_cli_image@,
            fe_server_image: self.fe_server_image@,
            be_server_image: self.be_server_image@,
            scratch_dir: self.scratch_dir@,
        }
    }
}

/// An externally set value wins; otherwise the default applies.
pub open spec fn or_default(v: Option<Seq<char>>, d: Seq<char>) -> Seq<char> {
    match v {
        Option::Some(s) => s,
        Option::None => d,
    }
}

/// The version field of one manifest line: the line must start with
/// `version`, and the value is the text between the first double quote of
/// the remainder and the next double quote (or the end of the line).
pub open spec fn version_of_line(l: Seq<char>) -> Option<Seq<char>> {
    if l.len() >= 7 && l.take(7) == "version"@ {
        quote_field(l.skip(7))
    } else {
        Option::None
    }
}

/// The text between the first double quote and the second one (or the end).
pub open spec fn quote_field(r: Seq<char>) -> Option<Seq<char>> {
    match find_first(r, '"') {
        Option::None => Option::None,
        Option::Some(p) => {
            let rest = r.skip(p + 1);
            match find_first(rest, '"') {
                Option::None => Option::Some(rest),
                Option::Some(q) => Option::Some(rest.take(q)),
            }
        },
    }
}

/// The version carried by the first manifest line that yields one.
pub open spec fn version_in_lines(ls: Seq<Seq<char>>) -> Option<Seq<char>>
    decreases ls.len(),
{
    if ls.len() == 0 {
        Option::None
    } else {
        match version_of_line(ls[0]) {
            Option::Some(v) => Option::Some(v),
            Option::None => version_in_lines(ls.drop_first()),
        }
    }
}

/// The version string found in manifest `content`, if any.
pub open spec fn manifest_version(content: Seq<char>) -> Option<Seq<char>> {
    version_in_lines(split_char(content, '\n'))
}

/// The resolved version string: external override, else the manifest's
/// version, else the fallback literal.
pub open spec fn version_spec(external: Option<Seq<char>>, manifest: Option<Seq<char>>) -> Seq<
    char,
> {
    match external {
        Option::Some(v) => v,
        Option::None => match manifest {
            Option::Some(content) => match manifest_version(content) {
                Option::Some(v) => v,
                Option::None => "0.5.1"@,
            },
            Option::None => "0.5.1"@,
        },
    }
}

/// The full resolution: what every configuration key comes out as, given
/// developer mode, the external environment and the manifest content.
pub open spec fn resolve_spec(dev_mode: bool, env: EnvV, manifest: Option<Seq<char>>) -> ConfigV {
    let version = version_spec(env.cr8s_version, manifest);
    let rust_dev_image = or_default(
        env.rust_dev_image,
        "ghcr.io/johnbasrai/cr8s/rust-dev:1.83.0-rev5"@,
    );
    ConfigV {
        dev_mode,
        version,
        rust_dev_image,
        fe_base_image: or_default(env.fe_base_image, rust_dev_image),
        be_cli_image: or_default(
            env.be_cli_image,
            if dev_mode {
                "cr8s-cli-dev"@
            } else {
                "ghcr.io/johnbasrai/cr8s/cr8s-cli:"@ + version
            },
        ),
        fe_server_image: or_default(env.fe_server_image, "cr8s-fe-server"@),
        be_server_image: or_default(
            env.be_server_image,
            if dev_mode {
                "cr8s-server-dev"@
            } else {
                "ghcr.io/johnbasrai/cr8s/cr8s-server:"@ + version
            },
        ),
        scratch_dir: or_default(env.scratch_dir, "/var/tmp"@),
    }
}

/// Uses the externally set value verbatim if there is one, else the default.
pub fn get_env_with_default(value: &Option<String>, default: &str) -> (r: String)
    ensures
        r@ == or_default(value.deep_view(), default@),
{
    match value {
        Option::Some(v) => v.clone(),
        Option::None => String::from_str(default),
    }
}

/// A key that has no default: its absence is a configuration error.
pub fn get_env_no_default(value: &Option<String>, key: &str) -> (r: Result<String, ConfigError>)
    ensures
        value is Some <==> r is Ok,
        r matches Ok(v) ==> value.deep_view() == Option::Some(v@),
        r matches Err(e) ==> e matches ConfigError::MissingValue { key: k } && k@ == key@,
{
    match value {
        Option::Some(v) => Result::Ok(v.clone()),
        Option::None => Result::Err(ConfigError::MissingValue { key: String::from_str(key) }),
    }
}

/// The version field of one manifest line, if the line carries one.
pub fn line_version(l: &str) -> (r: Option<String>)
    ensures
        r.deep_view() == version_of_line(l@),
{
    proof {
        reveal_strlit("version");
    }
    if !str_starts_with(l, "version") {
        return Option::None;
    }
    let n = l.unicode_len();
    let rest = l.substring_char(7, n);
    proof {
        assert(rest@ =~= l@.skip(7));
    }
    let m = rest.unicode_len();
    match find_char(rest, 0, '"') {
        Option::None => {
            proof {
                lemma_find_first(rest@, '"');
                assert(version_of_line(l@) is None);
            }
            Option::None
        },
        Option::Some(p) => {
            proof {
                lemma_find_first(rest@, '"');
                assert(find_first(rest@, '"') == Option::Some(p as int));
            }
            match find_char(rest, p + 1, '"') {
                Option::None => {
                    let v = rest.substring_char(p + 1, m).to_owned();
                    proof {
                        let tail = rest@.skip(p + 1);
                        lemma_find_first(tail, '"');
                        assert(forall|k: int|
                            0 <= k < tail.len() ==> tail[k] == rest@[p + 1 + k]);
                        assert(find_first(tail, '"') is None);
                        assert(v@ =~= tail);
                    }
                    Option::Some(v)
                },
                Option::Some(q) => {
                    let v = rest.substring_char(p + 1, q).to_owned();
                    proof {
                        let tail = rest@.skip(p + 1);
                        lemma_find_first(tail, '"');
                        assert(forall|k: int|
                            0 <= k < tail.len() ==> tail[k] == rest@[p + 1 + k]);
                        assert(tail[q - (p + 1)] == '"');
                        assert(find_first(tail, '"') == Option::Some(q - (p + 1)));
                        assert(v@ =~= tail.take(q - (p + 1)));
                    }
                    Option::Some(v)
                },
            }
        },
    }
}

/// Scans manifest content for its version line.
pub fn extract_version_from_cargo_toml(content: &str) -> (r: Option<String>)
    ensures
        r.deep_view() == manifest_version(content@),
{
    let lines = split_lines(content);
    let ghost all: Seq<Seq<char>> = split_char(content@, '\n');
    let mut i: usize = 0;
    proof {
        assert(all.skip(0) =~= all);
    }
    while i < lines.len()
        invariant
            0 <= i <= lines.len(),
            lines.deep_view() == all,
            all == split_char(content@, '\n'),
            version_in_lines(all) == version_in_lines(all.skip(i as int)),
        decreases lines.len() - i,
    {
        let r = line_version(&lines[i]);
        proof {
            assert(lines.deep_view()[i as int] == lines[i as int]@);
            assert(all.skip(i as int)[0] == all[i as int]);
            assert(all.skip(i as int).len() > 0);
        }
        if let Option::Some(v) = r {
            proof {
                assert(version_of_line(all[i as int]) == Option::Some(v@));
                assert(version_in_lines(all.skip(i as int)) == Option::Some(v@));
            }
            return Option::Some(v);
        }
        proof {
            assert(all.skip(i as int).drop_first() =~= all.skip(i + 1));
        }
        i = i + 1;
    }
    proof {
        assert(all.skip(lines.len() as int).len() == 0);
    }
    Option::None
}

/// The resolved version string for this invocation.
pub fn get_cr8s_version(external: &Option<String>, manifest_content: &Option<String>) -> (r:
    String)
    ensures
        r@ == version_spec(external.deep_view(), manifest_content.deep_view()),
{
    match external {
        Option::Some(v) => v.clone(),
        Option::None => match manifest_content {
            Option::Some(content) => match extract_version_from_cargo_toml(content.as_str()) {
                Option::Some(v) => v,
                Option::None => String::from_str("0.5.1"),
            },
            Option::None => String::from_str("0.5.1"),
        },
    }
}

/// Builds the configuration: external value verbatim where present, else the
/// mode-dependent default.
pub fn resolve(dev_mode: bool, env: &ExternalEnv, manifest_content: &Option<String>) -> (c:
    Config)
    ensures
        c@ == resolve_spec(dev_mode, env@, manifest_content.deep_view()),
{
    let version = get_cr8s_version(&env.cr8s_version, manifest_content);
    let rust_dev_image = get_env_with_default(
        &env.rust_dev_image,
        "ghcr.io/johnbasrai/cr8s/rust-dev:1.83.0-rev5",
    );
    let fe_base_image = get_env_with_default(&env.fe_base_image, rust_dev_image.as_str());
    let be_cli_image = if dev_mode {
        get_env_with_default(&env.be_cli_image, "cr8s-cli-dev")
    } else {
        let mut d = String::from_str("ghcr.io/johnbasrai/cr8s/cr8s-cli:");
        d.append(version.as_str());
        get_env_with_default(&env.be_cli_image, d.as_str())
    };
    let fe_server_image = get_env_with_default(&env.fe_server_image, "cr8s-fe-server");
    let be_server_image = if dev_mode {
        get_env_with_default(&env.be_server_image, "cr8s-server-dev")
    } else {
        let mut d = String::from_str("ghcr.io/johnbasrai/cr8s/cr8s-server:");
        d.append(version.as_str());
        get_env_with_default(&env.be_server_image, d.as_str())
    };
    let scratch_dir = get_env_with_default(&env.scratch_dir, "/var/tmp");
    Config {
        dev_mode,
        version,
        rust_dev_image,
        fe_base_image,
        be_cli_image,
        fe_server_image,
        be_server_image,
        scratch_dir,
    }
}

/// The two scratch cache locations, both derived from one root directory.
pub struct ScratchPaths {
    pub build_cache: String,
    pub package_cache: String,
}

/// The build-cache directory under the scratch root.
pub open spec fn build_cache_spec(root: Seq<char>) -> Seq<char> {
    root + "/dev-target"@
}

/// The package-cache directory under the scratch root.
pub open spec fn package_cache_spec(root: Seq<char>) -> Seq<char> {
    root + "/dev-cargo"@
}

impl ScratchPaths {
    /// Derives both cache locations from the configured root.
    pub fn derive_from(root: &str) -> (p: ScratchPaths)
        ensures
            p.build_cache@ == build_cache_spec(root@),
            p.package_cache@ == package_cache_spec(root@),
    {
        let mut build_cache = String::from_str(root);
        build_cache.append("/dev-target");
        let mut package_cache = String::from_str(root);
        package_cache.append("/dev-cargo");
        ScratchPaths { build_cache, package_cache }
    }
}

/// The environment as it looks after a resolved configuration has been
/// published into it: every key set to its resolved value.
pub open spec fn exported_env(c: ConfigV) -> EnvV {
    EnvV {
        rust_dev_image: Option::Some(c.rust_dev_image),
        cr8s_version: Option::Some(c.version),
        fe_base_image: Option::Some(c.fe_base_image),
        be_cli_image: Option::Some(c.be_cli_image),
        fe_server_image: Option::Some(c.fe_server_image),
        be_server_image: Option::Some(c.be_server_image),
        scratch_dir: Option::Some(c.scratch_dir),
    }
}

/// Resolution is idempotent: resolving against the environment produced by a
/// first resolution gives exactly the first configuration back, whatever the
/// manifest then says; in particular an external override is returned
/// verbatim by both resolutions.
pub proof fn lemma_resolve_idempotent(
    dev_mode: bool,
    env: EnvV,
    manifest: Option<Seq<char>>,
    manifest2: Option<Seq<char>>,
)
    ensures
        resolve_spec(dev_mode, exported_env(resolve_spec(dev_mode, env, manifest)), manifest2)
            == resolve_spec(dev_mode, env, manifest),
{
}

} // verus!
