//! Arch Linux's package config.
use vstd::prelude::*;
use crate::manifest::{CargoManifest, CargoMetadata, GeneratePackageConfig, PopulateFromCargoManifest};

verus! {

/// data in `[package.metadata.archlinux_pkgbuild]` section, which the user can
/// provide for PKGBUILD specific overrides
pub struct CargoPKGBUILDManifest {
    /// The maintainers of the package
    pub maintainers: Option<Vec<String>>,
    /// The name of the package.
    pub pkgname: Option<String>,
    /// The version of the software as released from the author.
    pub pkgver: Option<String>,
    /// This is the release number specific to the Arch Linux release.
    pub pkgrel: Option<u32>,
    /// This should be a brief description of the package and its functionality.
    pub pkgdesc: Option<String>,
    /// This field contains a URL that is associated with the software being packaged.
    /// This is typically the project's web site.
    pub url: Option<String>,
}

/// An override block that overrides nothing.
pub open spec fn no_overrides() -> CargoPKGBUILDManifest {
    CargoPKGBUILDManifest {
        maintainers: None,
        pkgname: None,
        pkgver: None,
        pkgrel: None,
        pkgdesc: None,
        url: None,
    }
}

impl Default for CargoPKGBUILDManifest {
    fn default() -> (r: CargoPKGBUILDManifest)
        ensures
            r == no_overrides(),
    {
        CargoPKGBUILDManifest {
            maintainers: None,
            pkgname: None,
            pkgver: None,
            pkgrel: None,
            pkgdesc: None,
            url: None,
        }
    }
}

impl Default for CargoMetadata {
    fn default() -> (r: CargoMetadata)
        ensures
            r.archlinux_pkgbuild is None,
    {
        CargoMetadata { archlinux_pkgbuild: None }
    }
}

/// see `man PKGBUILD`
/// and https://wiki.archlinux.org/index.php/PKGBUILD
pub struct PKGBUILDConfig {
    /// The maintainers of the package
    pub maintainers: Vec<String>,
    /// The name of the package.
    pub pkgname: String,
    /// The version of the software as released from the author.
    pub pkgver: String,
    /// This is the release number specific to the Arch Linux release.
    pub pkgrel: u32,
    /// This should be a brief description of the package and its functionality.
    pub pkgdesc: String,
    /// This field contains a URL that is associated with the software being packaged.
    /// This is typically the project's web site.
    pub url: String,
}

// ---- resolution ----

/// The override block of a manifest; one that overrides nothing where the
/// manifest has none.
pub open spec fn overrides(m: CargoManifest) -> CargoPKGBUILDManifest {
    match m.package.metadata {
        Some(md) => match md.archlinux_pkgbuild {
            Some(o) => o,
            None => no_overrides(),
        },
        None => no_overrides(),
    }
}

/// The value that is present, else the fallback.
pub open spec fn first_present<T>(o: Option<T>, fallback: T) -> T {
    match o {
        Some(x) => x,
        None => fallback,
    }
}

/// The release number given to a package whose manifest sets none.
pub const DEFAULT_PKGREL: u32 = 1;

/// The project URL: the override, else the homepage, else the repository,
/// else empty.
pub open spec fn project_url(m: CargoManifest) -> Seq<char> {
    match overrides(m).url {
        Some(u) => u@,
        None => match m.package.homepage {
            Some(h) => h@,
            None => match m.package.repository {
                Some(r) => r@,
                None => Seq::empty(),
            },
        },
    }
}

/// The maintainers: the override, else the authors.
pub open spec fn resolved_maintainers(m: CargoManifest) -> Seq<String> {
    match overrides(m).maintainers {
        Some(v) => v@,
        None => m.package.authors@,
    }
}

/// Whether `c` is the config resolved from `m`, field by field: the
/// override where present, else the manifest's value, else the default.
pub open spec fn resolves_to(m: CargoManifest, c: PKGBUILDConfig) -> bool {
    let o = overrides(m);
    &&& c.maintainers@ == resolved_maintainers(m)
    &&& c.pkgname == first_present(o.pkgname, m.package.name)
    &&& c.pkgver == first_present(o.pkgver, m.package.version)
    &&& c.pkgrel == first_present(o.pkgrel, DEFAULT_PKGREL)
    &&& c.pkgdesc == first_present(o.pkgdesc, m.package.description)
    &&& c.url@ == project_url(m)
}

impl PopulateFromCargoManifest<PKGBUILDConfig> for PKGBUILDConfig {
    open spec fn populates(cargo_manifest: CargoManifest, config: PKGBUILDConfig) -> bool {
        resolves_to(cargo_manifest, config)
    }

    /// Generate a PKGBUILDConfig object from a Cargo manifest. This involves taking
    /// information directly from the Cargo manifest (where applicable) and translating
    /// to PKGBUILD. The user may have also provided additional metadata in Cargo.toml
    fn from_cargo_manifest(cargo_manifest: CargoManifest) -> (r: PKGBUILDConfig) {
        let package = cargo_manifest.package;
        // Since the additional metadata in Cargo.toml is all optional,
        // we use it as a starting point.
        let override_pkgbuild_config = package.metadata.unwrap_or(
            CargoMetadata::default(),
        ).archlinux_pkgbuild.unwrap_or(CargoPKGBUILDManifest::default());

        let maintainers = override_pkgbuild_config.maintainers.unwrap_or(package.authors);
        let pkgname = override_pkgbuild_config.pkgname.unwrap_or(package.name);
        let pkgver = override_pkgbuild_config.pkgver.unwrap_or(package.version);
        let pkgrel = override_pkgbuild_config.pkgrel.unwrap_or(DEFAULT_PKGREL);
        let pkgdesc = override_pkgbuild_config.pkgdesc.unwrap_or(package.description);
        let url = override_pkgbuild_config.url.unwrap_or(
            package.homepage.unwrap_or(package.repository.unwrap_or(String::new())),
        );

        PKGBUILDConfig { maintainers, pkgname, pkgver, pkgrel, pkgdesc, url }
    }
}

// ---- rendering ----

/// The decimal digit for `d`, which is below ten.
pub open spec fn digit_char(d: nat) -> char {
    if d == 0 { '0' }
    else if d == 1 { '1' }
    else if d == 2 { '2' }
    else if d == 3 { '3' }
    else if d == 4 { '4' }
    else if d == 5 { '5' }
    else if d == 6 { '6' }
    else if d == 7 { '7' }
    else if d == 8 { '8' }
    else { '9' }
}

/// `n` written in decimal, without leading zeros.
pub open spec fn decimal(n: nat) -> Seq<char>
    decreases n,
{
    if n < 10 {
        seq![digit_char(n)]
    } else {
        decimal(n / 10).push(digit_char(n % 10))
    }
}

/// The comment line that names one maintainer.
pub open spec fn maintainer_line(name: String) -> Seq<char> {
    "# Maintainer: "@ + name@ + "\n"@
}

/// One comment line per maintainer, in order.
pub open spec fn maintainer_lines(names: Seq<String>) -> Seq<char>
    decreases names.len(),
{
    if names.len() == 0 {
        Seq::empty()
    } else {
        maintainer_lines(names.drop_last()) + maintainer_line(names.last())
    }
}

/// The PKGBUILD text of a config: the maintainer lines, then the five
/// assignments, the last one without a line break.
pub open spec fn pkgbuild_text(c: PKGBUILDConfig) -> Seq<char> {
    maintainer_lines(c.maintainers@)
        + "pkgname="@ + c.pkgname@
        + "\npkgver="@ + c.pkgver@
        + "\npkgrel="@ + decimal(c.pkgrel as nat)
        + "\npkgdesc=\""@ + c.pkgdesc@
        + "\"\nurl=\""@ + c.url@ + "\""@
}

fn digit_str(d: u32) -> (r: &'static str)
    requires
        d < 10,
    ensures
        r@ == seq![digit_char(d as nat)],
{
    proof {
        reveal_strlit("0");
        reveal_strlit("1");
        reveal_strlit("2");
        reveal_strlit("3");
        reveal_strlit("4");
        reveal_strlit("5");
        reveal_strlit("6");
        reveal_strlit("7");
        reveal_strlit("8");
        reveal_strlit("9");
    }
    if d == 0 { "0" }
    else if d == 1 { "1" }
    else if d == 2 { "2" }
    else if d == 3 { "3" }
    else if d == 4 { "4" }
    else if d == 5 { "5" }
    else if d == 6 { "6" }
    else if d == 7 { "7" }
    else if d == 8 { "8" }
    else { "9" }
}

/// Writes `n` in decimal.
pub fn decimal_string(n: u32) -> (r: String)
    ensures
        r@ == decimal(n as nat),
    decreases n,
{
    if n < 10 {
        digit_str(n).to_owned()
    } else {
        let mut s = decimal_string(n / 10);
        s.append(digit_str(n % 10));
        s
    }
}

impl PKGBUILDConfig {
    /// The name of the directory that the package is built in:
    /// `<pkgver>-<pkgrel>`.
    pub fn version_dir_name(&self) -> (r: String)
        ensures
            r@ == self.pkgver@ + "-"@ + decimal(self.pkgrel as nat),
    {
        let mut name = self.pkgver.clone();
        name.append("-");
        let rel = decimal_string(self.pkgrel);
        name.append(rel.as_str());
        name
    }
}

impl GeneratePackageConfig for PKGBUILDConfig {
    open spec fn config_text(&self) -> Seq<char> {
        pkgbuild_text(*self)
    }

    fn generate_config(&self) -> (r: String) {
        let mut buffer = String::new();
        let n = self.maintainers.len();
        let mut i: usize = 0;
        while i < n
            invariant
                i <= n,
                n == self.maintainers@.len(),
                buffer@ == maintainer_lines(self.maintainers@.take(i as int)),
            decreases n - i,
        {
            proof {
                let names = self.maintainers@.take(i + 1);
                assert(names.drop_last() =~= self.maintainers@.take(i as int));
                assert(names.last() == self.maintainers@[i as int]);
            }
            buffer.append("# Maintainer: ");
            buffer.append(self.maintainers[i].as_str());
            buffer.append("\n");
            i = i + 1;
        }
        assert(self.maintainers@.take(n as int) =~= self.maintainers@);
        buffer.append("pkgname=");
        buffer.append(self.pkgname.as_str());
        buffer.append("\npkgver=");
        buffer.append(self.pkgver.as_str());
        buffer.append("\npkgrel=");
        let rel = decimal_string(self.pkgrel);
        buffer.append(rel.as_str());
        buffer.append("\npkgdesc=\"");
        buffer.append(self.pkgdesc.as_str());
        buffer.append("\"\nurl=\"");
        buffer.append(self.url.as_str());
        buffer.append("\"");
        buffer
    }
}

// ---- laws ----

/// Every resolved field is the override where the override block sets it,
/// and the manifest's own value where it does not.
pub proof fn lemma_override_precedence(m: CargoManifest, c: PKGBUILDConfig)
    requires
        PKGBUILDConfig::populates(m, c),
    ensures
        overrides(m).maintainers matches Some(v) ==> c.maintainers@ == v@,
        overrides(m).maintainers is None ==> c.maintainers@ == m.package.authors@,
        overrides(m).pkgname matches Some(v) ==> c.pkgname == v,
        overrides(m).pkgname is None ==> c.pkgname == m.package.name,
        overrides(m).pkgver matches Some(v) ==> c.pkgver == v,
        overrides(m).pkgver is None ==> c.pkgver == m.package.version,
        overrides(m).pkgrel matches Some(v) ==> c.pkgrel == v,
        overrides(m).pkgdesc matches Some(v) ==> c.pkgdesc == v,
        overrides(m).pkgdesc is None ==> c.pkgdesc == m.package.description,
        overrides(m).url matches Some(v) ==> c.url@ == v@,
{
}

/// Where the override block sets no release number, the release number is 1.
pub proof fn lemma_default_release_number(m: CargoManifest, c: PKGBUILDConfig)
    requires
        PKGBUILDConfig::populates(m, c),
        overrides(m).pkgrel is None,
    ensures
        c.pkgrel == 1,
{
}

/// The project URL is the override, else the homepage, else the repository,
/// else the empty string.
pub proof fn lemma_project_url_fallback(m: CargoManifest, c: PKGBUILDConfig)
    requires
        PKGBUILDConfig::populates(m, c),
    ensures
        overrides(m).url matches Some(u) ==> c.url@ == u@,
        overrides(m).url is None ==> (m.package.homepage matches Some(h) ==> c.url@ == h@),
        overrides(m).url is None && m.package.homepage is None
            ==> (m.package.repository matches Some(r) ==> c.url@ == r@),
        overrides(m).url is None && m.package.homepage is None && m.package.repository is None
            ==> c.url@.len() == 0,
{
}

/// Two configs with the same contents render to the same text.
pub proof fn lemma_render_deterministic(a: PKGBUILDConfig, b: PKGBUILDConfig)
    requires
        a.maintainers@ == b.maintainers@,
        a.pkgname@ == b.pkgname@,
        a.pkgver@ == b.pkgver@,
        a.pkgrel == b.pkgrel,
        a.pkgdesc@ == b.pkgdesc@,
        a.url@ == b.url@,
    ensures
        a.config_text() == b.config_text(),
{
    assert(a.maintainers@ =~= b.maintainers@);
}

/// Rendering one config twice gives the same text both times.
pub proof fn lemma_render_idempotent(c: PKGBUILDConfig, first: String, second: String)
    requires
        first@ == c.config_text(),
        second@ == c.config_text(),
    ensures
        first@ == second@,
{
}

} // verus!
