//! The Cargo manifest: its data, how it is read from a TOML document, and
//! the two capabilities of a platform package format.
use vstd::prelude::*;
use crate::arch::CargoPKGBUILDManifest;
use crate::document::{field_of, get_field, parse_document, toml_document, TomlValue};

verus! {

/// Why a manifest text could not be read.
#[derive(Debug, Clone, Copy, PartialEq, Eq, Structural)]
pub enum ParseError {
    /// The text is not a well-formed TOML document.
    Syntax,
    /// A required field is absent.
    MissingField,
    /// A field holds a value of the wrong type.
    WrongType,
}

/// data in Cargo.toml
pub struct CargoManifest {
    pub package: CargoPackage,
}

/// data in `[package]` section
pub struct CargoPackage {
    pub name: String,
    pub version: String,
    pub description: String,
    pub authors: Vec<String>,
    /// Multiple licenses are separated by `/`
    pub license: String,
    pub readme: String,
    pub homepage: Option<String>,
    pub documentation: Option<String>,
    pub repository: Option<String>,
    pub keywords: Option<Vec<String>>,
    pub metadata: Option<CargoMetadata>,
}

/// data in `[package.metadata]` section
pub struct CargoMetadata {
    pub archlinux_pkgbuild: Option<CargoPKGBUILDManifest>,
}

/// Builds a platform package config from a Cargo manifest.
pub trait PopulateFromCargoManifest<T>: Sized {
    /// Whether `config` is the config that `cargo_manifest` yields.
    spec fn populates(cargo_manifest: CargoManifest, config: T) -> bool;

    fn from_cargo_manifest(cargo_manifest: CargoManifest) -> (r: T)
        ensures
            Self::populates(cargo_manifest, r),
    ;
}

/// A trait for generate specific platform package's config
pub trait GeneratePackageConfig {
    /// The text of the config.
    spec fn config_text(&self) -> Seq<char>;

    fn generate_config(&self) -> (r: String)
        ensures
            r@ == self.config_text(),
    ;
}

// ---- reading single fields ----

/// The error of a check, if it failed.
pub open spec fn error_of<T>(r: Result<T, ParseError>) -> Option<ParseError> {
    match r {
        Ok(_) => None,
        Err(e) => Some(e),
    }
}

/// The first error of two checks made in order.
pub open spec fn either(first: Option<ParseError>, second: Option<ParseError>) -> Option<ParseError> {
    if first is Some {
        first
    } else {
        second
    }
}

/// An optional field that must be a string where present.
pub open spec fn text_field(v: Option<TomlValue>) -> Result<Option<String>, ParseError> {
    match v {
        None => Ok(None),
        Some(TomlValue::Str(s)) => Ok(Some(s)),
        Some(_) => Err(ParseError::WrongType),
    }
}

/// An optional field that must be an array of strings where present.
pub open spec fn text_list(v: Option<TomlValue>) -> Result<Option<Seq<String>>, ParseError> {
    match v {
        None => Ok(None),
        Some(TomlValue::Array(items)) => {
            if forall|i: int| 0 <= i < items@.len() ==> (#[trigger] items@[i]) is Str {
                Ok(Some(items@.map_values(|x: TomlValue| x->Str_0)))
            } else {
                Err(ParseError::WrongType)
            }
        },
        Some(_) => Err(ParseError::WrongType),
    }
}

/// An optional field that must be an integer in the range of `u32` where present.
pub open spec fn count_field(v: Option<TomlValue>) -> Result<Option<u32>, ParseError> {
    match v {
        None => Ok(None),
        Some(TomlValue::Int(i)) => {
            if 0 <= i <= u32::MAX {
                Ok(Some(i as u32))
            } else {
                Err(ParseError::WrongType)
            }
        },
        Some(_) => Err(ParseError::WrongType),
    }
}

/// An optional field that must be a table where present.
pub open spec fn table_field(v: Option<TomlValue>) -> Result<Option<TomlValue>, ParseError> {
    match v {
        None => Ok(None),
        Some(TomlValue::Table(entries)) => Ok(Some(TomlValue::Table(entries))),
        Some(_) => Err(ParseError::WrongType),
    }
}

/// A field that must be present.
pub open spec fn required<T>(r: Result<Option<T>, ParseError>) -> Result<T, ParseError> {
    match r {
        Ok(Some(x)) => Ok(x),
        Ok(None) => Err(ParseError::MissingField),
        Err(e) => Err(e),
    }
}

/// The contents of an optional list of strings.
pub open spec fn list_view(l: Option<Vec<String>>) -> Option<Seq<String>> {
    match l {
        Some(v) => Some(v@),
        None => None,
    }
}

/// Reads the optional string field `key` of `table`.
pub fn read_text(table: &TomlValue, key: &str) -> (r: Result<Option<String>, ParseError>)
    ensures
        r == text_field(field_of(*table, key@)),
{
    let k = key.to_owned();
    match get_field(table, &k) {
        None => Ok(None),
        Some(TomlValue::Str(s)) => Ok(Some(s.clone())),
        Some(_) => Err(ParseError::WrongType),
    }
}

/// Reads the optional string-array field `key` of `table`.
pub fn read_text_list(table: &TomlValue, key: &str) -> (r: Result<Option<Vec<String>>, ParseError>)
    ensures
        match r {
            Ok(l) => text_list(field_of(*table, key@)) == Ok::<Option<Seq<String>>, ParseError>(list_view(l)),
            Err(e) => text_list(field_of(*table, key@)) == Err::<Option<Seq<String>>, ParseError>(e),
        },
{
    let k = key.to_owned();
    match get_field(table, &k) {
        None => Ok(None),
        Some(TomlValue::Array(items)) => {
            let ghost spec_items = items@.map_values(|x: TomlValue| x->Str_0);
            let mut out: Vec<String> = Vec::new();
            let n = items.len();
            let mut i: usize = 0;
            while i < n
                invariant
                    i <= n,
                    n == items@.len(),
                    field_of(*table, key@) == Some(TomlValue::Array(*items)),
                    out@.len() == i,
                    forall|j: int| 0 <= j < i ==> (#[trigger] items@[j]) is Str,
                    forall|j: int| 0 <= j < i ==> out@[j] == #[trigger] spec_items[j],
                    spec_items == items@.map_values(|x: TomlValue| x->Str_0),
                decreases n - i,
            {
                match &items[i] {
                    TomlValue::Str(s) => {
                        out.push(s.clone());
                    },
                    _ => {
                        assert(!(items@[i as int] is Str));
                        return Err(ParseError::WrongType);
                    },
                }
                i = i + 1;
            }
            assert(out@ =~= spec_items);
            Ok(Some(out))
        },
        Some(_) => Err(ParseError::WrongType),
    }
}

/// Reads the optional `u32` field `key` of `table`.
pub fn read_count(table: &TomlValue, key: &str) -> (r: Result<Option<u32>, ParseError>)
    ensures
        r == count_field(field_of(*table, key@)),
{
    let k = key.to_owned();
    match get_field(table, &k) {
        None => Ok(None),
        Some(TomlValue::Int(i)) => {
            if 0 <= *i && *i <= 4294967295 {
                Ok(Some(*i as u32))
            } else {
                Err(ParseError::WrongType)
            }
        },
        Some(_) => Err(ParseError::WrongType),
    }
}

/// Reads the optional table field `key` of `table`.
pub fn read_table<'a>(table: &'a TomlValue, key: &str) -> (r: Result<Option<&'a TomlValue>, ParseError>)
    ensures
        match r {
            Ok(Some(t)) => table_field(field_of(*table, key@)) == Ok::<Option<TomlValue>, ParseError>(Some(*t)),
            Ok(None) => table_field(field_of(*table, key@)) == Ok::<Option<TomlValue>, ParseError>(None),
            Err(e) => table_field(field_of(*table, key@)) == Err::<Option<TomlValue>, ParseError>(e),
        },
{
    let k = key.to_owned();
    match get_field(table, &k) {
        None => Ok(None),
        Some(t) => {
            match t {
                TomlValue::Table(_) => Ok(Some(t)),
                _ => Err(ParseError::WrongType),
            }
        },
    }
}

// ---- reading the whole manifest ----

/// The first error met in an override table, its fields read in order.
pub open spec fn override_error(t: TomlValue) -> Option<ParseError> {
    either(error_of(text_list(field_of(t, "maintainers"@))),
    either(error_of(text_field(field_of(t, "pkgname"@))),
    either(error_of(text_field(field_of(t, "pkgver"@))),
    either(error_of(count_field(field_of(t, "pkgrel"@))),
    either(error_of(text_field(field_of(t, "pkgdesc"@))),
    error_of(text_field(field_of(t, "url"@))))))))
}

/// Whether `o` holds the fields of the override table `t`.
pub open spec fn override_holds(t: TomlValue, o: CargoPKGBUILDManifest) -> bool {
    &&& text_list(field_of(t, "maintainers"@)) == Ok::<_, ParseError>(list_view(o.maintainers))
    &&& text_field(field_of(t, "pkgname"@)) == Ok::<_, ParseError>(o.pkgname)
    &&& text_field(field_of(t, "pkgver"@)) == Ok::<_, ParseError>(o.pkgver)
    &&& count_field(field_of(t, "pkgrel"@)) == Ok::<_, ParseError>(o.pkgrel)
    &&& text_field(field_of(t, "pkgdesc"@)) == Ok::<_, ParseError>(o.pkgdesc)
    &&& text_field(field_of(t, "url"@)) == Ok::<_, ParseError>(o.url)
}

/// The first error met in `[package.metadata]` and the override table in it.
pub open spec fn metadata_error(p: TomlValue) -> Option<ParseError> {
    match table_field(field_of(p, "metadata"@)) {
        Err(e) => Some(e),
        Ok(None) => None,
        Ok(Some(m)) => match table_field(field_of(m, "archlinux_pkgbuild"@)) {
            Err(e) => Some(e),
            Ok(None) => None,
            Ok(Some(o)) => override_error(o),
        },
    }
}

/// Whether `md` holds `[package.metadata]` of the package table `p`.
pub open spec fn metadata_holds(p: TomlValue, md: Option<CargoMetadata>) -> bool {
    match md {
        None => table_field(field_of(p, "metadata"@)) == Ok::<_, ParseError>(None::<TomlValue>),
        Some(md) => {
            &&& table_field(field_of(p, "metadata"@)) matches Ok(Some(m))
            &&& match md.archlinux_pkgbuild {
                None => table_field(field_of(m, "archlinux_pkgbuild"@)) == Ok::<_, ParseError>(None::<TomlValue>),
                Some(o) => {
                    &&& table_field(field_of(m, "archlinux_pkgbuild"@)) matches Ok(Some(ot))
                    &&& override_holds(ot, o)
                },
            }
        },
    }
}

/// The first error met in a package table, its fields read in order.
pub open spec fn package_error(p: TomlValue) -> Option<ParseError> {
    either(error_of(required(text_field(field_of(p, "name"@)))),
    either(error_of(required(text_field(field_of(p, "version"@)))),
    either(error_of(required(text_field(field_of(p, "description"@)))),
    either(error_of(required(text_list(field_of(p, "authors"@)))),
    either(error_of(required(text_field(field_of(p, "license"@)))),
    either(error_of(required(text_field(field_of(p, "readme"@)))),
    either(error_of(text_field(field_of(p, "homepage"@))),
    either(error_of(text_field(field_of(p, "documentation"@))),
    either(error_of(text_field(field_of(p, "repository"@))),
    either(error_of(text_list(field_of(p, "keywords"@))),
    metadata_error(p)))))))))))
}

/// Whether `pkg` holds the fields of the package table `p`.
pub open spec fn package_holds(p: TomlValue, pkg: CargoPackage) -> bool {
    &&& text_field(field_of(p, "name"@)) == Ok::<_, ParseError>(Some(pkg.name))
    &&& text_field(field_of(p, "version"@)) == Ok::<_, ParseError>(Some(pkg.version))
    &&& text_field(field_of(p, "description"@)) == Ok::<_, ParseError>(Some(pkg.description))
    &&& text_list(field_of(p, "authors"@)) == Ok::<_, ParseError>(Some(pkg.authors@))
    &&& text_field(field_of(p, "license"@)) == Ok::<_, ParseError>(Some(pkg.license))
    &&& text_field(field_of(p, "readme"@)) == Ok::<_, ParseError>(Some(pkg.readme))
    &&& text_field(field_of(p, "homepage"@)) == Ok::<_, ParseError>(pkg.homepage)
    &&& text_field(field_of(p, "documentation"@)) == Ok::<_, ParseError>(pkg.documentation)
    &&& text_field(field_of(p, "repository"@)) == Ok::<_, ParseError>(pkg.repository)
    &&& text_list(field_of(p, "keywords"@)) == Ok::<_, ParseError>(list_view(pkg.keywords))
    &&& metadata_holds(p, pkg.metadata)
}

/// The first error met in a manifest document, if any.
pub open spec fn manifest_error(doc: TomlValue) -> Option<ParseError> {
    match table_field(field_of(doc, "package"@)) {
        Err(e) => Some(e),
        Ok(None) => Some(ParseError::MissingField),
        Ok(Some(p)) => package_error(p),
    }
}

/// Whether `m` holds the manifest document `doc`.
pub open spec fn manifest_holds(doc: TomlValue, m: CargoManifest) -> bool {
    &&& table_field(field_of(doc, "package"@)) matches Ok(Some(p))
    &&& package_holds(p, m.package)
}

/// Whether `r` is what reading the manifest document `doc` gives: the
/// manifest that it holds where it has no error, else its first error.
pub open spec fn read_from(doc: TomlValue, r: Result<CargoManifest, ParseError>) -> bool {
    match r {
        Ok(m) => manifest_error(doc) is None && manifest_holds(doc, m),
        Err(e) => manifest_error(doc) == Some(e),
    }
}

fn read_override(t: &TomlValue) -> (r: Result<CargoPKGBUILDManifest, ParseError>)
    ensures
        match r {
            Ok(o) => override_error(*t) is None && override_holds(*t, o),
            Err(e) => override_error(*t) == Some(e),
        },
{
    let maintainers = read_text_list(t, "maintainers")?;
    let pkgname = read_text(t, "pkgname")?;
    let pkgver = read_text(t, "pkgver")?;
    let pkgrel = read_count(t, "pkgrel")?;
    let pkgdesc = read_text(t, "pkgdesc")?;
    let url = read_text(t, "url")?;
    Ok(CargoPKGBUILDManifest { maintainers, pkgname, pkgver, pkgrel, pkgdesc, url })
}

fn read_metadata(p: &TomlValue) -> (r: Result<Option<CargoMetadata>, ParseError>)
    ensures
        match r {
            Ok(md) => metadata_error(*p) is None && metadata_holds(*p, md),
            Err(e) => metadata_error(*p) == Some(e),
        },
{
    match read_table(p, "metadata")? {
        None => Ok(None),
        Some(m) => {
            let archlinux_pkgbuild = match read_table(m, "archlinux_pkgbuild")? {
                None => None,
                Some(t) => Some(read_override(t)?),
            };
            Ok(Some(CargoMetadata { archlinux_pkgbuild }))
        },
    }
}

/// A field that must be present.
fn present<T>(r: Result<Option<T>, ParseError>) -> (out: Result<T, ParseError>)
    ensures
        out == required(r),
{
    match r {
        Ok(Some(x)) => Ok(x),
        Ok(None) => Err(ParseError::MissingField),
        Err(e) => Err(e),
    }
}

fn read_package(p: &TomlValue) -> (r: Result<CargoPackage, ParseError>)
    ensures
        match r {
            Ok(pkg) => package_error(*p) is None && package_holds(*p, pkg),
            Err(e) => package_error(*p) == Some(e),
        },
{
    let name = present(read_text(p, "name"))?;
    let version = present(read_text(p, "version"))?;
    let description = present(read_text(p, "description"))?;
    let authors = match read_text_list(p, "authors")? {
        Some(a) => a,
        None => {
            return Err(ParseError::MissingField);
        },
    };
    let license = present(read_text(p, "license"))?;
    let readme = present(read_text(p, "readme"))?;
    let homepage = read_text(p, "homepage")?;
    let documentation = read_text(p, "documentation")?;
    let repository = read_text(p, "repository")?;
    let keywords = read_text_list(p, "keywords")?;
    let metadata = read_metadata(p)?;
    Ok(CargoPackage {
        name,
        version,
        description,
        authors,
        license,
        readme,
        homepage,
        documentation,
        repository,
        keywords,
        metadata,
    })
}

impl CargoManifest {
    /// Reads a manifest from a parsed TOML document.
    pub fn from_document(doc: &TomlValue) -> (r: Result<CargoManifest, ParseError>)
        ensures
            read_from(*doc, r),
    {
        match read_table(doc, "package")? {
            None => Err(ParseError::MissingField),
            Some(p) => {
                let package = read_package(p)?;
                Ok(CargoManifest { package })
            },
        }
    }

    /// Reads a manifest from the text of a Cargo.toml.
    pub fn from_str(contents: &str) -> (r: Result<CargoManifest, ParseError>)
        ensures
            match toml_document(contents@) {
                None => r == Err::<CargoManifest, ParseError>(ParseError::Syntax),
                Some(doc) => read_from(doc, r),
            },
    {
        match parse_document(contents) {
            None => Err(ParseError::Syntax),
            Some(doc) => CargoManifest::from_document(&doc),
        }
    }
}

} // verus!
