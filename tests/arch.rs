use cargo_arch::arch::{decimal_string, CargoPKGBUILDManifest, PKGBUILDConfig};
use cargo_arch::manifest::{
    CargoManifest, CargoMetadata, CargoPackage, GeneratePackageConfig, PopulateFromCargoManifest,
};

fn package(homepage: Option<&str>, repository: Option<&str>, metadata: Option<CargoMetadata>) -> CargoPackage {
    CargoPackage {
        name: "Test".to_string(),
        version: "test".to_string(),
        description: "test description".to_string(),
        authors: vec!["foobar".to_string(), "foobaz".to_string()],
        license: "BSD".to_string(),
        readme: "README.md".to_string(),
        homepage: homepage.map(|s| s.to_string()),
        documentation: None,
        repository: repository.map(|s| s.to_string()),
        keywords: None,
        metadata,
    }
}

fn with_overrides(o: CargoPKGBUILDManifest) -> Option<CargoMetadata> {
    Some(CargoMetadata { archlinux_pkgbuild: Some(o) })
}

#[test]
fn test_from_cargo_manifest() {
    let manifest = CargoManifest {
        package: CargoPackage {
            name: "Test".to_string(),
            version: "test".to_string(),
            description: "test description".to_string(),
            authors: vec!["foobar".to_string(), "foobaz".to_string()],
            license: "BSD".to_string(),
            readme: "README.md".to_string(),
            homepage: None,
            documentation: None,
            repository: None,
            keywords: None,
            metadata: None,
        }
    };
    let pkgbuild = PKGBUILDConfig::from_cargo_manifest(manifest);
    assert_eq!(pkgbuild.maintainers,
               vec!["foobar".to_string(), "foobaz".to_string()]);
    assert_eq!(pkgbuild.pkgname, "Test".to_string());
    assert_eq!(pkgbuild.pkgver, "test".to_string());
    assert_eq!(pkgbuild.pkgrel, 1);
    assert_eq!(pkgbuild.pkgdesc, "test description".to_string());
    assert_eq!(pkgbuild.url, "".to_string());
}

#[test]
fn test_generate_config() {
    let pkgbuild_config = PKGBUILDConfig {
        maintainers: vec!["foobar".to_string(), "foobaz".to_string()],
        pkgname: "Test".to_string(),
        pkgver: "1.0".to_string(),
        pkgrel: 5,
        pkgdesc: "Test package".to_string(),
        url: "test.com".to_string(),
    };
    let expected_result = r#"# Maintainer: foobar
# Maintainer: foobaz
pkgname=Test
pkgver=1.0
pkgrel=5
pkgdesc="Test package"
url="test.com""#.to_string();
    assert_eq!(pkgbuild_config.generate_config(), expected_result);
}

#[test]
fn every_override_wins() {
    let o = CargoPKGBUILDManifest {
        maintainers: Some(vec!["packager".to_string()]),
        pkgname: Some("test-bin".to_string()),
        pkgver: Some("2.0".to_string()),
        pkgrel: Some(3),
        pkgdesc: Some("other".to_string()),
        url: Some("example.org".to_string()),
    };
    let manifest = CargoManifest { package: package(Some("home"), Some("repo"), with_overrides(o)) };
    let c = PKGBUILDConfig::from_cargo_manifest(manifest);
    assert_eq!(c.maintainers, vec!["packager".to_string()]);
    assert_eq!(c.pkgname, "test-bin");
    assert_eq!(c.pkgver, "2.0");
    assert_eq!(c.pkgrel, 3);
    assert_eq!(c.pkgdesc, "other");
    assert_eq!(c.url, "example.org");
}

#[test]
fn only_release_number_overridden() {
    let o = CargoPKGBUILDManifest { pkgrel: Some(7), ..CargoPKGBUILDManifest::default() };
    let manifest = CargoManifest { package: package(None, None, with_overrides(o)) };
    let c = PKGBUILDConfig::from_cargo_manifest(manifest);
    assert_eq!(c.maintainers, vec!["foobar".to_string(), "foobaz".to_string()]);
    assert_eq!(c.pkgname, "Test");
    assert_eq!(c.pkgver, "test");
    assert_eq!(c.pkgrel, 7);
    assert_eq!(c.pkgdesc, "test description");
    assert_eq!(c.url, "");
}

#[test]
fn empty_override_block_defaults_release_number() {
    let manifest = CargoManifest {
        package: package(None, None, with_overrides(CargoPKGBUILDManifest::default())),
    };
    assert_eq!(PKGBUILDConfig::from_cargo_manifest(manifest).pkgrel, 1);
    let manifest = CargoManifest {
        package: package(None, None, Some(CargoMetadata::default())),
    };
    assert_eq!(PKGBUILDConfig::from_cargo_manifest(manifest).pkgrel, 1);
}

#[test]
fn url_falls_back_in_order() {
    let url_override = CargoPKGBUILDManifest { url: Some("over".to_string()), ..CargoPKGBUILDManifest::default() };
    let m = CargoManifest { package: package(Some("home"), Some("repo"), with_overrides(url_override)) };
    assert_eq!(PKGBUILDConfig::from_cargo_manifest(m).url, "over");
    let m = CargoManifest { package: package(Some("home"), Some("repo"), None) };
    assert_eq!(PKGBUILDConfig::from_cargo_manifest(m).url, "home");
    let m = CargoManifest { package: package(None, Some("repo"), None) };
    assert_eq!(PKGBUILDConfig::from_cargo_manifest(m).url, "repo");
    let m = CargoManifest { package: package(None, None, None) };
    assert_eq!(PKGBUILDConfig::from_cargo_manifest(m).url, "");
}

#[test]
fn rendering_twice_gives_same_text() {
    let c = PKGBUILDConfig {
        maintainers: vec![],
        pkgname: "a".to_string(),
        pkgver: "0.1".to_string(),
        pkgrel: 0,
        pkgdesc: "say \"hi\"".to_string(),
        url: "".to_string(),
    };
    let first = c.generate_config();
    let second = c.generate_config();
    assert_eq!(first, second);
    assert_eq!(first, "pkgname=a\npkgver=0.1\npkgrel=0\npkgdesc=\"say \"hi\"\"\nurl=\"\"");
}

#[test]
fn release_number_in_decimal() {
    assert_eq!(decimal_string(0), "0");
    assert_eq!(decimal_string(10), "10");
    assert_eq!(decimal_string(4294967295), "4294967295");
    let c = PKGBUILDConfig {
        maintainers: vec!["m".to_string()],
        pkgname: "a".to_string(),
        pkgver: "1.2.3".to_string(),
        pkgrel: 120,
        pkgdesc: "".to_string(),
        url: "".to_string(),
    };
    assert_eq!(c.version_dir_name(), "1.2.3-120");
    assert_eq!(c.generate_config(), "# Maintainer: m\npkgname=a\npkgver=1.2.3\npkgrel=120\npkgdesc=\"\"\nurl=\"\"");
}
