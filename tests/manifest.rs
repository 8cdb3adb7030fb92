use cargo_cmd::{
    parse_document, CargoToml, ErrorKind, GetCommands, ManifestValue, Metadata, Outline, Package,
    WorkspaceSection,
};

fn s(x: &str) -> String {
    x.to_string()
}

fn pair(a: &str, b: &str) -> (String, String) {
    (s(a), s(b))
}

const BUILD_PACKAGE: &str = "[package]\nname = \"a\"\n\n[package.metadata.commands]\nbuild = \"echo hi\"\n";

const TEST_MEMBER: &str = "[package]\nname = \"m\"\n\n[package.metadata.commands]\ntest = \"echo test\"\n";

#[test]
fn single_package_scenario() {
    let outline = Outline::from_text("Cargo.toml", BUILD_PACKAGE).unwrap();
    let m = CargoToml::from_outline(outline, vec![]);
    assert_eq!(m.get_commands("build"), Ok(vec![pair("build", "echo hi")]));
}

#[test]
fn workspace_members_scenario() {
    let text = "[workspace]\nmembers = [\"crates/*\"]\n";
    let outline = Outline::from_text("Cargo.toml", text).unwrap();
    let section = match &outline {
        Outline::VirtualManifest { workspace, .. } => workspace.clone(),
        other => panic!("not a virtual manifest: {:?}", other),
    };
    assert_eq!(section.members, vec![s("crates/*")]);
    assert!(section.exclude.is_empty());
    let a = Package::from_member("crates/a/Cargo.toml", TEST_MEMBER).unwrap();
    let b = Package::from_member("crates/b/Cargo.toml", TEST_MEMBER).unwrap();
    let m = CargoToml::from_outline(outline, vec![a, b]);
    assert_eq!(m.get_commands("test"), Ok(vec![pair("test", "echo test"), pair("test", "echo test")]));
}

#[test]
fn neither_package_nor_workspace_scenario() {
    let e = Outline::from_text("Cargo.toml", "[dependencies]\nserde = \"1\"\n").unwrap_err();
    assert_eq!(e.kind, ErrorKind::MalformedManifest(s("Cargo.toml")));
    assert_eq!(e.message, "Manifest contains neither package nor workspace");
}

#[test]
fn virtual_member_scenario() {
    let e = Package::from_member("crates/a/Cargo.toml", "[workspace]\nmembers = []\n").unwrap_err();
    assert_eq!(e.kind, ErrorKind::MalformedManifest(s("Only package members are currently supported")));
}

#[test]
fn root_package_member_is_rejected() {
    let text = "[package]\nname = \"r\"\n[workspace]\nmembers = []\n";
    let e = Package::from_member("crates/a/Cargo.toml", text).unwrap_err();
    assert_eq!(e.kind, ErrorKind::MalformedManifest(s("Only package members are currently supported")));
}

#[test]
fn classification_is_repeatable() {
    let text = "[package]\nname = \"r\"\n[package.metadata.commands]\nx = \"1\"\n[workspace]\nmembers = [\"a\", \"b\"]\nexclude = [\"b\"]\n";
    let first = Outline::from_text("Cargo.toml", text);
    let second = Outline::from_text("Cargo.toml", text);
    assert!(first.is_ok());
    assert_eq!(first, second);
}

#[test]
fn root_package_runs_its_own_triple_first() {
    let text = "[package]\nname = \"r\"\n[package.metadata.commands]\nprex = \"own-pre\"\nx = \"own\"\npostx = \"own-post\"\n\
                [workspace]\nmembers = [\"m\"]\n[workspace.metadata.commands]\nprex = \"ws-pre\"\nx = \"ws\"\npostx = \"ws-post\"\n";
    let outline = Outline::from_text("Cargo.toml", text).unwrap();
    assert!(matches!(outline, Outline::RootPackage { .. }));
    let member = Package::from_member("m/Cargo.toml", "[package]\n[package.metadata.commands]\nx = \"m\"\n").unwrap();
    let m = CargoToml::from_outline(outline, vec![member]);
    assert_eq!(
        m.get_commands("x"),
        Ok(vec![
            pair("prex", "own-pre"),
            pair("x", "own"),
            pair("postx", "own-post"),
            pair("prex", "ws-pre"),
            pair("x", "ws"),
            pair("postx", "ws-post"),
            pair("x", "m"),
        ])
    );
}

#[test]
fn root_package_without_command_anywhere_is_missing() {
    let text = "[package]\nname = \"r\"\n[workspace]\nmembers = []\n";
    let m = CargoToml::from_outline(Outline::from_text("Cargo.toml", text).unwrap(), vec![]);
    assert_eq!(m.get_commands("x").unwrap_err().kind, ErrorKind::MissingCommand(s("x")));
}

#[test]
fn root_package_missing_command_is_absorbed_when_workspace_has_it() {
    let text = "[package]\nname = \"r\"\n[workspace]\nmembers = []\n[workspace.metadata.commands]\nx = \"w\"\n";
    let m = CargoToml::from_outline(Outline::from_text("Cargo.toml", text).unwrap(), vec![]);
    assert_eq!(m.get_commands("x"), Ok(vec![pair("x", "w")]));
}

#[test]
fn virtual_manifest_without_command_anywhere_is_missing() {
    let outline = Outline::from_text("Cargo.toml", "[workspace]\nmembers = [\"a\"]\n").unwrap();
    let member = Package::from_member("a/Cargo.toml", "[package]\nname = \"a\"\n").unwrap();
    let m = CargoToml::from_outline(outline, vec![member]);
    assert_eq!(m.get_commands("x").unwrap_err().kind, ErrorKind::MissingCommand(s("x")));
}

#[test]
fn workspace_skips_members_without_command() {
    let w = cargo_cmd::Workspace {
        members: vec![
            Package { metadata: Metadata { commands: vec![pair("y", "1")] } },
            Package { metadata: Metadata { commands: vec![pair("x", "2"), pair("postx", "3")] } },
        ],
        metadata: Metadata::new(),
    };
    assert_eq!(w.get_commands("x"), Ok(vec![pair("x", "2"), pair("postx", "3")]));
    assert_eq!(w.get_commands("z"), Ok(vec![]));
}

#[test]
fn package_alone_keeps_no_members() {
    let outline = Outline::from_text("Cargo.toml", BUILD_PACKAGE).unwrap();
    let extra = Package::from_member("m/Cargo.toml", TEST_MEMBER).unwrap();
    let m = CargoToml::from_outline(outline, vec![extra]);
    match &m {
        CargoToml::Package { path, package } => {
            assert_eq!(path, "Cargo.toml");
            assert_eq!(package.metadata.commands, vec![pair("build", "echo hi")]);
        },
        other => panic!("not a package: {:?}", other),
    }
    assert_eq!(m.get_commands("test").unwrap_err().kind, ErrorKind::MissingCommand(s("test")));
}

#[test]
fn package_without_metadata_has_no_commands() {
    let outline = Outline::from_text("Cargo.toml", "[package]\nname = \"a\"\n").unwrap();
    assert_eq!(
        outline,
        Outline::Package { path: s("Cargo.toml"), package: Package { metadata: Metadata::new() } }
    );
}

#[test]
fn text_that_is_no_toml_is_a_parse_error() {
    let e = Outline::from_text("x/Cargo.toml", "[package\n").unwrap_err();
    assert!(matches!(e.kind, ErrorKind::ParseError(_)));
    assert_eq!(e.message, "Failed to parse \"x/Cargo.toml\"");
}

#[test]
fn parsed_document_holds_the_tables() {
    let doc = parse_document("Cargo.toml", "a = \"b\"\nn = 3\nt = true\nf = 1.5\n[c]\nd = [\"e\"]\n").unwrap();
    assert_eq!(doc.get("a"), Some(&ManifestValue::String(s("b"))));
    assert_eq!(doc.get("n"), Some(&ManifestValue::Integer(3)));
    assert_eq!(doc.get("t"), Some(&ManifestValue::Boolean(true)));
    assert_eq!(doc.get("f"), Some(&ManifestValue::Float));
    let c = doc.get("c").unwrap();
    assert!(c.is_table());
    assert_eq!(c.get("d").unwrap().as_strings(), Some(vec![s("e")]));
    assert_eq!(doc.get("z"), None);
}

#[test]
fn top_level_that_is_no_table_is_malformed() {
    let e = Outline::from_document("Cargo.toml", &ManifestValue::Integer(1)).unwrap_err();
    assert_eq!(e.kind, ErrorKind::MalformedManifest(s("Cargo.toml")));
    assert_eq!(e.message, "Manifest is not a table");
}

#[test]
fn package_that_is_no_table_is_malformed() {
    let e = Outline::from_text("Cargo.toml", "package = 3\n").unwrap_err();
    assert_eq!(e.kind, ErrorKind::MalformedManifest(s("Package is not a table")));
}

#[test]
fn workspace_that_is_no_table_is_malformed() {
    let e = Outline::from_text("Cargo.toml", "workspace = \"x\"\n").unwrap_err();
    assert_eq!(e.kind, ErrorKind::MalformedManifest(s("Workspace is not a table")));
    assert_eq!(e.message, "Failed to convert workspace");
}

#[test]
fn workspace_without_members_is_malformed() {
    let e = Outline::from_text("Cargo.toml", "[workspace]\nexclude = []\n").unwrap_err();
    assert_eq!(e.kind, ErrorKind::MalformedManifest(s("Workspace does not contain members")));
}

#[test]
fn workspace_members_of_other_types_are_malformed() {
    let e = Outline::from_text("Cargo.toml", "[workspace]\nmembers = [1]\n").unwrap_err();
    assert_eq!(e.kind, ErrorKind::MalformedManifest(s("Workspace members are not an array of strings")));
    let e = Outline::from_text("Cargo.toml", "[workspace]\nmembers = \"a\"\n").unwrap_err();
    assert_eq!(e.kind, ErrorKind::MalformedManifest(s("Workspace members are not an array of strings")));
}

#[test]
fn workspace_excludes_of_other_types_are_malformed() {
    let e = Outline::from_text("Cargo.toml", "[workspace]\nmembers = []\nexclude = [true]\n").unwrap_err();
    assert_eq!(e.kind, ErrorKind::MalformedManifest(s("Workspace excludes are not an array of strings")));
}

#[test]
fn workspace_metadata_error_comes_first() {
    let text = "[workspace]\n[workspace.metadata]\ncommands = 3\n";
    let e = Outline::from_text("Cargo.toml", text).unwrap_err();
    assert_eq!(e.kind, ErrorKind::MalformedManifest(s("Commands are not a table of strings")));
    assert_eq!(e.message, "Failed to convert metadata");
}

#[test]
fn command_that_is_no_string_is_malformed() {
    let text = "[package]\n[package.metadata.commands]\nbuild = 1\n";
    let e = Outline::from_text("Cargo.toml", text).unwrap_err();
    assert_eq!(e.kind, ErrorKind::MalformedManifest(s("Commands are not a table of strings")));
}

#[test]
fn package_error_comes_before_workspace_error() {
    let e = Outline::from_text("Cargo.toml", "package = 1\nworkspace = 2\n").unwrap_err();
    assert_eq!(e.kind, ErrorKind::MalformedManifest(s("Package is not a table")));
}

#[test]
fn workspace_section_reads_patterns_and_excludes() {
    let doc = parse_document("Cargo.toml", "members = [\"a/*\", \"b\"]\nexclude = [\"a/x\"]\n").unwrap();
    let section = WorkspaceSection::from_value(&doc).unwrap();
    assert_eq!(
        section,
        WorkspaceSection { members: vec![s("a/*"), s("b")], exclude: vec![s("a/x")], metadata: Metadata::new() }
    );
}

#[test]
fn metadata_without_commands_is_empty() {
    let doc = parse_document("Cargo.toml", "other = 1\n").unwrap();
    assert_eq!(Metadata::from_value(&doc), Ok(Metadata::new()));
    assert_eq!(Metadata::of_section(&doc), Ok(Metadata::new()));
}
