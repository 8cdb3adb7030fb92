use vstd::prelude::*;
use vstd::string::*;

use crate::commands::{
    commands_for, commands_or_none, pairs_view, section_commands, package_commands, table_commands,
    CommandsView, GetCommands, Metadata, Package, TableView,
};
use crate::document::{lookup, parse_toml, string_items, toml_parsed, ManifestValue};
use crate::error::{malformed, missing_command, outcome_is, quote, Error, ErrorKind, ErrorView, KindView};
use crate::paths::texts;

verus! {

/// A `workspace` section before its members are loaded, as text.
pub struct SectionView {
    pub patterns: Seq<Seq<char>>,
    pub excludes: Seq<Seq<char>>,
    pub commands: TableView,
}

/// A workspace with its members loaded, as text.
pub struct WorkspaceView {
    pub members: Seq<TableView>,
    pub commands: TableView,
}

/// A manifest whose workspace members are not loaded yet, as text.
pub enum OutlineView {
    Package { path: Seq<char>, package: TableView },
    RootPackage { path: Seq<char>, package: TableView, workspace: SectionView },
    VirtualManifest { path: Seq<char>, workspace: SectionView },
}

/// A classified manifest, as text.
pub enum CargoView {
    Package { path: Seq<char>, package: TableView },
    RootPackage { path: Seq<char>, package: TableView, workspace: WorkspaceView },
    VirtualManifest { path: Seq<char>, workspace: WorkspaceView },
}

/// A `workspace` section: the glob patterns of its members, the paths it
/// leaves out, and its own commands.
#[derive(Debug, PartialEq, Eq, Clone)]
pub struct WorkspaceSection {
    pub members: Vec<String>,
    pub exclude: Vec<String>,
    pub metadata: Metadata,
}

impl View for WorkspaceSection {
    type V = SectionView;

    open spec fn view(&self) -> SectionView {
        SectionView { patterns: texts(self.members@), excludes: texts(self.exclude@), commands: self.metadata@ }
    }
}

/// A workspace: its member packages, in the order they were found, and its
/// own commands.
#[derive(Debug, PartialEq, Eq, Clone)]
pub struct Workspace {
    pub members: Vec<Package>,
    pub metadata: Metadata,
}

/// The command table of each package.
pub open spec fn tables(members: Seq<Package>) -> Seq<TableView> {
    members.map_values(|p: Package| p@)
}

impl View for Workspace {
    type V = WorkspaceView;

    open spec fn view(&self) -> WorkspaceView {
        WorkspaceView { members: tables(self.members@), commands: self.metadata@ }
    }
}

/// A manifest read from `path` whose workspace members, if it has any, are
/// not loaded yet.
#[derive(Debug, PartialEq, Eq, Clone)]
pub enum Outline {
    Package { path: String, package: Package },
    RootPackage { path: String, package: Package, workspace: WorkspaceSection },
    VirtualManifest { path: String, workspace: WorkspaceSection },
}

impl View for Outline {
    type V = OutlineView;

    open spec fn view(&self) -> OutlineView {
        match self {
            Outline::Package { path, package } => OutlineView::Package { path: path@, package: package@ },
            Outline::RootPackage { path, package, workspace } => OutlineView::RootPackage {
                path: path@,
                package: package@,
                workspace: workspace@,
            },
            Outline::VirtualManifest { path, workspace } => OutlineView::VirtualManifest {
                path: path@,
                workspace: workspace@,
            },
        }
    }
}

/// A classified manifest: a package alone, a package that is also the root of
/// a workspace, or a workspace alone.
#[derive(Debug, PartialEq, Eq, Clone)]
pub enum CargoToml {
    Package { path: String, package: Package },
    RootPackage { path: String, package: Package, workspace: Workspace },
    VirtualManifest { path: String, workspace: Workspace },
}

impl View for CargoToml {
    type V = CargoView;

    open spec fn view(&self) -> CargoView {
        match self {
            CargoToml::Package { path, package } => CargoView::Package { path: path@, package: package@ },
            CargoToml::RootPackage { path, package, workspace } => CargoView::RootPackage {
                path: path@,
                package: package@,
                workspace: workspace@,
            },
            CargoToml::VirtualManifest { path, workspace } => CargoView::VirtualManifest {
                path: path@,
                workspace: workspace@,
            },
        }
    }
}

/// The error for a manifest whose text is no TOML.
pub open spec fn parse_failure(path: Seq<char>, diagnostic: Seq<char>) -> ErrorView {
    ErrorView { kind: KindView::Parse(diagnostic), message: "Failed to parse "@ + quote() + path + quote() }
}

/// The document that the manifest text at `path` holds.
pub open spec fn parsed(path: Seq<char>, text: Seq<char>) -> Result<ManifestValue, ErrorView> {
    match toml_parsed(text) {
        Ok(d) => Ok(d),
        Err(m) => Err(parse_failure(path, m)),
    }
}

/// The workspace error with detail `detail`.
pub open spec fn bad_workspace(detail: Seq<char>) -> ErrorView {
    malformed(detail, "Failed to convert workspace"@)
}

/// The paths a `workspace` section leaves out: none where it has no `exclude`.
pub open spec fn section_excludes(section: ManifestValue) -> Option<Seq<Seq<char>>> {
    match lookup(section, "exclude"@) {
        None => Some(Seq::empty()),
        Some(x) => string_items(x),
    }
}

/// A `workspace` section: a table with a `members` array of patterns, an
/// optional `exclude` array of paths and optional metadata. Errors in the
/// metadata come first.
pub open spec fn workspace_section(section: ManifestValue) -> Result<SectionView, ErrorView> {
    if !(section is Table) {
        Err(bad_workspace("Workspace is not a table"@))
    } else {
        match section_commands(section) {
            Err(e) => Err(e),
            Ok(commands) => match lookup(section, "members"@) {
                None => Err(bad_workspace("Workspace does not contain members"@)),
                Some(m) => match string_items(m) {
                    None => Err(bad_workspace("Workspace members are not an array of strings"@)),
                    Some(patterns) => match section_excludes(section) {
                        None => Err(bad_workspace("Workspace excludes are not an array of strings"@)),
                        Some(excludes) => Ok(SectionView { patterns, excludes, commands }),
                    },
                },
            },
        }
    }
}

/// The classification of the document read from `path`: by whether it has
/// a `package` section, a `workspace` section, or both. Errors in the
/// `package` section come before those in the `workspace` section.
pub open spec fn outline(path: Seq<char>, doc: ManifestValue) -> Result<OutlineView, ErrorView> {
    if !(doc is Table) {
        Err(malformed(path, "Manifest is not a table"@))
    } else {
        let package = match lookup(doc, "package"@) {
            Some(p) => Some(package_commands(p)),
            None => None,
        };
        match package {
            Some(Err(e)) => Err(e),
            _ => match lookup(doc, "workspace"@) {
                Some(w) => match workspace_section(w) {
                    Err(e) => Err(e),
                    Ok(workspace) => match package {
                        Some(Ok(package)) => Ok(OutlineView::RootPackage { path, package, workspace }),
                        _ => Ok(OutlineView::VirtualManifest { path, workspace }),
                    },
                },
                None => match package {
                    Some(Ok(package)) => Ok(OutlineView::Package { path, package }),
                    _ => Err(malformed(path, "Manifest contains neither package nor workspace"@)),
                },
            },
        }
    }
}

/// The classification of the manifest text read from `path`.
pub open spec fn outline_of_text(path: Seq<char>, text: Seq<char>) -> Result<OutlineView, ErrorView> {
    match parsed(path, text) {
        Err(e) => Err(e),
        Ok(doc) => outline(path, doc),
    }
}

/// The error for a workspace member that is not a plain package.
pub open spec fn not_a_package_member() -> ErrorView {
    bad_workspace("Only package members are currently supported"@)
}

/// The package that the manifest text of a workspace member describes: it
/// must be a package alone.
pub open spec fn member(path: Seq<char>, text: Seq<char>) -> Result<TableView, ErrorView> {
    match outline_of_text(path, text) {
        Err(e) => Err(e),
        Ok(OutlineView::Package { package, .. }) => Ok(package),
        Ok(_) => Err(not_a_package_member()),
    }
}

/// A manifest with its members loaded: `members` become the members of its
/// workspace, in order; a package alone has none.
pub open spec fn assembled(o: OutlineView, members: Seq<TableView>) -> CargoView {
    match o {
        OutlineView::Package { path, package } => CargoView::Package { path, package },
        OutlineView::RootPackage { path, package, workspace } => CargoView::RootPackage {
            path,
            package,
            workspace: WorkspaceView { members, commands: workspace.commands },
        },
        OutlineView::VirtualManifest { path, workspace } => CargoView::VirtualManifest {
            path,
            workspace: WorkspaceView { members, commands: workspace.commands },
        },
    }
}

/// What the members run for `command`, member after member; a member that
/// does not declare it runs nothing.
pub open spec fn members_commands(members: Seq<TableView>, command: Seq<char>) -> CommandsView
    decreases members.len(),
{
    if members.len() == 0 {
        Seq::empty()
    } else {
        members_commands(members.drop_last(), command) + commands_or_none(members.last(), command)
    }
}

/// What a workspace runs for `command`: its own commands, then those of each
/// member in order; a scope that does not declare it runs nothing.
pub open spec fn workspace_commands(w: WorkspaceView, command: Seq<char>) -> CommandsView {
    commands_or_none(w.commands, command) + members_commands(w.members, command)
}

/// The commands, or the `MissingCommand` error where there are none.
pub open spec fn some_or_missing(c: CommandsView, command: Seq<char>) -> Result<CommandsView, ErrorView> {
    if c.len() == 0 {
        Err(missing_command(command))
    } else {
        Ok(c)
    }
}

/// What a classified manifest runs for `command`: a package alone must declare
/// it; a root package runs its own commands then the workspace's; a workspace
/// fails only where no scope in it declares the command.
pub open spec fn cargo_commands(m: CargoView, command: Seq<char>) -> Result<CommandsView, ErrorView> {
    match m {
        CargoView::Package { package, .. } => table_commands(package, command),
        CargoView::RootPackage { package, workspace, .. } => some_or_missing(
            commands_or_none(package, command) + workspace_commands(workspace, command),
            command,
        ),
        CargoView::VirtualManifest { workspace, .. } => some_or_missing(workspace_commands(workspace, command), command),
    }
}

/// Parses the manifest text read from `path` into a document; fails with
/// `ParseError`, with the parser's diagnostic, on text that is no TOML.
pub fn parse_document(path: &str, text: &str) -> (r: Result<ManifestValue, Error>)
    ensures
        match r {
            Ok(d) => parsed(path@, text@) == Ok::<ManifestValue, ErrorView>(d),
            Err(e) => parsed(path@, text@) == Err::<ManifestValue, ErrorView>(e@),
        },
{
    match parse_toml(text) {
        Ok(d) => Ok(d),
        Err(diagnostic) => {
            let mut message = String::from_str("Failed to parse \"");
            message.append(path);
            message.append("\"");
            proof {
                reveal_strlit("Failed to parse \"");
                reveal_strlit("Failed to parse ");
                reveal_strlit("\"");
                assert(message@ =~= parse_failure(path@, diagnostic@).message);
            }
            Err(Error { kind: ErrorKind::ParseError(diagnostic), message })
        },
    }
}

impl WorkspaceSection {
    /// Reads a `workspace` section: a table with a `members` array of glob
    /// patterns, an optional `exclude` array of paths and optional metadata.
    /// Fails with `MalformedManifest` where one of them has another shape;
    /// an error in the metadata comes first.
    pub fn from_value(section: &ManifestValue) -> (r: Result<WorkspaceSection, Error>)
        ensures
            outcome_is(r, workspace_section(*section)),
    {
        if !section.is_table() {
            return Err(Error::malformed("Workspace is not a table", "Failed to convert workspace"));
        }
        let metadata = Metadata::of_section(section)?;
        let members = match section.get("members") {
            None => return Err(Error::malformed("Workspace does not contain members", "Failed to convert workspace")),
            Some(m) => match m.as_strings() {
                None => return Err(
                    Error::malformed("Workspace members are not an array of strings", "Failed to convert workspace"),
                ),
                Some(patterns) => patterns,
            },
        };
        let exclude = match section.get("exclude") {
            None => Vec::new(),
            Some(x) => match x.as_strings() {
                None => return Err(
                    Error::malformed("Workspace excludes are not an array of strings", "Failed to convert workspace"),
                ),
                Some(paths) => paths,
            },
        };
        assert(texts(exclude@) =~= section_excludes(*section)->Some_0);
        Ok(WorkspaceSection { members, exclude, metadata })
    }
}

impl Outline {
    /// Classifies the document read from `path`: a package alone, a package
    /// that is also a workspace root, or a workspace alone. Fails with
    /// `MalformedManifest` where the document is no table, has neither a
    /// `package` nor a `workspace` section, or one of them is malformed.
    pub fn from_document(path: &str, doc: &ManifestValue) -> (r: Result<Outline, Error>)
        ensures
            outcome_is(r, outline(path@, *doc)),
    {
        if !doc.is_table() {
            return Err(Error::malformed(path, "Manifest is not a table"));
        }
        let package = match doc.get("package") {
            Some(p) => Some(Package::from_value(p)?),
            None => None,
        };
        match doc.get("workspace") {
            Some(w) => {
                let workspace = WorkspaceSection::from_value(w)?;
                match package {
                    Some(package) => Ok(Outline::RootPackage { path: path.to_owned(), package, workspace }),
                    None => Ok(Outline::VirtualManifest { path: path.to_owned(), workspace }),
                }
            },
            None => match package {
                Some(package) => Ok(Outline::Package { path: path.to_owned(), package }),
                None => Err(Error::malformed(path, "Manifest contains neither package nor workspace")),
            },
        }
    }

    /// Classifies the manifest text read from `path`.
    pub fn from_text(path: &str, text: &str) -> (r: Result<Outline, Error>)
        ensures
            outcome_is(r, outline_of_text(path@, text@)),
    {
        let doc = parse_document(path, text)?;
        Outline::from_document(path, &doc)
    }
}

impl Package {
    /// The package that the manifest text of a workspace member, read from
    /// `path`, describes. Fails with `MalformedManifest` where that manifest
    /// is itself a workspace.
    pub fn from_member(path: &str, text: &str) -> (r: Result<Package, Error>)
        ensures
            outcome_is(r, member(path@, text@)),
    {
        match Outline::from_text(path, text)? {
            Outline::Package { package, .. } => Ok(package),
            _ => Err(Error::malformed("Only package members are currently supported", "Failed to convert workspace")),
        }
    }
}

impl CargoToml {
    /// The manifest of `outline` with `members` as the members of its
    /// workspace, in order; a package alone keeps none of them.
    pub fn from_outline(outline: Outline, members: Vec<Package>) -> (r: CargoToml)
        ensures
            r@ == assembled(outline@, tables(members@)),
    {
        match outline {
            Outline::Package { path, package } => CargoToml::Package { path, package },
            Outline::RootPackage { path, package, workspace } => CargoToml::RootPackage {
                path,
                package,
                workspace: Workspace { members, metadata: workspace.metadata },
            },
            Outline::VirtualManifest { path, workspace } => CargoToml::VirtualManifest {
                path,
                workspace: Workspace { members, metadata: workspace.metadata },
            },
        }
    }
}

/// The text of two command lists one after the other.
proof fn lemma_pairs_concat(a: Seq<(String, String)>, b: Seq<(String, String)>)
    ensures
        pairs_view(a + b) == pairs_view(a) + pairs_view(b),
{
    assert(pairs_view(a + b) =~= pairs_view(a) + pairs_view(b));
}

/// What a table runs for `command`, where one that does not declare it runs
/// nothing.
fn commands_or_empty(metadata: &Metadata, command: &str) -> (r: Result<Vec<(String, String)>, Error>)
    ensures
        r matches Ok(v) && pairs_view(v@) == commands_or_none(metadata@, command@),
{
    match metadata.commands_for(command) {
        Ok(v) => Ok(v),
        Err(e) => match e.kind {
            ErrorKind::MissingCommand(_) => {
                let v: Vec<(String, String)> = Vec::new();
                assert(pairs_view(v@) =~= Seq::empty());
                Ok(v)
            },
            _ => Err(e),
        },
    }
}

impl GetCommands for Workspace {
    open spec fn aggregate(&self, command: Seq<char>) -> Result<CommandsView, ErrorView> {
        Ok(workspace_commands(self@, command))
    }

    /// Its own commands, then those of each member in order; a scope that
    /// does not declare `command` contributes nothing.
    fn get_commands(&self, command: &str) -> (r: Result<Vec<(String, String)>, Error>) {
        let mut out = commands_or_empty(&self.metadata, command)?;
        let ghost own = pairs_view(out@);
        let ghost members = tables(self.members@);
        let mut i: usize = 0;
        assert(members.take(0) =~= Seq::<TableView>::empty());
        assert(own + members_commands(members.take(0), command@) =~= own);
        while i < self.members.len()
            invariant
                0 <= i <= self.members@.len(),
                members == tables(self.members@),
                own == commands_or_none(self@.commands, command@),
                pairs_view(out@) == own + members_commands(members.take(i as int), command@),
            decreases self.members@.len() - i,
        {
            let mut found = commands_or_empty(&self.members[i].metadata, command)?;
            proof {
                let longer = members.take(i + 1);
                assert(longer.drop_last() =~= members.take(i as int));
                assert(longer.last() == self.members@[i as int]@);
                lemma_pairs_concat(out@, found@);
            }
            out.append(&mut found);
            assert(pairs_view(out@) =~= own + members_commands(members.take(i + 1), command@));
            i = i + 1;
        }
        assert(members.take(self.members@.len() as int) =~= members);
        Ok(out)
    }
}

impl GetCommands for CargoToml {
    open spec fn aggregate(&self, command: Seq<char>) -> Result<CommandsView, ErrorView> {
        cargo_commands(self@, command)
    }

    /// A package alone runs what its table declares and fails where it does
    /// not declare `command`; a root package runs its own commands, then the
    /// workspace's; both kinds of workspace fail only where no scope in them
    /// declares `command`.
    fn get_commands(&self, command: &str) -> (r: Result<Vec<(String, String)>, Error>) {
        match self {
            CargoToml::Package { package, .. } => package.get_commands(command),
            CargoToml::RootPackage { package, workspace, .. } => {
                let mut out = commands_or_empty(&package.metadata, command)?;
                let mut rest = workspace.get_commands(command)?;
                proof {
                    lemma_pairs_concat(out@, rest@);
                }
                out.append(&mut rest);
                if out.len() == 0 {
                    Err(Error::missing_command(command))
                } else {
                    Ok(out)
                }
            },
            CargoToml::VirtualManifest { workspace, .. } => {
                let out = workspace.get_commands(command)?;
                if out.len() == 0 {
                    Err(Error::missing_command(command))
                } else {
                    Ok(out)
                }
            },
        }
    }
}

/// Whether two outcomes are structurally equal.
pub open spec fn same_outcome<T: View>(a: Result<T, Error>, b: Result<T, Error>) -> bool {
    match (a, b) {
        (Ok(x), Ok(y)) => x@ == y@,
        (Err(x), Err(y)) => x@ == y@,
        _ => false,
    }
}

/// Classifying the manifest text read from a path twice gives structurally
/// equal results, and so does reading a member's manifest text twice.
pub proof fn lemma_classification_repeatable(
    path: Seq<char>,
    text: Seq<char>,
    first: Result<Outline, Error>,
    second: Result<Outline, Error>,
    first_member: Result<Package, Error>,
    second_member: Result<Package, Error>,
)
    requires
        outcome_is(first, outline_of_text(path, text)),
        outcome_is(second, outline_of_text(path, text)),
        outcome_is(first_member, member(path, text)),
        outcome_is(second_member, member(path, text)),
    ensures
        same_outcome(first, second),
        same_outcome(first_member, second_member),
{
}

/// Loading the members of a manifest twice, with the same member packages
/// found, gives structurally equal manifests.
pub proof fn lemma_assembly_repeatable(
    outline: Outline,
    members: Vec<Package>,
    first: CargoToml,
    second: CargoToml,
)
    requires
        first@ == assembled(outline@, tables(members@)),
        second@ == assembled(outline@, tables(members@)),
    ensures
        first@ == second@,
{
}

/// A root package that declares `command`, in a workspace that declares it
/// too, runs its own hook triple first, then the workspace's, then what the
/// members run.
pub proof fn lemma_root_package_first(m: CargoToml, command: Seq<char>)
    requires
        m is RootPackage,
        m@->RootPackage_package.contains_key(command),
        m@->RootPackage_workspace.commands.contains_key(command),
    ensures
        m.aggregate(command) == Ok::<CommandsView, ErrorView>(
            commands_for(m@->RootPackage_package, command)->Some_0
                + commands_for(m@->RootPackage_workspace.commands, command)->Some_0
                + members_commands(m@->RootPackage_workspace.members, command),
        ),
{
    let package = m@->RootPackage_package;
    let workspace = m@->RootPackage_workspace;
    let own = commands_for(package, command)->Some_0;
    let theirs = commands_for(workspace.commands, command)->Some_0;
    let all = own + workspace_commands(workspace, command);
    assert(own.len() > 0);
    assert(all.len() > 0);
    assert(all =~= own + theirs + members_commands(workspace.members, command));
}

} // verus!
