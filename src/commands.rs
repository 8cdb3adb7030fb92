use vstd::prelude::*;
use vstd::string::*;

use crate::document::{lookup, ManifestValue};
use crate::error::{malformed, missing_command, outcome_is, Error, ErrorView};

verus! {

/// A command table as text: command names and their shell templates.
pub type TableView = Map<Seq<char>, Seq<char>>;

/// A sequence of (name, shell template) pairs as text.
pub type CommandsView = Seq<(Seq<char>, Seq<char>)>;

/// The text of each (name, template) pair.
pub open spec fn pairs_view(v: Seq<(String, String)>) -> CommandsView {
    v.map_values(|p: (String, String)| (p.0@, p.1@))
}

/// The mapping that a list of entries declares; where a name occurs twice
/// the first entry counts.
pub open spec fn table_map(s: CommandsView) -> TableView
    decreases s.len(),
{
    if s.len() == 0 {
        Map::empty()
    } else {
        table_map(s.drop_first()).insert(s[0].0, s[0].1)
    }
}

/// Whether no name occurs twice among the entries.
pub open spec fn names_unique(s: CommandsView) -> bool {
    forall|i: int, j: int| 0 <= i < j < s.len() ==> s[i].0 != s[j].0
}

/// `pre<command>`, the hook that runs before `command`.
pub open spec fn pre_name(command: Seq<char>) -> Seq<char> {
    "pre"@ + command
}

/// `post<command>`, the hook that runs after `command`.
pub open spec fn post_name(command: Seq<char>) -> Seq<char> {
    "post"@ + command
}

/// The entry for `name`, where the table has one.
pub open spec fn hook(table: TableView, name: Seq<char>) -> CommandsView {
    if table.contains_key(name) {
        seq![(name, table[name])]
    } else {
        Seq::empty()
    }
}

/// What a table runs for `command`: `pre<command>`, `command` and
/// `post<command>`, those of them it declares and in that order; nothing where
/// it does not declare `command` itself.
pub open spec fn commands_for(table: TableView, command: Seq<char>) -> Option<CommandsView> {
    if table.contains_key(command) {
        Some(hook(table, pre_name(command)) + seq![(command, table[command])] + hook(table, post_name(command)))
    } else {
        None
    }
}

/// What a table runs for `command`, where a table that does not declare it
/// runs nothing.
pub open spec fn commands_or_none(table: TableView, command: Seq<char>) -> CommandsView {
    match commands_for(table, command) {
        Some(c) => c,
        None => Seq::empty(),
    }
}

/// What a table runs for `command`, with the error for a command it does not
/// declare.
pub open spec fn table_commands(table: TableView, command: Seq<char>) -> Result<CommandsView, ErrorView> {
    match commands_for(table, command) {
        Some(c) => Ok(c),
        None => Err(missing_command(command)),
    }
}

/// The entries of a `metadata` table's `commands` table: none where it has no
/// such table; nothing where `metadata` is no table, or `commands` no table
/// whose values are all strings.
pub open spec fn commands_entries(metadata: ManifestValue) -> Option<CommandsView> {
    if !(metadata is Table) {
        None
    } else {
        match lookup(metadata, "commands"@) {
            None => Some(Seq::empty()),
            Some(ManifestValue::Table(t)) => if forall|i: int| 0 <= i < t@.len() ==> t@[i].1 is String {
                Some(t@.map_values(|e: (String, ManifestValue)| (e.0@, e.1->String_0@)))
            } else {
                None
            },
            Some(_) => None,
        }
    }
}

/// The error for a `metadata` section whose commands are not a table of strings.
pub open spec fn bad_commands() -> ErrorView {
    malformed("Commands are not a table of strings"@, "Failed to convert metadata"@)
}

/// The command table of a `package` or `workspace` section: empty where it has
/// no `metadata`.
pub open spec fn section_commands(section: ManifestValue) -> Result<TableView, ErrorView> {
    match lookup(section, "metadata"@) {
        None => Ok(Map::empty()),
        Some(m) => match commands_entries(m) {
            Some(e) => Ok(table_map(e)),
            None => Err(bad_commands()),
        },
    }
}

/// The error for a `package` section that is no table.
pub open spec fn package_not_table() -> ErrorView {
    malformed("Package is not a table"@, "Failed to convert package"@)
}

/// The command table of a `package` section.
pub open spec fn package_commands(section: ManifestValue) -> Result<TableView, ErrorView> {
    if section is Table {
        section_commands(section)
    } else {
        Err(package_not_table())
    }
}

/// A manifest's metadata: its named commands.
#[derive(Debug, PartialEq, Eq, Clone)]
pub struct Metadata {
    /// (name, shell template) entries, in declaration order.
    pub commands: Vec<(String, String)>,
}

impl View for Metadata {
    type V = TableView;

    open spec fn view(&self) -> TableView {
        table_map(pairs_view(self.commands@))
    }
}

/// Anything that answers which commands run for a command name.
pub trait GetCommands {
    /// What runs for `command`, as text, or the error.
    spec fn aggregate(&self, command: Seq<char>) -> Result<CommandsView, ErrorView>;

    /// The (hook name, shell template) pairs to run for `command`, in order.
    fn get_commands(&self, command: &str) -> (r: Result<Vec<(String, String)>, Error>)
        ensures
            match r {
                Ok(v) => self.aggregate(command@) == Ok::<CommandsView, ErrorView>(pairs_view(v@)),
                Err(e) => self.aggregate(command@) == Err::<CommandsView, ErrorView>(e@),
            };
}

impl Metadata {
    /// Whether no command name is declared twice, as in a manifest's table.
    pub open spec fn well_formed(&self) -> bool {
        names_unique(pairs_view(self.commands@))
    }

    /// Metadata that declares no command.
    pub fn new() -> (r: Metadata)
        ensures
            r.well_formed(),
            r.commands@.len() == 0,
            r@ == Map::<Seq<char>, Seq<char>>::empty(),
    {
        Metadata { commands: Vec::new() }
    }

    /// The template declared for `name`.
    pub fn get(&self, name: &String) -> (r: Option<&String>)
        ensures
            match r {
                Some(t) => self@.contains_key(name@) && self@[name@] == t@,
                None => !self@.contains_key(name@),
            },
    {
        let mut i: usize = 0;
        assert(pairs_view(self.commands@).skip(0) =~= pairs_view(self.commands@));
        while i < self.commands.len()
            invariant
                0 <= i <= self.commands@.len(),
                self@.contains_key(name@) == table_map(pairs_view(self.commands@).skip(i as int)).contains_key(name@),
                table_map(pairs_view(self.commands@).skip(i as int)).contains_key(name@)
                    ==> self@[name@] == table_map(pairs_view(self.commands@).skip(i as int))[name@],
            decreases self.commands@.len() - i,
        {
            let ghost rest = pairs_view(self.commands@).skip(i as int);
            proof {
                assert(rest.drop_first() =~= pairs_view(self.commands@).skip(i + 1));
                assert(rest[0] == (self.commands@[i as int].0@, self.commands@[i as int].1@));
            }
            if self.commands[i].0 == *name {
                return Some(&self.commands[i].1);
            }
            i = i + 1;
        }
        None
    }

    /// What this table runs for `command`: `pre<command>`, `command` and
    /// `post<command>`, those of them it declares and in that order; the
    /// `MissingCommand` error where it does not declare `command` itself.
    pub fn commands_for(&self, command: &str) -> (r: Result<Vec<(String, String)>, Error>)
        ensures
            match r {
                Ok(v) => table_commands(self@, command@) == Ok::<CommandsView, ErrorView>(pairs_view(v@)),
                Err(e) => table_commands(self@, command@) == Err::<CommandsView, ErrorView>(e@),
            },
    {
        let main = command.to_owned();
        let main_template = match self.get(&main) {
            Some(t) => t,
            None => return Err(Error::missing_command(command)),
        };
        let mut pre = String::from_str("pre");
        pre.append(command);
        let mut post = String::from_str("post");
        post.append(command);
        let mut out: Vec<(String, String)> = Vec::new();
        if let Some(t) = self.get(&pre) {
            out.push((pre, t.clone()));
        }
        out.push((main, main_template.clone()));
        if let Some(t) = self.get(&post) {
            out.push((post, t.clone()));
        }
        proof {
            let table = self@;
            assert(pairs_view(out@) =~= hook(table, pre_name(command@)) + seq![(command@, table[command@])]
                + hook(table, post_name(command@)));
        }
        Ok(out)
    }

    /// The commands of a `metadata` table.
    pub fn from_value(metadata: &ManifestValue) -> (r: Result<Metadata, Error>)
        ensures
            match r {
                Ok(m) => commands_entries(*metadata) == Some(pairs_view(m.commands@)),
                Err(e) => commands_entries(*metadata) is None && e@ == bad_commands(),
            },
    {
        if !metadata.is_table() {
            return Err(Error::malformed("Commands are not a table of strings", "Failed to convert metadata"));
        }
        match metadata.get("commands") {
            None => {
                let m = Metadata::new();
                assert(pairs_view(m.commands@) =~= Seq::empty());
                Ok(m)
            },
            Some(ManifestValue::Table(t)) => {
                let mut out: Vec<(String, String)> = Vec::new();
                let mut i: usize = 0;
                while i < t.len()
                    invariant
                        0 <= i <= t@.len(),
                        out@.len() == i,
                        *metadata is Table,
                        lookup(*metadata, "commands"@) == Some(ManifestValue::Table(*t)),
                        forall|j: int| 0 <= j < i ==> t@[j].1 is String && out@[j].0@ == t@[j].0@
                            && out@[j].1@ == t@[j].1->String_0@,
                    decreases t@.len() - i,
                {
                    match &t[i].1 {
                        ManifestValue::String(s) => out.push((t[i].0.clone(), s.clone())),
                        _ => {
                            assert(!(t@[i as int].1 is String));
                            return Err(Error::malformed("Commands are not a table of strings", "Failed to convert metadata"));
                        },
                    }
                    i = i + 1;
                }
                assert(pairs_view(out@) =~= t@.map_values(|e: (String, ManifestValue)| (e.0@, e.1->String_0@)));
                Ok(Metadata { commands: out })
            },
            Some(_) => Err(Error::malformed("Commands are not a table of strings", "Failed to convert metadata")),
        }
    }

    /// The commands of a `package` or `workspace` section; none where it has
    /// no `metadata`.
    pub fn of_section(section: &ManifestValue) -> (r: Result<Metadata, Error>)
        ensures
            outcome_is(r, section_commands(*section)),
    {
        match section.get("metadata") {
            None => Ok(Metadata::new()),
            Some(m) => Metadata::from_value(m),
        }
    }
}

/// A package: the commands its manifest declares.
#[derive(Debug, PartialEq, Eq, Clone)]
pub struct Package {
    pub metadata: Metadata,
}

impl View for Package {
    type V = TableView;

    open spec fn view(&self) -> TableView {
        self.metadata@
    }
}

impl Package {
    /// The package that a `package` section describes.
    pub fn from_value(section: &ManifestValue) -> (r: Result<Package, Error>)
        ensures
            outcome_is(r, package_commands(*section)),
    {
        if !section.is_table() {
            return Err(Error::malformed("Package is not a table", "Failed to convert package"));
        }
        let metadata = Metadata::of_section(section)?;
        Ok(Package { metadata })
    }
}

impl GetCommands for Package {
    open spec fn aggregate(&self, command: Seq<char>) -> Result<CommandsView, ErrorView> {
        table_commands(self@, command)
    }

    fn get_commands(&self, command: &str) -> (r: Result<Vec<(String, String)>, Error>) {
        self.metadata.commands_for(command)
    }
}

/// With no name declared twice, a table maps `k` to `v` exactly when the
/// entry `(k, v)` is among its entries.
pub proof fn lemma_table_map_entries(s: CommandsView, k: Seq<char>, v: Seq<char>)
    requires
        names_unique(s),
    ensures
        (table_map(s).contains_key(k) && table_map(s)[k] == v) <==> s.contains((k, v)),
    decreases s.len(),
{
    if s.len() > 0 {
        let rest = s.drop_first();
        assert(names_unique(rest));
        lemma_table_map_entries(rest, k, v);
        if s.contains((k, v)) {
            let i = choose|i: int| 0 <= i < s.len() && s[i] == (k, v);
            if i > 0 {
                assert(rest[i - 1] == (k, v));
            }
        }
        if rest.contains((k, v)) {
            let i = choose|i: int| 0 <= i < rest.len() && rest[i] == (k, v);
            assert(s[i + 1] == (k, v));
        }
    }
}

/// The order in which a table declares its commands does not matter: two
/// tables that declare the same entries, none of them twice, are the same
/// mapping.
pub proof fn lemma_declaration_order(a: CommandsView, b: CommandsView)
    requires
        names_unique(a),
        names_unique(b),
        a.to_set() == b.to_set(),
    ensures
        table_map(a) == table_map(b),
{
    assert forall|k: Seq<char>| #[trigger] table_map(a).contains_key(k) implies table_map(b).contains_key(k)
        && table_map(b)[k] == table_map(a)[k] by {
        lemma_table_map_entries(a, k, table_map(a)[k]);
        assert(a.to_set().contains((k, table_map(a)[k])));
        lemma_table_map_entries(b, k, table_map(a)[k]);
    }
    assert forall|k: Seq<char>| #[trigger] table_map(b).contains_key(k) implies table_map(a).contains_key(k) by {
        lemma_table_map_entries(b, k, table_map(b)[k]);
        assert(b.to_set().contains((k, table_map(b)[k])));
        lemma_table_map_entries(a, k, table_map(b)[k]);
    }
    assert(table_map(a) =~= table_map(b));
}

/// A package that declares `command` and neither of its hooks runs exactly
/// that command.
pub proof fn lemma_single_command(p: Package, command: Seq<char>)
    requires
        p@.contains_key(command),
        !p@.contains_key(pre_name(command)),
        !p@.contains_key(post_name(command)),
    ensures
        p.aggregate(command) == Ok::<CommandsView, ErrorView>(seq![(command, p@[command])]),
{
    assert(commands_for(p@, command)->Some_0 =~= seq![(command, p@[command])]);
}

/// A package that declares `command` and both of its hooks runs
/// `pre<command>`, `command`, `post<command>` in that order, whatever the
/// order in which its table declares them.
pub proof fn lemma_hook_order(a: Package, b: Package, command: Seq<char>)
    requires
        a.metadata.well_formed(),
        b.metadata.well_formed(),
        pairs_view(a.metadata.commands@).to_set() == pairs_view(b.metadata.commands@).to_set(),
        a@.contains_key(pre_name(command)),
        a@.contains_key(command),
        a@.contains_key(post_name(command)),
    ensures
        a.aggregate(command) == Ok::<CommandsView, ErrorView>(seq![
            (pre_name(command), a@[pre_name(command)]),
            (command, a@[command]),
            (post_name(command), a@[post_name(command)]),
        ]),
        b.aggregate(command) == a.aggregate(command),
{
    lemma_declaration_order(pairs_view(a.metadata.commands@), pairs_view(b.metadata.commands@));
    assert(commands_for(a@, command)->Some_0 =~= seq![
        (pre_name(command), a@[pre_name(command)]),
        (command, a@[command]),
        (post_name(command), a@[post_name(command)]),
    ]);
}

/// A package that does not declare `command` fails with `MissingCommand`,
/// whatever hooks of it it declares.
pub proof fn lemma_missing_command(p: Package, command: Seq<char>)
    requires
        !p@.contains_key(command),
    ensures
        p.aggregate(command) == Err::<CommandsView, ErrorView>(missing_command(command)),
{
}

} // verus!
