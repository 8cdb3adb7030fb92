use vstd::prelude::*;
use vstd::string::*;

use crate::error::{outcome_is, Error, ErrorKind, ErrorView, KindView};

verus! {

/// One path that a glob pattern yields.
#[derive(Debug, PartialEq, Eq, Clone)]
pub enum GlobEntry {
    /// A path that matched, as text.
    Matched(String),
    /// A path that matched but is no valid Unicode, in its debug spelling.
    NotUnicode(String),
    /// A path that could not be read to decide whether it matches, with the
    /// reason.
    Unreadable(String),
}

/// Whether `pattern` is a well-formed glob pattern.
pub uninterp spec fn glob_accepts(pattern: Seq<char>) -> bool;

/// Relies on `glob::glob`: it fails (with a `PatternError`, reported by its
/// `Display`) exactly when the pattern does not compile; otherwise it yields
/// what matches on disk, each a path or the `GlobError` met on the way to it.
#[verifier::external_body]
fn glob_entries(pattern: &str) -> (r: Result<Vec<GlobEntry>, String>)
    ensures
        r is Ok <==> glob_accepts(pattern@),
{
    match glob::glob(pattern) {
        Err(e) => Err(e.to_string()),
        Ok(paths) => Ok(paths.map(|entry| match entry {
            Ok(p) => match p.to_str() {
                Some(s) => GlobEntry::Matched(s.to_string()),
                None => GlobEntry::NotUnicode(format!("{:?}", p)),
            },
            Err(e) => GlobEntry::Unreadable(e.to_string()),
        }).collect()),
    }
}

/// Whether `a` and `b` name the same path once both are normalised.
pub uninterp spec fn same_path(a: Seq<char>, b: Seq<char>) -> bool;

/// Relies on `==` of `std::path::Path`, which compares paths by their
/// components: equal text is the same path.
#[verifier::external_body]
fn paths_equal(a: &str, b: &str) -> (r: bool)
    ensures
        r == same_path(a@, b@),
        a@ == b@ ==> r,
{
    std::path::Path::new(a) == std::path::Path::new(b)
}

/// Whether `path` is one of `excludes`.
pub open spec fn excluded(path: Seq<char>, excludes: Seq<Seq<char>>) -> bool {
    exists|j: int| 0 <= j < excludes.len() && same_path(path, excludes[j])
}

/// The error for a path that could not be read while globbing.
pub open spec fn glob_failure(reason: Seq<char>) -> ErrorView {
    ErrorView { kind: KindView::Glob(reason), message: "Error reading path for globbing"@ }
}

/// The error for a pattern that does not compile.
pub open spec fn pattern_failure(pattern: Seq<char>, reason: Seq<char>) -> ErrorView {
    ErrorView {
        kind: KindView::Pattern(reason),
        message: "Invalid glob pattern "@ + seq!['"'] + pattern + seq!['"'],
    }
}

/// The error for a path that cannot be written as text.
pub open spec fn conversion_failure(shown: Seq<char>) -> ErrorView {
    ErrorView { kind: KindView::PathConversion(shown), message: "Failed to convert path to string"@ }
}

/// The entries of one pattern that are kept, in order: those that are not
/// excluded; the error of the first one that could not be read.
pub open spec fn kept(entries: Seq<GlobEntry>, excludes: Seq<Seq<char>>) -> Result<Seq<GlobEntry>, ErrorView>
    decreases entries.len(),
{
    if entries.len() == 0 {
        Ok(Seq::empty())
    } else {
        match kept(entries.drop_last(), excludes) {
            Err(e) => Err(e),
            Ok(k) => match entries.last() {
                GlobEntry::Unreadable(reason) => Err(glob_failure(reason@)),
                GlobEntry::Matched(p) => if excluded(p@, excludes) {
                    Ok(k)
                } else {
                    Ok(k.push(entries.last()))
                },
                GlobEntry::NotUnicode(_) => Ok(k.push(entries.last())),
            },
        }
    }
}

/// `/Cargo.toml`, the manifest's place in a member directory.
pub open spec fn manifest_suffix() -> Seq<char> {
    "/Cargo.toml"@
}

/// The manifest path of each member directory, in order; the error of the
/// first one that is no text.
pub open spec fn manifest_paths(dirs: Seq<GlobEntry>) -> Result<Seq<Seq<char>>, ErrorView>
    decreases dirs.len(),
{
    if dirs.len() == 0 {
        Ok(Seq::empty())
    } else {
        match manifest_paths(dirs.drop_last()) {
            Err(e) => Err(e),
            Ok(k) => match dirs.last() {
                GlobEntry::Matched(d) => Ok(k.push(d@ + manifest_suffix())),
                GlobEntry::NotUnicode(shown) => Err(conversion_failure(shown@)),
                GlobEntry::Unreadable(reason) => Err(glob_failure(reason@)),
            },
        }
    }
}

/// The texts of a list of strings.
pub open spec fn texts(v: Seq<String>) -> Seq<Seq<char>> {
    v.map_values(|s: String| s@)
}

/// Once a prefix of the entries meets an unreadable one, the rest do not
/// matter.
proof fn lemma_kept_error_stays(entries: Seq<GlobEntry>, excludes: Seq<Seq<char>>, n: int)
    requires
        0 <= n <= entries.len(),
        kept(entries.take(n), excludes) is Err,
    ensures
        kept(entries, excludes) == kept(entries.take(n), excludes),
    decreases entries.len() - n,
{
    if n < entries.len() {
        let longer = entries.take(n + 1);
        assert(longer.drop_last() =~= entries.take(n));
        assert(kept(longer, excludes) == kept(entries.take(n), excludes));
        lemma_kept_error_stays(entries, excludes, n + 1);
    } else {
        assert(entries.take(n) =~= entries);
    }
}

/// Once a prefix of the directories meets one that is no text, the rest do
/// not matter.
proof fn lemma_manifest_paths_error_stays(dirs: Seq<GlobEntry>, n: int)
    requires
        0 <= n <= dirs.len(),
        manifest_paths(dirs.take(n)) is Err,
    ensures
        manifest_paths(dirs) == manifest_paths(dirs.take(n)),
    decreases dirs.len() - n,
{
    if n < dirs.len() {
        let longer = dirs.take(n + 1);
        assert(longer.drop_last() =~= dirs.take(n));
        assert(manifest_paths(longer) == manifest_paths(dirs.take(n)));
        lemma_manifest_paths_error_stays(dirs, n + 1);
    } else {
        assert(dirs.take(n) =~= dirs);
    }
}

/// The only error in keeping entries is an unreadable one.
proof fn lemma_kept_error_kind(entries: Seq<GlobEntry>, excludes: Seq<Seq<char>>)
    ensures
        kept(entries, excludes) matches Err(e) ==> e.kind is Glob,
    decreases entries.len(),
{
    if entries.len() > 0 {
        lemma_kept_error_kind(entries.drop_last(), excludes);
    }
}

/// Listing manifest paths fails only on a path that is no text or that
/// could not be read.
proof fn lemma_manifest_paths_error_kind(dirs: Seq<GlobEntry>)
    ensures
        manifest_paths(dirs) matches Err(e) ==> (e.kind is PathConversion || e.kind is Glob),
    decreases dirs.len(),
{
    if dirs.len() > 0 {
        lemma_manifest_paths_error_kind(dirs.drop_last());
    }
}

/// Each kept entry is a directory or a path that is no text, and none is
/// excluded.
pub proof fn lemma_kept_not_excluded(entries: Seq<GlobEntry>, excludes: Seq<Seq<char>>)
    requires
        kept(entries, excludes) is Ok,
    ensures
        forall|k: int| 0 <= k < kept(entries, excludes)->Ok_0.len() ==> {
            let e = #[trigger] kept(entries, excludes)->Ok_0[k];
            &&& !(e is Unreadable)
            &&& e matches GlobEntry::Matched(p) ==> !excluded(p@, excludes)
        },
    decreases entries.len(),
{
    if entries.len() > 0 {
        lemma_kept_not_excluded(entries.drop_last(), excludes);
    }
}

/// A list of manifest paths has one path for each directory, and each is the
/// directory followed by `/Cargo.toml`.
pub proof fn lemma_manifest_paths_shape(dirs: Seq<GlobEntry>)
    requires
        manifest_paths(dirs) is Ok,
    ensures
        manifest_paths(dirs)->Ok_0.len() == dirs.len(),
        forall|k: int| 0 <= k < dirs.len() ==> #[trigger] dirs[k] is Matched
            && manifest_paths(dirs)->Ok_0[k] == dirs[k]->Matched_0@ + manifest_suffix(),
    decreases dirs.len(),
{
    if dirs.len() > 0 {
        lemma_manifest_paths_shape(dirs.drop_last());
        assert forall|k: int| 0 <= k < dirs.len() - 1 implies dirs[k] == dirs.drop_last()[k] by {}
    }
}

/// The entries of one pattern that are kept, in order: those whose path is
/// none of `excludes`; the `GlobError` of the first that could not be read.
pub fn keep_unexcluded(entries: &Vec<GlobEntry>, excludes: &Vec<String>) -> (r: Result<Vec<GlobEntry>, Error>)
    ensures
        outcome_is(r, kept(entries@, texts(excludes@))),
        r matches Ok(v) ==> forall|k: int, j: int| 0 <= k < v@.len() && 0 <= j < excludes@.len()
            ==> (#[trigger] v@[k] matches GlobEntry::Matched(p) ==> p@ != (#[trigger] excludes@[j])@),
{
    let ghost ex = texts(excludes@);
    let mut out: Vec<GlobEntry> = Vec::new();
    let mut i: usize = 0;
    assert(entries@.take(0) =~= Seq::<GlobEntry>::empty());
    while i < entries.len()
        invariant
            0 <= i <= entries@.len(),
            ex == texts(excludes@),
            kept(entries@.take(i as int), ex) == Ok::<Seq<GlobEntry>, ErrorView>(out@),
            forall|k: int, j: int| 0 <= k < out@.len() && 0 <= j < excludes@.len()
                ==> (#[trigger] out@[k] matches GlobEntry::Matched(p) ==> p@ != (#[trigger] excludes@[j])@),
        decreases entries@.len() - i,
    {
        let ghost prefix = entries@.take(i + 1);
        proof {
            assert(prefix.drop_last() =~= entries@.take(i as int));
            assert(prefix.last() == entries@[i as int]);
        }
        match &entries[i] {
            GlobEntry::Unreadable(reason) => {
                let e = Error {
                    kind: ErrorKind::GlobError(reason.clone()),
                    message: String::from_str("Error reading path for globbing"),
                };
                proof {
                    lemma_kept_error_stays(entries@, ex, i + 1);
                }
                return Err(e);
            },
            GlobEntry::Matched(p) => {
                let mut hit = false;
                let mut j: usize = 0;
                while j < excludes.len()
                    invariant
                        0 <= j <= excludes@.len(),
                        ex == texts(excludes@),
                        hit <==> exists|m: int| 0 <= m < j && same_path(p@, ex[m]),
                        !hit ==> forall|m: int| 0 <= m < j ==> p@ != excludes@[m]@,
                    decreases excludes@.len() - j,
                {
                    assert(ex[j as int] == excludes@[j as int]@);
                    if paths_equal(p.as_str(), excludes[j].as_str()) {
                        hit = true;
                    }
                    j = j + 1;
                }
                if !hit {
                    out.push(GlobEntry::Matched(p.clone()));
                }
            },
            GlobEntry::NotUnicode(shown) => {
                out.push(GlobEntry::NotUnicode(shown.clone()));
            },
        }
        i = i + 1;
    }
    assert(entries@.take(entries@.len() as int) =~= entries@);
    Ok(out)
}

/// The manifest path of each member directory, `<dir>/Cargo.toml`, in order;
/// the `PathBufConversionError` of the first that is no text.
pub fn manifest_paths_of(dirs: &Vec<GlobEntry>) -> (r: Result<Vec<String>, Error>)
    ensures
        match r {
            Ok(v) => manifest_paths(dirs@) == Ok::<Seq<Seq<char>>, ErrorView>(texts(v@)),
            Err(e) => manifest_paths(dirs@) == Err::<Seq<Seq<char>>, ErrorView>(e@),
        },
{
    let mut out: Vec<String> = Vec::new();
    let mut i: usize = 0;
    assert(dirs@.take(0) =~= Seq::<GlobEntry>::empty());
    assert(texts(out@) =~= Seq::empty());
    while i < dirs.len()
        invariant
            0 <= i <= dirs@.len(),
            manifest_paths(dirs@.take(i as int)) == Ok::<Seq<Seq<char>>, ErrorView>(texts(out@)),
        decreases dirs@.len() - i,
    {
        let ghost prefix = dirs@.take(i + 1);
        proof {
            assert(prefix.drop_last() =~= dirs@.take(i as int));
            assert(prefix.last() == dirs@[i as int]);
        }
        match &dirs[i] {
            GlobEntry::Matched(d) => {
                let path = d.clone().concat("/Cargo.toml");
                let ghost before = texts(out@);
                out.push(path);
                assert(texts(out@) =~= before.push(d@ + manifest_suffix()));
            },
            GlobEntry::NotUnicode(shown) => {
                let e = Error {
                    kind: ErrorKind::PathBufConversionError(shown.clone()),
                    message: String::from_str("Failed to convert path to string"),
                };
                proof {
                    lemma_manifest_paths_error_stays(dirs@, i + 1);
                }
                return Err(e);
            },
            GlobEntry::Unreadable(reason) => {
                let e = Error {
                    kind: ErrorKind::GlobError(reason.clone()),
                    message: String::from_str("Error reading path for globbing"),
                };
                proof {
                    lemma_manifest_paths_error_stays(dirs@, i + 1);
                }
                return Err(e);
            },
        }
        i = i + 1;
    }
    assert(dirs@.take(dirs@.len() as int) =~= dirs@);
    Ok(out)
}

/// Whether a globbed entry may stand among the members: it was readable, and
/// a directory that is none of `excludes`.
pub open spec fn entry_allowed(e: GlobEntry, excludes: Seq<String>) -> bool {
    &&& !(e is Unreadable)
    &&& e matches GlobEntry::Matched(p) ==> {
        &&& !excluded(p@, texts(excludes))
        &&& forall|j: int| 0 <= j < excludes.len() ==> p@ != #[trigger] excludes[j]@
    }
}

/// The member directory of a manifest path `<dir>/Cargo.toml`.
pub open spec fn member_dir(manifest: Seq<char>) -> Seq<char> {
    manifest.subrange(0, manifest.len() - manifest_suffix().len())
}

/// Adds what one pattern found to `all`: where the pattern compiled, its
/// entries that are not excluded, in order; otherwise the `PatternError`
/// that names it. Fails with the `GlobError` of the first entry that could
/// not be read, and then adds nothing.
pub fn add_globbed(
    all: &mut Vec<GlobEntry>,
    pattern: &str,
    globbed: Result<Vec<GlobEntry>, String>,
    excludes: &Vec<String>,
) -> (r: Result<(), Error>)
    ensures
        match globbed {
            Err(reason) => r matches Err(e) && e@ == pattern_failure(pattern@, reason@)
                && final(all)@ == old(all)@,
            Ok(entries) => match kept(entries@, texts(excludes@)) {
                Ok(k) => r is Ok && final(all)@ == old(all)@ + k,
                Err(x) => r matches Err(e) && e@ == x && final(all)@ == old(all)@,
            },
        },
        forall|k: int| old(all)@.len() <= k < final(all)@.len() ==> entry_allowed(#[trigger] final(all)@[k], excludes@),
{
    match globbed {
        Err(reason) => {
            let mut message = String::from_str("Invalid glob pattern \"");
            message.append(pattern);
            message.append("\"");
            let e = Error { kind: ErrorKind::PatternError(reason), message };
            proof {
                reveal_strlit("Invalid glob pattern \"");
                reveal_strlit("Invalid glob pattern ");
                reveal_strlit("\"");
                assert(e@.message =~= pattern_failure(pattern@, e@.kind->Pattern_0).message);
            }
            Err(e)
        },
        Ok(entries) => {
            let mut found = keep_unexcluded(&entries, excludes)?;
            proof {
                lemma_kept_not_excluded(entries@, texts(excludes@));
                assert forall|k: int| 0 <= k < found@.len() implies entry_allowed(#[trigger] found@[k], excludes@) by {
                    if found@[k] is Matched {
                        assert forall|j: int| 0 <= j < excludes@.len() implies found@[k]->Matched_0@
                            != #[trigger] excludes@[j]@ by {
                            assert(found@[k] matches GlobEntry::Matched(p) ==> p@ != excludes@[j]@);
                        }
                    }
                }
            }
            let ghost before = all@;
            let ghost added = found@;
            all.append(&mut found);
            proof {
                assert forall|k: int| before.len() <= k < all@.len() implies entry_allowed(#[trigger] all@[k], excludes@) by {
                    assert(all@[k] == added[k - before.len()]);
                }
            }
            Ok(())
        },
    }
}

/// The paths that `patterns` match on disk, pattern after pattern, without
/// those that are one of `excludes`. Fails with the `PatternError` of the
/// first pattern that does not compile, or with `GlobError` on a path that
/// cannot be read; each pattern's matches are added by `add_globbed`.
pub fn extend_globs(patterns: &Vec<String>, excludes: &Vec<String>) -> (r: Result<Vec<GlobEntry>, Error>)
    ensures
        patterns@.len() == 0 ==> (r matches Ok(v) && v@.len() == 0),
        r is Ok ==> forall|i: int| 0 <= i < patterns@.len() ==> glob_accepts(#[trigger] patterns@[i]@),
        (exists|i: int| 0 <= i < patterns@.len() && !glob_accepts(#[trigger] patterns@[i]@)) ==> r is Err,
        r matches Err(e) ==> e.kind is PatternError || e.kind is GlobError,
        r matches Err(e) ==> (e.kind is PatternError ==> exists|i: int| 0 <= i < patterns@.len()
            && !glob_accepts(#[trigger] patterns@[i]@)
            && (forall|m: int| 0 <= m < i ==> glob_accepts(#[trigger] patterns@[m]@))
            && e@ == pattern_failure(patterns@[i]@, e@.kind->Pattern_0)),
        r matches Ok(v) ==> forall|k: int| 0 <= k < v@.len() ==> entry_allowed(#[trigger] v@[k], excludes@),
{
    let mut all: Vec<GlobEntry> = Vec::new();
    let mut i: usize = 0;
    while i < patterns.len()
        invariant
            0 <= i <= patterns@.len(),
            i == 0 ==> all@.len() == 0,
            forall|m: int| 0 <= m < i ==> glob_accepts(#[trigger] patterns@[m]@),
            forall|k: int| 0 <= k < all@.len() ==> entry_allowed(#[trigger] all@[k], excludes@),
        decreases patterns@.len() - i,
    {
        let globbed = glob_entries(patterns[i].as_str());
        let ghost accepted = globbed is Ok;
        let ghost entries = if globbed is Ok { globbed->Ok_0@ } else { Seq::empty() };
        match add_globbed(&mut all, patterns[i].as_str(), globbed, excludes) {
            Ok(()) => {},
            Err(e) => {
                proof {
                    lemma_kept_error_kind(entries, texts(excludes@));
                    if !accepted {
                        assert(e@.kind is Pattern);
                    } else {
                        assert(e@.kind is Glob);
                    }
                }
                return Err(e);
            },
        }
        i = i + 1;
    }
    Ok(all)
}

/// Whether `r` is the outcome of listing the manifest paths of `dirs`.
pub open spec fn paths_outcome(r: Result<Vec<String>, Error>, dirs: Seq<GlobEntry>) -> bool {
    match r {
        Ok(v) => manifest_paths(dirs) == Ok::<Seq<Seq<char>>, ErrorView>(texts(v@)),
        Err(e) => manifest_paths(dirs) == Err::<Seq<Seq<char>>, ErrorView>(e@),
    }
}

/// The manifest path `<dir>/Cargo.toml` of each directory that `patterns`
/// match on disk, pattern after pattern, leaving out the directories that are
/// one of `excludes`. Fails with `PatternError` on a pattern that does not
/// compile, with `GlobError` on a path that cannot be read, and with
/// `PathBufConversionError` on a directory whose path is no text.
pub fn extend_manifest_paths(patterns: Vec<String>, excludes: Vec<String>) -> (r: Result<Vec<String>, Error>)
    ensures
        patterns@.len() == 0 ==> (r matches Ok(v) && v@.len() == 0),
        r is Ok ==> forall|i: int| 0 <= i < patterns@.len() ==> glob_accepts(#[trigger] patterns@[i]@),
        (exists|i: int| 0 <= i < patterns@.len() && !glob_accepts(#[trigger] patterns@[i]@)) ==> r is Err,
        r matches Err(e) ==> e.kind is PatternError || e.kind is GlobError || e.kind is PathBufConversionError,
        r matches Err(e) ==> (e.kind is PatternError ==> exists|i: int| 0 <= i < patterns@.len()
            && !glob_accepts(#[trigger] patterns@[i]@)
            && (forall|m: int| 0 <= m < i ==> glob_accepts(#[trigger] patterns@[m]@))
            && e@ == pattern_failure(patterns@[i]@, e@.kind->Pattern_0)),
        (r is Ok || (r is Err && r->Err_0.kind is PathBufConversionError)) ==> exists|dirs: Seq<GlobEntry>|
            (forall|k: int| 0 <= k < dirs.len() ==> entry_allowed(#[trigger] dirs[k], excludes@))
            && paths_outcome(r, dirs),
        r matches Ok(v) ==> forall|k: int| 0 <= k < v@.len() ==> {
            let dir = member_dir(#[trigger] v@[k]@);
            &&& v@[k]@ == dir + manifest_suffix()
            &&& !excluded(dir, texts(excludes@))
            &&& forall|j: int| 0 <= j < excludes@.len() ==> dir != #[trigger] excludes@[j]@
        },
{
    let dirs = extend_globs(&patterns, &excludes)?;
    let r = manifest_paths_of(&dirs);
    proof {
        lemma_manifest_paths_error_kind(dirs@);
        assert(paths_outcome(r, dirs@));
        if r is Ok {
            let v = r->Ok_0;
            lemma_manifest_paths_shape(dirs@);
            assert forall|k: int| 0 <= k < v@.len() implies {
                let dir = member_dir(#[trigger] v@[k]@);
                &&& v@[k]@ == dir + manifest_suffix()
                &&& !excluded(dir, texts(excludes@))
                &&& forall|j: int| 0 <= j < excludes@.len() ==> dir != #[trigger] excludes@[j]@
            } by {
                let d = dirs@[k]->Matched_0@;
                assert(v@[k]@ == texts(v@)[k]);
                assert((d + manifest_suffix()).subrange(0, d.len() as int) =~= d);
                assert(entry_allowed(dirs@[k], excludes@));
            }
        }
    }
    r
}

} // verus!
