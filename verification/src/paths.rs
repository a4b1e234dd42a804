//! Paths as `/`-separated strings, and the layout of the four category
//! directories under a root.

use crate::category::Para;
use vstd::prelude::*;

verus! {

/// `rel` adjoined to `base`: an absolute `rel` replaces `base`; otherwise
/// `rel` follows `base`, with one separator between them unless `base` is
/// empty or already ends in one.
pub open spec fn join_spec(base: Seq<char>, rel: Seq<char>) -> Seq<char> {
    if rel.len() > 0 && rel[0] == '/' {
        rel
    } else if base.len() > 0 && base.last() != '/' {
        base + seq!['/'] + rel
    } else {
        base + rel
    }
}

/// `path` is the entry called `name` directly inside `root`: the name is
/// one component, neither `.` nor `..`.
pub open spec fn is_child_named(path: Seq<char>, root: Seq<char>, name: Seq<char>) -> bool {
    &&& name.len() > 0
    &&& !name.contains('/')
    &&& name != seq!['.']
    &&& name != seq!['.', '.']
    &&& path == join_spec(root, name)
}

/// `path` lies directly inside `root`.
pub open spec fn is_direct_child(path: Seq<char>, root: Seq<char>) -> bool {
    exists|name: Seq<char>| is_child_named(path, root, name)
}

/// Adjoins `rel` to `base`.
pub fn join(base: &str, rel: &str) -> (r: String)
    ensures
        r@ == join_spec(base@, rel@),
{
    let rel_len = rel.unicode_len();
    if rel_len > 0 && rel.get_char(0) == '/' {
        return String::from_str(rel);
    }
    let base_len = base.unicode_len();
    let mut out = String::from_str(base);
    if base_len > 0 && base.get_char(base_len - 1) != '/' {
        proof {
            reveal_strlit("/");
        }
        out.append("/");
        assert(out@ =~= base@ + seq!['/']);
    }
    out.append(rel);
    out
}

/// Two relative names adjoined to one base give one path only if they are one
/// name.
pub proof fn lemma_join_injective(base: Seq<char>, a: Seq<char>, b: Seq<char>)
    requires
        a.len() == 0 || a[0] != '/',
        b.len() == 0 || b[0] != '/',
        join_spec(base, a) == join_spec(base, b),
    ensures
        a == b,
{
    let prefix = if base.len() > 0 && base.last() != '/' {
        base + seq!['/']
    } else {
        base
    };
    assert(join_spec(base, a) =~= prefix + a);
    assert(join_spec(base, b) =~= prefix + b);
    assert((prefix + a).len() == (prefix + b).len());
    assert forall|i: int| 0 <= i < a.len() implies a[i] == b[i] by {
        assert((prefix + a)[prefix.len() + i] == a[i]);
        assert((prefix + b)[prefix.len() + i] == b[i]);
    }
    assert(a =~= b);
}

/// The text as the standard library's `Debug` shows a string: between double
/// quotes, with its escapes.
pub uninterp spec fn quoted_spec(text: Seq<char>) -> Seq<char>;

/// Formats `text` with the `Debug` implementation of `str`. The result is
/// taken on trust to be a function of the characters of `text` alone.
#[verifier::external_body]
pub(crate) fn quoted(text: &str) -> (r: String)
    ensures
        r@ == quoted_spec(text@),
{
    format!("{:?}", text)
}

/// The five lines that show a layout, given the five paths as they are to
/// appear: each behind its label, the lines separated by line feeds.
pub open spec fn layout_text_spec(
    root: Seq<char>,
    projects: Seq<char>,
    areas: Seq<char>,
    resources: Seq<char>,
    archives: Seq<char>,
) -> Seq<char> {
    "Root:\t\t"@ + root + "\nProjects:\t"@ + projects + "\nAreas:\t\t"@ + areas
        + "\nResources:\t"@ + resources + "\nArchives:\t"@ + archives
}

/// Lays out the five lines that show a layout.
pub fn layout_text(root: &str, projects: &str, areas: &str, resources: &str, archives: &str) -> (r:
    String)
    ensures
        r@ == layout_text_spec(root@, projects@, areas@, resources@, archives@),
{
    let mut out = String::from_str("Root:\t\t");
    out.append(root);
    out.append("\nProjects:\t");
    out.append(projects);
    out.append("\nAreas:\t\t");
    out.append(areas);
    out.append("\nResources:\t");
    out.append(resources);
    out.append("\nArchives:\t");
    out.append(archives);
    out
}

/// The root and the four category directories.
#[derive(Debug, Clone)]
pub struct ParaPaths {
    pub root: String,
    pub projects: String,
    pub areas: String,
    pub resources: String,
    pub archives: String,
}

impl ParaPaths {
    /// The path that the layout holds for a category.
    pub open spec fn path_of(&self, kind: Para) -> Seq<char> {
        match kind {
            Para::Projects => self.projects@,
            Para::Areas => self.areas@,
            Para::Resources => self.resources@,
            Para::Archives => self.archives@,
        }
    }

    /// The path that a root and a naming mode give a category.
    pub open spec fn resolve_spec(root: Seq<char>, indexed: bool, kind: Para) -> Seq<char> {
        join_spec(root, kind.dir_name_spec(indexed))
    }

    /// The layout is the one that `root` and the naming mode determine.
    pub open spec fn is_layout_of(&self, root: Seq<char>, indexed: bool) -> bool {
        &&& self.root@ == root
        &&& self.projects@ == Self::resolve_spec(root, indexed, Para::Projects)
        &&& self.areas@ == Self::resolve_spec(root, indexed, Para::Areas)
        &&& self.resources@ == Self::resolve_spec(root, indexed, Para::Resources)
        &&& self.archives@ == Self::resolve_spec(root, indexed, Para::Archives)
    }

    /// The layout is that of its own root, in one of the two naming modes.
    pub open spec fn wf(&self) -> bool {
        self.is_layout_of(self.root@, false) || self.is_layout_of(self.root@, true)
    }

    /// Resolves the four category directories under `path`; with `prefix` set
    /// each name carries its ordinal.
    pub fn from_root(path: &str, prefix: bool) -> (r: ParaPaths)
        ensures
            r.is_layout_of(path@, prefix),
            r.wf(),
    {
        ParaPaths {
            root: String::from_str(path),
            projects: join(path, Para::Projects.dir_name(prefix)),
            areas: join(path, Para::Areas.dir_name(prefix)),
            resources: join(path, Para::Resources.dir_name(prefix)),
            archives: join(path, Para::Archives.dir_name(prefix)),
        }
    }

    /// The text that shows the layout: the root and the four directories,
    /// each quoted, behind its label and on a line of its own.
    pub open spec fn describe_spec(&self) -> Seq<char> {
        layout_text_spec(
            quoted_spec(self.root@),
            quoted_spec(self.projects@),
            quoted_spec(self.areas@),
            quoted_spec(self.resources@),
            quoted_spec(self.archives@),
        )
    }

    /// The text that shows the layout.
    pub fn describe(&self) -> (r: String)
        ensures
            r@ == self.describe_spec(),
    {
        let root = quoted(self.root.as_str());
        let projects = quoted(self.projects.as_str());
        let areas = quoted(self.areas.as_str());
        let resources = quoted(self.resources.as_str());
        let archives = quoted(self.archives.as_str());
        layout_text(
            root.as_str(),
            projects.as_str(),
            areas.as_str(),
            resources.as_str(),
            archives.as_str(),
        )
    }

    /// The directory of a category.
    pub fn get_path(&self, path_type: Para) -> (r: &String)
        ensures
            r@ == self.path_of(path_type),
    {
        match path_type {
            Para::Projects => &self.projects,
            Para::Areas => &self.areas,
            Para::Resources => &self.resources,
            Para::Archives => &self.archives,
        }
    }

    /// A root and a naming mode determine the layout: each category's
    /// directory lies directly inside the root under the category's directory
    /// name, two categories never share a directory, and two layouts of the
    /// same root and mode hold the same paths.
    pub proof fn lemma_layout(a: ParaPaths, b: ParaPaths, root: Seq<char>, indexed: bool)
        requires
            a.is_layout_of(root, indexed),
            b.is_layout_of(root, indexed),
        ensures
            a.root@ == b.root@,
            forall|kind: Para| #[trigger] a.path_of(kind) == b.path_of(kind),
            forall|kind: Para| #[trigger]
                a.path_of(kind) == Self::resolve_spec(root, indexed, kind),
            forall|kind: Para|
                is_child_named(#[trigger] a.path_of(kind), root, kind.dir_name_spec(indexed)),
            forall|kind: Para| is_direct_child(#[trigger] a.path_of(kind), root),
            forall|j: Para, k: Para| j != k ==> #[trigger] a.path_of(j) != #[trigger] a.path_of(k),
    {
        assert forall|kind: Para|
            is_child_named(#[trigger] a.path_of(kind), root, kind.dir_name_spec(indexed)) by {
            Para::lemma_dir_names(kind, kind, indexed);
        }
        assert forall|j: Para, k: Para| j != k implies #[trigger] a.path_of(j) != #[trigger] a.path_of(
            k,
        ) by {
            Para::lemma_dir_names(j, k, indexed);
            Para::lemma_dir_names(k, j, indexed);
            let n = j.dir_name_spec(indexed);
            let m = k.dir_name_spec(indexed);
            assert(n.contains(n[0]));
            assert(m.contains(m[0]));
            if a.path_of(j) == a.path_of(k) {
                lemma_join_injective(root, n, m);
            }
        }
    }
}

} // verus!
