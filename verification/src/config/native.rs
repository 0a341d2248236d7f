use vstd::prelude::*;
use crate::agent::tools::{AwsToolView, ExecuteShellToolView, PathToolView};
use crate::text::{first_flag, or_else, split_lines, split_newline_text, texts, Duplicate};
use crate::text_set::{
    lemma_difference, lemma_union, lemma_union_concat, lemma_union_idempotent, seq_dedup,
    seq_difference, seq_union, StrSet,
};

verus! {

/// One pattern of a permission list, as a document gives it. It may hold several
/// patterns, one on each line.
#[derive(Debug, Clone, PartialEq, Eq, Hash)]
pub struct GenericListItem {
    pub item: String,
}

/// The permissions of one tool category, as a document gives them.
#[derive(Debug, Clone, PartialEq, Eq, Default)]
pub struct PermissionDoc {
    pub allows: Vec<GenericListItem>,
    pub denies: Vec<GenericListItem>,
    pub overrides: Vec<GenericListItem>,
    pub deny_by_default: Option<bool>,
    pub disable_auto_readonly: Option<bool>,
}

impl PermissionDoc {
    /// A document that says nothing of a category.
    pub fn empty() -> (doc: PermissionDoc)
        ensures
            doc.allows@.len() == 0,
            doc.denies@.len() == 0,
            doc.overrides@.len() == 0,
            doc.deny_by_default is None,
            doc.disable_auto_readonly is None,
    {
        PermissionDoc {
            allows: Vec::new(),
            denies: Vec::new(),
            overrides: Vec::new(),
            deny_by_default: None,
            disable_auto_readonly: None,
        }
    }

    /// Whether the document says nothing of the category.
    pub open spec fn is_blank(self) -> bool {
        &&& self.allows@.len() == 0
        &&& self.denies@.len() == 0
        &&& self.overrides@.len() == 0
        &&& self.deny_by_default is None
        &&& self.disable_auto_readonly is None
    }
}

/// The permissions of the four tool categories, as a document gives them.
#[derive(Debug, Clone, PartialEq, Eq, Default)]
pub struct NativeToolsDoc {
    pub shell: PermissionDoc,
    pub aws: PermissionDoc,
    pub read: PermissionDoc,
    pub write: PermissionDoc,
}

/// A set of patterns.
#[derive(Debug, Clone, PartialEq, Eq, Default)]
pub struct GenericList {
    pub list: StrSet,
}

impl View for GenericList {
    type V = Seq<Seq<char>>;

    open spec fn view(&self) -> Seq<Seq<char>> {
        self.list@
    }
}

impl GenericList {
    /// The list that holds `value` alone.
    pub fn from(value: &str) -> (l: GenericList)
        ensures
            l@ == seq![value@],
    {
        let mut list = StrSet::new();
        list.insert(value.to_owned());
        proof {
            assert(list@ =~= seq![value@]);
        }
        GenericList { list }
    }

    /// The list of the given patterns, each once.
    pub fn from_items(items: Vec<String>) -> (l: GenericList)
        ensures
            l@ == seq_dedup(texts(items@)),
    {
        GenericList { list: StrSet::from_vec(items) }
    }
}

/// A pattern that is granted whatever a deny list says.
#[derive(Debug, Clone, PartialEq, Eq, PartialOrd, Ord, Hash, Default)]
pub struct Override {
    pub path: String,
}

impl Override {
    /// The override of the pattern `value`.
    pub fn from(value: &str) -> (o: Override)
        ensures
            o.path@ == value@,
    {
        Override { path: value.to_owned() }
    }

    /// The pattern, as an owned string.
    pub fn to_string(&self) -> (s: String)
        ensures
            s@ == self.path@,
    {
        self.path.clone()
    }
}

/// The set of the patterns of `overrides`, each once, in order.
pub fn override_set(overrides: &Vec<Override>) -> (s: StrSet)
    ensures
        s@ == seq_dedup(overrides@.map_values(|o: Override| o.path@)),
{
    let ghost paths = overrides@.map_values(|o: Override| o.path@);
    let mut s = StrSet::new();
    let mut i: usize = 0;
    while i < overrides.len()
        invariant
            i <= overrides.len(),
            paths == overrides@.map_values(|o: Override| o.path@),
            s@ == seq_union(Seq::empty(), paths.take(i as int)),
        decreases overrides.len() - i,
    {
        proof {
            let step = paths.take(i as int + 1);
            assert(step.drop_last() =~= paths.take(i as int));
            assert(step.last() == overrides@[i as int].path@);
        }
        s.insert(overrides[i].path.clone());
        i += 1;
    }
    proof {
        assert(paths.take(overrides.len() as int) =~= paths);
    }
    s
}

/// The lines of all the given texts, in order.
pub open spec fn all_lines(items: Seq<Seq<char>>) -> Seq<Seq<char>>
    decreases items.len(),
{
    if items.len() == 0 {
        Seq::empty()
    } else {
        all_lines(items.drop_last()) + split_lines(items.last())
    }
}

/// The texts of the items of a permission list.
pub open spec fn item_texts(list: Seq<GenericListItem>) -> Seq<Seq<char>> {
    list.map_values(|g: GenericListItem| g.item@)
}

/// The patterns that a permission list of a document stands for: every line of
/// every item, each once, in order.
pub open spec fn patterns_of(list: Seq<GenericListItem>) -> Seq<Seq<char>> {
    seq_dedup(all_lines(item_texts(list)))
}

/// The set of the patterns of a permission list of a document.
pub fn split_newline(list: &Vec<GenericListItem>) -> (patterns: StrSet)
    ensures
        patterns@ == patterns_of(list@),
{
    let ghost items = item_texts(list@);
    let mut patterns = StrSet::new();
    let mut i: usize = 0;
    while i < list.len()
        invariant
            i <= list.len(),
            items == item_texts(list@),
            patterns@ == seq_dedup(all_lines(items.take(i as int))),
        decreases list.len() - i,
    {
        let pieces = split_newline_text(list[i].item.as_str());
        proof {
            let step = items.take(i as int + 1);
            assert(step.drop_last() =~= items.take(i as int));
            assert(step.last() == list@[i as int].item@);
            lemma_union_concat(
                Seq::empty(),
                all_lines(items.take(i as int)),
                split_lines(list@[i as int].item@),
            );
        }
        patterns.insert_all(&pieces);
        i += 1;
    }
    proof {
        assert(items.take(list.len() as int) =~= items);
    }
    patterns
}

/// The permissions of one tool category: what is allowed, what is denied, what is
/// granted whatever is denied, and two flags that a layer may leave unset.
pub struct PermissionSetView {
    pub allow: Seq<Seq<char>>,
    pub deny: Seq<Seq<char>>,
    pub overrides: Seq<Seq<char>>,
    pub deny_by_default: Option<bool>,
    pub disable_auto_readonly: Option<bool>,
}

/// The permissions that two layers give together: the lists are united, and a flag
/// is that of `higher` where `higher` sets it.
pub open spec fn merge_permissions(
    higher: PermissionSetView,
    lower: PermissionSetView,
) -> PermissionSetView {
    PermissionSetView {
        allow: seq_union(higher.allow, lower.allow),
        deny: seq_union(higher.deny, lower.deny),
        overrides: seq_union(higher.overrides, lower.overrides),
        deny_by_default: or_else(higher.deny_by_default, lower.deny_by_default),
        disable_auto_readonly: or_else(higher.disable_auto_readonly, lower.disable_auto_readonly),
    }
}

/// What is allowed in effect: the allow list and every override.
pub open spec fn effective_allow(p: PermissionSetView) -> Seq<Seq<char>> {
    seq_union(p.allow, p.overrides)
}

/// What is denied in effect: the deny list without the overrides.
pub open spec fn effective_deny(p: PermissionSetView) -> Seq<Seq<char>> {
    seq_difference(p.deny, p.overrides)
}

/// Whether operations that only read are approved beforehand: yes, unless a layer
/// switched that off.
pub open spec fn auto_allow_readonly(p: PermissionSetView) -> bool {
    match p.disable_auto_readonly {
        Some(disabled) => !disabled,
        None => true,
    }
}

/// Whether what is not allowed is denied: no, unless a layer says so.
pub open spec fn deny_by_default(p: PermissionSetView) -> bool {
    match p.deny_by_default {
        Some(deny) => deny,
        None => false,
    }
}

/// An override is allowed in effect and is not denied in effect, whether or not a
/// deny list holds it.
pub proof fn lemma_override_dominates(p: PermissionSetView, pattern: Seq<char>)
    requires
        p.overrides.contains(pattern),
    ensures
        effective_allow(p).contains(pattern),
        !effective_deny(p).contains(pattern),
{
    lemma_union(p.allow, p.overrides);
    lemma_difference(p.deny, p.overrides);
}

/// An override of either layer is allowed in effect and not denied in effect after
/// the layers are merged, in whichever order.
pub proof fn lemma_override_survives_merge(
    a: PermissionSetView,
    b: PermissionSetView,
    pattern: Seq<char>,
)
    requires
        a.overrides.contains(pattern) || b.overrides.contains(pattern),
    ensures
        effective_allow(merge_permissions(a, b)).contains(pattern),
        !effective_deny(merge_permissions(a, b)).contains(pattern),
        effective_allow(merge_permissions(b, a)).contains(pattern),
        !effective_deny(merge_permissions(b, a)).contains(pattern),
{
    lemma_union(a.overrides, b.overrides);
    lemma_union(b.overrides, a.overrides);
    lemma_override_dominates(merge_permissions(a, b), pattern);
    lemma_override_dominates(merge_permissions(b, a), pattern);
}

/// Merging permissions with themselves changes nothing.
pub proof fn lemma_merge_permissions_idempotent(p: PermissionSetView)
    ensures
        merge_permissions(p, p) == p,
{
    lemma_union_idempotent(p.allow);
    lemma_union_idempotent(p.deny);
    lemma_union_idempotent(p.overrides);
}

/// The merged lists hold what either layer holds.
pub proof fn lemma_merge_permissions_union(higher: PermissionSetView, lower: PermissionSetView)
    ensures
        merge_permissions(higher, lower).allow.to_set() == higher.allow.to_set().union(
            lower.allow.to_set(),
        ),
        merge_permissions(higher, lower).deny.to_set() == higher.deny.to_set().union(
            lower.deny.to_set(),
        ),
        merge_permissions(higher, lower).overrides.to_set() == higher.overrides.to_set().union(
            lower.overrides.to_set(),
        ),
{
    lemma_union(higher.allow, lower.allow);
    lemma_union(higher.deny, lower.deny);
    lemma_union(higher.overrides, lower.overrides);
}

/// The permissions for writing files.
#[derive(Debug, Clone, PartialEq, Eq, Default)]
pub struct WriteTool {
    pub allow: GenericList,
    pub deny: GenericList,
    pub override_path: StrSet,
}

impl View for WriteTool {
    type V = PermissionSetView;

    open spec fn view(&self) -> PermissionSetView {
        PermissionSetView {
            allow: self.allow@,
            deny: self.deny@,
            overrides: self.override_path@,
            deny_by_default: None,
            disable_auto_readonly: None,
        }
    }
}

impl WriteTool {
    /// Unites the lists of `self` with those of `other`.
    pub fn merge(self, other: WriteTool) -> (merged: WriteTool)
        ensures
            merged@ == merge_permissions(self@, other@),
    {
        let mut merged = self;
        merged.allow.list.extend(&other.allow.list);
        merged.deny.list.extend(&other.deny.list);
        merged.override_path.extend(&other.override_path);
        merged
    }
}

/// The permissions for reading files.
#[derive(Debug, Clone, PartialEq, Eq, Default)]
pub struct ReadTool {
    pub allow: GenericList,
    pub deny: GenericList,
    pub override_path: StrSet,
}

impl View for ReadTool {
    type V = PermissionSetView;

    open spec fn view(&self) -> PermissionSetView {
        PermissionSetView {
            allow: self.allow@,
            deny: self.deny@,
            overrides: self.override_path@,
            deny_by_default: None,
            disable_auto_readonly: None,
        }
    }
}

impl ReadTool {
    /// Unites the lists of `self` with those of `other`.
    pub fn merge(self, other: ReadTool) -> (merged: ReadTool)
        ensures
            merged@ == merge_permissions(self@, other@),
    {
        let mut merged = self;
        merged.allow.list.extend(&other.allow.list);
        merged.deny.list.extend(&other.deny.list);
        merged.override_path.extend(&other.override_path);
        merged
    }
}

/// The permissions for calls to the cloud API. There are no overrides.
#[derive(Debug, Clone, PartialEq, Eq, Default)]
pub struct AwsTool {
    pub disable_auto_readonly: Option<bool>,
    pub allow: GenericList,
    pub deny: GenericList,
}

impl View for AwsTool {
    type V = PermissionSetView;

    open spec fn view(&self) -> PermissionSetView {
        PermissionSetView {
            allow: self.allow@,
            deny: self.deny@,
            overrides: Seq::empty(),
            deny_by_default: None,
            disable_auto_readonly: self.disable_auto_readonly,
        }
    }
}

impl AwsTool {
    /// Unites the lists of `self` with those of `other`; the flag is that of `self`
    /// where it is set.
    pub fn merge(self, other: AwsTool) -> (merged: AwsTool)
        ensures
            merged@ == merge_permissions(self@, other@),
    {
        let mut merged = self;
        merged.disable_auto_readonly = first_flag(
            merged.disable_auto_readonly,
            other.disable_auto_readonly,
        );
        merged.allow.list.extend(&other.allow.list);
        merged.deny.list.extend(&other.deny.list);
        merged
    }
}

/// The permissions for shell commands.
#[derive(Debug, Clone, PartialEq, Eq, Default)]
pub struct ExecuteShellTool {
    pub allow: GenericList,
    pub deny: GenericList,
    pub deny_by_default: Option<bool>,
    pub disable_auto_readonly: Option<bool>,
    pub override_command: StrSet,
}

impl View for ExecuteShellTool {
    type V = PermissionSetView;

    open spec fn view(&self) -> PermissionSetView {
        PermissionSetView {
            allow: self.allow@,
            deny: self.deny@,
            overrides: self.override_command@,
            deny_by_default: self.deny_by_default,
            disable_auto_readonly: self.disable_auto_readonly,
        }
    }
}

impl ExecuteShellTool {
    /// Unites the lists of `self` with those of `other`; a flag is that of `self`
    /// where it is set.
    pub fn merge(self, other: ExecuteShellTool) -> (merged: ExecuteShellTool)
        ensures
            merged@ == merge_permissions(self@, other@),
    {
        let mut merged = self;
        merged.allow.list.extend(&other.allow.list);
        merged.deny.list.extend(&other.deny.list);
        merged.deny_by_default = first_flag(merged.deny_by_default, other.deny_by_default);
        merged.disable_auto_readonly = first_flag(
            merged.disable_auto_readonly,
            other.disable_auto_readonly,
        );
        merged.override_command.extend(&other.override_command);
        merged
    }
}

/// The permissions of the four tool categories.
#[derive(Debug, Clone, PartialEq, Eq, Default)]
pub struct NativeTools {
    pub shell: ExecuteShellTool,
    pub aws: AwsTool,
    pub read: ReadTool,
    pub write: WriteTool,
}

/// What the permissions of the four categories hold.
pub struct NativeToolsView {
    pub shell: PermissionSetView,
    pub aws: PermissionSetView,
    pub read: PermissionSetView,
    pub write: PermissionSetView,
}

impl View for NativeTools {
    type V = NativeToolsView;

    open spec fn view(&self) -> NativeToolsView {
        NativeToolsView {
            shell: self.shell@,
            aws: self.aws@,
            read: self.read@,
            write: self.write@,
        }
    }
}

/// The permissions that two layers give together, category by category.
pub open spec fn merge_native(higher: NativeToolsView, lower: NativeToolsView) -> NativeToolsView {
    NativeToolsView {
        shell: merge_permissions(higher.shell, lower.shell),
        aws: merge_permissions(higher.aws, lower.aws),
        read: merge_permissions(higher.read, lower.read),
        write: merge_permissions(higher.write, lower.write),
    }
}

/// Merging the permissions of the four categories with themselves changes nothing.
pub proof fn lemma_merge_native_idempotent(n: NativeToolsView)
    ensures
        merge_native(n, n) == n,
{
    lemma_merge_permissions_idempotent(n.shell);
    lemma_merge_permissions_idempotent(n.aws);
    lemma_merge_permissions_idempotent(n.read);
    lemma_merge_permissions_idempotent(n.write);
}

/// The permissions that a document gives a category with overrides and both flags.
pub open spec fn permissions_of(doc: PermissionDoc) -> PermissionSetView {
    PermissionSetView {
        allow: patterns_of(doc.allows@),
        deny: patterns_of(doc.denies@),
        overrides: patterns_of(doc.overrides@),
        deny_by_default: doc.deny_by_default,
        disable_auto_readonly: doc.disable_auto_readonly,
    }
}

/// The permissions that a document gives: the shell has everything, the cloud API
/// no overrides and one flag, reading and writing no flags.
pub open spec fn native_of(doc: NativeToolsDoc) -> NativeToolsView {
    NativeToolsView {
        shell: permissions_of(doc.shell),
        aws: PermissionSetView {
            overrides: Seq::empty(),
            deny_by_default: None,
            ..permissions_of(doc.aws)
        },
        read: PermissionSetView {
            deny_by_default: None,
            disable_auto_readonly: None,
            ..permissions_of(doc.read)
        },
        write: PermissionSetView {
            deny_by_default: None,
            disable_auto_readonly: None,
            ..permissions_of(doc.write)
        },
    }
}

/// A document that says nothing of any category gives no permissions.
pub proof fn lemma_native_of_empty(doc: NativeToolsDoc)
    requires
        doc.shell.is_blank(),
        doc.aws.is_blank(),
        doc.read.is_blank(),
        doc.write.is_blank(),
    ensures
        native_of(doc).shell == crate::config::agent::no_permissions(),
        native_of(doc).aws == crate::config::agent::no_permissions(),
        native_of(doc).read == crate::config::agent::no_permissions(),
        native_of(doc).write == crate::config::agent::no_permissions(),
{
    lemma_patterns_of_empty();
}

/// An empty list of a document stands for no pattern.
pub proof fn lemma_patterns_of_empty()
    ensures
        forall|list: Seq<GenericListItem>| list.len() == 0 ==> #[trigger] patterns_of(list)
            == Seq::<Seq<char>>::empty(),
{
    assert forall|list: Seq<GenericListItem>| list.len() == 0 implies #[trigger] patterns_of(list)
        == Seq::<Seq<char>>::empty() by {
        assert(item_texts(list) =~= Seq::empty());
    }
}

impl NativeTools {
    /// The permissions that a document gives.
    pub fn from_doc(doc: &NativeToolsDoc) -> (tools: NativeTools)
        ensures
            tools@ == native_of(*doc),
    {
        NativeTools {
            shell: ExecuteShellTool {
                allow: GenericList { list: split_newline(&doc.shell.allows) },
                deny: GenericList { list: split_newline(&doc.shell.denies) },
                deny_by_default: doc.shell.deny_by_default,
                disable_auto_readonly: doc.shell.disable_auto_readonly,
                override_command: split_newline(&doc.shell.overrides),
            },
            aws: AwsTool {
                disable_auto_readonly: doc.aws.disable_auto_readonly,
                allow: GenericList { list: split_newline(&doc.aws.allows) },
                deny: GenericList { list: split_newline(&doc.aws.denies) },
            },
            read: ReadTool {
                allow: GenericList { list: split_newline(&doc.read.allows) },
                deny: GenericList { list: split_newline(&doc.read.denies) },
                override_path: split_newline(&doc.read.overrides),
            },
            write: WriteTool {
                allow: GenericList { list: split_newline(&doc.write.allows) },
                deny: GenericList { list: split_newline(&doc.write.denies) },
                override_path: split_newline(&doc.write.overrides),
            },
        }
    }

    /// The permissions that `self`, as the higher layer, and `other` give together.
    pub fn merge(self, other: NativeTools) -> (merged: NativeTools)
        ensures
            merged@ == merge_native(self@, other@),
    {
        NativeTools {
            shell: self.shell.merge(other.shell),
            aws: self.aws.merge(other.aws),
            read: self.read.merge(other.read),
            write: self.write.merge(other.write),
        }
    }
}

/// What a manifest says of the cloud API for the permissions `p`.
pub open spec fn project_aws(p: PermissionSetView) -> AwsToolView {
    AwsToolView {
        allowed_services: p.allow,
        denied_services: p.deny,
        auto_allow_readonly: auto_allow_readonly(p),
    }
}

/// What a manifest says of the shell for the permissions `p`.
pub open spec fn project_shell(p: PermissionSetView) -> ExecuteShellToolView {
    ExecuteShellToolView {
        allowed_commands: effective_allow(p),
        denied_commands: effective_deny(p),
        deny_by_default: deny_by_default(p),
        auto_allow_readonly: auto_allow_readonly(p),
    }
}

/// What a manifest says of reading or writing files for the permissions `p`.
pub open spec fn project_paths(p: PermissionSetView) -> PathToolView {
    PathToolView { allowed_paths: effective_allow(p), denied_paths: effective_deny(p) }
}

impl crate::agent::tools::AwsTool {
    /// The manifest's settings for the cloud API.
    pub fn from_native(value: &NativeTools) -> (tool: crate::agent::tools::AwsTool)
        ensures
            tool@ == project_aws(value@.aws),
    {
        crate::agent::tools::AwsTool {
            allowed_services: value.aws.allow.list.duplicate(),
            denied_services: value.aws.deny.list.duplicate(),
            auto_allow_readonly: match value.aws.disable_auto_readonly {
                None => true,
                Some(f) => !f,
            },
        }
    }
}

impl crate::agent::tools::WriteTool {
    /// The manifest's settings for writing files: every override is allowed and is
    /// taken out of what is denied.
    pub fn from_native(value: &NativeTools) -> (tool: crate::agent::tools::WriteTool)
        ensures
            tool@ == project_paths(value@.write),
            forall|p: Seq<char>| #[trigger]
                value@.write.overrides.contains(p) ==> tool@.allowed_paths.contains(p)
                    && !tool@.denied_paths.contains(p),
    {
        let mut allow = value.write.allow.list.duplicate();
        allow.extend(&value.write.override_path);
        let deny = value.write.deny.list.difference(&value.write.override_path);
        proof {
            lemma_union(value@.write.allow, value@.write.overrides);
            lemma_difference(value@.write.deny, value@.write.overrides);
        }
        crate::agent::tools::WriteTool { allowed_paths: allow, denied_paths: deny }
    }
}

impl crate::agent::tools::ReadTool {
    /// The manifest's settings for reading files: every override is allowed and is
    /// taken out of what is denied.
    pub fn from_native(value: &NativeTools) -> (tool: crate::agent::tools::ReadTool)
        ensures
            tool@ == project_paths(value@.read),
            forall|p: Seq<char>| #[trigger]
                value@.read.overrides.contains(p) ==> tool@.allowed_paths.contains(p)
                    && !tool@.denied_paths.contains(p),
    {
        let mut allow = value.read.allow.list.duplicate();
        allow.extend(&value.read.override_path);
        let deny = value.read.deny.list.difference(&value.read.override_path);
        proof {
            lemma_union(value@.read.allow, value@.read.overrides);
            lemma_difference(value@.read.deny, value@.read.overrides);
        }
        crate::agent::tools::ReadTool { allowed_paths: allow, denied_paths: deny }
    }
}

impl crate::agent::tools::ExecuteShellTool {
    /// The manifest's settings for the shell: every override is allowed and is taken
    /// out of what is denied.
    pub fn from_native(value: &NativeTools) -> (tool: crate::agent::tools::ExecuteShellTool)
        ensures
            tool@ == project_shell(value@.shell),
            forall|p: Seq<char>| #[trigger]
                value@.shell.overrides.contains(p) ==> tool@.allowed_commands.contains(p)
                    && !tool@.denied_commands.contains(p),
    {
        let mut allow = value.shell.allow.list.duplicate();
        allow.extend(&value.shell.override_command);
        let deny = value.shell.deny.list.difference(&value.shell.override_command);
        proof {
            lemma_union(value@.shell.allow, value@.shell.overrides);
            lemma_difference(value@.shell.deny, value@.shell.overrides);
        }
        crate::agent::tools::ExecuteShellTool {
            allowed_commands: allow,
            denied_commands: deny,
            deny_by_default: match value.shell.deny_by_default {
                Some(f) => f,
                None => false,
            },
            auto_allow_readonly: match value.shell.disable_auto_readonly {
                Some(f) => !f,
                None => true,
            },
        }
    }
}

impl Duplicate for GenericList {
    fn duplicate(&self) -> (copy: GenericList) {
        GenericList { list: self.list.duplicate() }
    }
}

impl Duplicate for NativeTools {
    fn duplicate(&self) -> (copy: NativeTools) {
        NativeTools {
            shell: ExecuteShellTool {
                allow: self.shell.allow.duplicate(),
                deny: self.shell.deny.duplicate(),
                deny_by_default: self.shell.deny_by_default,
                disable_auto_readonly: self.shell.disable_auto_readonly,
                override_command: self.shell.override_command.duplicate(),
            },
            aws: AwsTool {
                disable_auto_readonly: self.aws.disable_auto_readonly,
                allow: self.aws.allow.duplicate(),
                deny: self.aws.deny.duplicate(),
            },
            read: ReadTool {
                allow: self.read.allow.duplicate(),
                deny: self.read.deny.duplicate(),
                override_path: self.read.override_path.duplicate(),
            },
            write: WriteTool {
                allow: self.write.allow.duplicate(),
                deny: self.write.deny.duplicate(),
                override_path: self.write.override_path.duplicate(),
            },
        }
    }
}

} // verus!
