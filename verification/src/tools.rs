//! Builtin tools: the registry with its permission matrix, the tool descriptions, and the
//! path and result conventions of the filesystem tools.

use vstd::prelude::*;

use crate::core_types::{DangerLevel, ToolKind};
use crate::filesystem::{is_virtual_path, FilesystemError, VirtualPath, VirtualPathError, filesystem_error_text};
use crate::llm_manager::{lemma_text_less_irreflexive, lemma_text_less_total, lemma_text_less_transitive, text_less};
use crate::text::{chars_of, owned, push_str, string_of_chars};

verus! {

/// How a registry decides which tools need approval.
#[derive(Debug, Clone, Copy, PartialEq, Eq, Structural)]
pub enum ToolPermissionMode {
    /// Every tool runs without approval.
    Allow,
    /// Only low-danger read tools run without approval.
    PartialAllow,
    /// Every tool needs approval.
    RequireApproval,
}

/// Whether a tool of `kind` and `danger` needs approval under `mode`.
pub open spec fn needs_approval(mode: ToolPermissionMode, kind: ToolKind, danger: DangerLevel) -> bool {
    match mode {
        ToolPermissionMode::Allow => false,
        ToolPermissionMode::PartialAllow => !(kind == ToolKind::Read && danger == DangerLevel::Low),
        ToolPermissionMode::RequireApproval => true,
    }
}

/// Which calls run without approval: under `Allow` every call, under `PartialAllow` only
/// the calls of low-danger read tools, under `RequireApproval` none. So each mode asks for
/// approval at least whenever a more permissive mode does.
pub proof fn law_permission_modes(kind: ToolKind, danger: DangerLevel)
    ensures
        !needs_approval(ToolPermissionMode::Allow, kind, danger),
        !needs_approval(ToolPermissionMode::PartialAllow, kind, danger) ==> kind == ToolKind::Read && danger
            == DangerLevel::Low,
        !needs_approval(ToolPermissionMode::PartialAllow, ToolKind::Read, DangerLevel::Low),
        needs_approval(ToolPermissionMode::RequireApproval, kind, danger),
        needs_approval(ToolPermissionMode::Allow, kind, danger) ==> needs_approval(
            ToolPermissionMode::PartialAllow,
            kind,
            danger,
        ),
{
}

/// Error returned by tool registration, validation and calls.
#[derive(Debug)]
pub enum ToolError {
    /// A tool with this name is already registered.
    DuplicateTool { name: String },
    /// No tool with this name is registered.
    ToolNotFound { name: String },
    /// An argument has an invalid value.
    InvalidArgument { name: &'static str, reason: &'static str },
    /// The arguments do not have the expected shape.
    InvalidInput { message: String },
    /// A path argument is not a valid virtual path.
    InvalidPath { path: String, source: VirtualPathError },
    /// An apply-patch operation type is unknown.
    InvalidOperation { operation: String },
    /// The filesystem failed.
    Filesystem(FilesystemError),
    /// The call was cancelled.
    Cancelled,
}

/// The human-readable description of a tool failure.
pub open spec fn tool_error_text(e: ToolError) -> Seq<char> {
    match e {
        ToolError::DuplicateTool { name } => "duplicate tool: "@ + name@,
        ToolError::ToolNotFound { name } => "tool not found: "@ + name@,
        ToolError::InvalidArgument { name, reason } => "invalid argument "@ + name@ + ": "@ + reason@,
        ToolError::InvalidInput { message } => "invalid tool input: "@ + message@,
        ToolError::InvalidPath { path, .. } => "invalid path: "@ + path@,
        ToolError::InvalidOperation { operation } => "invalid operation: "@ + operation@,
        ToolError::Filesystem(f) => filesystem_error_text(f),
        ToolError::Cancelled => "tool call cancelled"@,
    }
}

impl ToolError {
    /// The human-readable description of this failure.
    pub fn text(&self) -> (r: String)
        ensures
            r@ == tool_error_text(*self),
    {
        let mut r = String::new();
        match self {
            ToolError::DuplicateTool { name } => {
                push_str(&mut r, "duplicate tool: ");
                push_str(&mut r, name.as_str());
            },
            ToolError::ToolNotFound { name } => {
                push_str(&mut r, "tool not found: ");
                push_str(&mut r, name.as_str());
            },
            ToolError::InvalidArgument { name, reason } => {
                push_str(&mut r, "invalid argument ");
                push_str(&mut r, name);
                push_str(&mut r, ": ");
                push_str(&mut r, reason);
            },
            ToolError::InvalidInput { message } => {
                push_str(&mut r, "invalid tool input: ");
                push_str(&mut r, message.as_str());
            },
            ToolError::InvalidPath { path, .. } => {
                push_str(&mut r, "invalid path: ");
                push_str(&mut r, path.as_str());
            },
            ToolError::InvalidOperation { operation } => {
                push_str(&mut r, "invalid operation: ");
                push_str(&mut r, operation.as_str());
            },
            ToolError::Filesystem(f) => {
                let t = f.text();
                push_str(&mut r, t.as_str());
            },
            ToolError::Cancelled => push_str(&mut r, "tool call cancelled"),
        }
        r
    }
}

/// Provider-visible description of a tool.
#[derive(Debug)]
pub struct ToolSpec {
    /// Tool name.
    pub name: String,
    /// What the tool does.
    pub description: String,
    /// JSON schema of the arguments, as compact JSON text.
    pub input_schema: String,
}

impl ToolSpec {
    /// A copy of this description.
    pub fn duplicate(&self) -> (r: ToolSpec)
        ensures
            r.name == self.name,
            r.description == self.description,
            r.input_schema == self.input_schema,
    {
        ToolSpec {
            name: self.name.clone(),
            description: self.description.clone(),
            input_schema: self.input_schema.clone(),
        }
    }
}

/// Description of the echo tool.
pub const ECHO_DESCRIPTION: &'static str = "returns input arguments";

/// Argument schema of the echo tool.
pub const ECHO_SCHEMA: &'static str = "{\"type\":\"object\"}";

/// Description of the apply-patch tool.
pub const APPLY_PATCH_DESCRIPTION: &'static str = "applies a create, update, or delete patch inside the virtual filesystem";

/// Argument schema of the apply-patch tool: a diff is required for creating and updating a file.
pub const APPLY_PATCH_SCHEMA: &'static str = "{\"properties\":{\"operation\":{\"allOf\":[{\"if\":{\"properties\":{\"type\":{\"enum\":[\"create_file\",\"update_file\"]}},\"required\":[\"type\"]},\"then\":{\"required\":[\"diff\"]}}],\"properties\":{\"diff\":{\"type\":\"string\"},\"path\":{\"type\":\"string\"},\"type\":{\"enum\":[\"create_file\",\"update_file\",\"delete_file\"],\"type\":\"string\"}},\"required\":[\"type\",\"path\"],\"type\":\"object\"}},\"required\":[\"operation\"],\"type\":\"object\"}";

/// Description of the file-metadata tool.
pub const FILE_METADATA_DESCRIPTION: &'static str = "returns metadata for one path inside the virtual filesystem";

/// Description of the list-directory tool.
pub const LIST_DIR_DESCRIPTION: &'static str = "lists entries in one directory inside the virtual filesystem";

/// Argument schema shared by the tools that take one path.
pub const PATH_SCHEMA: &'static str = "{\"properties\":{\"path\":{\"type\":\"string\"}},\"required\":[\"path\"],\"type\":\"object\"}";

/// Description of the text-search tool.
pub const SEARCH_TEXT_DESCRIPTION: &'static str = "searches for literal text under a file or directory";

/// Argument schema of the text-search tool.
pub const SEARCH_TEXT_SCHEMA: &'static str = "{\"properties\":{\"max_results\":{\"minimum\":1,\"type\":\"integer\"},\"path\":{\"type\":\"string\"},\"query\":{\"minLength\":1,\"type\":\"string\"}},\"required\":[\"path\",\"query\"],\"type\":\"object\"}";

fn make_spec(name: &str, description: &str, input_schema: &str) -> (r: ToolSpec)
    ensures
        r.name@ == name@,
        r.description@ == description@,
        r.input_schema@ == input_schema@,
{
    ToolSpec { name: owned(name), description: owned(description), input_schema: owned(input_schema) }
}

/// A tool the registry can hold; implemented by the tools an application registers.
pub trait Tool {
    /// The description this tool gives of itself.
    spec fn described(&self) -> ToolSpec;

    /// The tool's provider-visible description.
    fn spec(&self) -> (r: &ToolSpec)
        ensures
            *r == self.described(),
    ;
}

struct RegisteredTool<T> {
    name: String,
    tool: T,
    tool_kind: ToolKind,
    danger_level: DangerLevel,
}

/// Registry of builtin tools, in name order, with a permission mode.
pub struct BuiltinToolRegistry<T> {
    tools: Vec<RegisteredTool<T>>,
    permission_mode: ToolPermissionMode,
}

impl<T> BuiltinToolRegistry<T> {
    /// Registered tool names, in name order.
    pub closed spec fn spec_names(&self) -> Seq<Seq<char>> {
        self.tools@.map_values(|r: RegisteredTool<T>| r.name@)
    }

    /// Kind and danger of each registered tool, by name.
    pub closed spec fn spec_metadata(&self) -> Map<Seq<char>, (ToolKind, DangerLevel)> {
        Map::new(
            |k: Seq<char>| exists|i: int| 0 <= i < self.tools@.len() && self.tools@[i].name@ == k,
            |k: Seq<char>| {
                let i = choose|i: int| 0 <= i < self.tools@.len() && self.tools@[i].name@ == k;
                (self.tools@[i].tool_kind, self.tools@[i].danger_level)
            },
        )
    }

    /// The registered tools, by name.
    pub closed spec fn spec_tools(&self) -> Map<Seq<char>, T> {
        Map::new(
            |k: Seq<char>| exists|i: int| 0 <= i < self.tools@.len() && self.tools@[i].name@ == k,
            |k: Seq<char>| self.tools@[choose|i: int| 0 <= i < self.tools@.len() && self.tools@[i].name@ == k].tool,
        )
    }

    /// The permission mode.
    pub closed spec fn spec_mode(&self) -> ToolPermissionMode {
        self.permission_mode
    }

    /// Names are in strictly increasing order.
    pub closed spec fn wf(&self) -> bool {
        forall|i: int, j: int|
            0 <= i < j < self.tools@.len() ==> text_less(
                (#[trigger] self.tools@[i]).name@,
                (#[trigger] self.tools@[j]).name@,
            )
    }

    /// Creates an empty registry with the requested permission behavior.
    pub fn new(permission_mode: ToolPermissionMode) -> (r: Self)
        ensures
            r.wf(),
            r.spec_mode() == permission_mode,
            r.spec_names().len() == 0,
            r.spec_metadata().dom().len() == 0,
            r.spec_metadata() == Map::<Seq<char>, (ToolKind, DangerLevel)>::empty(),
            r.spec_tools() == Map::<Seq<char>, T>::empty(),
    {
        let r = BuiltinToolRegistry { tools: Vec::new(), permission_mode };
        assert(r.spec_metadata().dom() =~= Set::empty());
        assert(r.spec_metadata() =~= Map::<Seq<char>, (ToolKind, DangerLevel)>::empty());
        assert(r.spec_tools() =~= Map::<Seq<char>, T>::empty());
        r
    }

    proof fn lemma_unique(&self, i: int, j: int)
        requires
            self.wf(),
            0 <= i < self.tools@.len(),
            0 <= j < self.tools@.len(),
            self.tools@[i].name@ == self.tools@[j].name@,
        ensures
            i == j,
    {
        if i != j {
            lemma_text_less_irreflexive(self.tools@[i].name@);
        }
    }

    fn position(&self, name: &str) -> (r: (usize, bool))
        requires
            self.wf(),
        ensures
            r.0 <= self.tools@.len(),
            forall|i: int| 0 <= i < r.0 ==> text_less(#[trigger] self.tools@[i].name@, name@),
            r.1 == (r.0 < self.tools@.len() && self.tools@[r.0 as int].name@ == name@),
            !r.1 ==> forall|i: int| r.0 <= i < self.tools@.len() ==> text_less(name@, #[trigger] self.tools@[i].name@),
    {
        let mut k: usize = 0;
        while k < self.tools.len() && crate::llm_manager::less_str(self.tools[k].name.as_str(), name)
            invariant
                self.wf(),
                k <= self.tools@.len(),
                forall|i: int| 0 <= i < k ==> text_less(#[trigger] self.tools@[i].name@, name@),
            decreases self.tools.len() - k,
        {
            k = k + 1;
        }
        let found = k < self.tools.len() && crate::text::same_text(self.tools[k].name.as_str(), name);
        proof {
            if !found && k < self.tools@.len() {
                lemma_text_less_total(self.tools@[k as int].name@, name@);
                assert forall|i: int| k <= i < self.tools@.len() implies text_less(name@, #[trigger] self.tools@[i].name@) by {
                    if i > k {
                        lemma_text_less_transitive(name@, self.tools@[k as int].name@, self.tools@[i].name@);
                    }
                }
            }
        }
        (k, found)
    }

    /// Kind and danger of the tool `name` when the permission mode requires approval for it,
    /// `None` when it may run without approval.
    pub fn authorization(&self, name: &str) -> (r: Result<Option<(ToolKind, DangerLevel)>, ToolError>)
        requires
            self.wf(),
        ensures
            !self.spec_metadata().dom().contains(name@) ==> (r matches Err(ToolError::ToolNotFound { name: n })
                && n@ == name@),
            self.spec_metadata().dom().contains(name@) ==> {
                let (kind, danger) = self.spec_metadata()[name@];
                if needs_approval(self.spec_mode(), kind, danger) {
                    r == Ok::<Option<(ToolKind, DangerLevel)>, ToolError>(Some((kind, danger)))
                } else {
                    r == Ok::<Option<(ToolKind, DangerLevel)>, ToolError>(None)
                }
            },
            r == Ok::<Option<(ToolKind, DangerLevel)>, ToolError>(None) ==> self.spec_mode() is Allow || (
            self.spec_mode() is PartialAllow && self.spec_metadata()[name@] == (ToolKind::Read, DangerLevel::Low)),
            self.spec_mode() is RequireApproval ==> !(r == Ok::<Option<(ToolKind, DangerLevel)>, ToolError>(None)),
            self.spec_metadata().dom().contains(name@) && (self.spec_mode() is Allow || (self.spec_mode() is PartialAllow
                && self.spec_metadata()[name@] == (ToolKind::Read, DangerLevel::Low))) ==> r == Ok::<
                Option<(ToolKind, DangerLevel)>,
                ToolError,
            >(None),
    {
        let (k, found) = self.position(name);
        if !found {
            proof {
                if self.spec_metadata().dom().contains(name@) {
                    let i = choose|i: int| 0 <= i < self.tools@.len() && self.tools@[i].name@ == name@;
                    lemma_text_less_irreflexive(name@);
                }
            }
            return Err(ToolError::ToolNotFound { name: owned(name) });
        }
        proof {
            let i = choose|i: int| 0 <= i < self.tools@.len() && self.tools@[i].name@ == name@;
            self.lemma_unique(i, k as int);
        }
        let registered = &self.tools[k];
        let allowed = match self.permission_mode {
            ToolPermissionMode::Allow => true,
            ToolPermissionMode::PartialAllow => registered.tool_kind == ToolKind::Read && registered.danger_level
                == DangerLevel::Low,
            ToolPermissionMode::RequireApproval => false,
        };
        if allowed {
            Ok(None)
        } else {
            Ok(Some((registered.tool_kind, registered.danger_level)))
        }
    }

    /// The tool registered as `name`.
    pub fn get(&self, name: &str) -> (r: Option<&T>)
        requires
            self.wf(),
        ensures
            r is Some <==> self.spec_metadata().dom().contains(name@),
            self.spec_tools().dom() == self.spec_metadata().dom(),
            r matches Some(t) ==> *t == self.spec_tools()[name@],
    {
        assert(self.spec_tools().dom() =~= self.spec_metadata().dom());
        let (k, found) = self.position(name);
        if found {
            proof {
                let i = choose|i: int| 0 <= i < self.tools@.len() && self.tools@[i].name@ == name@;
                self.lemma_unique(i, k as int);
            }
            Some(&self.tools[k].tool)
        } else {
            proof {
                if self.spec_metadata().dom().contains(name@) {
                    let i = choose|i: int| 0 <= i < self.tools@.len() && self.tools@[i].name@ == name@;
                    lemma_text_less_irreflexive(name@);
                }
            }
            None
        }
    }

    /// Registers `tool` as `name` with its kind and danger; a name may be registered once.
    pub fn insert(&mut self, name: String, tool: T, tool_kind: ToolKind, danger_level: DangerLevel) -> (r: Result<
        (),
        ToolError,
    >)
        requires
            old(self).wf(),
        ensures
            final(self).wf(),
            final(self).spec_mode() == old(self).spec_mode(),
            old(self).spec_metadata().dom().contains(name@) ==> r == Err::<(), ToolError>(
                ToolError::DuplicateTool { name },
            ) && final(self).spec_metadata() == old(self).spec_metadata() && final(self).spec_tools() == old(
                self,
            ).spec_tools() && final(self).spec_names() == old(self).spec_names(),
            !old(self).spec_metadata().dom().contains(name@) ==> r is Ok && final(self).spec_metadata()
                == old(self).spec_metadata().insert(name@, (tool_kind, danger_level)) && final(self).spec_tools()
                == old(self).spec_tools().insert(name@, tool),
    {
        let (k, found) = self.position(name.as_str());
        if found {
            return Err(ToolError::DuplicateTool { name });
        }
        let ghost old_tools = self.tools@;
        let ghost key = name@;
        proof {
            if old(self).spec_metadata().dom().contains(key) {
                let i = choose|i: int| 0 <= i < old_tools.len() && old_tools[i].name@ == key;
                lemma_text_less_irreflexive(key);
            }
        }
        self.tools.insert(k, RegisteredTool { name, tool, tool_kind, danger_level });
        proof {
            let e = self.tools@;
            assert forall|i: int, j: int| 0 <= i < j < e.len() implies text_less(
                (#[trigger] e[i]).name@,
                (#[trigger] e[j]).name@,
            ) by {
                if j < k {
                    assert(e[i] == old_tools[i] && e[j] == old_tools[j]);
                } else if j == k {
                    assert(e[i] == old_tools[i]);
                } else if i < k {
                    assert(e[i] == old_tools[i] && e[j] == old_tools[j - 1]);
                    lemma_text_less_transitive(e[i].name@, key, e[j].name@);
                } else if i == k {
                    assert(e[j] == old_tools[j - 1]);
                } else {
                    assert(e[i] == old_tools[i - 1] && e[j] == old_tools[j - 1]);
                }
            }
            let m_old = old(self).spec_metadata();
            let m_new = self.spec_metadata();
            let target = m_old.insert(key, (tool_kind, danger_level));
            assert forall|x: Seq<char>| m_new.dom().contains(x) <==> target.dom().contains(x) by {
                if m_new.dom().contains(x) {
                    let i = choose|i: int| 0 <= i < e.len() && e[i].name@ == x;
                    if i < k {
                        assert(e[i] == old_tools[i]);
                    } else if i > k {
                        assert(e[i] == old_tools[i - 1]);
                    }
                }
                if m_old.dom().contains(x) {
                    let i = choose|i: int| 0 <= i < old_tools.len() && old_tools[i].name@ == x;
                    if i < k {
                        assert(e[i] == old_tools[i]);
                    } else {
                        assert(e[i + 1] == old_tools[i]);
                    }
                }
                if x == key {
                    assert(e[k as int].name@ == key);
                }
            }
            assert forall|x: Seq<char>| #[trigger] m_new.dom().contains(x) implies m_new[x] == target[x] by {
                let i = choose|i: int| 0 <= i < e.len() && e[i].name@ == x;
                if x == key {
                    self.lemma_unique(i, k as int);
                } else {
                    let oi = choose|oi: int| 0 <= oi < old_tools.len() && old_tools[oi].name@ == x;
                    if oi < k {
                        assert(e[oi] == old_tools[oi]);
                        self.lemma_unique(i, oi);
                    } else {
                        assert(e[oi + 1] == old_tools[oi]);
                        self.lemma_unique(i, oi + 1);
                    }
                }
            }
            assert(m_new =~= target);
            let t_old = old(self).spec_tools();
            let t_new = self.spec_tools();
            let t_target = t_old.insert(key, tool);
            assert(t_new.dom() =~= m_new.dom());
            assert(t_old.dom() =~= m_old.dom());
            assert forall|x: Seq<char>| #[trigger] t_new.dom().contains(x) implies t_new[x] == t_target[x] by {
                let i = choose|i: int| 0 <= i < e.len() && e[i].name@ == x;
                if x == key {
                    self.lemma_unique(i, k as int);
                } else {
                    let oi = choose|oi: int| 0 <= oi < old_tools.len() && old_tools[oi].name@ == x;
                    if oi < k {
                        assert(e[oi] == old_tools[oi]);
                        self.lemma_unique(i, oi);
                    } else {
                        assert(e[oi + 1] == old_tools[oi]);
                        self.lemma_unique(i, oi + 1);
                    }
                }
            }
            assert(t_new =~= t_target);
        }
        Ok(())
    }
}

impl<T: Tool> BuiltinToolRegistry<T> {
    /// Registers `tool` under the name its description gives.
    pub fn register(&mut self, tool: T, tool_kind: ToolKind, danger_level: DangerLevel) -> (r: Result<(), ToolError>)
        requires
            old(self).wf(),
        ensures
            final(self).wf(),
            final(self).spec_mode() == old(self).spec_mode(),
            ({
                let n = tool.described().name@;
                if old(self).spec_metadata().dom().contains(n) {
                    &&& r matches Err(ToolError::DuplicateTool { name }) && name@ == n
                    &&& final(self).spec_metadata() == old(self).spec_metadata()
                    &&& final(self).spec_tools() == old(self).spec_tools()
                } else {
                    &&& r is Ok
                    &&& final(self).spec_metadata() == old(self).spec_metadata().insert(n, (tool_kind, danger_level))
                    &&& final(self).spec_tools() == old(self).spec_tools().insert(n, tool)
                }
            }),
    {
        let name = tool.spec().name.clone();
        self.insert(name, tool, tool_kind, danger_level)
    }

    /// Descriptions of the registered tools, in name order.
    pub fn specs(&self) -> (r: Vec<ToolSpec>)
        ensures
            r@.map_values(|s: ToolSpec| s.name@) == self.spec_names(),
    {
        let mut r: Vec<ToolSpec> = Vec::new();
        let mut i: usize = 0;
        while i < self.tools.len()
            invariant
                i <= self.tools@.len(),
                r@.len() == i,
                forall|k: int| 0 <= k < i ==> (#[trigger] r@[k]).name@ == self.tools@[k].name@,
            decreases self.tools.len() - i,
        {
            let registered = &self.tools[i];
            let described = registered.tool.spec();
            r.push(
                ToolSpec {
                    name: registered.name.clone(),
                    description: described.description.clone(),
                    input_schema: described.input_schema.clone(),
                },
            );
            i = i + 1;
        }
        assert(r@.map_values(|s: ToolSpec| s.name@) =~= self.spec_names());
        r
    }
}

impl<T> Default for BuiltinToolRegistry<T> {
    fn default() -> (r: Self)
        ensures
            r.wf(),
            r.spec_mode() == ToolPermissionMode::Allow,
            r.spec_names().len() == 0,
            r.spec_metadata() == Map::<Seq<char>, (ToolKind, DangerLevel)>::empty(),
            r.spec_tools() == Map::<Seq<char>, T>::empty(),
    {
        BuiltinToolRegistry::new(ToolPermissionMode::Allow)
    }
}

/// Whether `arguments`, compact JSON text, is a JSON object.
pub open spec fn is_json_object(arguments: Seq<char>) -> bool {
    arguments.len() > 0 && arguments[0] == '{'
}

/// Builtin tool that returns its input arguments.
#[derive(Debug)]
pub struct EchoTool {
    /// The tool's description.
    pub spec: ToolSpec,
}

impl EchoTool {
    /// Creates an echo tool.
    pub fn new() -> (r: Self)
        ensures
            r.spec.name@ == "echo"@,
            r.spec.description@ == "returns input arguments"@,
            r.spec.input_schema@ == "{\"type\":\"object\"}"@,
    {
        EchoTool { spec: make_spec("echo", ECHO_DESCRIPTION, ECHO_SCHEMA) }
    }

    /// Accepts object arguments only.
    pub fn validate(&self, arguments: &str) -> (r: Result<(), ToolError>)
        ensures
            is_json_object(arguments@) ==> r is Ok,
            !is_json_object(arguments@) ==> r == Err::<(), ToolError>(
                ToolError::InvalidArgument { name: "arguments", reason: "must be an object" },
            ),
    {
        let cs = chars_of(arguments);
        if cs.len() > 0 && cs[0] == '{' {
            Ok(())
        } else {
            Err(ToolError::InvalidArgument { name: "arguments", reason: "must be an object" })
        }
    }

    /// The result of a call: the arguments themselves, once validated and unless cancelled.
    pub fn call(&self, arguments: String, cancelled: bool) -> (r: Result<String, ToolError>)
        ensures
            !is_json_object(arguments@) ==> r == Err::<String, ToolError>(
                ToolError::InvalidArgument { name: "arguments", reason: "must be an object" },
            ),
            is_json_object(arguments@) && cancelled ==> r == Err::<String, ToolError>(ToolError::Cancelled),
            is_json_object(arguments@) && !cancelled ==> r == Ok::<String, ToolError>(arguments),
    {
        match self.validate(arguments.as_str()) {
            Err(e) => return Err(e),
            Ok(()) => {},
        }
        if cancelled {
            return Err(ToolError::Cancelled);
        }
        Ok(arguments)
    }
}

impl Default for EchoTool {
    fn default() -> (r: Self)
        ensures
            r.spec.name@ == "echo"@,
    {
        EchoTool::new()
    }
}

impl Tool for EchoTool {
    open spec fn described(&self) -> ToolSpec {
        self.spec
    }

    fn spec(&self) -> (r: &ToolSpec)
        ensures
            *r == self.spec,
    {
        &self.spec
    }
}

/// The virtual path that a tool path argument names: relative paths are taken from the root.
pub open spec fn normalized_path_text(path: Seq<char>) -> Seq<char> {
    if path.len() > 0 && path[0] == '/' { path } else { "/"@ + path }
}

/// Normalizes a tool path argument to a virtual path.
pub fn normalize_path(path: &str) -> (r: Result<VirtualPath, ToolError>)
    ensures
        path@.len() == 0 ==> (r matches Err(ToolError::InvalidPath { path: p, .. }) && p@ == path@),
        path@.len() > 0 ==> match r {
            Ok(v) => v@ == normalized_path_text(path@) && is_virtual_path(v@),
            Err(e) => !is_virtual_path(normalized_path_text(path@)) && (e matches ToolError::InvalidPath {
                path: p,
                ..
            } && p@ == path@),
        },
{
    let cs = chars_of(path);
    if cs.len() == 0 {
        return Err(ToolError::InvalidPath { path: owned(path), source: VirtualPathError });
    }
    let mut text = String::new();
    proof {
        reveal_strlit("/");
    }
    if cs[0] != '/' {
        push_str(&mut text, "/");
    }
    push_str(&mut text, path);
    match VirtualPath::parse(text.as_str()) {
        Ok(v) => Ok(v),
        Err(source) => Err(ToolError::InvalidPath { path: owned(path), source }),
    }
}

/// How a tool shows a virtual path: without its leading slashes, `.` for the root.
pub open spec fn display_path_text(path: Seq<char>) -> Seq<char> {
    let k = leading_slashes(path);
    if k == path.len() { "."@ } else { path.skip(k as int) }
}

/// Number of leading `/` of `s`.
pub open spec fn leading_slashes(s: Seq<char>) -> nat
    decreases s.len(),
{
    if s.len() > 0 && s[0] == '/' { 1 + leading_slashes(s.drop_first()) } else { 0 }
}

proof fn lemma_leading_slashes(s: Seq<char>, k: int)
    requires
        0 <= k <= s.len(),
        forall|j: int| 0 <= j < k ==> s[j] == '/',
        k == s.len() || s[k] != '/',
    ensures
        leading_slashes(s) == k,
    decreases k,
{
    if k > 0 {
        lemma_leading_slashes(s.drop_first(), k - 1);
    }
}

/// Shows a virtual path the way tool results do.
pub fn display_path(path: &VirtualPath) -> (r: String)
    ensures
        r@ == display_path_text(path@),
{
    let cs = chars_of(path.as_str());
    let mut k: usize = 0;
    while k < cs.len() && cs[k] == '/'
        invariant
            cs@ == path@,
            k <= cs@.len(),
            forall|j: int| 0 <= j < k ==> cs@[j] == '/',
        decreases cs.len() - k,
    {
        k = k + 1;
    }
    proof {
        lemma_leading_slashes(path@, k as int);
        reveal_strlit(".");
    }
    if k == cs.len() {
        owned(".")
    } else {
        let r = string_of_chars(&cs, k, cs.len());
        assert(r@ =~= path@.skip(k as int));
        r
    }
}

/// Kind of a filesystem entry.
#[derive(Debug, Clone, Copy, PartialEq, Eq, Structural)]
pub enum FileType {
    /// A regular file.
    File,
    /// A directory.
    Directory,
    /// A symbolic link.
    Symlink,
    /// Anything else.
    Other,
}

/// The label a tool result gives an entry kind.
pub fn file_type_label(file_type: FileType) -> (r: &'static str)
    ensures
        file_type == FileType::File ==> r@ == "file"@,
        file_type == FileType::Directory ==> r@ == "directory"@,
        file_type == FileType::Symlink ==> r@ == "symlink"@,
        file_type == FileType::Other ==> r@ == "other"@,
{
    match file_type {
        FileType::File => "file",
        FileType::Directory => "directory",
        FileType::Symlink => "symlink",
        FileType::Other => "other",
    }
}

/// Kind of a patch operation.
#[derive(Debug, Clone, Copy, PartialEq, Eq, Structural)]
pub enum ApplyPatchOperationKind {
    /// Create a file.
    CreateFile,
    /// Update a file.
    UpdateFile,
    /// Delete a file.
    DeleteFile,
}

/// One patch operation on a virtual path.
#[derive(Debug)]
pub struct ApplyPatchOperation {
    /// What to do.
    pub kind: ApplyPatchOperationKind,
    /// Where.
    pub path: VirtualPath,
    /// The diff, for creations and updates.
    pub diff: Option<String>,
}

/// Builds a patch operation from the tool's raw `type`, `path` and `diff` arguments.
pub fn operation_from_raw(kind: String, path: &str, diff: Option<String>) -> (r: Result<ApplyPatchOperation, ToolError>)
    ensures
        !(kind@ == "create_file"@ || kind@ == "update_file"@ || kind@ == "delete_file"@) ==> r == Err::<
            ApplyPatchOperation,
            ToolError,
        >(ToolError::InvalidOperation { operation: kind }),
        (kind@ == "create_file"@ || kind@ == "update_file"@ || kind@ == "delete_file"@) ==> match r {
            Ok(op) => {
                &&& kind@ == "create_file"@ ==> op.kind == ApplyPatchOperationKind::CreateFile
                &&& kind@ == "update_file"@ ==> op.kind == ApplyPatchOperationKind::UpdateFile
                &&& kind@ == "delete_file"@ ==> op.kind == ApplyPatchOperationKind::DeleteFile
                &&& op.path@ == normalized_path_text(path@)
                &&& op.diff == diff
                &&& path@.len() > 0
            },
            Err(e) => e is InvalidPath,
        },
{
    proof {
        reveal_strlit("create_file");
        reveal_strlit("update_file");
        reveal_strlit("delete_file");
        assert("create_file"@[0] != "update_file"@[0]);
        assert("create_file"@[0] != "delete_file"@[0]);
        assert("update_file"@[0] != "delete_file"@[0]);
    }
    let k = if crate::text::same_text(kind.as_str(), "create_file") {
        ApplyPatchOperationKind::CreateFile
    } else if crate::text::same_text(kind.as_str(), "update_file") {
        ApplyPatchOperationKind::UpdateFile
    } else if crate::text::same_text(kind.as_str(), "delete_file") {
        ApplyPatchOperationKind::DeleteFile
    } else {
        return Err(ToolError::InvalidOperation { operation: kind });
    };
    let path = match normalize_path(path) {
        Ok(p) => p,
        Err(e) => return Err(e),
    };
    Ok(ApplyPatchOperation { kind: k, path, diff })
}

/// The output of a successful patch on the displayed path `path`.
pub fn success_output(kind: ApplyPatchOperationKind, path: &str) -> (r: String)
    ensures
        kind == ApplyPatchOperationKind::CreateFile ==> r@ == "created "@ + path@,
        kind == ApplyPatchOperationKind::UpdateFile ==> r@ == "updated "@ + path@,
        kind == ApplyPatchOperationKind::DeleteFile ==> r@ == "deleted "@ + path@,
{
    let mut r = String::new();
    match kind {
        ApplyPatchOperationKind::CreateFile => push_str(&mut r, "created "),
        ApplyPatchOperationKind::UpdateFile => push_str(&mut r, "updated "),
        ApplyPatchOperationKind::DeleteFile => push_str(&mut r, "deleted "),
    }
    push_str(&mut r, path);
    r
}

/// The output of a patch that the filesystem refused, on the displayed path `path`.
pub open spec fn filesystem_failure_text(error: FilesystemError, path: Seq<char>) -> Seq<char> {
    match error {
        FilesystemError::NotFound { .. } => "file not found at path '"@ + path + "'"@,
        FilesystemError::AlreadyExists { .. } => "file already exists at path '"@ + path + "'"@,
        _ => filesystem_error_text(error),
    }
}

/// The output of a patch that the filesystem refused, on the displayed path `path`.
pub fn filesystem_error_output(error: &FilesystemError, path: &str) -> (r: String)
    ensures
        r@ == filesystem_failure_text(*error, path@),
{
    match error {
        FilesystemError::NotFound { .. } => {
            let mut r = owned("file not found at path '");
            push_str(&mut r, path);
            push_str(&mut r, "'");
            r
        },
        FilesystemError::AlreadyExists { .. } => {
            let mut r = owned("file already exists at path '");
            push_str(&mut r, path);
            push_str(&mut r, "'");
            r
        },
        _ => error.text(),
    }
}

/// Failure of applying a patch.
#[derive(Debug)]
pub enum ApplyPatchError {
    /// A creation or update came without its diff.
    MissingDiff { operation: String },
    /// The diff's context lines are not in the file.
    ContextMismatch { path: VirtualPath },
    /// The filesystem failed.
    Filesystem { source: FilesystemError },
}

/// The output of a patch that failed, on the displayed path `path`.
pub fn failed_output(error: &ApplyPatchError, path: &str) -> (r: String)
    ensures
        match *error {
            ApplyPatchError::MissingDiff { operation } => r@ == "patch diff is required for "@ + operation@,
            ApplyPatchError::ContextMismatch { .. } => r@ == "patch context did not match "@ + path@,
            ApplyPatchError::Filesystem { source } => r@ == filesystem_failure_text(source, path@),
        },
{
    match error {
        ApplyPatchError::MissingDiff { operation } => {
            let mut r = owned("patch diff is required for ");
            push_str(&mut r, operation.as_str());
            r
        },
        ApplyPatchError::ContextMismatch { .. } => {
            let mut r = owned("patch context did not match ");
            push_str(&mut r, path);
            r
        },
        ApplyPatchError::Filesystem { source } => filesystem_error_output(source, path),
    }
}

/// Builtin tool that applies file patches through a virtual filesystem.
pub struct ApplyPatchTool<F> {
    /// The filesystem the tool works on.
    pub filesystem: F,
    /// The tool's description.
    pub spec: ToolSpec,
}

impl<F> ApplyPatchTool<F> {
    /// Creates an apply-patch tool with an explicit filesystem.
    pub fn new(filesystem: F) -> (r: Self)
        ensures
            r.filesystem == filesystem,
            r.spec.name@ == "apply_patch"@,
            r.spec.description@ == APPLY_PATCH_DESCRIPTION@,
            r.spec.input_schema@ == APPLY_PATCH_SCHEMA@,
    {
        ApplyPatchTool {
            filesystem,
            spec: make_spec("apply_patch", APPLY_PATCH_DESCRIPTION, APPLY_PATCH_SCHEMA),
        }
    }
}

impl<F> Tool for ApplyPatchTool<F> {
    open spec fn described(&self) -> ToolSpec {
        self.spec
    }

    fn spec(&self) -> (r: &ToolSpec)
        ensures
            *r == self.spec,
    {
        &self.spec
    }
}

/// Builtin tool that returns metadata for one filesystem path.
pub struct FileMetadataTool<F> {
    /// The filesystem the tool works on.
    pub filesystem: F,
    /// The tool's description.
    pub spec: ToolSpec,
}

impl<F> FileMetadataTool<F> {
    /// Creates a file-metadata tool with an explicit filesystem.
    pub fn new(filesystem: F) -> (r: Self)
        ensures
            r.filesystem == filesystem,
            r.spec.name@ == "file_metadata"@,
            r.spec.description@ == FILE_METADATA_DESCRIPTION@,
            r.spec.input_schema@ == PATH_SCHEMA@,
    {
        FileMetadataTool {
            filesystem,
            spec: make_spec("file_metadata", FILE_METADATA_DESCRIPTION, PATH_SCHEMA),
        }
    }
}

impl<F> Tool for FileMetadataTool<F> {
    open spec fn described(&self) -> ToolSpec {
        self.spec
    }

    fn spec(&self) -> (r: &ToolSpec)
        ensures
            *r == self.spec,
    {
        &self.spec
    }
}

/// Builtin tool that lists one directory.
pub struct ListDirTool<F> {
    /// The filesystem the tool works on.
    pub filesystem: F,
    /// The tool's description.
    pub spec: ToolSpec,
}

impl<F> ListDirTool<F> {
    /// Creates a list-directory tool with an explicit filesystem.
    pub fn new(filesystem: F) -> (r: Self)
        ensures
            r.filesystem == filesystem,
            r.spec.name@ == "list_dir"@,
            r.spec.description@ == LIST_DIR_DESCRIPTION@,
            r.spec.input_schema@ == PATH_SCHEMA@,
    {
        ListDirTool {
            filesystem,
            spec: make_spec("list_dir", LIST_DIR_DESCRIPTION, PATH_SCHEMA),
        }
    }
}

impl<F> Tool for ListDirTool<F> {
    open spec fn described(&self) -> ToolSpec {
        self.spec
    }

    fn spec(&self) -> (r: &ToolSpec)
        ensures
            *r == self.spec,
    {
        &self.spec
    }
}

/// Builtin tool that searches text files under a virtual filesystem path.
pub struct SearchTextTool<F> {
    /// The filesystem the tool works on.
    pub filesystem: F,
    /// The tool's description.
    pub spec: ToolSpec,
}

impl<F> SearchTextTool<F> {
    /// Creates a text-search tool with an explicit filesystem.
    pub fn new(filesystem: F) -> (r: Self)
        ensures
            r.filesystem == filesystem,
            r.spec.name@ == "search_text"@,
            r.spec.description@ == SEARCH_TEXT_DESCRIPTION@,
            r.spec.input_schema@ == SEARCH_TEXT_SCHEMA@,
    {
        SearchTextTool {
            filesystem,
            spec: make_spec("search_text", SEARCH_TEXT_DESCRIPTION, SEARCH_TEXT_SCHEMA),
        }
    }
}

impl<F> Tool for SearchTextTool<F> {
    open spec fn described(&self) -> ToolSpec {
        self.spec
    }

    fn spec(&self) -> (r: &ToolSpec)
        ensures
            *r == self.spec,
    {
        &self.spec
    }
}

} // verus!
