use vstd::prelude::*;

verus! {

#[verifier::external_type_specification]
#[verifier::external_body]
pub struct ExValue(serde_json::Value);

#[verifier::external_type_specification]
#[verifier::external_body]
pub struct ExYamlError(serde_yaml::Error);

/// The JSON Pointer of an object's name.
pub const NAME_POINTER: &'static str = "/metadata/name";

/// The JSON Pointer of an object's namespace.
pub const NAMESPACE_POINTER: &'static str = "/metadata/namespace";

/// A metadata field that applying an object needs.
#[derive(Clone, Copy, Debug, PartialEq, Eq, Structural)]
pub enum MetadataField {
    Name,
    Namespace,
}

/// Why a projection or a YAML operation failed.
#[derive(Clone, Copy, Debug, PartialEq, Eq, Structural)]
pub enum ProjectionError {
    /// A required metadata field is absent, not a string, or empty.
    MissingField(MetadataField),
    /// The input text is not a YAML document.
    MalformedInput,
    /// The object could not be rendered as YAML.
    SerializationFailure,
}

/// A parsed object ready to be submitted as a server-side apply patch.
#[derive(Debug)]
pub struct ApplyRequest {
    pub name: String,
    pub namespace: String,
    pub object: serde_json::Value,
}

/// The text of each string held in a JSON value, keyed by the JSON Pointer
/// that reaches it.
pub uninterp spec fn string_leaves(v: serde_json::Value) -> Map<Seq<char>, Seq<char>>;

/// What parsing YAML text into a JSON value gives: `None` where the text is
/// rejected, else the string leaves of the document.
pub uninterp spec fn yaml_string_leaves(text: Seq<char>) -> Option<Map<Seq<char>, Seq<char>>>;

/// The YAML text of a JSON value, `None` where rendering fails.
pub uninterp spec fn rendered_yaml(v: serde_json::Value) -> Option<Seq<char>>;

/// Relies on `serde_json::Value::pointer`: the value reached by a JSON
/// Pointer, kept here only when it is a string.
#[verifier::external_body]
fn string_at(v: &serde_json::Value, pointer: &str) -> (r: Option<String>)
    ensures
        r is Some <==> string_leaves(*v).contains_key(pointer@),
        r matches Some(s) ==> s@ == string_leaves(*v)[pointer@],
{
    match v.pointer(pointer) {
        Some(serde_json::Value::String(s)) => Some(s.clone()),
        _ => None,
    }
}

/// Relies on `serde_yaml::from_str`: parses YAML text into a JSON value.
#[verifier::external_body]
fn parse_yaml_value(text: &str) -> (r: Result<serde_json::Value, serde_yaml::Error>)
    ensures
        match r {
            Ok(v) => yaml_string_leaves(text@) == Some(string_leaves(v)),
            Err(_) => yaml_string_leaves(text@) is None,
        },
{
    serde_yaml::from_str(text)
}

/// Relies on `serde_yaml::to_string`: renders a JSON value as YAML text.
#[verifier::external_body]
fn render_yaml(v: &serde_json::Value) -> (r: Result<String, serde_yaml::Error>)
    ensures
        match r {
            Ok(s) => rendered_yaml(*v) == Some(s@),
            Err(_) => rendered_yaml(*v) is None,
        },
{
    serde_yaml::to_string(v)
}

/// The string found at a pointer, if any.
pub open spec fn leaf(leaves: Map<Seq<char>, Seq<char>>, pointer: Seq<char>) -> Option<Seq<char>> {
    if leaves.contains_key(pointer) {
        Some(leaves[pointer])
    } else {
        None
    }
}

/// The view of an optional string.
pub open spec fn opt_text(o: Option<String>) -> Option<Seq<char>> {
    match o {
        Some(s) => Some(s@),
        None => None,
    }
}

/// A field counts as present when it holds a non-empty string.
pub open spec fn present(o: Option<Seq<char>>) -> bool {
    o matches Some(s) && s.len() > 0
}

/// The name and namespace that an apply targets, or the first of the two
/// that is missing.
pub open spec fn apply_target(name: Option<Seq<char>>, namespace: Option<Seq<char>>) -> Result<
    (Seq<char>, Seq<char>),
    ProjectionError,
> {
    if !present(name) {
        Err(ProjectionError::MissingField(MetadataField::Name))
    } else if !present(namespace) {
        Err(ProjectionError::MissingField(MetadataField::Namespace))
    } else {
        Ok((name->Some_0, namespace->Some_0))
    }
}

/// The outcome of preparing YAML text for apply.
pub open spec fn apply_outcome(text: Seq<char>) -> Result<(Seq<char>, Seq<char>), ProjectionError> {
    match yaml_string_leaves(text) {
        None => Err(ProjectionError::MalformedInput),
        Some(leaves) => apply_target(leaf(leaves, NAME_POINTER@), leaf(leaves, NAMESPACE_POINTER@)),
    }
}

/// Checks the name and namespace read from a document to be applied.
pub fn check_apply_target(name: Option<String>, namespace: Option<String>) -> (r: Result<
    (String, String),
    ProjectionError,
>)
    ensures
        match apply_target(opt_text(name), opt_text(namespace)) {
            Ok((n, ns)) => r matches Ok((a, b)) && a@ == n && b@ == ns,
            Err(e) => r == Err::<(String, String), ProjectionError>(e),
        },
{
    match name {
        Some(n) if n.as_str().unicode_len() > 0 => match namespace {
            Some(ns) if ns.as_str().unicode_len() > 0 => Ok((n, ns)),
            _ => Err(ProjectionError::MissingField(MetadataField::Namespace)),
        },
        _ => Err(ProjectionError::MissingField(MetadataField::Name)),
    }
}

/// Builds an apply request from a parsed document: its name and namespace
/// come from `metadata`, and the document itself is the patch.
pub fn apply_request_from_value(object: serde_json::Value) -> (r: Result<
    ApplyRequest,
    ProjectionError,
>)
    ensures
        match apply_target(
            leaf(string_leaves(object), NAME_POINTER@),
            leaf(string_leaves(object), NAMESPACE_POINTER@),
        ) {
            Ok((n, ns)) => r matches Ok(a) && a.name@ == n && a.namespace@ == ns && a.object
                == object,
            Err(e) => r == Err::<ApplyRequest, ProjectionError>(e),
        },
{
    let name = string_at(&object, NAME_POINTER);
    let namespace = string_at(&object, NAMESPACE_POINTER);
    match check_apply_target(name, namespace) {
        Ok((name, namespace)) => Ok(ApplyRequest { name, namespace, object }),
        Err(e) => Err(e),
    }
}

/// Parses YAML text for a server-side apply.
///
/// Text that is not YAML gives `MalformedInput`; a document without a
/// non-empty string at `metadata.name` or `metadata.namespace` gives
/// `MissingField`; otherwise the request carries both verbatim and the whole
/// document.
pub fn parse_yaml_for_apply(text: &str) -> (r: Result<ApplyRequest, ProjectionError>)
    ensures
        match apply_outcome(text@) {
            Ok((n, ns)) => r matches Ok(a) && a.name@ == n && a.namespace@ == ns
                && yaml_string_leaves(text@) == Some(string_leaves(a.object)),
            Err(e) => r == Err::<ApplyRequest, ProjectionError>(e),
        },
{
    match parse_yaml_value(text) {
        Ok(object) => apply_request_from_value(object),
        Err(_) => Err(ProjectionError::MalformedInput),
    }
}

/// Renders a resource object as YAML text, for viewing or editing its full
/// definition.
pub fn to_yaml_text(object: &serde_json::Value) -> (r: Result<String, ProjectionError>)
    ensures
        match rendered_yaml(*object) {
            Some(text) => r matches Ok(s) && s@ == text,
            None => r == Err::<String, ProjectionError>(ProjectionError::SerializationFailure),
        },
{
    match render_yaml(object) {
        Ok(s) => Ok(s),
        Err(_) => Err(ProjectionError::SerializationFailure),
    }
}

/// The text that reports an error to the user.
pub open spec fn error_text(e: ProjectionError) -> Seq<char> {
    match e {
        ProjectionError::MissingField(MetadataField::Name) => "Pod name not found"@,
        ProjectionError::MissingField(MetadataField::Namespace) => "Namespace not found"@,
        ProjectionError::MalformedInput => "Input is not a valid YAML document"@,
        ProjectionError::SerializationFailure => "Object could not be rendered as YAML"@,
    }
}

impl ProjectionError {
    /// The message shown to the user for this error.
    pub fn message(&self) -> (r: String)
        ensures
            r@ == error_text(*self),
    {
        match self {
            ProjectionError::MissingField(MetadataField::Name) => String::from_str("Pod name not found"),
            ProjectionError::MissingField(MetadataField::Namespace) => String::from_str(
                "Namespace not found",
            ),
            ProjectionError::MalformedInput => String::from_str("Input is not a valid YAML document"),
            ProjectionError::SerializationFailure => String::from_str(
                "Object could not be rendered as YAML",
            ),
        }
    }
}

/// The confirmation reported once a pod has been applied.
pub open spec fn applied_text(name: Seq<char>, namespace: Seq<char>) -> Seq<char> {
    "Successfully applied changes to pod "@ + name + " in namespace "@ + namespace
}

/// Writes the confirmation for an applied pod.
pub fn applied_message(name: &str, namespace: &str) -> (r: String)
    ensures
        r@ == applied_text(name@, namespace@),
{
    let head = String::from_str("Successfully applied changes to pod ").concat(name);
    head.concat(" in namespace ").concat(namespace)
}

/// Lacking a namespace, a YAML document is refused for apply with a
/// missing-field error.
pub proof fn lemma_apply_needs_namespace(text: Seq<char>)
    requires
        yaml_string_leaves(text) matches Some(leaves) && !leaves.contains_key(NAMESPACE_POINTER@),
    ensures
        apply_outcome(text) matches Err(ProjectionError::MissingField(_)),
{
}

/// A YAML document with a non-empty name and namespace is accepted for apply,
/// and the request carries both exactly as written.
pub proof fn lemma_apply_keeps_identity(text: Seq<char>)
    requires
        yaml_string_leaves(text) matches Some(leaves) && present(leaf(leaves, NAME_POINTER@))
            && present(leaf(leaves, NAMESPACE_POINTER@)),
    ensures
        apply_outcome(text) == Ok::<(Seq<char>, Seq<char>), ProjectionError>(
            (
                yaml_string_leaves(text)->Some_0[NAME_POINTER@],
                yaml_string_leaves(text)->Some_0[NAMESPACE_POINTER@],
            ),
        ),
{
}

} // verus!
