//! The server surface of a plugin: the tools it offers, with their metadata.

use vstd::prelude::*;

use crate::permissions::Permissions;

verus! {

/// A tool offered by a plugin: its handler and its metadata.
///
/// It is built by `new` and the `with_*` methods only, so that fields added
/// later break no caller. `H` is the handler; the plugin host keeps it as a
/// shared pointer to its tool-handler trait object.
#[derive(Clone)]
#[non_exhaustive]
pub struct ToolDescriptor<H> {
    handler: H,
    input_schema: Option<serde_json::Value>,
    required_permissions: Permissions,
    annotations: Option<serde_json::Value>,
}

/// What a descriptor holds.
pub struct DescriptorFields<H> {
    /// The handler of the tool.
    pub handler: H,
    /// The JSON schema of the tool's arguments, if one was given.
    pub input_schema: Option<serde_json::Value>,
    /// The permissions that a call of the tool requires.
    pub required_permissions: Permissions,
    /// The MCP annotations of the tool, if any were given.
    pub annotations: Option<serde_json::Value>,
}

/// One call of a `with_*` builder, with its argument.
pub enum BuilderStep {
    InputSchema(serde_json::Value),
    RequiredPermissions(Permissions),
    Annotations(serde_json::Value),
}

/// What `new(handler)` holds: no schema, no permission required, no annotations.
pub open spec fn fields_of_new<H>(handler: H) -> DescriptorFields<H> {
    DescriptorFields {
        handler,
        input_schema: None,
        required_permissions: Permissions::EMPTY,
        annotations: None,
    }
}

impl<H> DescriptorFields<H> {
    /// What a descriptor holds after the builder call `step`: that call's field
    /// is replaced, every other field is kept.
    pub open spec fn apply(self, step: BuilderStep) -> DescriptorFields<H> {
        match step {
            BuilderStep::InputSchema(schema) => DescriptorFields {
                input_schema: Some(schema),
                ..self
            },
            BuilderStep::RequiredPermissions(perms) => DescriptorFields {
                required_permissions: perms,
                ..self
            },
            BuilderStep::Annotations(ann) => DescriptorFields { annotations: Some(ann), ..self },
        }
    }
}

/// What a descriptor holds after the builder calls `steps`, in order.
pub open spec fn apply_steps<H>(start: DescriptorFields<H>, steps: Seq<BuilderStep>) -> DescriptorFields<H>
    decreases steps.len(),
{
    if steps.len() == 0 {
        start
    } else {
        apply_steps(start, steps.drop_last()).apply(steps.last())
    }
}

/// The schema of the last `with_input_schema` among `steps`, if there is one.
pub open spec fn last_input_schema(steps: Seq<BuilderStep>) -> Option<serde_json::Value>
    decreases steps.len(),
{
    if steps.len() == 0 {
        None
    } else if let BuilderStep::InputSchema(schema) = steps.last() {
        Some(schema)
    } else {
        last_input_schema(steps.drop_last())
    }
}

/// The permissions of the last `with_required_permissions` among `steps`,
/// or the empty value where there is none.
pub open spec fn last_required_permissions(steps: Seq<BuilderStep>) -> Permissions
    decreases steps.len(),
{
    if steps.len() == 0 {
        Permissions::EMPTY
    } else if let BuilderStep::RequiredPermissions(perms) = steps.last() {
        perms
    } else {
        last_required_permissions(steps.drop_last())
    }
}

/// The annotations of the last `with_annotations` among `steps`, if there is one.
pub open spec fn last_annotations(steps: Seq<BuilderStep>) -> Option<serde_json::Value>
    decreases steps.len(),
{
    if steps.len() == 0 {
        None
    } else if let BuilderStep::Annotations(ann) = steps.last() {
        Some(ann)
    } else {
        last_annotations(steps.drop_last())
    }
}

/// After `new(handler)` and any sequence of builder calls, the descriptor
/// keeps its handler, and each field holds what the last builder call of that
/// field set, or its default (no schema, no permission, no annotations) where
/// no such call was made.
pub proof fn lemma_builder_sequence<H>(handler: H, steps: Seq<BuilderStep>)
    ensures
        apply_steps(fields_of_new(handler), steps) == (DescriptorFields {
            handler,
            input_schema: last_input_schema(steps),
            required_permissions: last_required_permissions(steps),
            annotations: last_annotations(steps),
        }),
    decreases steps.len(),
{
    if steps.len() > 0 {
        lemma_builder_sequence(handler, steps.drop_last());
    }
}

impl<H> View for ToolDescriptor<H> {
    type V = DescriptorFields<H>;

    closed spec fn view(&self) -> DescriptorFields<H> {
        DescriptorFields {
            handler: self.handler,
            input_schema: self.input_schema,
            required_permissions: self.required_permissions,
            annotations: self.annotations,
        }
    }
}

impl<H> ToolDescriptor<H> {
    /// A descriptor with no schema, no annotations, and no permission required.
    pub fn new(handler: H) -> (d: ToolDescriptor<H>)
        ensures
            d@ == fields_of_new(handler),
    {
        ToolDescriptor {
            handler,
            input_schema: None,
            required_permissions: Permissions::empty(),
            annotations: None,
        }
    }

    /// The same descriptor with the argument schema `schema`.
    pub fn with_input_schema(self, schema: serde_json::Value) -> (d: ToolDescriptor<H>)
        ensures
            d@ == self@.apply(BuilderStep::InputSchema(schema)),
    {
        let mut d = self;
        d.input_schema = Some(schema);
        d
    }

    /// The same descriptor requiring the permissions `perms`.
    pub fn with_required_permissions(self, perms: Permissions) -> (d: ToolDescriptor<H>)
        ensures
            d@ == self@.apply(BuilderStep::RequiredPermissions(perms)),
    {
        let mut d = self;
        d.required_permissions = perms;
        d
    }

    /// The same descriptor with the annotations `ann`.
    pub fn with_annotations(self, ann: serde_json::Value) -> (d: ToolDescriptor<H>)
        ensures
            d@ == self@.apply(BuilderStep::Annotations(ann)),
    {
        let mut d = self;
        d.annotations = Some(ann);
        d
    }

    pub fn input_schema(&self) -> (s: Option<&serde_json::Value>)
        ensures
            s is Some <==> self@.input_schema is Some,
            s is Some ==> *s->0 == self@.input_schema->0,
    {
        self.input_schema.as_ref()
    }

    pub fn required_permissions(&self) -> (p: Permissions)
        ensures
            p == self@.required_permissions,
    {
        self.required_permissions
    }

    pub fn annotations(&self) -> (a: Option<&serde_json::Value>)
        ensures
            a is Some <==> self@.annotations is Some,
            a is Some ==> *a->0 == self@.annotations->0,
    {
        self.annotations.as_ref()
    }

    /// The handler, for the transport adapter. Plugin code mostly needs only
    /// the metadata.
    pub fn handler(&self) -> (h: &H)
        ensures
            *h == self@.handler,
    {
        &self.handler
    }
}

} // verus!
