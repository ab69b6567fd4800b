//! JSON schemas of what tools take and of what they hand back.
use crate::json::{
    boolean, collected, empty_object, field, law_put_get, no_fields, no_trees, text, ArrayBuilder,
    Field, Json, ObjectBuilder, Tree,
};
use crate::text::str_eq;
use crate::tool_runtime::manifest::ToolMetadata;
use vstd::prelude::*;

verus! {

/// An argument of a tool.
#[verifier::ext_equal]
pub struct Argument {
    pub name: Seq<char>,
    pub kind: Seq<char>,
    pub description: Seq<char>,
    pub required: bool,
}

/// An argument by its name, its kind, its description and whether it has to be there.
pub open spec fn argument(
    name: Seq<char>,
    kind: Seq<char>,
    description: Seq<char>,
    required: bool,
) -> Argument {
    Argument { name, kind, description, required }
}

/// A tool without arguments.
#[verifier::inline]
pub open spec fn no_arguments() -> Seq<Argument> {
    Seq::empty()
}

/// The arguments that the rows stand for.
pub open spec fn arguments(rows: Seq<(&str, &str, &str, bool)>) -> Seq<Argument> {
    Seq::new(rows.len(), |i: int| argument(rows[i].0@, rows[i].1@, rows[i].2@, rows[i].3))
}

/// A schema of a kind.
pub open spec fn typed(kind: Seq<char>, description: Seq<char>) -> Tree {
    Tree::Object(
        no_fields()
            .push(field("type"@, Tree::Text(kind)))
            .push(field("description"@, Tree::Text(description))),
    )
}

/// The schema of a bare kind.
pub open spec fn bare(kind: Seq<char>) -> Tree {
    Tree::Object(no_fields().push(field("type"@, Tree::Text(kind))))
}

/// A schema of a kind, or null.
pub open spec fn nullable(kind: Seq<char>, description: Seq<char>) -> Tree {
    Tree::Object(
        no_fields()
            .push(field("anyOf"@, Tree::Array(no_trees().push(bare(kind)).push(bare("null"@)))))
            .push(field("description"@, Tree::Text(description))),
    )
}

/// The schema of an array.
pub open spec fn array_of(items: Tree, description: Seq<char>) -> Tree {
    Tree::Object(
        no_fields()
            .push(field("type"@, Tree::Text("array"@)))
            .push(field("items"@, items))
            .push(field("description"@, Tree::Text(description))),
    )
}

/// The schema of an object of which nothing more is said.
pub open spec fn open_object(description: Seq<char>) -> Tree {
    Tree::Object(
        no_fields()
            .push(field("type"@, Tree::Text("object"@)))
            .push(field("description"@, Tree::Text(description)))
            .push(field("additionalProperties"@, Tree::Bool(true))),
    )
}

/// The schema of an argument: an array is one of strings.
pub open spec fn argument_schema(a: Argument) -> Tree {
    if a.kind == "array"@ {
        array_of(bare("string"@), a.description)
    } else {
        typed(a.kind, a.description)
    }
}

/// The schemas of the arguments under their names. Of two with one name the later counts.
pub open spec fn argument_properties(args: Seq<Argument>) -> Tree
    decreases args.len(),
{
    if args.len() == 0 {
        Tree::Object(Seq::empty())
    } else {
        argument_properties(args.drop_last()).put(args.last().name, argument_schema(args.last()))
    }
}

/// The names of the arguments that have to be there.
pub open spec fn required_names(args: Seq<Argument>) -> Seq<Tree>
    decreases args.len(),
{
    if args.len() == 0 {
        Seq::empty()
    } else if args.last().required {
        required_names(args.drop_last()).push(Tree::Text(args.last().name))
    } else {
        required_names(args.drop_last())
    }
}

/// The schema of an object that holds the arguments and nothing else.
pub open spec fn arguments_schema(args: Seq<Argument>) -> Tree {
    Tree::Object(
        no_fields()
            .push(field("type"@, Tree::Text("object"@)))
            .push(field("properties"@, argument_properties(args)))
            .push(field("required"@, Tree::Array(required_names(args))))
            .push(field("additionalProperties"@, Tree::Bool(false))),
    )
}

/// The optional session of a call.
pub open spec fn session_argument() -> Argument {
    argument(
        "session_id"@,
        "string"@,
        "Optional wc_sess_* id returned by start_session. When provided, this tool call is recorded in that session."@,
        false,
    )
}

/// The schema of an object with the given fields, each a name, a kind, a description and
/// whether it has to be there.
pub fn object_schema(fields: Vec<(&str, &str, &str, bool)>) -> (r: Json)
    ensures
        r@ == arguments_schema(arguments(fields@)),
{
    fields_schema(&fields)
}

/// The schema of an object with the given fields.
pub fn fields_schema(fields: &Vec<(&str, &str, &str, bool)>) -> (r: Json)
    ensures
        r@ == arguments_schema(arguments(fields@)),
{
    let ghost all = arguments(fields@);
    let mut properties = empty_object();
    let mut required = ArrayBuilder::new();
    let mut i: usize = 0;
    assert(all.take(0) =~= Seq::empty());
    while i < fields.len()
        invariant
            i <= fields@.len(),
            all == arguments(fields@),
            properties@ == argument_properties(all.take(i as int)),
            required@ == required_names(all.take(i as int)),
        decreases fields@.len() - i,
    {
        proof {
            assert(all.take(i + 1).drop_last() =~= all.take(i as int));
            assert(all.take(i + 1).last() == all[i as int]);
        }
        let row = fields[i];
        let schema = if str_eq(row.1, "array") {
            array_schema(bare_schema("string"), row.2)
        } else {
            schema_type(row.1, row.2)
        };
        properties.set(row.0, schema);
        if row.3 {
            required = required.with_text(row.0);
        }
        i = i + 1;
    }
    assert(all.take(i as int) =~= all);
    ObjectBuilder::new()
        .with("type", text("object"))
        .with("properties", properties)
        .with("required", required.build())
        .with("additionalProperties", boolean(false))
        .build()
}

/// The fields with an optional session behind them.
pub fn with_optional_session_id(
    fields: Vec<(&'static str, &'static str, &'static str, bool)>,
) -> (r: Vec<(&'static str, &'static str, &'static str, bool)>)
    ensures
        arguments(r@) == arguments(fields@).push(session_argument()),
{
    let ghost before = arguments(fields@);
    let mut fields = fields;
    fields.push((
        "session_id",
        "string",
        "Optional wc_sess_* id returned by start_session. When provided, this tool call is recorded in that session.",
        false,
    ));
    assert(arguments(fields@) =~= before.push(session_argument()));
    fields
}

fn bare_schema(kind: &str) -> (r: Json)
    ensures
        r@ == bare(kind@),
{
    ObjectBuilder::new().with("type", text(kind)).build()
}

/// A schema of a kind.
pub fn schema_type(kind: &str, description: &str) -> (r: Json)
    ensures
        r@ == typed(kind@, description@),
{
    ObjectBuilder::new().with("type", text(kind)).with("description", text(description)).build()
}

/// A schema of a kind, or null.
pub fn nullable_schema(kind: &str, description: &str) -> (r: Json)
    ensures
        r@ == nullable(kind@, description@),
{
    ObjectBuilder::new()
        .with("anyOf", ArrayBuilder::new().with(bare_schema(kind)).with(bare_schema("null")).build())
        .with("description", text(description))
        .build()
}

/// The schema of an array.
pub fn array_schema(items: Json, description: &str) -> (r: Json)
    ensures
        r@ == array_of(items@, description@),
{
    ObjectBuilder::new()
        .with("type", text("array"))
        .with("items", items)
        .with("description", text(description))
        .build()
}

/// The schema of an object of which nothing more is said.
pub fn open_object_schema(description: &str) -> (r: Json)
    ensures
        r@ == open_object(description@),
{
    ObjectBuilder::new()
        .with("type", text("object"))
        .with("description", text(description))
        .with("additionalProperties", boolean(true))
        .build()
}

// ---------------------------------------------------------------------------
// What tools hand back
// ---------------------------------------------------------------------------

/// The fields that every output may have, behind those of the tool.
pub open spec fn with_recording(properties: Seq<Field>) -> Seq<Field> {
    properties
        .push(field("session_recorded"@, typed("boolean"@, "True when this tool call was recorded in a provided session_id."@)))
        .push(field("session_id"@, typed("string"@, "Session id used for telemetry recording, when provided."@)))
        .push(field("session_event_id"@, typed("string"@, "Session event id for the recorded finished tool call."@)))
}

/// The schema of a tool result whose output has the fields.
pub open spec fn wrapped(properties: Seq<Field>) -> Tree {
    Tree::Object(
        no_fields()
            .push(field("type"@, Tree::Text("object"@)))
            .push(field("properties"@, Tree::Object(
                no_fields()
                    .push(field("success"@, bare("boolean"@)))
                    .push(field("output"@, Tree::Object(
                        no_fields()
                            .push(field("type"@, Tree::Text("object"@)))
                            .push(field("properties"@, Tree::Object(collected(with_recording(properties)))))
                            .push(field("additionalProperties"@, Tree::Bool(true))),
                    )))
                    .push(field("error"@, Tree::Object(
                        no_fields().push(field("anyOf"@, Tree::Array(
                            no_trees().push(bare("string"@)).push(bare("null"@)),
                        ))),
                    ))),
            )))
            .push(field("required"@, Tree::Array(no_trees().push(Tree::Text("success"@)))))
            .push(field("additionalProperties"@, Tree::Bool(true))),
    )
}

/// The schema of a tool result whose output has the fields.
pub fn wrapped_output_schema(output_properties: ObjectBuilder) -> (r: Json)
    ensures
        r@ == wrapped(output_properties@),
{
    let properties = output_properties
        .with("session_recorded", schema_type("boolean", "True when this tool call was recorded in a provided session_id."))
        .with("session_id", schema_type("string", "Session id used for telemetry recording, when provided."))
        .with("session_event_id", schema_type("string", "Session event id for the recorded finished tool call."))
        .collect();
    let output = ObjectBuilder::new()
        .with("type", text("object"))
        .with("properties", properties)
        .with("additionalProperties", boolean(true))
        .build();
    let error = ObjectBuilder::new()
        .with("anyOf", ArrayBuilder::new().with(bare_schema("string")).with(bare_schema("null")).build())
        .build();
    let members = ObjectBuilder::new()
        .with("success", bare_schema("boolean"))
        .with("output", output)
        .with("error", error)
        .build();
    ObjectBuilder::new()
        .with("type", text("object"))
        .with("properties", members)
        .with("required", ArrayBuilder::new().with_text("success").build())
        .with("additionalProperties", boolean(true))
        .build()
}

/// The schema of a tool result of whose output nothing is said.
pub fn default_output_schema() -> (r: Json)
    ensures
        r@ == wrapped(no_fields()),
{
    wrapped_output_schema(ObjectBuilder::new())
}

/// Hints on a tool for those who call it.
pub open spec fn annotations(m: ToolMetadata) -> Tree {
    Tree::Object(
        no_fields()
            .push(field("readOnlyHint"@, Tree::Bool(m.read_only)))
            .push(field("destructiveHint"@, Tree::Bool(m.destructive)))
            .push(field("idempotentHint"@, Tree::Bool(m.read_only)))
            .push(field("openWorldHint"@, Tree::Bool(m.shell_like))),
    )
}

/// Hints on a tool for those who call it.
pub fn tool_annotations(metadata: &ToolMetadata) -> (r: Json)
    ensures
        r@ == annotations(*metadata),
{
    ObjectBuilder::new()
        .with("readOnlyHint", boolean(metadata.read_only))
        .with("destructiveHint", boolean(metadata.destructive))
        .with("idempotentHint", boolean(metadata.read_only))
        .with("openWorldHint", boolean(metadata.shell_like))
        .build()
}

// ---------------------------------------------------------------------------
// Laws
// ---------------------------------------------------------------------------

/// The argument that counts under a name: the last one.
pub open spec fn last_argument(args: Seq<Argument>, name: Seq<char>) -> Option<Argument>
    decreases args.len(),
{
    if args.len() == 0 {
        None
    } else if args.last().name == name {
        Some(args.last())
    } else {
        last_argument(args.drop_last(), name)
    }
}

/// Under each name the schema has the schema of the last argument of that name, and
/// nothing under the names that no argument has.
pub proof fn law_properties(args: Seq<Argument>, name: Seq<char>)
    ensures
        argument_properties(args) is Object,
        argument_properties(args).get(name) == (match last_argument(args, name) {
            Some(a) => Some(argument_schema(a)),
            None => None,
        }),
    decreases args.len(),
{
    if args.len() > 0 {
        law_properties(args.drop_last(), name);
        law_put_get(
            argument_properties(args.drop_last()),
            args.last().name,
            argument_schema(args.last()),
            name,
        );
    }
}

/// Every name that has to be there has a schema.
pub proof fn law_required_is_described(args: Seq<Argument>, i: int)
    requires
        0 <= i < required_names(args).len(),
    ensures
        required_names(args)[i] is Text,
        argument_properties(args).get(required_names(args)[i]->Text_0) is Some,
    decreases args.len(),
{
    let names = required_names(args);
    let front = args.drop_last();
    if args.last().required && i == names.len() - 1 {
        law_properties(args, args.last().name);
    } else {
        law_required_is_described(front, i);
        let name = required_names(front)[i]->Text_0;
        law_properties(front, name);
        law_properties(args, name);
    }
}

} // verus!
