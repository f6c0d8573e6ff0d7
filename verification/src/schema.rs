//! The schemas of the arguments of the tools, as they are listed for the
//! caller.

use crate::catalog::{
    all_tools, catalog, field_names, lemma_names, required_fields, tool_description, tool_name,
    ToolName,
};
use crate::json::{lemma_lookup_first, lemma_lookup_none, lookup, Member, Number, Value};
use crate::tools::page::default_scale;
use crate::tools::text::default_text_format;
use vstd::prelude::*;
use vstd::string::StringExecFns;

verus! {

/// The names of some members, in order.
pub open spec fn member_names(members: Seq<Member>) -> Seq<Seq<char>> {
    members.map_values(|member: Member| member.name@)
}

/// The texts of a list of texts, in order; `None` for any other value.
pub open spec fn text_list(value: Value) -> Option<Seq<Seq<char>>> {
    match value {
        Value::List(items) => if forall|k: int| 0 <= k < items@.len() ==> items@[k] is Text {
            Some(items@.map_values(|item: Value| item->Text_0@))
        } else {
            None
        },
        _ => None,
    }
}

/// Whether `value` is the text `text`.
pub open spec fn is_text_value(value: Option<Value>, text: Seq<char>) -> bool {
    value matches Some(Value::Text(held)) && held@ == text
}

/// The properties that the schema of an object declares, in order.
pub open spec fn properties_of(schema: Value) -> Seq<Member> {
    match schema {
        Value::Object(members) => match lookup(members@, "properties"@) {
            Some(Value::Object(properties)) => properties@,
            _ => Seq::empty(),
        },
        _ => Seq::empty(),
    }
}

/// Whether `schema` is the schema of an object that declares the fields
/// `fields`, in order, and requires the fields `required`. A schema that
/// requires nothing has no member `required`.
pub open spec fn declares_fields(
    schema: Value,
    fields: Seq<Seq<char>>,
    required: Seq<Seq<char>>,
) -> bool {
    schema matches Value::Object(members) && is_text_value(
        lookup(members@, "type"@),
        "object"@,
    ) && (lookup(members@, "properties"@) matches Some(Value::Object(properties))
        && member_names(properties@) == fields) && (if required.len() == 0 {
        lookup(members@, "required"@) is None
    } else {
        lookup(members@, "required"@) matches Some(list) && text_list(list) == Some(required)
    })
}

/// The kind of value that a field holds, as its schema names it. A source
/// has no kind of its own: it comes in two forms.
pub open spec fn field_kind(field: Seq<char>) -> Seq<char> {
    if field == "page"@ {
        "integer"@
    } else if field == "scale"@ {
        "number"@
    } else {
        "string"@
    }
}

/// What the schema of a field says the field is for, where it says so.
pub open spec fn field_description(field: Seq<char>) -> Option<Seq<char>> {
    if field == "password"@ {
        Some("Password for encrypted documents"@)
    } else if field == "page"@ {
        Some("Page number (0-indexed)"@)
    } else if field == "query"@ {
        Some("Text to search for"@)
    } else if field == "scale"@ {
        Some("Scale factor (1.0 = 72 DPI)"@)
    } else if field == "path"@ {
        Some("File path to PDF"@)
    } else if field == "base64"@ {
        Some("Base64-encoded PDF content"@)
    } else if field == "filename"@ {
        Some("Optional filename hint"@)
    } else {
        None
    }
}

/// The names of the text formats, as the schema of `format` lists them.
pub open spec fn format_names() -> Seq<Seq<char>> {
    seq!["plain"@, "html"@, "json"@, "xml"@]
}

/// Whether the members of a schema describe the field `field`, or, for a
/// field without a description, say nothing of what it is for.
pub open spec fn describes_field(members: Seq<Member>, field: Seq<char>) -> bool {
    match field_description(field) {
        Some(text) => is_text_value(lookup(members, "description"@), text),
        None => lookup(members, "description"@) is None,
    }
}

/// Whether the members of a schema name the default and the choices of
/// the field `field`: `plain` among the four format names for `format`, 1
/// for `scale`, and neither for any other field.
pub open spec fn names_default(members: Seq<Member>, field: Seq<char>) -> bool {
    if field == "format"@ {
        is_text_value(lookup(members, "default"@), "plain"@) && (lookup(members, "enum"@)
            matches Some(list) && text_list(list) == Some(format_names()))
    } else if field == "scale"@ {
        lookup(members, "default"@) == Some(Value::Number(Number::Unsigned(1))) && lookup(
            members,
            "enum"@,
        ) is None
    } else {
        lookup(members, "default"@) is None && lookup(members, "enum"@) is None
    }
}

/// Whether `schema` is the schema of the field `field`, which is not a
/// source: it names the kind of the field, describes it, and names its
/// default and choices.
pub open spec fn fits_plain_field(schema: Value, field: Seq<char>) -> bool {
    match schema {
        Value::Object(members) => is_text_value(lookup(members@, "type"@), field_kind(field))
            && describes_field(members@, field) && names_default(members@, field),
        _ => false,
    }
}

/// Whether the members of a schema offer the two forms of a source: an
/// object with a `path`, or an object with a `base64` text and perhaps a
/// `filename`.
pub open spec fn offers_source_forms(members: Seq<Member>) -> bool {
    match lookup(members, "oneOf"@) {
        Some(Value::List(forms)) => {
            &&& forms@.len() == 2
            &&& declares_fields(forms@[0], seq!["path"@], seq!["path"@])
            &&& fits_plain_field(properties_of(forms@[0])[0].value, "path"@)
            &&& declares_fields(forms@[1], seq!["base64"@, "filename"@], seq!["base64"@])
            &&& fits_plain_field(properties_of(forms@[1])[0].value, "base64"@)
            &&& fits_plain_field(properties_of(forms@[1])[1].value, "filename"@)
        },
        _ => false,
    }
}

/// Whether `schema` is the schema of the field `field` of a tool.
pub open spec fn fits_field(schema: Value, field: Seq<char>) -> bool {
    if field == "source"@ {
        match schema {
            Value::Object(members) => offers_source_forms(members@),
            _ => false,
        }
    } else {
        fits_plain_field(schema, field)
    }
}

/// Whether `schema` is the schema of the arguments of a tool with the
/// fields `fields`, of which `required` must be there: it declares them,
/// and the schema of each field fits the field.
pub open spec fn declares(schema: Value, fields: Seq<Seq<char>>, required: Seq<Seq<char>>) -> bool {
    declares_fields(schema, fields, required) && forall|k: int|
        0 <= k < fields.len() ==> fits_field(#[trigger] properties_of(schema)[k].value, fields[k])
}

fn text_value(text: &str) -> (value: Value)
    ensures
        value matches Value::Text(held) && held@ == text@,
{
    Value::Text(String::from_str(text))
}

fn member(name: &str, value: Value) -> (made: Member)
    ensures
        made.name@ == name@,
        made.value == value,
{
    Member { name: String::from_str(name), value }
}

/// The schema of a field of the kind `kind` (`string`, `integer` or
/// `number`), with a description where there is one.
fn plain_property(kind: &str, description: Option<&str>) -> (schema: Value)
    ensures
        schema matches Value::Object(members) && is_text_value(lookup(members@, "type"@), kind@)
            && (match description {
            Some(text) => is_text_value(lookup(members@, "description"@), text@),
            None => lookup(members@, "description"@) is None,
        }) && lookup(members@, "default"@) is None && lookup(members@, "enum"@) is None,
{
    let mut members: Vec<Member> = Vec::new();
    members.push(member("type", text_value(kind)));
    match description {
        Some(text) => {
            members.push(member("description", text_value(text)));
            proof {
                lemma_names();
                lemma_lookup_first(members@, "description"@, 1);
            }
        },
        None => {
            proof {
                lemma_names();
                lemma_lookup_none(members@, "description"@);
            }
        },
    }
    proof {
        lemma_lookup_first(members@, "type"@, 0);
        lemma_lookup_none(members@, "default"@);
        lemma_lookup_none(members@, "enum"@);
    }
    Value::Object(members)
}

/// The schema of an object with the given properties, of which those
/// named in `required` must be there.
fn object_schema(properties: Vec<Member>, required: Vec<&'static str>) -> (schema: Value)
    ensures
        declares_fields(
            schema,
            member_names(properties@),
            required@.map_values(|name: &'static str| name@),
        ),
        properties_of(schema) == properties@,
{
    let mut members: Vec<Member> = Vec::new();
    members.push(member("type", text_value("object")));
    members.push(member("properties", Value::Object(properties)));
    proof {
        reveal_strlit("type");
        reveal_strlit("properties");
        reveal_strlit("required");
        assert("type"@.len() != "properties"@.len());
        assert("type"@.len() != "required"@.len());
        assert("properties"@.len() != "required"@.len());
    }
    if required.len() > 0 {
        let mut items: Vec<Value> = Vec::new();
        let mut i: usize = 0;
        while i < required.len()
            invariant
                i <= required@.len(),
                items@.len() == i,
                forall|k: int|
                    0 <= k < i ==> (#[trigger] items@[k]) is Text && items@[k]->Text_0@
                        == required@[k]@,
            decreases required@.len() - i,
        {
            items.push(text_value(required[i]));
            i += 1;
        }
        let list = Value::List(items);
        assert(text_list(list)->0 =~= required@.map_values(|name: &'static str| name@));
        members.push(member("required", list));
        proof {
            lemma_lookup_first(members@, "required"@, 2);
        }
    } else {
        proof {
            lemma_lookup_none(members@, "required"@);
        }
    }
    proof {
        lemma_lookup_first(members@, "type"@, 0);
        lemma_lookup_first(members@, "properties"@, 1);
    }
    Value::Object(members)
}

/// The schema of a document source: an object with a `path`, or an
/// object with a `base64` text and perhaps a `filename`.
fn source_property() -> (schema: Value)
    ensures
        schema matches Value::Object(members) && offers_source_forms(members@),
{
    let mut path_fields: Vec<Member> = Vec::new();
    path_fields.push(member("path", plain_property("string", Some("File path to PDF"))));
    let mut path_required: Vec<&'static str> = Vec::new();
    path_required.push("path");
    let mut inline_fields: Vec<Member> = Vec::new();
    inline_fields.push(
        member("base64", plain_property("string", Some("Base64-encoded PDF content"))),
    );
    inline_fields.push(member("filename", plain_property("string", Some("Optional filename hint"))));
    let mut inline_required: Vec<&'static str> = Vec::new();
    inline_required.push("base64");
    proof {
        lemma_names();
        assert(member_names(path_fields@) =~= seq!["path"@]);
        assert(path_required@.map_values(|name: &'static str| name@) =~= seq!["path"@]);
        assert(member_names(inline_fields@) =~= seq!["base64"@, "filename"@]);
        assert(inline_required@.map_values(|name: &'static str| name@) =~= seq!["base64"@]);
        assert(fits_plain_field(path_fields@[0].value, "path"@));
        assert(fits_plain_field(inline_fields@[0].value, "base64"@));
        assert(fits_plain_field(inline_fields@[1].value, "filename"@));
    }
    let mut variants: Vec<Value> = Vec::new();
    variants.push(object_schema(path_fields, path_required));
    variants.push(object_schema(inline_fields, inline_required));
    let mut members: Vec<Member> = Vec::new();
    members.push(member("oneOf", Value::List(variants)));
    proof {
        lemma_lookup_first(members@, "oneOf"@, 0);
    }
    Value::Object(members)
}

/// The schema of the field `format`: one of the four format names, with
/// `plain` as the default.
fn format_property() -> (schema: Value)
    ensures
        fits_plain_field(schema, "format"@),
{
    let mut names: Vec<Value> = Vec::new();
    names.push(text_value("plain"));
    names.push(text_value("html"));
    names.push(text_value("json"));
    names.push(text_value("xml"));
    let choices = Value::List(names);
    assert(text_list(choices)->0 =~= format_names());
    let mut members: Vec<Member> = Vec::new();
    members.push(member("type", text_value("string")));
    members.push(member("enum", choices));
    members.push(member("default", Value::Text(default_text_format())));
    proof {
        lemma_names();
        lemma_lookup_first(members@, "type"@, 0);
        lemma_lookup_first(members@, "enum"@, 1);
        lemma_lookup_first(members@, "default"@, 2);
        lemma_lookup_none(members@, "description"@);
    }
    Value::Object(members)
}

/// The schema of the field `scale`: a number, with 1 as the default.
fn scale_property() -> (schema: Value)
    ensures
        fits_plain_field(schema, "scale"@),
{
    let mut members: Vec<Member> = Vec::new();
    members.push(member("type", text_value("number")));
    members.push(member("default", Value::Number(default_scale())));
    members.push(member("description", text_value("Scale factor (1.0 = 72 DPI)")));
    proof {
        lemma_names();
        lemma_lookup_first(members@, "type"@, 0);
        lemma_lookup_first(members@, "default"@, 1);
        lemma_lookup_first(members@, "description"@, 2);
        lemma_lookup_none(members@, "enum"@);
    }
    Value::Object(members)
}

impl ToolName {
    /// The schema of the arguments of the tool: an object that declares
    /// the fields of the tool and says which of them must be there.
    pub fn input_schema(self) -> (schema: Value)
        ensures
            declares(schema, field_names(self), required_fields(self)),
    {
        let mut properties: Vec<Member> = Vec::new();
        let mut required: Vec<&'static str> = Vec::new();
        match self {
            ToolName::ImportDocument | ToolName::OneshotGetBookmarks => {
                properties.push(member("source", source_property()));
                properties.push(
                    member(
                        "password",
                        plain_property("string", Some("Password for encrypted documents")),
                    ),
                );
                required.push("source");
            },
            ToolName::ListDocuments => {},
            _ => {
                properties.push(member("document_id", plain_property("string", None)));
                required.push("document_id");
            },
        }
        match self {
            ToolName::GetPageBounds | ToolName::GetPageText | ToolName::SearchPage
            | ToolName::RenderPage => {
                properties.push(
                    member("page", plain_property("integer", Some("Page number (0-indexed)"))),
                );
                required.push("page");
            },
            _ => {},
        }
        match self {
            ToolName::GetPageText => {
                properties.push(member("format", format_property()));
            },
            ToolName::SearchPage => {
                properties.push(
                    member("query", plain_property("string", Some("Text to search for"))),
                );
                required.push("query");
            },
            ToolName::RenderPage => {
                properties.push(member("scale", scale_property()));
            },
            _ => {},
        }
        proof {
            lemma_names();
            assert(member_names(properties@) =~= field_names(self));
            assert(required@.map_values(|name: &'static str| name@) =~= required_fields(self));
            assert forall|k: int| 0 <= k < properties@.len() implies fits_field(
                #[trigger] properties@[k].value,
                field_names(self)[k],
            ) by {
                assert(field_names(self)[k] == properties@[k].name@);
            }
        }
        object_schema(properties, required)
    }
}

/// A tool as it is listed for the caller.
#[derive(Debug)]
pub struct Tool {
    /// The name under which the tool is called.
    pub name: String,
    /// What the tool is for.
    pub description: String,
    /// The schema of the arguments.
    pub input_schema: Value,
}

/// Whether `listed` describes the tool `tool`.
pub open spec fn lists_tool(listed: Tool, tool: ToolName) -> bool {
    listed.name@ == tool_name(tool) && listed.description@ == tool_description(tool) && declares(
        listed.input_schema,
        field_names(tool),
        required_fields(tool),
    )
}

/// Lists the tools of the catalog, each with its name, its description
/// and the schema of its arguments.
pub fn list_tools() -> (tools: Vec<Tool>)
    ensures
        tools@.len() == all_tools().len(),
        forall|k: int| 0 <= k < tools@.len() ==> lists_tool(#[trigger] tools@[k], all_tools()[k]),
{
    let names = catalog();
    let mut tools: Vec<Tool> = Vec::new();
    let mut i: usize = 0;
    while i < names.len()
        invariant
            names@ == all_tools(),
            i <= names@.len(),
            tools@.len() == i,
            forall|k: int| 0 <= k < i ==> lists_tool(#[trigger] tools@[k], all_tools()[k]),
        decreases names@.len() - i,
    {
        let tool = names[i];
        tools.push(
            Tool {
                name: String::from_str(tool.name()),
                description: String::from_str(tool.description()),
                input_schema: tool.input_schema(),
            },
        );
        i += 1;
    }
    tools
}

} // verus!
