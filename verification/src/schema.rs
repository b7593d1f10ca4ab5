//! Input schemas: what a tool declares of its parameters, and the JSON Schema
//! text that tells a caller so.
//!
//! A tool declares its parameters once. The schema text is rendered from the
//! declaration, and whether a payload satisfies the declaration is decided on the
//! same declaration, so the two cannot drift apart.

use vstd::prelude::*;
use crate::arguments::{field_of, FieldView};
use crate::json::Json;

verus! {

/// The JSON type that a parameter must have.
#[derive(Debug, Clone, Copy, PartialEq, Eq, Structural)]
pub enum ParameterKind {
    Number,
    Text,
}

/// One required parameter of a tool.
#[derive(Debug, Clone, PartialEq, Eq)]
pub struct Parameter {
    pub name: String,
    pub kind: ParameterKind,
    pub description: String,
}

/// Mathematical model of a [`Parameter`].
pub struct ParameterView {
    pub name: Seq<char>,
    pub kind: ParameterKind,
    pub description: Seq<char>,
}

impl View for Parameter {
    type V = ParameterView;

    open spec fn view(&self) -> ParameterView {
        ParameterView { name: self.name@, kind: self.kind, description: self.description@ }
    }
}

/// The models of a list of parameters, in order.
pub open spec fn parameter_views(parameters: Seq<Parameter>) -> Seq<ParameterView> {
    Seq::new(parameters.len(), |i: int| parameters[i]@)
}

/// The parameter with the given name, kind and description.
pub open spec fn declared(
    name: Seq<char>,
    kind: ParameterKind,
    description: Seq<char>,
) -> ParameterView {
    ParameterView { name, kind, description }
}

/// Declares a required parameter.
pub fn parameter(name: &str, kind: ParameterKind, description: &str) -> (p: Parameter)
    ensures
        p@ == declared(name@, kind, description@),
{
    Parameter { name: name.to_owned(), kind, description: description.to_owned() }
}

/// The kind of parameter that a field can serve as, if any.
pub open spec fn kind_of(field: FieldView) -> Option<ParameterKind> {
    match field {
        FieldView::Number(_) => Some(ParameterKind::Number),
        FieldView::Text(_) => Some(ParameterKind::Text),
        _ => None,
    }
}

/// Whether a document supplies every declared parameter, each with a value of the
/// declared kind.
pub open spec fn satisfies(document: Json, parameters: Seq<ParameterView>) -> bool {
    forall|i: int|
        0 <= i < parameters.len() ==> kind_of(field_of(document, #[trigger] parameters[i].name))
            == Some(parameters[i].kind)
}

/// The name by which JSON Schema calls a kind.
pub open spec fn kind_name(kind: ParameterKind) -> Seq<char> {
    match kind {
        ParameterKind::Number => "number"@,
        ParameterKind::Text => "string"@,
    }
}

/// The line that describes one parameter among the schema's properties.
pub open spec fn property_line(parameter: ParameterView) -> Seq<char> {
    "                            \""@ + parameter.name + "\": {\"type\": \""@ + kind_name(
        parameter.kind,
    ) + "\", \"description\": \""@ + parameter.description + "\"}"@
}

/// The lines that describe the parameters, separated by a comma and a line break.
pub open spec fn property_lines(parameters: Seq<ParameterView>) -> Seq<char>
    decreases parameters.len(),
{
    if parameters.len() == 0 {
        Seq::<char>::empty()
    } else if parameters.len() == 1 {
        property_line(parameters[0])
    } else {
        property_lines(parameters.drop_last()) + ",\n"@ + property_line(parameters.last())
    }
}

/// The quoted names of the parameters, separated by a comma and a space.
pub open spec fn required_names(parameters: Seq<ParameterView>) -> Seq<char>
    decreases parameters.len(),
{
    if parameters.len() == 0 {
        Seq::<char>::empty()
    } else if parameters.len() == 1 {
        "\""@ + parameters[0].name + "\""@
    } else {
        required_names(parameters.drop_last()) + ", \""@ + parameters.last().name + "\""@
    }
}

/// The schema's properties between their braces: nothing for no parameters, else
/// the property lines on lines of their own.
pub open spec fn properties_block(parameters: Seq<ParameterView>) -> Seq<char> {
    if parameters.len() == 0 {
        Seq::<char>::empty()
    } else {
        "\n"@ + property_lines(parameters) + "\n                        "@
    }
}

/// The JSON Schema text of a tool whose parameters are all required: an object
/// type, one property for each parameter, and the list of their names.
///
/// Names and descriptions are written as they are: the text is JSON as long as
/// they hold no quote, backslash or control character.
pub open spec fn schema_text(parameters: Seq<ParameterView>) -> Seq<char> {
    "{\n                        \"type\": \"object\",\n                        \"properties\": {"@
        + properties_block(parameters) + "},\n                        \"required\": ["@
        + required_names(parameters) + "]\n                    }"@
}

/// Writes the name by which JSON Schema calls a kind.
fn kind_label(kind: ParameterKind) -> (label: &'static str)
    ensures
        label@ == kind_name(kind),
{
    match kind {
        ParameterKind::Number => "number",
        ParameterKind::Text => "string",
    }
}

/// Appends the line that describes one parameter.
fn push_property_line(target: &mut String, parameter: &Parameter)
    ensures
        final(target)@ == old(target)@ + property_line(parameter@),
{
    target.append("                            \"");
    target.append(parameter.name.as_str());
    target.append("\": {\"type\": \"");
    target.append(kind_label(parameter.kind));
    target.append("\", \"description\": \"");
    target.append(parameter.description.as_str());
    target.append("\"}");
    assert(final(target)@ =~= old(target)@ + property_line(parameter@));
}

/// Renders the JSON Schema text of a tool from its declared parameters.
pub fn render_schema(parameters: &Vec<Parameter>) -> (text: String)
    ensures
        text@ == schema_text(parameter_views(parameters@)),
{
    let ghost views = parameter_views(parameters@);
    let mut lines = String::new();
    let mut names = String::new();
    let mut i: usize = 0;
    while i < parameters.len()
        invariant
            i <= parameters.len(),
            views == parameter_views(parameters@),
            lines@ == property_lines(views.subrange(0, i as int)),
            names@ == required_names(views.subrange(0, i as int)),
        decreases parameters.len() - i,
    {
        let ghost before = views.subrange(0, i as int);
        let ghost after = views.subrange(0, i + 1);
        proof {
            assert(after.drop_last() =~= before);
            assert(after.last() == parameters@[i as int]@);
        }
        if i > 0 {
            lines.append(",\n");
            names.append(", \"");
        } else {
            names.append("\"");
        }
        push_property_line(&mut lines, &parameters[i]);
        names.append(parameters[i].name.as_str());
        names.append("\"");
        proof {
            if i == 0 {
                assert(before.len() == 0);
                assert(after[0] == parameters@[0]@);
                assert(lines@ =~= property_line(after[0]));
                assert(names@ =~= "\""@ + after[0].name + "\""@);
            } else {
                assert(lines@ =~= property_lines(before) + ",\n"@ + property_line(after.last()));
                assert(names@ =~= required_names(before) + ", \""@ + after.last().name + "\""@);
            }
        }
        i += 1;
    }
    assert(views.subrange(0, i as int) =~= views);
    let mut text =
        "{\n                        \"type\": \"object\",\n                        \"properties\": {".to_owned();
    if parameters.len() > 0 {
        text.append("\n");
        text.append(lines.as_str());
        text.append("\n                        ");
    }
    text.append("},\n                        \"required\": [");
    text.append(names.as_str());
    text.append("]\n                    }");
    assert(text@ =~= schema_text(views));
    text
}

} // verus!
