//! Human-readable reports of attributes and authentication methods, line
//! by line.  Nothing is printed here; the lines are handed to the caller.
//!
//! Entry names are byte strings that need not be text, so each report takes
//! the label under which its entry is to be shown.

use vstd::prelude::*;
use vstd::string::*;
use crate::attribute::{Attribute, AttributeType, AttributeTypeView, AttributeView};
use crate::authentication::{
    Authentication,
    AuthenticationRole,
    AuthenticationRoleView,
    AuthenticationView,
};
use crate::decimal::{integer_text, signed_text, unsigned_text};
use crate::value::{Value, ValueView, value_view};

verus! {

/// How a value is shown: as it is, or as inaccessible where it could not
/// be read.
pub open spec fn shown_value(value: ValueView) -> Seq<char> {
    match value {
        Ok(text) => text,
        Err(_) => "<Access Denied>"@,
    }
}

/// The lines that describe the type of an attribute.
pub open spec fn type_lines(tpe: AttributeTypeView) -> Seq<Seq<char>> {
    match tpe {
        AttributeTypeView::Integer { min, max, step } => seq![
            "    Type: Integer"@,
            "        Min: "@ + integer_text(min as int),
            "        Max: "@ + integer_text(max as int),
            "        Step: "@ + integer_text(step as int),
        ],
        AttributeTypeView::String { min_length, max_length } => seq![
            "    Type: String"@,
            "        Min: "@ + integer_text(min_length as int),
            "        Max: "@ + integer_text(max_length as int),
        ],
        AttributeTypeView::Enumeration { possible_values } => seq![
            "    Type: Enumeration"@,
            "        Possible Values:"@,
        ] + possible_values.map_values(|value: Seq<char>| "            "@ + value),
    }
}

/// The full report of an attribute shown under `label`.
pub open spec fn attribute_lines(label: Seq<char>, attribute: AttributeView) -> Seq<Seq<char>> {
    seq![label, "    Name: "@ + attribute.display_name] + type_lines(attribute.tpe) + seq![
        "    Current value: "@ + shown_value(attribute.current_value),
        "    Default value: "@ + shown_value(attribute.default_value),
    ]
}

/// The one-line summary of an attribute shown under `label`.
pub open spec fn summary_line(label: Seq<char>, attribute: AttributeView) -> Seq<char> {
    label + ": "@ + attribute.display_name
}

/// The one text of an attribute that was asked for: its default value, or
/// else its display name, or else its current value.
pub open spec fn selected_text(attribute: AttributeView, default: bool, name: bool) -> Seq<char> {
    if default {
        shown_value(attribute.default_value)
    } else if name {
        attribute.display_name
    } else {
        shown_value(attribute.current_value)
    }
}

/// What a role is called in a report.
pub open spec fn role_text(role: AuthenticationRoleView) -> Seq<char> {
    match role {
        AuthenticationRoleView::BiosAdmin => "Change BIOS Settings"@,
        AuthenticationRoleView::PowerOn => "Power on computer"@,
        AuthenticationRoleView::Unknown(name) => "Unknown role ("@ + name + ")"@,
    }
}

/// What the state of an authentication method is called in a report.
pub open spec fn status_text(is_enabled: bool) -> Seq<char> {
    if is_enabled {
        "Enabled"@
    } else {
        "Disabled"@
    }
}

/// The report of an authentication method shown under `label`.
pub open spec fn authentication_lines(label: Seq<char>, method: AuthenticationView) -> Seq<
    Seq<char>,
> {
    seq![
        "        "@ + label,
        "            Role: "@ + role_text(method.role),
        "            Status: "@ + status_text(method.is_enabled),
    ]
}

/// The heading over a listing of the device shown under `label`.
pub open spec fn heading_line(label: Seq<char>) -> Seq<char> {
    "Device: "@ + label
}

/// The head of the summary of a device shown under `label`: how many
/// attributes it has, whether a reboot is pending, and, where it has
/// authentication methods, the heading under which they follow.
pub open spec fn device_lines(label: Seq<char>, attributes: nat, modified: bool, methods: nat)
    -> Seq<Seq<char>> {
    seq![heading_line(label), "    "@ + integer_text(attributes as int) + " attributes"@] + (
    if modified {
        seq![Seq::<char>::empty(), "    Reboot pending: configuration was modified!"@]
    } else {
        Seq::<Seq<char>>::empty()
    }) + (if methods > 0 {
        seq![Seq::<char>::empty(), "    Authentication methods:"@]
    } else {
        Seq::<Seq<char>>::empty()
    })
}

/// The answer to the question whether a reboot is pending, and the exit
/// status that goes with it: success where one is pending.
pub open spec fn reboot_lines(modified: bool) -> (Seq<char>, int) {
    if modified {
        ("true"@, 0)
    } else {
        ("false"@, 1)
    }
}

/// `prefix` followed by `text`.
fn prefixed(prefix: &str, text: &str) -> (r: String)
    ensures
        r@ == prefix@ + text@,
{
    let mut r = String::from_str(prefix);
    r.append(text);
    r
}

/// Adds a line to a report.
fn push_line(lines: &mut Vec<String>, line: String)
    ensures
        final(lines).deep_view() == old(lines).deep_view().push(line@),
{
    lines.push(line);
    assert(lines.deep_view() =~= old(lines).deep_view().push(line@));
}

/// How `value` is shown.
pub fn value_text(value: &Value) -> (r: String)
    ensures
        r@ == shown_value(value_view(*value)),
{
    match value {
        Ok(text) => text.clone(),
        Err(_) => String::from_str("<Access Denied>"),
    }
}

/// The full report of `attribute`, shown under `label`.
pub fn attribute_report(label: &str, attribute: &Attribute) -> (lines: Vec<String>)
    ensures
        lines.deep_view() == attribute_lines(label@, attribute@),
{
    let mut lines: Vec<String> = Vec::new();
    assert(lines.deep_view() =~= Seq::<Seq<char>>::empty());
    push_line(&mut lines, String::from_str(label));
    push_line(&mut lines, prefixed("    Name: ", attribute.display_name.as_str()));
    match &attribute.tpe {
        AttributeType::Integer { min, max, step } => {
            push_line(&mut lines, String::from_str("    Type: Integer"));
            push_line(&mut lines, prefixed("        Min: ", signed_text(*min).as_str()));
            push_line(&mut lines, prefixed("        Max: ", signed_text(*max).as_str()));
            push_line(&mut lines, prefixed("        Step: ", unsigned_text(*step).as_str()));
        },
        AttributeType::String { min_length, max_length } => {
            push_line(&mut lines, String::from_str("    Type: String"));
            push_line(&mut lines, prefixed("        Min: ", unsigned_text(*min_length).as_str()));
            push_line(&mut lines, prefixed("        Max: ", unsigned_text(*max_length).as_str()));
        },
        AttributeType::Enumeration { possible_values } => {
            push_line(&mut lines, String::from_str("    Type: Enumeration"));
            push_line(&mut lines, String::from_str("        Possible Values:"));
            let ghost head = lines.deep_view();
            let ghost values = possible_values.deep_view();
            let mut i: usize = 0;
            while i < possible_values.len()
                invariant
                    i <= possible_values.len(),
                    values == possible_values.deep_view(),
                    lines.deep_view() == head + values.take(i as int).map_values(
                        |value: Seq<char>| "            "@ + value,
                    ),
                decreases possible_values.len() - i,
            {
                let ghost before = lines.deep_view();
                push_line(&mut lines, prefixed("            ", possible_values[i].as_str()));
                proof {
                    assert(values[i as int] == possible_values[i as int]@);
                    assert(values.take(i + 1) == values.take(i as int).push(values[i as int]));
                    assert(lines.deep_view() =~= head + values.take(i + 1).map_values(
                        |value: Seq<char>| "            "@ + value,
                    ));
                }
                i = i + 1;
            }
            proof {
                assert(values.take(i as int) == values);
            }
        },
    }
    let ghost body = lines.deep_view();
    assert(body =~= seq![label@, "    Name: "@ + attribute@.display_name] + type_lines(
        attribute@.tpe,
    ));
    push_line(
        &mut lines,
        prefixed("    Current value: ", value_text(&attribute.current_value).as_str()),
    );
    push_line(
        &mut lines,
        prefixed("    Default value: ", value_text(&attribute.default_value).as_str()),
    );
    assert(lines.deep_view() =~= attribute_lines(label@, attribute@));
    lines
}

/// The one-line summary of `attribute`, shown under `label`.
pub fn attribute_summary(label: &str, attribute: &Attribute) -> (r: String)
    ensures
        r@ == summary_line(label@, attribute@),
{
    let mut r = prefixed(label, ": ");
    r.append(attribute.display_name.as_str());
    r
}

/// The one text of `attribute` that was asked for: its default value where
/// `default` is set, else its display name where `name` is set, else its
/// current value.  A value that could not be read is shown as
/// inaccessible.
pub fn attribute_text(attribute: &Attribute, default: bool, name: bool) -> (r: String)
    ensures
        r@ == selected_text(attribute@, default, name),
{
    if default {
        value_text(&attribute.default_value)
    } else if name {
        attribute.display_name.clone()
    } else {
        value_text(&attribute.current_value)
    }
}

/// What `role` is called in a report.
pub fn role_description(role: &AuthenticationRole) -> (r: String)
    ensures
        r@ == role_text(role@),
{
    match role {
        AuthenticationRole::BiosAdmin => String::from_str("Change BIOS Settings"),
        AuthenticationRole::PowerOn => String::from_str("Power on computer"),
        AuthenticationRole::Unknown(name) => {
            let mut r = prefixed("Unknown role (", name.as_str());
            r.append(")");
            r
        },
    }
}

/// What the state of an authentication method is called in a report.
pub fn status_description(is_enabled: bool) -> (r: &'static str)
    ensures
        r@ == status_text(is_enabled),
{
    if is_enabled {
        "Enabled"
    } else {
        "Disabled"
    }
}

/// The report of `method`, shown under `label`.
pub fn authentication_report(label: &str, method: &Authentication) -> (lines: Vec<String>)
    ensures
        lines.deep_view() == authentication_lines(label@, method@),
{
    let mut lines: Vec<String> = Vec::new();
    assert(lines.deep_view() =~= Seq::<Seq<char>>::empty());
    push_line(&mut lines, prefixed("        ", label));
    push_line(
        &mut lines,
        prefixed("            Role: ", role_description(&method.role).as_str()),
    );
    push_line(&mut lines, prefixed("            Status: ", status_description(method.is_enabled)));
    assert(lines.deep_view() =~= authentication_lines(label@, method@));
    lines
}

/// The heading over a listing of the device shown under `label`.
pub fn device_heading(label: &str) -> (r: String)
    ensures
        r@ == heading_line(label@),
{
    prefixed("Device: ", label)
}

/// The head of the summary of a device shown under `label` that has
/// `attributes` attributes and `methods` authentication methods.
pub fn device_summary(label: &str, attributes: usize, modified: bool, methods: usize) -> (lines:
    Vec<String>)
    ensures
        lines.deep_view() == device_lines(label@, attributes as nat, modified, methods as nat),
{
    let mut lines: Vec<String> = Vec::new();
    assert(lines.deep_view() =~= Seq::<Seq<char>>::empty());
    push_line(&mut lines, device_heading(label));
    let mut count = prefixed("    ", unsigned_text(attributes as u64).as_str());
    count.append(" attributes");
    push_line(&mut lines, count);
    if modified {
        push_line(&mut lines, String::new());
        push_line(&mut lines, String::from_str("    Reboot pending: configuration was modified!"));
    }
    if methods > 0 {
        push_line(&mut lines, String::new());
        push_line(&mut lines, String::from_str("    Authentication methods:"));
    }
    assert(lines.deep_view() =~= device_lines(
        label@,
        attributes as nat,
        modified,
        methods as nat,
    ));
    lines
}

/// The answer to the question whether a reboot is pending, and the exit
/// status that goes with it.
pub fn reboot_answer(modified: bool) -> (r: (&'static str, i32))
    ensures
        r.0@ == reboot_lines(modified).0,
        r.1 == reboot_lines(modified).1,
{
    if modified {
        ("true", 0)
    } else {
        ("false", 1)
    }
}

} // verus!
