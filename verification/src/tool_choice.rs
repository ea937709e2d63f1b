//! The tool-choice policy: how the host names it, and how the wire format
//! writes it.

use crate::json::Json;
use crate::lookup::member_str;
use crate::text::text_eq;
use crate::value::{json_of, value_as_str, value_get, value_insert, value_object,
    value_string};
use serde_json::Value;
use vstd::prelude::*;

verus! {

/// Which tool, if any, the model is asked to call.
#[derive(Clone, Debug, PartialEq, Eq)]
pub enum ToolChoicePolicy {
    /// The model decides.
    Auto,
    /// The model must call some tool.
    Required,
    /// The model must call no tool.
    NoTool,
    /// The model must call the tool of this name.
    Specific(String),
    /// A choice that is already written in the wire format.
    RawPassthrough(Value),
}

pub enum ToolChoicePolicyView {
    Auto,
    Required,
    NoTool,
    Specific(Seq<char>),
    RawPassthrough(Json),
}

impl View for ToolChoicePolicy {
    type V = ToolChoicePolicyView;

    open spec fn view(&self) -> ToolChoicePolicyView {
        match *self {
            ToolChoicePolicy::Auto => ToolChoicePolicyView::Auto,
            ToolChoicePolicy::Required => ToolChoicePolicyView::Required,
            ToolChoicePolicy::NoTool => ToolChoicePolicyView::NoTool,
            ToolChoicePolicy::Specific(name) => ToolChoicePolicyView::Specific(name@),
            ToolChoicePolicy::RawPassthrough(choice) => ToolChoicePolicyView::RawPassthrough(
                json_of(choice),
            ),
        }
    }
}

/// The view of a policy that may be absent.
pub open spec fn policy_view(policy: Option<ToolChoicePolicy>) -> Option<ToolChoicePolicyView> {
    match policy {
        Some(p) => Some(p@),
        Option::None => Option::None,
    }
}

/// The policy that a string names: the words `Auto`, `Required` and `None`,
/// each written with a capital or a small first letter, and no other string.
pub open spec fn named_policy(name: Seq<char>) -> Option<ToolChoicePolicyView> {
    if name == "Auto"@ || name == "auto"@ {
        Some(ToolChoicePolicyView::Auto)
    } else if name == "Required"@ || name == "required"@ {
        Some(ToolChoicePolicyView::Required)
    } else if name == "None"@ || name == "none"@ {
        Some(ToolChoicePolicyView::NoTool)
    } else {
        Option::None
    }
}

/// The policy that a document states, if it states one. A string names a
/// policy; a document with a string member `Specific` asks for that tool; an
/// object that has a member `type` is taken as it is; anything else states
/// no policy.
pub open spec fn stated_policy(choice: Json) -> Option<ToolChoicePolicyView> {
    match choice {
        Json::String(name) => named_policy(name),
        _ => match choice.field("Specific"@).as_str() {
            Some(name) => Some(ToolChoicePolicyView::Specific(name)),
            Option::None => if choice.get("type"@) is Some {
                Some(ToolChoicePolicyView::RawPassthrough(choice))
            } else {
                Option::None
            },
        },
    }
}

/// The wire form that asks for the function `name`.
pub open spec fn function_choice(name: Seq<char>) -> Json {
    Json::empty_object().with("type"@, Json::String("function"@)).with(
        "function"@,
        Json::empty_object().with("name"@, Json::String(name)),
    )
}

/// The wire form of a policy.
pub open spec fn wire_tool_choice(policy: ToolChoicePolicyView) -> Json {
    match policy {
        ToolChoicePolicyView::Auto => Json::String("auto"@),
        ToolChoicePolicyView::Required => Json::String("required"@),
        ToolChoicePolicyView::NoTool => Json::String("none"@),
        ToolChoicePolicyView::Specific(name) => function_choice(name),
        ToolChoicePolicyView::RawPassthrough(choice) => choice,
    }
}

impl ToolChoicePolicy {
    /// Reads the policy that a string names.
    pub fn from_name(name: &str) -> (r: Option<ToolChoicePolicy>)
        ensures
            policy_view(r) == named_policy(name@),
    {
        if text_eq(name, "Auto") || text_eq(name, "auto") {
            Some(ToolChoicePolicy::Auto)
        } else if text_eq(name, "Required") || text_eq(name, "required") {
            Some(ToolChoicePolicy::Required)
        } else if text_eq(name, "None") || text_eq(name, "none") {
            Some(ToolChoicePolicy::NoTool)
        } else {
            Option::None
        }
    }

    /// Reads the policy that a document states.
    pub fn from_value(choice: &Value) -> (r: Option<ToolChoicePolicy>)
        ensures
            policy_view(r) == stated_policy(json_of(*choice)),
    {
        match value_as_str(choice) {
            Some(name) => Self::from_name(name),
            Option::None => match member_str(choice, "Specific") {
                Some(name) => Some(ToolChoicePolicy::Specific(name.to_owned())),
                Option::None => match value_get(choice, "type") {
                    Some(_) => Some(ToolChoicePolicy::RawPassthrough(choice.clone())),
                    Option::None => Option::None,
                },
            },
        }
    }

    /// Writes the policy in the wire format.
    pub fn to_wire(&self) -> (wire: Value)
        ensures
            json_of(wire) == wire_tool_choice(self@),
    {
        match self {
            ToolChoicePolicy::Auto => value_string("auto".to_owned()),
            ToolChoicePolicy::Required => value_string("required".to_owned()),
            ToolChoicePolicy::NoTool => value_string("none".to_owned()),
            ToolChoicePolicy::Specific(name) => {
                let mut function = value_object();
                value_insert(&mut function, "name", value_string(name.clone()));
                let mut wire = value_object();
                value_insert(&mut wire, "type", value_string("function".to_owned()));
                value_insert(&mut wire, "function", function);
                wire
            },
            ToolChoicePolicy::RawPassthrough(choice) => choice.clone(),
        }
    }
}

} // verus!
