//! The runtime boolean values contract: which environment values read as
//! enabled and which as disabled.
use vstd::prelude::*;
use crate::text::{ascii_lower, list_contains, owned, str_eq, string_list, strs, to_ascii_lower, trim, trim_str};

verus! {

/// The runtime boolean values contract.
#[derive(Debug)]
pub struct RuntimeBooleanValuesContract {
    pub schema: String,
    pub truthy: Vec<String>,
    pub falsey: Vec<String>,
}

pub open spec fn boolean_contract_schema() -> Seq<char> {
    "narada.carrier.runtime_boolean_values.v1"@
}

/// The bundled values that enable a flag.
pub open spec fn bundled_truthy() -> Seq<Seq<char>> {
    seq!["1"@, "true"@, "yes"@, "on"@]
}

/// The bundled values that disable a flag.
pub open spec fn bundled_falsey() -> Seq<Seq<char>> {
    seq!["0"@, "false"@, "no"@, "off"@]
}

/// The first failed check of a contract read from JSON, if any.
pub open spec fn boolean_contract_problem(c: RuntimeBooleanValuesContract) -> Option<Seq<char>> {
    if c.schema@ != boolean_contract_schema() {
        Some("runtime_boolean_values_contract_invalid:schema"@)
    } else if c.truthy@.len() == 0 {
        Some("runtime_boolean_values_contract_invalid:truthy"@)
    } else if c.falsey@.len() == 0 {
        Some("runtime_boolean_values_contract_invalid:falsey"@)
    } else {
        None
    }
}

/// Whether a value, trimmed and lower-cased, is one of `admitted`.
pub open spec fn normalized_in(value: Option<Seq<char>>, admitted: Seq<Seq<char>>) -> bool {
    match value {
        Some(v) => admitted.contains(ascii_lower(trim(v))),
        None => false,
    }
}

/// The bundled runtime boolean values contract.
pub fn runtime_boolean_values_contract() -> (c: RuntimeBooleanValuesContract)
    ensures
        c.schema@ == boolean_contract_schema(),
        strs(c.truthy@) == bundled_truthy(),
        strs(c.falsey@) == bundled_falsey(),
{
    let truthy = string_list(&["1", "true", "yes", "on"]);
    let falsey = string_list(&["0", "false", "no", "off"]);
    assert(strs(truthy@) =~= bundled_truthy());
    assert(strs(falsey@) =~= bundled_falsey());
    RuntimeBooleanValuesContract {
        schema: owned("narada.carrier.runtime_boolean_values.v1"),
        truthy,
        falsey,
    }
}

fn normalized_value_is_in(value: Option<&String>, admitted: &Vec<String>) -> (r: bool)
    ensures
        r == normalized_in(
            match value {
                Some(v) => Some(v@),
                None => None,
            },
            strs(admitted@),
        ),
{
    match value {
        Some(v) => {
            let normalized = to_ascii_lower(trim_str(v.as_str()));
            list_contains(admitted, normalized.as_str())
        },
        None => false,
    }
}

/// Whether an environment value enables a flag.
pub fn env_flag_enabled(value: Option<&String>) -> (r: bool)
    ensures
        r == normalized_in(
            match value {
                Some(v) => Some(v@),
                None => None,
            },
            bundled_truthy(),
        ),
{
    let c = runtime_boolean_values_contract();
    normalized_value_is_in(value, &c.truthy)
}

/// Whether an environment value disables a flag.
pub fn env_flag_disabled(value: Option<&String>) -> (r: bool)
    ensures
        r == normalized_in(
            match value {
                Some(v) => Some(v@),
                None => None,
            },
            bundled_falsey(),
        ),
{
    let c = runtime_boolean_values_contract();
    normalized_value_is_in(value, &c.falsey)
}

/// Checks a contract read from JSON, reporting the first failed check.
pub fn validate_runtime_boolean_values_contract(c: &RuntimeBooleanValuesContract) -> (r: Result<(), String>)
    ensures
        match r {
            Ok(()) => boolean_contract_problem(*c) is None,
            Err(e) => boolean_contract_problem(*c) == Some(e@),
        },
{
    if !str_eq(c.schema.as_str(), "narada.carrier.runtime_boolean_values.v1") {
        return Err(owned("runtime_boolean_values_contract_invalid:schema"));
    }
    if c.truthy.len() == 0 {
        return Err(owned("runtime_boolean_values_contract_invalid:truthy"));
    }
    if c.falsey.len() == 0 {
        return Err(owned("runtime_boolean_values_contract_invalid:falsey"));
    }
    Ok(())
}

} // verus!
