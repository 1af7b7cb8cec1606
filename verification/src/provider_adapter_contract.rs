//! The provider adapter contract: the environment variables that configure
//! provider execution, the admitted providers, and the adapter kinds.
use vstd::prelude::*;
use crate::text::{is_blank, is_blank_str, owned, str_eq, string_list, strs, trim, trim_str};

verus! {

/// The provider adapter contract.
#[derive(Debug)]
pub struct ProviderAdapterContract {
    pub schema: String,
    pub provider_execution_env_var: String,
    pub provider_adapter_kind_env_var: String,
    pub intelligence_provider_env_var: String,
    pub ai_model_env_var: String,
    pub ai_thinking_env_var: String,
    pub ai_stream_env_var: String,
    pub admitted_providers: Vec<String>,
    pub scripted_provider_adapter_kind: String,
    pub production_provider_adapter_kind: String,
    pub production_provider_adapter_implemented: bool,
}

pub open spec fn adapter_contract_schema() -> Seq<char> {
    "narada.agent_tui.provider_adapter_contract.v0"@
}

/// The bundled admitted providers.
pub open spec fn bundled_admitted_providers() -> Seq<Seq<char>> {
    seq![
        "codex-subscription"@,
        "kimi-api"@,
        "kimi-code-api"@,
        "openai-api"@,
        "anthropic-api"@,
        "deepseek-api"@,
        "glm-api"@,
        "openrouter-api"@,
    ]
}

/// Whether a contract is the bundled one.
pub open spec fn is_bundled_adapter_contract(c: ProviderAdapterContract) -> bool {
    &&& c.schema@ == adapter_contract_schema()
    &&& c.provider_execution_env_var@ == "NARADA_AGENT_TUI_ENABLE_PROVIDER_EXECUTION"@
    &&& c.provider_adapter_kind_env_var@ == "NARADA_AGENT_TUI_PROVIDER_ADAPTER_KIND"@
    &&& c.intelligence_provider_env_var@ == "NARADA_INTELLIGENCE_PROVIDER"@
    &&& c.ai_model_env_var@ == "KIMI_CODE_MODEL"@
    &&& c.ai_thinking_env_var@ == "NARADA_AI_THINKING"@
    &&& c.ai_stream_env_var@ == "NARADA_AI_STREAM"@
    &&& strs(c.admitted_providers@) == bundled_admitted_providers()
    &&& c.scripted_provider_adapter_kind@ == "scripted_provider_adapter"@
    &&& c.production_provider_adapter_kind@ == "codex_subscription_adapter"@
    &&& c.production_provider_adapter_implemented
}

/// The first failed check of a contract read from JSON, if any.
pub open spec fn adapter_contract_problem(c: ProviderAdapterContract) -> Option<Seq<char>> {
    if trim(c.schema@) != adapter_contract_schema() {
        Some("provider_adapter_contract_invalid:schema"@)
    } else if is_blank(c.provider_execution_env_var@) {
        Some("provider_adapter_contract_invalid:provider_execution_env_var"@)
    } else if is_blank(c.provider_adapter_kind_env_var@) {
        Some("provider_adapter_contract_invalid:provider_adapter_kind_env_var"@)
    } else if is_blank(c.intelligence_provider_env_var@) {
        Some("provider_adapter_contract_invalid:intelligence_provider_env_var"@)
    } else if is_blank(c.ai_model_env_var@) {
        Some("provider_adapter_contract_invalid:ai_model_env_var"@)
    } else if is_blank(c.ai_thinking_env_var@) {
        Some("provider_adapter_contract_invalid:ai_thinking_env_var"@)
    } else if is_blank(c.ai_stream_env_var@) {
        Some("provider_adapter_contract_invalid:ai_stream_env_var"@)
    } else if c.admitted_providers@.len() == 0 || exists|i: int|
        0 <= i < c.admitted_providers@.len() && is_blank(#[trigger] c.admitted_providers@[i]@) {
        Some("provider_adapter_contract_invalid:admitted_providers"@)
    } else if is_blank(c.scripted_provider_adapter_kind@) {
        Some("provider_adapter_contract_invalid:scripted_provider_adapter_kind"@)
    } else if is_blank(c.production_provider_adapter_kind@) {
        Some("provider_adapter_contract_invalid:production_provider_adapter_kind"@)
    } else if !c.production_provider_adapter_implemented {
        Some("provider_adapter_contract_invalid:production_provider_adapter_implemented"@)
    } else {
        None
    }
}

/// The bundled provider adapter contract.
pub fn provider_adapter_contract() -> (c: ProviderAdapterContract)
    ensures
        is_bundled_adapter_contract(c),
{
    let admitted = string_list(
        &[
            "codex-subscription",
            "kimi-api",
            "kimi-code-api",
            "openai-api",
            "anthropic-api",
            "deepseek-api",
            "glm-api",
            "openrouter-api",
        ],
    );
    assert(strs(admitted@) =~= bundled_admitted_providers());
    ProviderAdapterContract {
        schema: owned("narada.agent_tui.provider_adapter_contract.v0"),
        provider_execution_env_var: owned("NARADA_AGENT_TUI_ENABLE_PROVIDER_EXECUTION"),
        provider_adapter_kind_env_var: owned("NARADA_AGENT_TUI_PROVIDER_ADAPTER_KIND"),
        intelligence_provider_env_var: owned("NARADA_INTELLIGENCE_PROVIDER"),
        ai_model_env_var: owned("KIMI_CODE_MODEL"),
        ai_thinking_env_var: owned("NARADA_AI_THINKING"),
        ai_stream_env_var: owned("NARADA_AI_STREAM"),
        admitted_providers: admitted,
        scripted_provider_adapter_kind: owned("scripted_provider_adapter"),
        production_provider_adapter_kind: owned("codex_subscription_adapter"),
        production_provider_adapter_implemented: true,
    }
}

/// Checks a contract read from JSON, reporting the first failed check.
pub fn validate_provider_adapter_contract(c: &ProviderAdapterContract) -> (r: Result<(), String>)
    ensures
        match r {
            Ok(()) => adapter_contract_problem(*c) is None,
            Err(e) => adapter_contract_problem(*c) == Some(e@),
        },
{
    if !str_eq(trim_str(c.schema.as_str()), "narada.agent_tui.provider_adapter_contract.v0") {
        return Err(owned("provider_adapter_contract_invalid:schema"));
    }
    if is_blank_str(c.provider_execution_env_var.as_str()) {
        return Err(owned("provider_adapter_contract_invalid:provider_execution_env_var"));
    }
    if is_blank_str(c.provider_adapter_kind_env_var.as_str()) {
        return Err(owned("provider_adapter_contract_invalid:provider_adapter_kind_env_var"));
    }
    if is_blank_str(c.intelligence_provider_env_var.as_str()) {
        return Err(owned("provider_adapter_contract_invalid:intelligence_provider_env_var"));
    }
    if is_blank_str(c.ai_model_env_var.as_str()) {
        return Err(owned("provider_adapter_contract_invalid:ai_model_env_var"));
    }
    if is_blank_str(c.ai_thinking_env_var.as_str()) {
        return Err(owned("provider_adapter_contract_invalid:ai_thinking_env_var"));
    }
    if is_blank_str(c.ai_stream_env_var.as_str()) {
        return Err(owned("provider_adapter_contract_invalid:ai_stream_env_var"));
    }
    let mut blank_provider = false;
    let mut i: usize = 0;
    while i < c.admitted_providers.len()
        invariant
            i <= c.admitted_providers.len(),
            blank_provider == exists|k: int| 0 <= k < i && is_blank(#[trigger] c.admitted_providers@[k]@),
        decreases c.admitted_providers.len() - i,
    {
        if is_blank_str(c.admitted_providers[i].as_str()) {
            blank_provider = true;
        }
        i = i + 1;
    }
    if c.admitted_providers.len() == 0 || blank_provider {
        return Err(owned("provider_adapter_contract_invalid:admitted_providers"));
    }
    if is_blank_str(c.scripted_provider_adapter_kind.as_str()) {
        return Err(owned("provider_adapter_contract_invalid:scripted_provider_adapter_kind"));
    }
    if is_blank_str(c.production_provider_adapter_kind.as_str()) {
        return Err(owned("provider_adapter_contract_invalid:production_provider_adapter_kind"));
    }
    if !c.production_provider_adapter_implemented {
        return Err(owned("provider_adapter_contract_invalid:production_provider_adapter_implemented"));
    }
    Ok(())
}

} // verus!
