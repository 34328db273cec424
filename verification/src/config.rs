use vstd::prelude::*;
use vstd::string::StringExecFns;

verus! {

/// The settings the agent runs with: exchange credentials and the language
/// model's endpoint, key and model.
pub struct Config {
    pub kraken_futures_api_key: String,
    pub kraken_futures_api_secret: String,
    pub llm_api_key: String,
    pub llm_base_url: String,
    pub llm_model_name: String,
}

/// The error for a setting that is missing.
pub open spec fn missing_text(name: Seq<char>) -> Seq<char> {
    name + " is missing from .env / environment"@
}

fn missing(name: &str) -> (e: String)
    ensures
        e@ == missing_text(name@),
{
    String::from_str(name).concat(" is missing from .env / environment")
}

/// The optional text's view.
pub open spec fn setting_view(o: Option<String>) -> Option<Seq<char>> {
    match o {
        Some(t) => Some(t@),
        None => None,
    }
}

impl Config {
    /// The configuration from the values of the five settings, as found; the
    /// first missing one, in the order of the fields, is reported.
    pub fn from_values(
        kraken_futures_api_key: Option<String>,
        kraken_futures_api_secret: Option<String>,
        llm_api_key: Option<String>,
        llm_base_url: Option<String>,
        llm_model_name: Option<String>,
    ) -> (r: Result<Config, String>)
        ensures
            (match r {
                Ok(c) => {
                    &&& setting_view(kraken_futures_api_key) == Some(c.kraken_futures_api_key@)
                    &&& setting_view(kraken_futures_api_secret) == Some(c.kraken_futures_api_secret@)
                    &&& setting_view(llm_api_key) == Some(c.llm_api_key@)
                    &&& setting_view(llm_base_url) == Some(c.llm_base_url@)
                    &&& setting_view(llm_model_name) == Some(c.llm_model_name@)
                },
                Err(e) => if kraken_futures_api_key is None {
                    e@ == missing_text("KRAKEN_FUTURES_API_KEY"@)
                } else if kraken_futures_api_secret is None {
                    e@ == missing_text("KRAKEN_FUTURES_API_SECRET"@)
                } else if llm_api_key is None {
                    e@ == missing_text("LLM_API_KEY"@)
                } else if llm_base_url is None {
                    e@ == missing_text("LLM_BASE_URL"@)
                } else {
                    llm_model_name is None && e@ == missing_text("LLM_MODEL_NAME"@)
                },
            }),
    {
        let kraken_futures_api_key = match kraken_futures_api_key {
            Some(v) => v,
            None => return Err(missing("KRAKEN_FUTURES_API_KEY")),
        };
        let kraken_futures_api_secret = match kraken_futures_api_secret {
            Some(v) => v,
            None => return Err(missing("KRAKEN_FUTURES_API_SECRET")),
        };
        let llm_api_key = match llm_api_key {
            Some(v) => v,
            None => return Err(missing("LLM_API_KEY")),
        };
        let llm_base_url = match llm_base_url {
            Some(v) => v,
            None => return Err(missing("LLM_BASE_URL")),
        };
        let llm_model_name = match llm_model_name {
            Some(v) => v,
            None => return Err(missing("LLM_MODEL_NAME")),
        };
        Ok(Config { kraken_futures_api_key, kraken_futures_api_secret, llm_api_key, llm_base_url, llm_model_name })
    }
}

} // verus!
