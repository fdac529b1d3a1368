use vstd::prelude::*;

use crate::error::TranslateError;
use crate::text::{contains, contains_spec, trim, trim_spec};

verus! {

/// The HTTP status a rate-limited request is answered with.
pub const STATUS_TOO_MANY_REQUESTS: u16 = 429;

/// The fields of the translation server's answer.
pub struct ProviderBody {
    /// The generated text.
    pub response: String,
    /// An error the server reported instead of a translation.
    pub error: Option<String>,
}

/// What became of a translation request.
pub enum ProviderReply {
    /// The server could not be reached.
    ConnectFailed,
    /// The server did not answer in time.
    TimedOut,
    /// The request failed for another reason, described.
    RequestFailed(String),
    /// The server answered with `status` (shown as `status_text`); `body` is
    /// its answer, or why that could not be parsed.
    Received { status: u16, status_text: String, body: Result<ProviderBody, String> },
}

/// Whether an HTTP status reports success.
pub open spec fn is_success_status(status: u16) -> bool {
    200 <= status && status <= 299
}

/// The result of a translation request, from the reply it got.
pub open spec fn reply_result_spec(reply: ProviderReply) -> Result<Seq<char>, TranslateError> {
    match reply {
        ProviderReply::ConnectFailed => Err(TranslateError::ProviderConnect),
        ProviderReply::TimedOut => Err(TranslateError::ProviderTimeout),
        ProviderReply::RequestFailed(d) => Err(TranslateError::ProviderRequest(d)),
        ProviderReply::Received { status, status_text, body } => if status
            == STATUS_TOO_MANY_REQUESTS {
            Err(TranslateError::ProviderRateLimited)
        } else if !is_success_status(status) {
            Err(TranslateError::ProviderServer(status_text))
        } else {
            match body {
                Err(d) => Err(TranslateError::ProviderParse(d)),
                Ok(b) => match b.error {
                    Some(d) => Err(TranslateError::ProviderReported(d)),
                    None => if trim_spec(b.response@).len() == 0 {
                        Err(TranslateError::EmptyTranslation)
                    } else {
                        Ok(trim_spec(b.response@))
                    },
                },
            }
        },
    }
}

/// Turns the reply to a translation request into the translation: the
/// generated text without surrounding whitespace, or the error it amounts to.
pub fn interpret_reply(reply: ProviderReply) -> (r: Result<String, TranslateError>)
    ensures
        match (r, reply_result_spec(reply)) {
            (Ok(t), Ok(s)) => t@ == s,
            (Err(e), Err(f)) => e == f,
            _ => false,
        },
{
    match reply {
        ProviderReply::ConnectFailed => Err(TranslateError::ProviderConnect),
        ProviderReply::TimedOut => Err(TranslateError::ProviderTimeout),
        ProviderReply::RequestFailed(d) => Err(TranslateError::ProviderRequest(d)),
        ProviderReply::Received { status, status_text, body } => {
            if status == STATUS_TOO_MANY_REQUESTS {
                Err(TranslateError::ProviderRateLimited)
            } else if status < 200 || status > 299 {
                Err(TranslateError::ProviderServer(status_text))
            } else {
                match body {
                    Err(d) => Err(TranslateError::ProviderParse(d)),
                    Ok(b) => match b.error {
                        Some(d) => Err(TranslateError::ProviderReported(d)),
                        None => {
                            let t = trim(b.response.as_str());
                            if t.unicode_len() == 0 {
                                Err(TranslateError::EmptyTranslation)
                            } else {
                                Ok(String::from_str(t))
                            }
                        },
                    },
                }
            }
        },
    }
}

/// The instruction sent to the model to translate `text` into `target_lang`.
pub open spec fn prompt_spec(text: Seq<char>, target_lang: Seq<char>) -> Seq<char> {
    "Translate the following Slack message to "@ + (if target_lang == "ja"@ {
        "Japanese"@
    } else {
        "English"@
    }) + ". Only provide the translation, nothing else:\n\n"@ + text
}

/// Builds the instruction that asks the model for a translation of `text`
/// into `target_lang` (`"ja"` for Japanese, English otherwise).
pub fn translation_prompt(text: &str, target_lang: &str) -> (r: String)
    ensures
        r@ == prompt_spec(text@, target_lang@),
{
    proof {
        reveal_strlit("ja");
    }
    let is_ja = target_lang.unicode_len() == 2 && target_lang.get_char(0) == 'j'
        && target_lang.get_char(1) == 'a';
    if is_ja {
        assert(target_lang@ =~= "ja"@);
    }
    let language = if is_ja {
        "Japanese"
    } else {
        "English"
    };
    String::from_str("Translate the following Slack message to ").concat(language).concat(
        ". Only provide the translation, nothing else:\n\n",
    ).concat(text)
}

/// Status of the translation server and of the configured model.
pub struct OllamaStatus {
    pub is_running: bool,
    pub model_available: bool,
    pub error_message: Option<String>,
}

/// What a probe of the translation server found.
pub enum StatusProbe {
    /// No HTTP client could be built, for the reason given.
    ClientFailed(String),
    /// The server could not be reached, for the reason given.
    Unreachable(String),
    /// The server answered with an error status, shown as given.
    ErrorStatus(String),
    /// The model list could not be parsed, for the reason given.
    Unparsable(String),
    /// The names of the installed models, if the answer listed any.
    Models(Option<Vec<String>>),
}

/// Whether some installed model's name contains the configured model's name.
pub open spec fn model_listed(names: Seq<String>, model: Seq<char>) -> bool {
    exists|i: int| 0 <= i < names.len() && contains_spec(#[trigger] names[i]@, model)
}

/// Whether any of `names` contains `model`.
pub fn any_model_matches(names: &Vec<String>, model: &str) -> (r: bool)
    ensures
        r == model_listed(names@, model@),
{
    let mut i: usize = 0;
    while i < names.len()
        invariant
            i <= names@.len(),
            forall|j: int| 0 <= j < i ==> !contains_spec(#[trigger] names@[j]@, model@),
        decreases names@.len() - i,
    {
        if contains(names[i].as_str(), model) {
            return true;
        }
        i = i + 1;
    }
    false
}

/// The status message and availability for each probe result.
pub fn status_from_probe(probe: StatusProbe, model: &str) -> (r: OllamaStatus)
    ensures
        r.is_running == (probe is Unparsable || probe is Models),
        r.model_available == (match probe {
            StatusProbe::Models(Some(names)) => model_listed(names@, model@),
            _ => false,
        }),
        r.error_message is None <==> r.model_available,
        match probe {
            StatusProbe::ClientFailed(d) => r.error_message->Some_0@ == "HTTP client error: "@ + d@,
            StatusProbe::Unreachable(d) => r.error_message->Some_0@ == "Ollama not running: "@ + d@,
            StatusProbe::ErrorStatus(d) => r.error_message->Some_0@ == "Ollama API error: "@ + d@,
            StatusProbe::Unparsable(d) => r.error_message->Some_0@ == "Failed to parse models: "@ + d@,
            StatusProbe::Models(_) => !r.model_available ==> r.error_message->Some_0@ == "Model '"@
                + model@ + "' not found"@,
        },
{
    match probe {
        StatusProbe::ClientFailed(d) => OllamaStatus {
            is_running: false,
            model_available: false,
            error_message: Some(String::from_str("HTTP client error: ").concat(d.as_str())),
        },
        StatusProbe::Unreachable(d) => OllamaStatus {
            is_running: false,
            model_available: false,
            error_message: Some(String::from_str("Ollama not running: ").concat(d.as_str())),
        },
        StatusProbe::ErrorStatus(d) => OllamaStatus {
            is_running: false,
            model_available: false,
            error_message: Some(String::from_str("Ollama API error: ").concat(d.as_str())),
        },
        StatusProbe::Unparsable(d) => OllamaStatus {
            is_running: true,
            model_available: false,
            error_message: Some(String::from_str("Failed to parse models: ").concat(d.as_str())),
        },
        StatusProbe::Models(names) => {
            let model_available = match &names {
                Some(list) => any_model_matches(list, model),
                None => false,
            };
            let error_message = if model_available {
                None
            } else {
                Some(String::from_str("Model '").concat(model).concat("' not found"))
            };
            OllamaStatus { is_running: true, model_available, error_message }
        },
    }
}

} // verus!
