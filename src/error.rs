use vstd::prelude::*;

verus! {

/// Why a translation transaction failed.
pub enum TranslateError {
    /// The clipboard could not be read.
    ClipboardAccess(String),
    /// The synthetic copy keystroke could not be sent.
    Injection(String),
    /// The keystroke work could not be run on the UI thread.
    Dispatch(String),
    /// Neither a new selection nor usable clipboard text was found.
    NoSelection,
    /// The translation server could not be reached.
    ProviderConnect,
    /// The translation server did not answer in time.
    ProviderTimeout,
    /// The request to the translation server failed for another reason.
    ProviderRequest(String),
    /// The translation server refused the request for its rate limit.
    ProviderRateLimited,
    /// The translation server answered with an error status.
    ProviderServer(String),
    /// The translation server's answer could not be parsed.
    ProviderParse(String),
    /// The translation server reported an error in its answer.
    ProviderReported(String),
    /// The translation server answered with an empty translation.
    EmptyTranslation,
}

/// The message shown to the user for an error.
pub open spec fn message_spec(e: TranslateError) -> Seq<char> {
    match e {
        TranslateError::ClipboardAccess(d) => "Failed to read clipboard: "@ + d@,
        TranslateError::Injection(d) => "Failed to simulate copy: "@ + d@,
        TranslateError::Dispatch(d) => "Failed to dispatch to main thread: "@ + d@,
        TranslateError::NoSelection => "No text selected. Please select text before pressing Cmd+J."@,
        TranslateError::ProviderConnect => "Ollama not running. Start with: ollama serve"@,
        TranslateError::ProviderTimeout => "Ollama request timed out"@,
        TranslateError::ProviderRequest(d) => "Ollama request failed: "@ + d@,
        TranslateError::ProviderRateLimited => "Translation service is rate limited. Please wait a moment and try again later."@,
        TranslateError::ProviderServer(d) => "Ollama API error: "@ + d@,
        TranslateError::ProviderParse(d) => "Failed to parse Ollama response: "@ + d@,
        TranslateError::ProviderReported(d) => "Ollama error: "@ + d@,
        TranslateError::EmptyTranslation => "Empty translation response"@,
    }
}

fn prefixed(prefix: &str, detail: &String) -> (r: String)
    ensures
        r@ == prefix@ + detail@,
{
    String::from_str(prefix).concat(detail.as_str())
}

impl TranslateError {
    /// The message shown to the user.
    pub fn message(&self) -> (r: String)
        ensures
            r@ == message_spec(*self),
    {
        match self {
            TranslateError::ClipboardAccess(d) => prefixed("Failed to read clipboard: ", d),
            TranslateError::Injection(d) => prefixed("Failed to simulate copy: ", d),
            TranslateError::Dispatch(d) => prefixed("Failed to dispatch to main thread: ", d),
            TranslateError::NoSelection => String::from_str(
                "No text selected. Please select text before pressing Cmd+J.",
            ),
            TranslateError::ProviderConnect => String::from_str(
                "Ollama not running. Start with: ollama serve",
            ),
            TranslateError::ProviderTimeout => String::from_str("Ollama request timed out"),
            TranslateError::ProviderRequest(d) => prefixed("Ollama request failed: ", d),
            TranslateError::ProviderRateLimited => String::from_str(
                "Translation service is rate limited. Please wait a moment and try again later.",
            ),
            TranslateError::ProviderServer(d) => prefixed("Ollama API error: ", d),
            TranslateError::ProviderParse(d) => prefixed("Failed to parse Ollama response: ", d),
            TranslateError::ProviderReported(d) => prefixed("Ollama error: ", d),
            TranslateError::EmptyTranslation => String::from_str("Empty translation response"),
        }
    }

    /// The message surfaced for a failed transaction: errors of the
    /// translation server are marked as a failed translation.
    pub fn user_message(&self) -> (r: String)
        ensures
            r@ == (if self.is_provider_error_spec() {
                "Translation failed: "@ + message_spec(*self)
            } else {
                message_spec(*self)
            }),
    {
        let m = self.message();
        if self.is_provider_error() {
            String::from_str("Translation failed: ").concat(m.as_str())
        } else {
            m
        }
    }

    /// Whether the error came from the translation server.
    pub open spec fn is_provider_error_spec(&self) -> bool {
        !(self is ClipboardAccess || self is Injection || self is Dispatch || self is NoSelection)
    }

    /// Whether the error came from the translation server.
    pub fn is_provider_error(&self) -> (r: bool)
        ensures
            r == self.is_provider_error_spec(),
    {
        !matches!(self, TranslateError::ClipboardAccess(_) | TranslateError::Injection(_) | TranslateError::Dispatch(_) | TranslateError::NoSelection)
    }
}

} // verus!
