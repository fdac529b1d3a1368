use vstd::prelude::*;

verus! {

/// Where the translation server is and which model it runs.
pub struct TranslationConfig {
    pub ollama_base_url: String,
    pub ollama_model: String,
}

impl TranslationConfig {
    /// Builds the configuration from the values found for `OLLAMA_BASE_URL`
    /// and `OLLAMA_MODEL`; a missing value takes its default.
    pub fn from_values(base_url: Option<String>, model: Option<String>) -> (r: Self)
        ensures
            r.ollama_base_url@ == (match base_url {
                Some(u) => u@,
                None => "http://localhost:11434"@,
            }),
            r.ollama_model@ == (match model {
                Some(m) => m@,
                None => "qwen2.5:1.5b"@,
            }),
    {
        let ollama_base_url = match base_url {
            Some(u) => u,
            None => String::from_str("http://localhost:11434"),
        };
        let ollama_model = match model {
            Some(m) => m,
            None => String::from_str("qwen2.5:1.5b"),
        };
        TranslationConfig { ollama_base_url, ollama_model }
    }

    /// The endpoint that generates text.
    pub fn generate_url(&self) -> (r: String)
        ensures
            r@ == self.ollama_base_url@ + "/api/generate"@,
    {
        self.ollama_base_url.clone().concat("/api/generate")
    }

    /// The endpoint that lists the installed models.
    pub fn tags_url(&self) -> (r: String)
        ensures
            r@ == self.ollama_base_url@ + "/api/tags"@,
    {
        self.ollama_base_url.clone().concat("/api/tags")
    }
}

} // verus!
