//! The transform client's logic: variant selection, request URL building,
//! and interpretation of the transform outcome into the error taxonomy.
//! The POST itself is made by the unverified transport layer.

use vstd::prelude::*;
use vstd::string::StringExecFns;

use crate::error::{AppError, TransportError};
use crate::text::{decimal, push_u16, str_eq};

verus! {

/// The two fixed styles of the transform API.
#[derive(Debug, Clone, Copy, PartialEq, Eq, Structural)]
pub enum Translator {
    Yoda,
    Shakespeare,
}

impl Translator {
    /// The path segment of this variant at the transform API.
    pub fn as_str(&self) -> (r: &str)
        ensures
            *self == Translator::Yoda ==> r@ == "yoda"@,
            *self == Translator::Shakespeare ==> r@ == "shakespeare"@,
    {
        match self {
            Translator::Yoda => "yoda",
            Translator::Shakespeare => "shakespeare",
        }
    }
}

/// The selection rule: Yoda for a cave habitat or a notable species,
/// Shakespeare otherwise — a strict OR, either fact alone suffices.
pub open spec fn chosen_translator(habitat: Option<String>, is_legendary: bool) -> Translator {
    if (match habitat {
        Some(h) => h@ == "cave"@,
        None => false,
    }) || is_legendary {
        Translator::Yoda
    } else {
        Translator::Shakespeare
    }
}

/// Outcome of the transform POST, as the transport layer reports it.
pub enum TranslateOutcome {
    /// The call failed before an HTTP response arrived.
    Transport(TransportError),
    /// The call completed with a non-success HTTP status.
    HttpFailure(u16),
    /// The call succeeded but its body held no translated text; the
    /// payload is the decoder's detail.
    BadPayload(String),
    /// The call succeeded; the payload is the translated text from the
    /// response body.
    Success(String),
}

/// The transform client's verified core: it selects the variant, builds
/// the request URL, and interprets outcomes. The transport configuration
/// it carries is read-only.
pub struct TranslationService {
    /// Base URL of the transform API.
    pub base_url: String,
    /// Timeout of each outbound call, in seconds, for the transport layer.
    pub timeout_secs: u64,
}

impl TranslationService {
    pub fn new(base_url: String, timeout_secs: u64) -> (s: Self)
        ensures
            s.base_url == base_url,
            s.timeout_secs == timeout_secs,
    {
        TranslationService { base_url, timeout_secs }
    }

    /// Choose the transform variant from the habitat and the notability
    /// flag.
    pub fn select_translator(&self, habitat: &Option<String>, is_legendary: bool) -> (t: Translator)
        ensures
            t == chosen_translator(*habitat, is_legendary),
    {
        let cave = match habitat {
            Some(h) => str_eq(h.as_str(), "cave"),
            None => false,
        };
        if cave || is_legendary {
            Translator::Yoda
        } else {
            Translator::Shakespeare
        }
    }

    /// The URL of the transform request: `{base}/{variant}.json`.
    pub fn translate_url(&self, translator: Translator) -> (r: String)
        ensures
            translator == Translator::Yoda ==> r@ == self.base_url@ + "/yoda.json"@,
            translator == Translator::Shakespeare ==> r@ == self.base_url@ + "/shakespeare.json"@,
    {
        let mut url = self.base_url.clone();
        url.append("/");
        url.append(translator.as_str());
        url.append(".json");
        proof {
            reveal_strlit("/");
            reveal_strlit(".json");
            reveal_strlit("yoda");
            reveal_strlit("shakespeare");
            reveal_strlit("/yoda.json");
            reveal_strlit("/shakespeare.json");
            if translator == Translator::Yoda {
                assert("/"@ + "yoda"@ + ".json"@ =~= "/yoda.json"@);
                assert(self.base_url@ + "/"@ + "yoda"@ + ".json"@ =~= self.base_url@
                    + "/yoda.json"@);
            } else {
                assert("/"@ + "shakespeare"@ + ".json"@ =~= "/shakespeare.json"@);
                assert(self.base_url@ + "/"@ + "shakespeare"@ + ".json"@ =~= self.base_url@
                    + "/shakespeare.json"@);
            }
        }
        url
    }

    /// The URL the reachability probe issues its POST to: the Shakespeare
    /// variant of the transform API.
    pub fn health_url(&self) -> (r: String)
        ensures
            r@ == self.base_url@ + "/shakespeare.json"@,
    {
        self.translate_url(Translator::Shakespeare)
    }

    /// Turn the outcome of the transform POST into the transform result:
    /// the translated text on success, and otherwise the error kind the
    /// taxonomy assigns — `Timeout` for a transport timeout and
    /// `ExternalApi` for every other transport, status or parse failure.
    pub fn interpret_translate(&self, outcome: TranslateOutcome) -> (r: Result<String, AppError>)
        ensures
            outcome matches TranslateOutcome::Transport(TransportError::TimedOut(d))
                ==> r matches Err(AppError::Timeout(m)) && m@
                == "Translation request timed out: "@ + d@,
            outcome matches TranslateOutcome::Transport(TransportError::ConnectionFailed(d))
                ==> r matches Err(AppError::ExternalApi(m)) && m@
                == "Translation request failed: "@ + d@,
            outcome matches TranslateOutcome::Transport(TransportError::Other(d)) ==> r matches Err(
                AppError::ExternalApi(m),
            ) && m@ == "Translation request failed: "@ + d@,
            outcome matches TranslateOutcome::HttpFailure(status) ==> r matches Err(
                AppError::ExternalApi(m),
            ) && m@ == "Translation API returned status: "@ + decimal(status as int),
            outcome matches TranslateOutcome::BadPayload(d) ==> r matches Err(
                AppError::ExternalApi(m),
            ) && m@ == "Failed to parse translation response: "@ + d@,
            outcome matches TranslateOutcome::Success(text) ==> r matches Ok(t) && t == text,
    {
        match outcome {
            TranslateOutcome::Transport(TransportError::TimedOut(d)) => {
                let mut m = "Translation request timed out: ".to_owned();
                m.append(d.as_str());
                Err(AppError::Timeout(m))
            },
            TranslateOutcome::Transport(TransportError::ConnectionFailed(d)) => {
                let mut m = "Translation request failed: ".to_owned();
                m.append(d.as_str());
                Err(AppError::ExternalApi(m))
            },
            TranslateOutcome::Transport(TransportError::Other(d)) => {
                let mut m = "Translation request failed: ".to_owned();
                m.append(d.as_str());
                Err(AppError::ExternalApi(m))
            },
            TranslateOutcome::HttpFailure(status) => {
                let mut m = "Translation API returned status: ".to_owned();
                push_u16(&mut m, status);
                Err(AppError::ExternalApi(m))
            },
            TranslateOutcome::BadPayload(d) => {
                let mut m = "Failed to parse translation response: ".to_owned();
                m.append(d.as_str());
                Err(AppError::ExternalApi(m))
            },
            TranslateOutcome::Success(text) => Ok(text),
        }
    }
}

} // verus!
