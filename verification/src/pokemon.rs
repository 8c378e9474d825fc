//! The catalog client's logic: the upstream species payload, its mapping
//! into the client-facing record, and the interpretation of the fetch
//! outcome into the error taxonomy. The HTTP call itself is made by the
//! unverified transport layer, which reports its outcome as a
//! `FetchOutcome`.

use vstd::prelude::*;
use vstd::string::StringExecFns;

use crate::error::{AppError, TransportError};
use crate::text::{clean_description, decimal, lower_of, normalized, push_u16, str_eq, to_lowercase};

verus! {

/// The client-facing record of a lookup.
#[derive(Debug, Clone, PartialEq, Eq)]
pub struct Pokemon {
    /// Name as the upstream payload spells it.
    pub name: String,
    /// Normalized English description, absent if the payload has no
    /// English-language text entry.
    pub description: Option<String>,
    /// Habitat label, absent if the payload has none.
    pub habitat: Option<String>,
    /// The upstream notability flag.
    pub is_legendary: bool,
}

/// Language tag of a localized text entry, as the catalog returns it.
#[derive(Debug, Clone)]
pub struct Language {
    pub name: String,
}

/// One localized description in the catalog payload.
#[derive(Debug, Clone)]
pub struct FlavorTextEntry {
    pub flavor_text: String,
    pub language: Language,
}

/// The habitat object of the catalog payload.
#[derive(Debug, Clone)]
pub struct Habitat {
    pub name: String,
}

/// The species record as the upstream catalog API returns it, already
/// decoded from its JSON body by the transport layer.
#[derive(Debug, Clone)]
pub struct PokeApiSpecies {
    pub name: String,
    pub habitat: Option<Habitat>,
    pub flavor_text_entries: Vec<FlavorTextEntry>,
    pub is_legendary: bool,
}

/// The text of the first entry tagged with language `"en"`, if any.
pub open spec fn first_english(entries: Seq<FlavorTextEntry>) -> Option<String>
    decreases entries.len(),
{
    if entries.len() == 0 {
        None
    } else if entries[0].language.name@ == "en"@ {
        Some(entries[0].flavor_text)
    } else {
        first_english(entries.drop_first())
    }
}

/// Find the first English-language text entry.
pub fn extract_english_description(entries: &Vec<FlavorTextEntry>) -> (r: Option<String>)
    ensures
        r == first_english(entries@),
{
    let n = entries.len();
    let mut i: usize = 0;
    proof {
        assert(entries@.skip(0) =~= entries@);
    }
    while i < n
        invariant
            i <= n,
            n == entries@.len(),
            first_english(entries@) == first_english(entries@.skip(i as int)),
        decreases n - i,
    {
        let ghost q = entries@.skip(i as int);
        proof {
            assert(q[0] == entries@[i as int]);
            assert(q.drop_first() =~= entries@.skip(i as int + 1));
        }
        if str_eq(entries[i].language.name.as_str(), "en") {
            return Some(entries[i].flavor_text.clone());
        }
        i = i + 1;
    }
    proof {
        assert(entries@.skip(n as int) =~= Seq::<FlavorTextEntry>::empty());
    }
    None
}

/// How the client-facing record relates to the upstream payload it was
/// mapped from: name and flag copied, habitat flattened to its label, and
/// the description the normalized first English text entry.
pub open spec fn mapped_from(p: Pokemon, species: PokeApiSpecies) -> bool {
    &&& p.name == species.name
    &&& p.is_legendary == species.is_legendary
    &&& p.habitat == match species.habitat {
        Some(h) => Some(h.name),
        None => None::<String>,
    }
    &&& match first_english(species.flavor_text_entries@) {
        Some(text) => p.description matches Some(d) && d@ == normalized(text@),
        None => p.description is None,
    }
}

/// Outcome of the catalog GET, as the transport layer reports it.
pub enum FetchOutcome {
    /// The call failed before an HTTP response arrived.
    Transport(TransportError),
    /// The call completed with a non-success HTTP status.
    HttpFailure(u16),
    /// The call succeeded but its body did not decode into a species
    /// record; the payload is the decoder's detail.
    BadPayload(String),
    /// The call succeeded and its body decoded into a species record.
    Success(PokeApiSpecies),
}

/// The catalog client's verified core: it builds the request URLs and
/// interprets outcomes. The transport configuration it carries is read-only.
pub struct PokemonService {
    /// Base URL of the catalog API.
    pub base_url: String,
    /// Timeout of each outbound call, in seconds, for the transport layer.
    pub timeout_secs: u64,
}

impl PokemonService {
    pub fn new(base_url: String, timeout_secs: u64) -> (s: Self)
        ensures
            s.base_url == base_url,
            s.timeout_secs == timeout_secs,
    {
        PokemonService { base_url, timeout_secs }
    }

    /// The URL of the species request for `name`: the lookup key is the
    /// lower-cased name.
    pub fn species_url(&self, name: &str) -> (r: String)
        ensures
            r@ == self.base_url@ + "/pokemon-species/"@ + lower_of(name@),
    {
        let mut url = self.base_url.clone();
        url.append("/pokemon-species/");
        let lowered = to_lowercase(name);
        url.append(lowered.as_str());
        url
    }

    /// The URL the reachability probe issues a GET to.
    pub fn health_url(&self) -> (r: String)
        ensures
            r@ == self.base_url@ + "/pokemon-species/1"@,
    {
        let mut url = self.base_url.clone();
        url.append("/pokemon-species/1");
        url
    }

    /// Map the upstream payload to the client-facing record.
    pub fn map_to_pokemon(&self, species: PokeApiSpecies) -> (p: Pokemon)
        ensures
            mapped_from(p, species),
    {
        let description = match extract_english_description(&species.flavor_text_entries) {
            Some(text) => Some(clean_description(text.as_str())),
            None => None,
        };
        let habitat = match species.habitat {
            Some(h) => Some(h.name),
            None => None,
        };
        Pokemon { name: species.name, description, habitat, is_legendary: species.is_legendary }
    }

    /// Turn the outcome of the species fetch for `name` into the lookup
    /// result: a mapped record on success, and otherwise the error kind
    /// the taxonomy assigns — `Timeout` for a transport timeout,
    /// `NotFound` for a 404 status, and `ExternalApi` for every other
    /// transport, status or parse failure.
    pub fn interpret_fetch(&self, name: &str, outcome: FetchOutcome) -> (r: Result<
        Pokemon,
        AppError,
    >)
        ensures
            outcome matches FetchOutcome::Transport(TransportError::TimedOut(d)) ==> r matches Err(
                AppError::Timeout(m),
            ) && m@ == "Request to PokeAPI timed out: "@ + d@,
            outcome matches FetchOutcome::Transport(TransportError::ConnectionFailed(d))
                ==> r matches Err(AppError::ExternalApi(m)) && m@ == "Failed to connect to PokeAPI: "@
                + d@,
            outcome matches FetchOutcome::Transport(TransportError::Other(d)) ==> r matches Err(
                AppError::ExternalApi(m),
            ) && m@ == "Failed to fetch pokemon: "@ + d@,
            outcome matches FetchOutcome::HttpFailure(status) ==> (if status == 404 {
                r matches Err(AppError::NotFound(m)) && m@ == "Pokemon '"@ + name@
                    + "' not found"@
            } else {
                r matches Err(AppError::ExternalApi(m)) && m@ == "PokeAPI returned status: "@
                    + decimal(status as int)
            }),
            outcome matches FetchOutcome::BadPayload(d) ==> r matches Err(AppError::ExternalApi(m))
                && m@ == "Failed to parse pokemon data: "@ + d@,
            outcome matches FetchOutcome::Success(species) ==> r matches Ok(p) && mapped_from(
                p,
                species,
            ),
    {
        match outcome {
            FetchOutcome::Transport(TransportError::TimedOut(d)) => {
                let mut m = "Request to PokeAPI timed out: ".to_owned();
                m.append(d.as_str());
                Err(AppError::Timeout(m))
            },
            FetchOutcome::Transport(TransportError::ConnectionFailed(d)) => {
                let mut m = "Failed to connect to PokeAPI: ".to_owned();
                m.append(d.as_str());
                Err(AppError::ExternalApi(m))
            },
            FetchOutcome::Transport(TransportError::Other(d)) => {
                let mut m = "Failed to fetch pokemon: ".to_owned();
                m.append(d.as_str());
                Err(AppError::ExternalApi(m))
            },
            FetchOutcome::HttpFailure(status) => {
                if status == 404 {
                    let mut m = "Pokemon '".to_owned();
                    m.append(name);
                    m.append("' not found");
                    Err(AppError::NotFound(m))
                } else {
                    let mut m = "PokeAPI returned status: ".to_owned();
                    push_u16(&mut m, status);
                    Err(AppError::ExternalApi(m))
                }
            },
            FetchOutcome::BadPayload(d) => {
                let mut m = "Failed to parse pokemon data: ".to_owned();
                m.append(d.as_str());
                Err(AppError::ExternalApi(m))
            },
            FetchOutcome::Success(species) => Ok(self.map_to_pokemon(species)),
        }
    }
}

} // verus!
