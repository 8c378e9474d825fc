use pokedex::config::Config;
use pokedex::error::{AppError, TransportError};
use pokedex::orchestrator::{
    begin_translated, finish_translated, interpret_health, readiness, TranslatedStep,
};
use pokedex::pokemon::{FlavorTextEntry, Habitat, Language, PokeApiSpecies, Pokemon, PokemonService};
use pokedex::translation::TranslationService;

fn record(description: Option<&str>, habitat: Option<&str>, is_legendary: bool) -> Pokemon {
    Pokemon {
        name: "testmon".to_string(),
        description: description.map(|d| d.to_string()),
        habitat: habitat.map(|h| h.to_string()),
        is_legendary,
    }
}

#[test]
fn test_catalog_error_propagates_and_skips_transform() {
    let err = AppError::NotFound("Pokemon 'missingno' not found".to_string());
    let step = begin_translated(Err(err.clone()));
    // The step carries the same error and never asks for a transform call.
    assert_eq!(step, TranslatedStep::Done(Err(err)));
}

#[test]
fn test_no_description_skips_transform() {
    let p = record(None, Some("mountain"), false);
    let step = begin_translated(Ok(p.clone()));
    assert_eq!(step, TranslatedStep::Done(Ok(p)));
}

#[test]
fn test_description_goes_to_transform() {
    let p = record(Some("A B"), Some("forest"), false);
    let step = begin_translated(Ok(p.clone()));
    assert_eq!(step, TranslatedStep::Translate(p, "A B".to_string()));
}

#[test]
fn test_transform_failure_keeps_original_description() {
    let p = record(Some("A B"), Some("forest"), false);
    let failed: Result<String, AppError> =
        Err(AppError::Timeout("Translation request timed out: deadline".to_string()));
    let result = finish_translated(p.clone(), failed);
    // No error surfaces; the normalized original stays.
    assert_eq!(result, p);
}

#[test]
fn test_transform_success_replaces_description() {
    let p = record(Some("A B"), Some("cave"), true);
    let result = finish_translated(p, Ok("B, A is.".to_string()));
    assert_eq!(result.description, Some("B, A is.".to_string()));
    assert_eq!(result.habitat, Some("cave".to_string()));
    assert_eq!(result.is_legendary, true);
}

#[test]
fn test_end_to_end_pikachu() {
    let species = PokeApiSpecies {
        name: "pikachu".to_string(),
        habitat: Some(Habitat { name: "forest".to_string() }),
        flavor_text_entries: vec![FlavorTextEntry {
            flavor_text: "A\nB".to_string(),
            language: Language { name: "en".to_string() },
        }],
        is_legendary: false,
    };
    let catalog = PokemonService::new("https://pokeapi.co/api/v2".to_string(), 10);
    let transform = TranslationService::new(
        "https://api.funtranslations.com/translate".to_string(),
        10,
    );

    // Plain lookup: the mapped record with the normalized description.
    let plain = catalog.map_to_pokemon(species.clone());
    assert_eq!(plain.name, "pikachu");
    assert_eq!(plain.description, Some("A B".to_string()));
    assert_eq!(plain.habitat, Some("forest".to_string()));
    assert_eq!(plain.is_legendary, false);

    // Transformed lookup: not a cave dweller and not notable, so the
    // Shakespeare variant is invoked, and its output is substituted.
    let step = begin_translated(Ok(plain.clone()));
    match step {
        TranslatedStep::Translate(record, text) => {
            assert_eq!(text, "A B");
            let translator = transform.select_translator(&record.habitat, record.is_legendary);
            assert_eq!(translator.as_str(), "shakespeare");
            let done = finish_translated(record, Ok("Thou A B".to_string()));
            assert_eq!(done.description, Some("Thou A B".to_string()));
            assert_eq!(done.name, "pikachu");
            assert_eq!(done.habitat, Some("forest".to_string()));
            assert_eq!(done.is_legendary, false);
        }
        other => panic!("expected a transform step, got {:?}", other),
    }
}

#[test]
fn test_interpret_health_ok() {
    assert!(interpret_health(Ok(())).is_ok());
}

#[test]
fn test_interpret_health_failure() {
    let outcome = Err(TransportError::ConnectionFailed("refused".to_string()));
    let result = interpret_health(outcome);
    assert_eq!(
        result.unwrap_err(),
        AppError::ExternalApi("Health check failed: refused".to_string())
    );
}

#[test]
fn test_readiness_requires_both() {
    let ok: Result<(), AppError> = Ok(());
    let bad: Result<(), AppError> = Err(AppError::ExternalApi("down".to_string()));
    assert!(readiness(&ok, &ok));
    assert!(!readiness(&bad, &ok));
    assert!(!readiness(&ok, &bad));
    assert!(!readiness(&bad, &bad));
}

#[test]
fn test_config_defaults() {
    let config = Config::default();
    assert_eq!(config.host, "0.0.0.0");
    assert_eq!(config.port, 5000);
    assert_eq!(config.pokeapi_base_url, "https://pokeapi.co/api/v2");
    assert_eq!(config.translation_api_base_url, "https://api.funtranslations.com/translate");
    assert_eq!(config.http_timeout_secs, 10);
    assert_eq!(config.request_timeout_secs, 30);
}

#[test]
fn test_error_status_codes() {
    assert_eq!(AppError::NotFound("x".to_string()).status_code(), 404);
    assert_eq!(AppError::ExternalApi("x".to_string()).status_code(), 502);
    assert_eq!(AppError::Internal("x".to_string()).status_code(), 500);
    assert_eq!(AppError::Timeout("x".to_string()).status_code(), 504);
}

#[test]
fn test_error_messages() {
    assert_eq!(AppError::NotFound("no such".to_string()).message(), "Not found: no such");
    assert_eq!(AppError::ExternalApi("bad".to_string()).message(), "External API error: bad");
    assert_eq!(AppError::Internal("bind".to_string()).message(), "Internal error: bind");
    assert_eq!(AppError::Timeout("slow".to_string()).message(), "Timeout: slow");
}
