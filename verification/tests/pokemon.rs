use pokedex::error::{AppError, TransportError};
use pokedex::pokemon::{
    FetchOutcome, FlavorTextEntry, Habitat, Language, PokeApiSpecies, Pokemon, PokemonService,
};

fn create_flavor_text_entries(english_text: &str) -> Vec<FlavorTextEntry> {
    vec![
        FlavorTextEntry {
            flavor_text: "Texto en español".to_string(),
            language: Language { name: "es".to_string() },
        },
        FlavorTextEntry {
            flavor_text: english_text.to_string(),
            language: Language { name: "en".to_string() },
        },
        FlavorTextEntry {
            flavor_text: "Texte en français".to_string(),
            language: Language { name: "fr".to_string() },
        },
    ]
}

fn create_test_species(
    name: &str,
    description: &str,
    habitat: Option<&str>,
    is_legendary: bool,
) -> PokeApiSpecies {
    PokeApiSpecies {
        name: name.to_string(),
        habitat: habitat.map(|h| Habitat { name: h.to_string() }),
        flavor_text_entries: create_flavor_text_entries(description),
        is_legendary,
    }
}

fn catalog_service() -> PokemonService {
    PokemonService::new("https://pokeapi.co/api/v2".to_string(), 10)
}

#[test]
fn test_extract_english_description_found() {
    let entries = create_flavor_text_entries("English description");
    let result = pokedex::pokemon::extract_english_description(&entries);
    assert_eq!(result, Some("English description".to_string()));
}

#[test]
fn test_extract_english_description_not_found() {
    let entries = vec![
        FlavorTextEntry {
            flavor_text: "Texto en español".to_string(),
            language: Language { name: "es".to_string() },
        },
        FlavorTextEntry {
            flavor_text: "Texte en français".to_string(),
            language: Language { name: "fr".to_string() },
        },
    ];
    let result = pokedex::pokemon::extract_english_description(&entries);
    assert_eq!(result, None);
}

#[test]
fn test_extract_english_description_empty() {
    let entries = vec![];
    let result = pokedex::pokemon::extract_english_description(&entries);
    assert_eq!(result, None);
}

#[test]
fn test_extract_english_description_takes_first() {
    let mut entries = create_flavor_text_entries("first english");
    entries.push(FlavorTextEntry {
        flavor_text: "second english".to_string(),
        language: Language { name: "en".to_string() },
    });
    let result = pokedex::pokemon::extract_english_description(&entries);
    assert_eq!(result, Some("first english".to_string()));
}

#[test]
fn test_basic_processor_legendary_pokemon() {
    let input = create_test_species(
        "mewtwo",
        "It was created by\na scientist after\nyears of horrific\ngene splicing.",
        Some("rare"),
        true,
    );

    let result = catalog_service().map_to_pokemon(input);

    assert_eq!(result.name, "mewtwo");
    assert_eq!(
        result.description,
        Some("It was created by a scientist after years of horrific gene splicing.".to_string())
    );
    assert_eq!(result.habitat, Some("rare".to_string()));
    assert_eq!(result.is_legendary, true);
}

#[test]
fn test_basic_processor_regular_pokemon() {
    let input = create_test_species(
        "pikachu",
        "When several of\nthese POKéMON gather,\ntheir electricity could\nbuild and cause lightning storms.",
        Some("forest"),
        false,
    );

    let result = catalog_service().map_to_pokemon(input);

    assert_eq!(result.name, "pikachu");
    assert_eq!(
        result.description,
        Some(
            "When several of these POKéMON gather, their electricity could build and cause lightning storms."
                .to_string()
        )
    );
    assert_eq!(result.habitat, Some("forest".to_string()));
    assert_eq!(result.is_legendary, false);
}

#[test]
fn test_basic_processor_no_habitat() {
    let input = create_test_species(
        "porygon",
        "A POKéMON that consists\nentirely of programming\ncode.",
        None,
        false,
    );

    let result = catalog_service().map_to_pokemon(input);

    assert_eq!(result.name, "porygon");
    assert_eq!(
        result.description,
        Some("A POKéMON that consists entirely of programming code.".to_string())
    );
    assert_eq!(result.habitat, None);
    assert_eq!(result.is_legendary, false);
}

#[test]
fn test_basic_processor_no_english_description() {
    let mut input = create_test_species("testmon", "English description", Some("mountain"), false);

    input.flavor_text_entries = vec![FlavorTextEntry {
        flavor_text: "Descripción en español".to_string(),
        language: Language { name: "es".to_string() },
    }];

    let result = catalog_service().map_to_pokemon(input);

    assert_eq!(result.name, "testmon");
    assert_eq!(result.description, None);
    assert_eq!(result.habitat, Some("mountain".to_string()));
    assert_eq!(result.is_legendary, false);
}

#[test]
fn test_pokemon_equality() {
    let p1 = Pokemon {
        name: "pikachu".to_string(),
        description: Some("Electric mouse".to_string()),
        habitat: Some("forest".to_string()),
        is_legendary: false,
    };
    let p2 = p1.clone();
    assert_eq!(p1, p2);
}

#[test]
fn test_species_url_lowercases_name() {
    let url = catalog_service().species_url("PikaChu");
    assert_eq!(url, "https://pokeapi.co/api/v2/pokemon-species/pikachu");
}

#[test]
fn test_health_url() {
    let url = catalog_service().health_url();
    assert_eq!(url, "https://pokeapi.co/api/v2/pokemon-species/1");
}

#[test]
fn test_interpret_fetch_not_found() {
    let result = catalog_service().interpret_fetch("mewtwo", FetchOutcome::HttpFailure(404));
    let err = result.unwrap_err();
    assert_eq!(err, AppError::NotFound("Pokemon 'mewtwo' not found".to_string()));
    assert_eq!(err.status_code(), 404);
}

#[test]
fn test_interpret_fetch_timeout() {
    let outcome = FetchOutcome::Transport(TransportError::TimedOut("deadline exceeded".to_string()));
    let result = catalog_service().interpret_fetch("pikachu", outcome);
    let err = result.unwrap_err();
    assert_eq!(err, AppError::Timeout("Request to PokeAPI timed out: deadline exceeded".to_string()));
    assert_eq!(err.status_code(), 504);
}

#[test]
fn test_interpret_fetch_connection_failed() {
    let outcome =
        FetchOutcome::Transport(TransportError::ConnectionFailed("refused".to_string()));
    let result = catalog_service().interpret_fetch("pikachu", outcome);
    assert_eq!(
        result.unwrap_err(),
        AppError::ExternalApi("Failed to connect to PokeAPI: refused".to_string())
    );
}

#[test]
fn test_interpret_fetch_other_transport_failure() {
    let outcome = FetchOutcome::Transport(TransportError::Other("body cut short".to_string()));
    let result = catalog_service().interpret_fetch("pikachu", outcome);
    assert_eq!(
        result.unwrap_err(),
        AppError::ExternalApi("Failed to fetch pokemon: body cut short".to_string())
    );
}

#[test]
fn test_interpret_fetch_unexpected_status() {
    let result = catalog_service().interpret_fetch("pikachu", FetchOutcome::HttpFailure(503));
    let err = result.unwrap_err();
    assert_eq!(err, AppError::ExternalApi("PokeAPI returned status: 503".to_string()));
    assert_eq!(err.status_code(), 502);
}

#[test]
fn test_interpret_fetch_bad_payload() {
    let outcome = FetchOutcome::BadPayload("missing field `name`".to_string());
    let result = catalog_service().interpret_fetch("pikachu", outcome);
    assert_eq!(
        result.unwrap_err(),
        AppError::ExternalApi("Failed to parse pokemon data: missing field `name`".to_string())
    );
}

#[test]
fn test_interpret_fetch_success_maps_record() {
    let species = create_test_species("pikachu", "An electric\nmouse", Some("forest"), false);
    let result = catalog_service().interpret_fetch("pikachu", FetchOutcome::Success(species));
    let record = result.unwrap();
    assert_eq!(record.name, "pikachu");
    assert_eq!(record.description, Some("An electric mouse".to_string()));
    assert_eq!(record.habitat, Some("forest".to_string()));
    assert_eq!(record.is_legendary, false);
}
