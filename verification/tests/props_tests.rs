//! Tests for the plain property bundles.

use terrain::props::{ButtonProperties, HeaderProperties, ProjectProperties};
use terrain::TerrainProperties;

#[test]
fn button_defaults_to_new_tab() {
    let b = ButtonProperties::new(String::from("github"), String::from("https://example.org"));
    assert!(b.new_tab);
    assert_eq!(b.title, "github");
    assert_eq!(b.link, "https://example.org");
}

#[test]
fn terrain_properties_historical_defaults() {
    let p = TerrainProperties::default();
    assert_eq!(p.scale, 40_000_000);
    assert_eq!(p.octaves, 4);
    assert_eq!(p.persistance, 500_000);
    assert_eq!(p.lacunarity, 2_000_000);
    assert!(!p.mobile);
}

#[test]
fn property_bundles_carry_their_fields() {
    let h = HeaderProperties { text: String::from("projects.") };
    assert_eq!(h.text, "projects.");
    let pr = ProjectProperties {
        title: String::from("Battleship"),
        link: String::from("https://example.org/battleship"),
        description: String::from(""),
    };
    assert_eq!(pr.title, "Battleship");
    assert_eq!(pr.description, "");
}
