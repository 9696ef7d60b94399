use mwscript::format::script_extension;
use mwscript::format::ESerializedType;

#[test]
fn default_format_is_yaml() {
    assert_eq!(ESerializedType::default(), ESerializedType::Yaml);
}

#[test]
fn format_names() {
    assert_eq!(ESerializedType::Yaml.to_string(), "yaml");
    assert_eq!(ESerializedType::Toml.to_string(), "toml");
    assert_eq!(ESerializedType::Json.to_string(), "json");
}

#[test]
fn format_extensions() {
    assert_eq!(ESerializedType::Yaml.extension(), "yaml");
    assert_eq!(ESerializedType::Toml.extension(), "toml");
    assert_eq!(ESerializedType::Json.extension(), "json");
}

#[test]
fn script_bodies_have_their_own_extension() {
    assert_eq!(script_extension(), "mwscript");
    for f in [ESerializedType::Yaml, ESerializedType::Toml, ESerializedType::Json] {
        assert_ne!(f.extension(), script_extension());
    }
}
