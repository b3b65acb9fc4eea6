use item_registry::item::{Item, ItemComponents, JukeboxPlayable, Operation};
use item_registry::registry::Registry;

fn components(stack: u8) -> ItemComponents {
    ItemComponents {
        item_name: String::from("{\"translate\":\"item.minecraft.generic\"}"),
        max_stack_size: stack,
        jukebox_playable: None,
        damage: None,
        max_damage: None,
        attribute_modifiers: None,
    }
}

fn entry(name: &str, id: u16, stack: u8) -> (String, Item) {
    (String::from(name), Item { id, components: components(stack) })
}

fn sample_registry() -> Registry {
    Registry::new(vec![
        entry("stick", 1, 64),
        entry("zombie_spawn_egg", 500, 64),
        entry("diamond_sword", 721, 1),
    ])
    .expect("distinct names must build a registry")
}

#[test]
fn round_trip_by_name_and_id() {
    let reg = sample_registry();
    let item = reg.get_item("diamond_sword").expect("known name");
    assert_eq!(item.id, 721);
    let name = reg.get_name_by_id(721).expect("known id");
    assert_eq!(name, "diamond_sword");
    let again = reg.get_item(name).expect("name from the index");
    assert_eq!(again.id, 721);
}

#[test]
fn prefix_normalization() {
    let reg = sample_registry();
    let plain = reg.get_item("stick").expect("known name");
    let prefixed = reg.get_item("minecraft:stick").expect("prefixed key");
    assert_eq!(plain.id, prefixed.id);
    assert_eq!(
        plain.components.max_stack_size,
        prefixed.components.max_stack_size
    );
}

#[test]
fn unknown_name_is_absent() {
    let reg = sample_registry();
    assert!(reg.get_item("not_a_real_item").is_none());
}

#[test]
fn unknown_id_is_absent() {
    let reg = sample_registry();
    assert!(reg.get_item_by_id(65000).is_none());
    assert!(reg.get_name_by_id(65000).is_none());
    assert!(reg.get_spawn_egg(65000).is_none());
}

#[test]
fn spawn_egg_derivation() {
    let reg = sample_registry();
    assert_eq!(reg.get_spawn_egg(500).as_deref(), Some("zombie"));
    assert!(reg.get_spawn_egg(1).is_none());
}

#[test]
fn consistency_of_id_lookups() {
    let reg = sample_registry();
    for id in [1u16, 500, 721, 2, 65000] {
        match reg.get_name_by_id(id) {
            Some(name) => {
                let by_scan = reg.get_item_by_id(id).expect("indexed id has an item");
                let by_name = reg.get_item(name).expect("indexed name has an item");
                assert_eq!(by_scan.id, id);
                assert_eq!(by_name.id, id);
            }
            None => assert!(reg.get_item_by_id(id).is_none()),
        }
    }
}

#[test]
fn duplicate_names_are_rejected() {
    let result = Registry::new(vec![entry("stick", 1, 64), entry("stick", 2, 64)]);
    assert!(result.is_none());
}

// The registry keeps entries whose ids collide; the reverse index then
// records only the last-written name, while the scan finds the first
// entry. The round-trip guarantee is documented to hold only without
// such collisions.
#[test]
fn id_collision_keeps_last_written_name() {
    let reg = Registry::new(vec![entry("first", 7, 64), entry("second", 7, 64)])
        .expect("names are distinct");
    assert_eq!(reg.get_name_by_id(7).map(String::as_str), Some("second"));
    assert_eq!(
        reg.get_item_by_id(7).map(|_| "found"),
        Some("found"),
        "the scan still finds an item for the shared id"
    );
    assert_eq!(reg.get_item("first").expect("first name").id, 7);
    assert_eq!(reg.get_item("second").expect("second name").id, 7);
}

#[test]
fn load_scenario_stick() {
    let source = r#"{"stick": {"minecraft:item_name": "{\"translate\":\"item.minecraft.stick\"}", "minecraft:max_stack_size": 64}}"#;
    let reg = Registry::load(source).expect("well-formed document");
    let stick = reg.get_item("stick").expect("loaded entry");
    assert_eq!(stick.components.max_stack_size, 64);
    let text = stick.translated_name().expect("well-formed payload");
    assert_eq!(text.translate.as_deref(), Some("item.minecraft.stick"));
}

#[test]
fn load_full_item() {
    let source = r#"{
        "music_disc_cat": {
            "id": 900,
            "minecraft:item_name": "{\"translate\":\"item.minecraft.music_disc_cat\"}",
            "minecraft:max_stack_size": 1,
            "minecraft:jukebox_playable": {"song": "minecraft:cat"},
            "minecraft:damage": 3,
            "minecraft:max_damage": 64,
            "minecraft:attribute_modifiers": {"modifiers": [
                {
                    "type": "minecraft:generic.attack_damage",
                    "id": "minecraft:base_attack_damage",
                    "amount": 1.5,
                    "operation": "add_value",
                    "slot": "mainhand"
                }
            ]},
            "ignored_extra_field": [1, 2, 3]
        }
    }"#;
    let reg = Registry::load(source).expect("well-formed document");
    let disc = reg.get_item("music_disc_cat").expect("loaded entry");
    assert_eq!(disc.id, 900);
    let c = &disc.components;
    assert_eq!(c.max_stack_size, 1);
    assert_eq!(
        c.jukebox_playable.as_ref().map(|j: &JukeboxPlayable| j.song.as_str()),
        Some("minecraft:cat")
    );
    assert_eq!(c.damage, Some(3));
    assert_eq!(c.max_damage, Some(64));
    let mods = &c.attribute_modifiers.as_ref().expect("modifiers present").modifiers;
    assert_eq!(mods.len(), 1);
    assert_eq!(mods[0].kind, "minecraft:generic.attack_damage");
    assert_eq!(mods[0].id, "minecraft:base_attack_damage");
    assert_eq!(mods[0].amount_bits, (1.5f64).to_bits());
    assert_eq!(mods[0].operation, Operation::AddValue);
    assert_eq!(mods[0].slot, "mainhand");
}

#[test]
fn load_spawn_egg_entry() {
    let source = r#"{"zombie_spawn_egg": {"id": 500, "minecraft:item_name": "{\"translate\":\"item.minecraft.zombie_spawn_egg\"}", "minecraft:max_stack_size": 64}}"#;
    let reg = Registry::load(source).expect("well-formed document");
    assert_eq!(reg.get_spawn_egg(500).as_deref(), Some("zombie"));
}

// Document keys are canonical names; a key that itself carries the
// namespace prefix is schema-incompatible, since `get_item` would
// normalize it away and never find the entry.
#[test]
fn load_rejects_prefixed_key() {
    let source = r#"{"minecraft:stick": {"minecraft:item_name": "\"Stick\"", "minecraft:max_stack_size": 64}}"#;
    assert!(Registry::load(source).is_none());
}

#[test]
fn load_rejects_invalid_json() {
    assert!(Registry::load("not json at all").is_none());
}

#[test]
fn load_rejects_non_object_document() {
    assert!(Registry::load("[1, 2, 3]").is_none());
}

#[test]
fn load_rejects_missing_item_name() {
    let source = r#"{"stick": {"minecraft:max_stack_size": 64}}"#;
    assert!(Registry::load(source).is_none());
}

#[test]
fn load_rejects_missing_stack_size() {
    let source = r#"{"stick": {"minecraft:item_name": "\"Stick\""}}"#;
    assert!(Registry::load(source).is_none());
}

#[test]
fn load_rejects_oversized_stack_size() {
    let source = r#"{"stick": {"minecraft:item_name": "\"Stick\"", "minecraft:max_stack_size": 300}}"#;
    assert!(Registry::load(source).is_none());
}

#[test]
fn load_rejects_oversized_id() {
    let source = r#"{"stick": {"id": 70000, "minecraft:item_name": "\"Stick\"", "minecraft:max_stack_size": 64}}"#;
    assert!(Registry::load(source).is_none());
}

#[test]
fn load_rejects_unknown_operation() {
    let source = r#"{"sword": {"minecraft:item_name": "\"Sword\"", "minecraft:max_stack_size": 1,
        "minecraft:attribute_modifiers": {"modifiers": [
            {"type": "t", "id": "i", "amount": 1.0, "operation": "multiply_all", "slot": "any"}
        ]}}}"#;
    assert!(Registry::load(source).is_none());
}

#[test]
fn operation_names_round_trip() {
    assert_eq!(Operation::from_name("add_value"), Some(Operation::AddValue));
    assert_eq!(
        Operation::from_name("add_multiplied_base"),
        Some(Operation::AddMultipliedBase)
    );
    assert_eq!(
        Operation::from_name("add_multiplied_total"),
        Some(Operation::AddMultipliedTotal)
    );
    assert_eq!(Operation::from_name("multiply_all"), None);
    assert_eq!(Operation::from_name(""), None);
}

#[test]
fn translated_name_plain_string_payload() {
    let mut item = entry("named", 3, 1).1;
    item.components.item_name = String::from("\"Plain Name\"");
    let text = item.translated_name().expect("well-formed payload");
    assert_eq!(text.text.as_deref(), Some("Plain Name"));
    assert_eq!(text.translate, None);
}

#[test]
fn translated_name_object_payload() {
    let mut item = entry("named", 3, 1).1;
    item.components.item_name =
        String::from("{\"text\":\"Stick\",\"translate\":\"item.minecraft.stick\"}");
    let text = item.translated_name().expect("well-formed payload");
    assert_eq!(text.text.as_deref(), Some("Stick"));
    assert_eq!(text.translate.as_deref(), Some("item.minecraft.stick"));
}

#[test]
fn translated_name_rejects_malformed_payload() {
    let mut item = entry("named", 3, 1).1;
    item.components.item_name = String::from("{broken");
    assert!(item.translated_name().is_none());
    item.components.item_name = String::from("17");
    assert!(item.translated_name().is_none());
}

#[test]
fn empty_document_loads_empty_registry() {
    let reg = Registry::load("{}").expect("empty object is well-formed");
    assert!(reg.get_item("stick").is_none());
    assert!(reg.get_name_by_id(0).is_none());
}

#[test]
fn missing_id_defaults_to_zero() {
    let source = r#"{"stick": {"minecraft:item_name": "\"Stick\"", "minecraft:max_stack_size": 64}}"#;
    let reg = Registry::load(source).expect("well-formed document");
    assert_eq!(reg.get_item("stick").expect("loaded entry").id, 0);
    assert_eq!(reg.get_name_by_id(0).map(String::as_str), Some("stick"));
}
