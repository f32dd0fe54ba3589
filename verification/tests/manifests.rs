use cache::error::Error;
use cache::manifest::{ItemManifestData, ManifestData, ValueStatus};

#[test]
fn root_manifest_registers_once() {
    let mut data = ManifestData::new();
    assert!(!data.contains(&"a".to_string()));
    assert!(data.insert("a".to_string()));
    assert!(data.contains(&"a".to_string()));
    assert!(!data.insert("a".to_string()));
    assert!(data.insert("b".to_string()));
    assert_eq!(data.items(), vec!["a".to_string(), "b".to_string()]);
    assert!(ManifestData::default().items().is_empty());
}

#[test]
fn root_manifest_from_items_drops_repeats() {
    let data = ManifestData::from_items(vec![
        "x".to_string(),
        "y".to_string(),
        "x".to_string(),
        "\u{4e16}\u{754c}".to_string(),
    ]);
    assert_eq!(data.items(), vec!["x".to_string(), "y".to_string(), "\u{4e16}\u{754c}".to_string()]);
    assert!(data.contains(&"\u{4e16}\u{754c}".to_string()));
    assert!(!data.contains(&"z".to_string()));
    let copy = data.clone();
    assert_eq!(copy.items(), data.items());
    assert!(ManifestData::from_items(Vec::new()).items().is_empty());
}

#[test]
fn item_manifest_sets_and_replaces() {
    let mut data = ItemManifestData::new();
    assert_eq!(data.get(&"k".to_string()), None);
    data.set("k".to_string(), ValueStatus::Loading);
    data.set("l".to_string(), ValueStatus::Evicting);
    assert_eq!(data.get(&"k".to_string()), Some(ValueStatus::Loading));
    data.set("k".to_string(), ValueStatus::InUse);
    assert_eq!(data.get(&"k".to_string()), Some(ValueStatus::InUse));
    assert_eq!(data.get(&"l".to_string()), Some(ValueStatus::Evicting));
    assert_eq!(
        data.entries(),
        vec![("k".to_string(), ValueStatus::InUse), ("l".to_string(), ValueStatus::Evicting)]
    );
    assert!(ItemManifestData::default().entries().is_empty());
}

#[test]
fn item_manifest_from_entries_last_entry_counts() {
    let data = ItemManifestData::from_entries(vec![
        ("k".to_string(), ValueStatus::Loading),
        ("m".to_string(), ValueStatus::InUse),
        ("k".to_string(), ValueStatus::Evicting),
    ]);
    assert_eq!(
        data.entries(),
        vec![("k".to_string(), ValueStatus::Evicting), ("m".to_string(), ValueStatus::InUse)]
    );
    let copy = data.clone();
    assert_eq!(copy.entries(), data.entries());
    let again = ItemManifestData::from_entries(data.entries());
    assert_eq!(again.entries(), data.entries());
}

#[test]
fn status_tags() {
    assert_eq!(ValueStatus::Loading.tag(), "Loading");
    assert_eq!(ValueStatus::InUse.tag(), "InUse");
    assert_eq!(ValueStatus::Evicting.tag(), "Evicting");
    for status in [ValueStatus::Loading, ValueStatus::InUse, ValueStatus::Evicting] {
        assert_eq!(ValueStatus::from_tag(&status.tag()), Some(status));
    }
    assert_eq!(ValueStatus::from_tag(&"loading".to_string()), None);
    assert_eq!(ValueStatus::from_tag(&"".to_string()), None);
    assert_eq!(ValueStatus::from_tag(&"InUse ".to_string()), None);
}

#[test]
fn error_messages() {
    assert_eq!(Error::Io.message(), "input/output error");
    assert_eq!(Error::Utf8.message(), "invalid UTF-8");
    assert_ne!(Error::Io, Error::Utf8);
}

fn manifest_to_toml(data: &ManifestData) -> String {
    let mut table = toml::Table::new();
    let items = data.items().into_iter().map(toml::Value::String).collect();
    table.insert("items".to_string(), toml::Value::Array(items));
    toml::to_string(&table).unwrap()
}

fn manifest_from_toml(text: &str) -> Option<ManifestData> {
    let table: toml::Table = text.parse().ok()?;
    let mut items = Vec::new();
    for item in table.get("items")?.as_array()? {
        items.push(item.as_str()?.to_string());
    }
    Some(ManifestData::from_items(items))
}

fn item_manifest_to_toml(data: &ItemManifestData) -> String {
    let mut values = toml::Table::new();
    for (key, status) in data.entries() {
        values.insert(key, toml::Value::String(status.tag()));
    }
    let mut table = toml::Table::new();
    table.insert("values".to_string(), toml::Value::Table(values));
    toml::to_string(&table).unwrap()
}

fn item_manifest_from_toml(text: &str) -> Option<ItemManifestData> {
    let table: toml::Table = text.parse().ok()?;
    let mut entries = Vec::new();
    for (key, status) in table.get("values")?.as_table()? {
        entries.push((key.clone(), ValueStatus::from_tag(&status.as_str()?.to_string())?));
    }
    Some(ItemManifestData::from_entries(entries))
}

#[test]
fn root_manifest_survives_its_text_form() {
    for items in [
        Vec::new(),
        vec!["test".to_string()],
        vec!["a b".to_string(), "gr\u{fc}\u{df}e".to_string(), "\u{4e16}\u{754c}\n\"q\"".to_string()],
    ] {
        let data = ManifestData::from_items(items.clone());
        let back = manifest_from_toml(&manifest_to_toml(&data)).unwrap();
        assert_eq!(back.items(), items);
    }
}

#[test]
fn item_manifest_survives_its_text_form() {
    let empty = ItemManifestData::new();
    let back = item_manifest_from_toml(&item_manifest_to_toml(&empty)).unwrap();
    assert!(back.entries().is_empty());
    let mut data = ItemManifestData::new();
    data.set("00ff".to_string(), ValueStatus::Loading);
    data.set("abcd".to_string(), ValueStatus::InUse);
    data.set("ffff".to_string(), ValueStatus::Evicting);
    let back = item_manifest_from_toml(&item_manifest_to_toml(&data)).unwrap();
    assert_eq!(back.entries(), data.entries());
}

#[test]
fn broken_text_is_no_manifest() {
    assert!(manifest_from_toml("items = [").is_none());
    assert!(manifest_from_toml("").is_none());
    assert!(manifest_from_toml("items = [1, 2]").is_none());
    assert!(item_manifest_from_toml("[values]\nk = \"Unknown\"").is_none());
    assert!(item_manifest_from_toml("values = 3").is_none());
}

#[test]
fn values_survive_their_binary_form() {
    let text = "gr\u{fc}\u{df}e \u{4e16}\u{754c}".to_string();
    let encoded = flexbuffers::to_vec(&text).unwrap();
    assert_eq!(flexbuffers::from_slice::<String>(&encoded).unwrap(), text);
    let empty: Vec<String> = Vec::new();
    let encoded = flexbuffers::to_vec(&empty).unwrap();
    assert_eq!(flexbuffers::from_slice::<Vec<String>>(&encoded).unwrap(), empty);
    let numbers: Vec<u64> = vec![0, 1, u64::MAX];
    let encoded = flexbuffers::to_vec(&numbers).unwrap();
    assert_eq!(flexbuffers::from_slice::<Vec<u64>>(&encoded).unwrap(), numbers);
    assert!(flexbuffers::from_slice::<String>(&[]).is_err());
}
