use map_rotation::prettify_rotation;

// Percentages reach the message written out, as `{}` writes an `f32`.

#[test]
fn test_erangel_emoji() {
    let map_names = prettify_rotation("Test", &vec![("Erangel".to_string(), format!("{}", 100.0f32))]);
    assert!(map_names.contains("🏝️ Erangel"));
}

#[test]
fn test_miramar_emoji() {
    let map_names = prettify_rotation("Test", &vec![("Miramar".to_string(), format!("{}", 100.0f32))]);
    assert!(map_names.contains("☀️ Miramar"));
}

#[test]
fn test_sanhok_emoji() {
    let map_names = prettify_rotation("Test", &vec![("Sanhok".to_string(), format!("{}", 100.0f32))]);
    assert!(map_names.contains("🏔️ Sanhok"));
}

#[test]
fn test_taego_emoji() {
    let map_names = prettify_rotation("Test", &vec![("Taego".to_string(), format!("{}", 100.0f32))]);
    assert!(map_names.contains("🏰 Taego"));
}

#[test]
fn test_vikendi_emoji() {
    let map_names = prettify_rotation("Test", &vec![("Vikendi".to_string(), format!("{}", 100.0f32))]);
    assert!(map_names.contains("❄️ Vikendi"));
}

#[test]
fn test_karakin_emoji() {
    let map_names = prettify_rotation("Test", &vec![("Karakin".to_string(), format!("{}", 100.0f32))]);
    assert!(map_names.contains("🏙️ Karakin"));
}

#[test]
fn test_deston_emoji() {
    let map_names = prettify_rotation("Test", &vec![("Deston".to_string(), format!("{}", 100.0f32))]);
    assert!(map_names.contains("🏠 Deston"));
}

#[test]
fn test_paramo_emoji() {
    let map_names = prettify_rotation("Test", &vec![("Paramo".to_string(), format!("{}", 100.0f32))]);
    assert!(map_names.contains("🏔️ Paramo"));
}

#[test]
fn test_rondo_emoji() {
    let map_names = prettify_rotation("Test", &vec![("Rondo".to_string(), format!("{}", 100.0f32))]);
    assert!(map_names.contains("🌲 Rondo"));
}

#[test]
fn test_all_emojis_are_in_output() {
    let rotation = vec![
        ("Erangel".to_string(), format!("{}", 10.0f32)),
        ("Miramar".to_string(), format!("{}", 20.0f32)),
        ("Sanhok".to_string(), format!("{}", 30.0f32)),
        ("Taego".to_string(), format!("{}", 40.0f32)),
        ("Vikendi".to_string(), format!("{}", 50.0f32)),
        ("Karakin".to_string(), format!("{}", 60.0f32)),
        ("Deston".to_string(), format!("{}", 70.0f32)),
        ("Paramo".to_string(), format!("{}", 80.0f32)),
        ("Rondo".to_string(), format!("{}", 90.0f32)),
    ];
    let output = prettify_rotation("Test", &rotation);
    
    assert!(output.contains("🏝️ Erangel"));
    assert!(output.contains("☀️ Miramar"));
    assert!(output.contains("🏔️ Sanhok"));
    assert!(output.contains("🏰 Taego"));
    assert!(output.contains("❄️ Vikendi"));
    assert!(output.contains("🏙️ Karakin"));
    assert!(output.contains("🏠 Deston"));
    assert!(output.contains("🏔️ Paramo"));
    assert!(output.contains("🌲 Rondo"));
}

#[test]
fn test_map_names_preserved_in_emoji_strings() {
    let map_names = prettify_rotation("Test", &vec![("Erangel".to_string(), format!("{}", 100.0f32))]);
    assert!(map_names.contains("Erangel"));
    
    let map_names = prettify_rotation("Test", &vec![("Miramar".to_string(), format!("{}", 100.0f32))]);
    assert!(map_names.contains("Miramar"));
    
    let map_names = prettify_rotation("Test", &vec![("Sanhok".to_string(), format!("{}", 100.0f32))]);
    assert!(map_names.contains("Sanhok"));
    
    let map_names = prettify_rotation("Test", &vec![("Taego".to_string(), format!("{}", 100.0f32))]);
    assert!(map_names.contains("Taego"));
    
    let map_names = prettify_rotation("Test", &vec![("Vikendi".to_string(), format!("{}", 100.0f32))]);
    assert!(map_names.contains("Vikendi"));
    
    let map_names = prettify_rotation("Test", &vec![("Karakin".to_string(), format!("{}", 100.0f32))]);
    assert!(map_names.contains("Karakin"));
    
    let map_names = prettify_rotation("Test", &vec![("Deston".to_string(), format!("{}", 100.0f32))]);
    assert!(map_names.contains("Deston"));
    
    let map_names = prettify_rotation("Test", &vec![("Paramo".to_string(), format!("{}", 100.0f32))]);
    assert!(map_names.contains("Paramo"));
    
    let map_names = prettify_rotation("Test", &vec![("Rondo".to_string(), format!("{}", 100.0f32))]);
    assert!(map_names.contains("Rondo"));
}
