use halloween::page::{App, Edition};

#[test]
fn create_keeps_size_and_detects_mobile() {
    let app = App::create(1920, 1080, Some("Mozilla/5.0 (iPhone; CPU iPhone OS 17_0)")).unwrap();
    assert_eq!(app, App { width: 1920, height: 1080, is_mobile: true });
}

#[test]
fn create_without_agent_is_desktop() {
    let app = App::create(640, 480, None).unwrap();
    assert_eq!(app, App { width: 640, height: 480, is_mobile: false });
}

#[test]
fn default_app_is_empty_desktop() {
    assert_eq!(App::default(), App { width: 0, height: 0, is_mobile: false });
}

#[test]
fn page_2025_texts() {
    let app = App::default();
    let p = app.page(Edition::Year2025);
    assert_eq!(p.headline, "Welcome to Halloween Land!");
    assert_eq!(
        p.taglines,
        vec![
            "Auch dieses Jahr oeffnen sich die Pforten".to_string(),
            "Es stehen kaltes Bier und allerlei toedliche Speisen bereit!".to_string()
        ]
    );
    assert_eq!(p.details, vec!["Wann: 31.10.".to_string(), "Wie: Verkleidet!".to_string(), "Wo: Essen".to_string()]);
    assert_eq!(p.disclaimer, None);
    assert_eq!(p.banner, None);
}

#[test]
fn page_2026_texts() {
    let app = App::default();
    let p = app.page(Edition::Year2026);
    assert_eq!(p.headline, "Welcome to Halloween Land!");
    assert!(p.taglines.is_empty());
    assert_eq!(
        p.details,
        vec!["Wann: 31.10. / 14:00".to_string(), "Wie: Verkleidet!".to_string(), "Wo: Essen".to_string()]
    );
    assert_eq!(
        p.disclaimer.as_deref(),
        Some("Best viewed in a desktop browser! (Moar shader, Moar effects, Moar all!)")
    );
    assert_eq!(p.banner.as_deref(), Some("Save the date!"));
}
