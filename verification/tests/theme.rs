use image_editor::theme::Theme;

#[test]
fn test_toggle_alternates() {
    assert_eq!(Theme::Dark.toggle(), Theme::Light);
    assert_eq!(Theme::Light.toggle(), Theme::Dark);
    assert_eq!(Theme::Light.toggle().toggle(), Theme::Light);
}

#[test]
fn test_from_media_query() {
    assert_eq!(Theme::from_media_query(true), Theme::Dark);
    assert_eq!(Theme::from_media_query(false), Theme::Light);
}
