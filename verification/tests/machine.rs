use key_picker::Key;
use key_picker::Languages;
use key_picker::Model;
use key_picker::Msg;
use key_picker::init;
use key_picker::key_name;
use key_picker::update;
use key_picker::view;

#[test]
fn initial_state_is_german_with_no_key() {
    let state = init();
    assert!(matches!(state.language, Languages::German));
    assert!(state.key.is_none());
    assert_eq!(view(&state).displayed_text, "");
}

#[test]
fn select_language_changes_only_the_language() {
    let mut state = init();
    update(Msg::SelectLanguage(Languages::Japanese), &mut state);
    assert!(matches!(state.language, Languages::Japanese));
    assert!(state.key.is_none());
}

#[test]
fn select_language_keeps_a_selected_key() {
    let mut state = Model { language: Languages::German, key: Some(Key::Dmajor) };
    update(Msg::SelectLanguage(Languages::English), &mut state);
    assert!(matches!(state.language, Languages::English));
    assert_eq!(state.key, Some(Key::Dmajor));
}

#[test]
fn generate_selects_a_catalog_member_and_keeps_the_language() {
    let mut state = init();
    update(Msg::SelectLanguage(Languages::English), &mut state);
    for _ in 0..100 {
        update(Msg::Generate, &mut state);
        let key = state.key.expect("generate must select a key");
        assert!(Key::make_vec().contains(&key));
        assert!(matches!(state.language, Languages::English));
    }
}

#[test]
fn generate_eventually_covers_every_key() {
    let catalog = Key::make_vec();
    let mut seen = [false; 24];
    let mut state = init();
    for _ in 0..20000 {
        update(Msg::Generate, &mut state);
        let key = state.key.expect("generate must select a key");
        let position = catalog
            .iter()
            .position(|k| *k == key)
            .expect("generate must select a catalog member");
        seen[position] = true;
    }
    assert!(seen.iter().all(|s| *s), "every key must eventually be drawn");
}

#[test]
fn render_shows_empty_text_without_a_key() {
    let state = Model { language: Languages::Japanese, key: None };
    assert_eq!(view(&state).displayed_text, "");
}

#[test]
fn render_shows_the_resolved_name_with_a_key() {
    for lang in [Languages::Japanese, Languages::English, Languages::German] {
        for key in Key::make_vec() {
            let state = Model { language: lang, key: Some(key) };
            assert_eq!(view(&state).displayed_text, key_name(lang, key));
        }
    }
}

#[test]
fn render_japanese_c_major() {
    let state = Model { language: Languages::Japanese, key: Some(Key::Cmajor) };
    assert_eq!(view(&state).displayed_text, "ハ長調");
}

#[test]
fn render_english_g_sharp_minor() {
    let state = Model { language: Languages::English, key: Some(Key::Gsharpminor) };
    assert_eq!(view(&state).displayed_text, "G# minor");
}

#[test]
fn render_german_b_flat_minor() {
    let state = Model { language: Languages::German, key: Some(Key::Bflatminor) };
    assert_eq!(view(&state).displayed_text, "b-Moll");
}

#[test]
fn view_offers_the_three_languages_and_the_generate_button() {
    let v = view(&init());
    assert_eq!(v.menu.len(), 3);
    assert_eq!(v.menu[0].label, "日本語");
    assert!(matches!(v.menu[0].msg, Msg::SelectLanguage(Languages::Japanese)));
    assert_eq!(v.menu[1].label, "English");
    assert!(matches!(v.menu[1].msg, Msg::SelectLanguage(Languages::English)));
    assert_eq!(v.menu[2].label, "Deutsch");
    assert!(matches!(v.menu[2].msg, Msg::SelectLanguage(Languages::German)));
    assert_eq!(v.button.label, "generate");
    assert!(matches!(v.button.msg, Msg::Generate));
}
