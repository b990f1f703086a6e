use key_picker::Key;

#[test]
fn catalog_has_circle_of_fifths_order() {
    let expected = vec![
        Key::Cmajor,
        Key::Aminor,
        Key::Fmajor,
        Key::Dminor,
        Key::Bflatmajor,
        Key::Gminor,
        Key::Eflatmajor,
        Key::Cminor,
        Key::Aflatmajor,
        Key::Fminor,
        Key::Dflatmajor,
        Key::Bflatminor,
        Key::Gflatmajor,
        Key::Eflatminor,
        Key::Bmajor,
        Key::Gsharpminor,
        Key::Emajor,
        Key::Csharpminor,
        Key::Amajor,
        Key::Fsharpminor,
        Key::Dmajor,
        Key::Bminor,
        Key::Gmajor,
        Key::Eminor,
    ];
    assert_eq!(Key::make_vec(), expected);
}

#[test]
fn catalog_has_24_distinct_keys() {
    let keys = Key::make_vec();
    assert_eq!(keys.len(), 24);
    for i in 0..keys.len() {
        for j in 0..keys.len() {
            if i != j {
                assert_ne!(keys[i], keys[j]);
            }
        }
    }
}
