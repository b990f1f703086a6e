//! The session state machine: the current language and the currently
//! selected key, the intents that change them, and the projection of the
//! state into what the host paints. Selecting a language never touches the
//! selected key; generating draws a key at random from the catalog and never
//! touches the language.

use crate::catalog::Key;
use crate::catalog::catalog;
use crate::names::Languages;
use crate::names::key_name;
use crate::names::name_spec;
use rand::seq::SliceRandom;
use vstd::prelude::*;

verus! {

/// The session state: the display language and the selected key, if any.
/// A fresh session starts with German and no selected key.
pub struct Model {
    pub language: Languages,
    pub key: Option<Key>,
}

/// A user intent, consumed by `update` as soon as it arrives.
#[derive(Copy, Clone)]
pub enum Msg {
    SelectLanguage(Languages),
    Generate,
}

/// A clickable control of the view: its label and the intent a click on it
/// produces.
pub struct Control {
    pub label: &'static str,
    pub msg: Msg,
}

/// What the host paints: one menu entry per language, the generate button,
/// and the text field with the selected key's localized name.
pub struct ViewDescription {
    pub menu: Vec<Control>,
    pub button: Control,
    pub displayed_text: String,
}

/// The state a session starts in: German, no key selected yet.
pub fn init() -> (r: Model)
    ensures
        r.language == Languages::German,
        r.key is None,
{
    Model { language: Languages::German, key: None }
}

/// Relies on rand::thread_rng and rand::seq::SliceRandom::choose: `choose`
/// returns a uniformly random element of a non-empty slice, and `None` only
/// for an empty one.
#[verifier::external_body]
fn choose_key(keys: &Vec<Key>) -> (r: Option<Key>)
    ensures
        r is Some <==> keys@.len() > 0,
        r matches Some(k) ==> keys@.contains(k),
{
    let mut rng = rand::thread_rng();
    keys.as_slice().choose(&mut rng).copied()
}

/// Applies one intent to the session state. `SelectLanguage` changes the
/// language and nothing else; `Generate` replaces the selected key with a
/// catalog member drawn at random and changes nothing else.
pub fn update(msg: Msg, model: &mut Model)
    ensures
        match msg {
            Msg::SelectLanguage(lang) => final(model).language == lang && final(model).key
                == old(model).key,
            Msg::Generate => final(model).language == old(model).language
                && (final(model).key matches Some(k) && catalog().contains(k)),
        },
{
    match msg {
        Msg::SelectLanguage(lang) => {
            model.language = lang;
        },
        Msg::Generate => {
            let keys = Key::make_vec();
            let drawn = choose_key(&keys);
            model.key = Some(drawn.unwrap());
        },
    }
}

/// The text the view's text field shows: the localized name of the selected
/// key, or nothing while no key is selected.
pub open spec fn display_text_spec(model: Model) -> Seq<char> {
    match model.key {
        Some(k) => name_spec(model.language, k),
        None => Seq::empty(),
    }
}

/// Projects the state into a view description: the three language menu
/// entries, the generate button, and the display text. Pure; the state is
/// not touched.
pub fn view(model: &Model) -> (r: ViewDescription)
    ensures
        r.displayed_text@ == display_text_spec(*model),
        r.menu@.len() == 3,
        r.menu@[0].label@ == "日本語"@ && r.menu@[0].msg == Msg::SelectLanguage(
            Languages::Japanese,
        ),
        r.menu@[1].label@ == "English"@ && r.menu@[1].msg == Msg::SelectLanguage(
            Languages::English,
        ),
        r.menu@[2].label@ == "Deutsch"@ && r.menu@[2].msg == Msg::SelectLanguage(
            Languages::German,
        ),
        r.button.label@ == "generate"@ && r.button.msg == Msg::Generate,
{
    let displayed_text: String = match model.key {
        Some(k) => key_name(model.language, k).to_owned(),
        None => String::new(),
    };
    let menu: Vec<Control> = vec![
        Control { label: "日本語", msg: Msg::SelectLanguage(Languages::Japanese) },
        Control { label: "English", msg: Msg::SelectLanguage(Languages::English) },
        Control { label: "Deutsch", msg: Msg::SelectLanguage(Languages::German) },
    ];
    ViewDescription {
        menu,
        button: Control { label: "generate", msg: Msg::Generate },
        displayed_text,
    }
}

} // verus!
