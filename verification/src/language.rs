//! Locale handling: the per-event language bundle, and template rendering
//! for the localization collaborator. The collaborator looks translations
//! up by key and locale and signals a missing translation explicitly; this
//! module selects the template (primary locale first, default locale as
//! fallback) and substitutes the `{name}` placeholders.

use vstd::prelude::*;
use vstd::string::StringExecFns;

use crate::resolver::default_language;
use crate::tables::{Group, User};

verus! {

/// The language bundle carried by each dispatch context.
#[derive(Debug)]
pub struct I18n {
    pub default_language: String,
    pub escape_html: bool,
    pub language: String,
}

impl Default for I18n {
    /// The default bundle: default locale on both slots, HTML escaping on.
    fn default() -> (r: Self)
        ensures
            r.default_language@ == default_language(),
            r.escape_html,
            r.language@ == default_language(),
    {
        I18n {
            default_language: "en-GB".to_owned(),
            escape_html: true,
            language: "en-GB".to_owned(),
        }
    }
}

/// One translation lookup's outcome, as the localization collaborator
/// reports it: the template text, or an explicit missing-translation signal.
pub enum TranslationResult {
    Found(String),
    Missing,
}

/// What `str::replace` returns: the text with every occurrence of `from`
/// replaced by `to`.
pub uninterp spec fn replaced(text: Seq<char>, from: Seq<char>, to: Seq<char>) -> Seq<char>;

/// Relies on `str::replace`: replaces all matches of `from` with `to`; the
/// result depends on the three strings alone.
#[verifier::external_body]
fn replace_str(text: &String, from: &String, to: &String) -> (r: String)
    ensures
        r@ == replaced(text@, from@, to@),
{
    text.replace(from.as_str(), to.as_str())
}

/// The placeholder that stands for a substitution name in a template.
pub open spec fn placeholder(name: Seq<char>) -> Seq<char> {
    seq!['{'] + name + seq!['}']
}

/// A template after substituting each item in order: every occurrence of
/// `{name}` is replaced by the item's value.
pub open spec fn render_spec(template: Seq<char>, items: Seq<(String, String)>) -> Seq<char>
    decreases items.len(),
{
    if items.len() == 0 {
        template
    } else {
        render_spec(
            replaced(template, placeholder(items[0].0@), items[0].1@),
            items.drop_first(),
        )
    }
}

/// Substitutes every `{name}` placeholder of the template with its item's
/// value, in item order.
pub fn render(template: String, items: &Vec<(String, String)>) -> (r: String)
    ensures
        r@ == render_spec(template@, items@),
{
    let ghost whole = render_spec(template@, items@);
    let mut text = template;
    let mut i: usize = 0;
    proof {
        assert(items@.skip(0) =~= items@);
    }
    while i < items.len()
        invariant
            i <= items@.len(),
            whole == render_spec(text@, items@.skip(i as int)),
        decreases items@.len() - i,
    {
        let mut ph = String::new();
        crate::pattern::push_char(&mut ph, '{');
        ph.append(items[i].0.as_str());
        crate::pattern::push_char(&mut ph, '}');
        proof {
            assert(ph@ =~= placeholder(items@[i as int].0@));
            assert(items@.skip(i as int)[0] == items@[i as int]);
            assert(items@.skip(i as int).drop_first() =~= items@.skip(i + 1 as int));
        }
        text = replace_str(&text, &ph, &items[i].1);
        i = i + 1;
    }
    proof {
        assert(items@.skip(items@.len() as int) =~= Seq::<(String, String)>::empty());
    }
    text
}

impl I18n {
    /// Renders the text for a key: the primary locale's template when the
    /// collaborator found one, else the default locale's, else the key
    /// itself; placeholders are substituted in every case but the last.
    pub fn get_text(
        &self,
        key: &String,
        primary: &TranslationResult,
        fallback: &TranslationResult,
        items: &Vec<(String, String)>,
    ) -> (r: String)
        ensures
            primary matches TranslationResult::Found(t) ==> r@ == render_spec(t@, items@),
            primary is Missing ==> (fallback matches TranslationResult::Found(t) ==> r@
                == render_spec(t@, items@)),
            primary is Missing && fallback is Missing ==> r@ == key@,
    {
        match primary {
            TranslationResult::Found(t) => render(t.clone(), items),
            TranslationResult::Missing => match fallback {
                TranslationResult::Found(t) => render(t.clone(), items),
                TranslationResult::Missing => key.clone(),
            },
        }
    }

    /// A copy of this bundle with another active language.
    pub fn get_language(self, language_code: String) -> (r: Self)
        ensures
            r.default_language == self.default_language,
            r.escape_html == self.escape_html,
            r.language == language_code,
    {
        Self {
            default_language: self.default_language,
            escape_html: self.escape_html,
            language: language_code,
        }
    }

    /// The active language code.
    pub fn get_language_code(&self) -> (r: &String)
        ensures
            r == &self.language,
    {
        &self.language
    }

    /// Switches the active language.
    pub fn set_language(&mut self, language_code: String)
        ensures
            final(self).default_language == old(self).default_language,
            final(self).escape_html == old(self).escape_html,
            final(self).language == language_code,
    {
        self.language = language_code;
    }
}

/// A fresh bundle with the default locale active.
pub fn new() -> (r: I18n)
    ensures
        r.default_language@ == default_language(),
        r.escape_html,
        r.language@ == default_language(),
{
    I18n::default()
}

/// The bundle for a stored user: that user's language becomes active.
pub fn from_user(user: &User) -> (r: I18n)
    ensures
        r.default_language@ == default_language(),
        r.escape_html,
        r.language == user.language,
{
    let mut lang = new();
    lang.set_language(user.language.clone());
    lang
}

/// The bundle for a stored group: that group's language becomes active.
pub fn from_group(group: &Group) -> (r: I18n)
    ensures
        r.default_language@ == default_language(),
        r.escape_html,
        r.language == group.language,
{
    let mut lang = new();
    lang.set_language(group.language.clone());
    lang
}

} // verus!
