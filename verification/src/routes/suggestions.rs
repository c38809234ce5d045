//! Suggesting what to build, and with what.

use vstd::prelude::*;
use vstd::string::StringExecFns;

verus! {

/// The body of a request for a suggestion.
#[derive(Debug)]
pub struct SuggestionForm {
    pub long: i32,
    pub lang: String,
    pub kind: String,
}

/// What the menu of suggestions holds for one language: an application to
/// build, a framework to build it with, and where to read on.
#[derive(Debug)]
pub struct MenuEntry {
    pub app: String,
    pub fw: String,
    pub learning_url: Vec<String>,
    pub working_url: Vec<String>,
}

/// A suggestion, worded.
#[derive(Debug)]
pub struct Suggestion {
    pub title: String,
    pub body: String,
    pub learning_url: Vec<String>,
    pub working_url: Vec<String>,
}

/// The language suggested to those who name none.
pub open spec fn fallback_language() -> Seq<char> {
    "Python"@
}

/// The language to suggest for the one asked for: the one asked for, unless
/// the answer was "others" or "no".
pub open spec fn language_for(asked: Seq<char>) -> Seq<char> {
    if asked != "others"@ && asked != "no"@ {
        asked
    } else {
        fallback_language()
    }
}

/// The title of the suggestion to build `app` in `lang`.
pub open spec fn title_of(lang: Seq<char>, app: Seq<char>) -> Seq<char> {
    lang + "で"@ + app + "を作るのはどうですか？"@
}

/// The body of the suggestion to build `app` with `fw`.
pub open spec fn body_of(fw: Seq<char>, app: Seq<char>) -> Seq<char> {
    fw + "というフレームワークを使うのがおすすめです。これらのURLを参考にすれば、簡単に"@ + app
        + "を作ることができます。"@
}

/// The language whose entry of the menu answers `form`.
pub fn suggested_language(form: &SuggestionForm) -> (lang: String)
    ensures
        lang@ == language_for(form.lang@),
{
    if form.lang != "others".to_owned() && form.lang != "no".to_owned() {
        form.lang.clone()
    } else {
        "Python".to_owned()
    }
}

/// Words the suggestion for `lang` from its entry of the menu.
pub fn suggestion(lang: &String, entry: MenuEntry) -> (suggestion: Suggestion)
    ensures
        suggestion.title@ == title_of(lang@, entry.app@),
        suggestion.body@ == body_of(entry.fw@, entry.app@),
        suggestion.learning_url == entry.learning_url,
        suggestion.working_url == entry.working_url,
{
    let mut title = lang.clone();
    title.append("で");
    title.append(entry.app.as_str());
    title.append("を作るのはどうですか？");
    let mut body = entry.fw.clone();
    body.append("というフレームワークを使うのがおすすめです。これらのURLを参考にすれば、簡単に");
    body.append(entry.app.as_str());
    body.append("を作ることができます。");
    Suggestion {
        title,
        body,
        learning_url: entry.learning_url,
        working_url: entry.working_url,
    }
}

} // verus!
