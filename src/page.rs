//! The landing page: a title and a message chosen for a label, substituted
//! into a fixed HTML template.
use vstd::prelude::*;
use crate::text::{replace_all, replace_all_exec};

verus! {

/// The page template. Its three slots are filled with raw text: inserted
/// values are not escaped.
pub const PAGE_TEMPLATE: &'static str = "<!DOCTYPE html>
<html lang=\"ja\">
<head>
<meta charset=\"utf-8\">
<meta name=\"viewport\" content=\"width=device-width, initial-scale=1\">
<title>{{ .Title }}</title>
<link rel=\"icon\" href=\"/favicon.ico\">
<meta property=\"og:title\" content=\"{{ .Title }}\">
<meta property=\"og:description\" content=\"{{ .Message }}\">
<meta property=\"og:image\" content=\"https://{{ .Domain }}/owariya.png\">
</head>
<body>
<h1>{{ .Title }}</h1>
<p>{{ .Message }}</p>
<img src=\"/owariya.png\" alt=\"{{ .Title }}\" width=\"256\" height=\"256\">
</body>
</html>
";

/// The slot for the title.
pub const TITLE_SLOT: &'static str = "{{ .Title }}";

/// The slot for the message.
pub const MESSAGE_SLOT: &'static str = "{{ .Message }}";

/// The slot for the domain.
pub const DOMAIN_SLOT: &'static str = "{{ .Domain }}";

/// The ending of a default title, after the label.
pub const TITLE_ENDING: &'static str = "おわりや";

/// The ending of a default message, after the label.
pub const MESSAGE_ENDING: &'static str = "おわりが売ってる";

/// The labels with a page of their own, as `(label, title, message)`.
pub open spec fn special_pages() -> Seq<(&'static str, &'static str, &'static str)> {
    seq![
        ("jinsei", "人生おわりや", "もうだめ"),
        ("konnendomo", "今年度もおわりや", "おめでとうございます"),
        ("kotoshimo", "今年もおわりや", "あけましておめでとうございます"),
        ("kyoumo", "今日もおわりや", "一日お疲れ様でした"),
        ("", "おわりや", "おわりが売ってる"),
    ]
}

/// The title and message of the first entry of `table` whose label is `label`.
pub open spec fn lookup_page(
    table: Seq<(&'static str, &'static str, &'static str)>,
    label: Seq<char>,
) -> Option<(Seq<char>, Seq<char>)>
    decreases table.len(),
{
    if table.len() == 0 {
        None
    } else if table[0].0@ == label {
        Some((table[0].1@, table[0].2@))
    } else {
        lookup_page(table.skip(1), label)
    }
}

/// The title and message for a label: those of its entry in the table of
/// special pages, else the label followed by the default endings.
pub open spec fn page_text(label: Seq<char>) -> (Seq<char>, Seq<char>) {
    match lookup_page(special_pages(), label) {
        Some(p) => p,
        None => (label + TITLE_ENDING@, label + MESSAGE_ENDING@),
    }
}

/// The template with its title, message and domain slots filled in turn.
pub open spec fn render_page(title: Seq<char>, message: Seq<char>, domain: Seq<char>) -> Seq<
    char,
> {
    replace_all(
        replace_all(replace_all(PAGE_TEMPLATE@, TITLE_SLOT@, title), MESSAGE_SLOT@, message),
        DOMAIN_SLOT@,
        domain,
    )
}

/// The table of special pages.
fn special_page_table() -> (r: Vec<(&'static str, &'static str, &'static str)>)
    ensures
        r@ == special_pages(),
{
    let r = vec![
        ("jinsei", "人生おわりや", "もうだめ"),
        ("konnendomo", "今年度もおわりや", "おめでとうございます"),
        ("kotoshimo", "今年もおわりや", "あけましておめでとうございます"),
        ("kyoumo", "今日もおわりや", "一日お疲れ様でした"),
        ("", "おわりや", "おわりが売ってる"),
    ];
    assert(r@ =~= special_pages());
    r
}

/// Returns `(title, message)` for a label, as `page_text` states.
pub fn select_page_text(label: &String) -> (r: (String, String))
    ensures
        r.0@ == page_text(label@).0,
        r.1@ == page_text(label@).1,
{
    let table = special_page_table();
    let mut i: usize = 0;
    assert(table@.skip(0) =~= table@);
    while i < table.len()
        invariant
            table@ == special_pages(),
            i <= table@.len(),
            lookup_page(table@.skip(i as int), label@) == lookup_page(special_pages(), label@),
        decreases table@.len() - i,
    {
        let entry = table[i];
        let key = String::from_str(entry.0);
        assert(table@.skip(i as int).skip(1) =~= table@.skip(i + 1));
        if key == *label {
            return (String::from_str(entry.1), String::from_str(entry.2));
        }
        i = i + 1;
    }
    let mut title = label.clone();
    title.append(TITLE_ENDING);
    let mut message = label.clone();
    message.append(MESSAGE_ENDING);
    (title, message)
}

/// Fills the template's title, message and domain slots, in that order,
/// with the given raw text.
pub fn create_html(title: String, message: String, domain: String) -> (r: String)
    ensures
        r@ == render_page(title@, message@, domain@),
{
    let with_title = replace_all_exec(PAGE_TEMPLATE, TITLE_SLOT, title.as_str());
    let with_message = replace_all_exec(with_title.as_str(), MESSAGE_SLOT, message.as_str());
    replace_all_exec(with_message.as_str(), DOMAIN_SLOT, domain.as_str())
}

} // verus!
