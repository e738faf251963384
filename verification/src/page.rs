//! Finding the rotation data in the statistics page: its script, the JSON object in that
//! script, and the patch in play.
use vstd::prelude::*;

use crate::json::{field, get, read_json, serde_json_reading, Json};
use crate::moment::{current_moment, Moment};
use crate::rotation::{
    actual_data_outcome, extract_actual_data_from_json, outcome_view, ActualRotationData,
    GetRotationError, RotationDataView, RotationErrorView,
};
use crate::text::{chars_of, contains, contains_text, find, first_occurrence, replace, replace_all};

verus! {

/// The characters that open the object holding the patches in a script, whose quotes the
/// script escapes: `{\"patches\":[`.
pub open spec fn patches_marker() -> Seq<char> {
    seq!['{', '\\', '"', 'p', 'a', 't', 'c', 'h', 'e', 's', '\\', '"', ':', '[']
}

/// Where the object that opens at the start of `s` closes (just past its closing brace),
/// scanning from `i` with `depth` braces open: a backslash and the character after it are
/// skipped, `{` opens and `}` closes a brace, and the scan ends when no brace is left open.
pub open spec fn closing_end(s: Seq<char>, i: int, depth: int) -> Option<int>
    decreases s.len() + 1 - i,
{
    if i < 0 || i >= s.len() {
        None
    } else if s[i] == '\\' {
        closing_end(s, i + 2, depth)
    } else if s[i] == '{' {
        closing_end(s, i + 1, depth + 1)
    } else if s[i] == '}' {
        if depth - 1 == 0 {
            Some(i + 1)
        } else {
            closing_end(s, i + 1, depth - 1)
        }
    } else {
        closing_end(s, i + 1, depth)
    }
}

/// A scan that closes ends past where it starts and within the text.
pub proof fn lemma_closing_end_bounds(s: Seq<char>, i: int, depth: int)
    ensures
        closing_end(s, i, depth) matches Some(end) ==> i < end <= s.len(),
    decreases s.len() + 1 - i,
{
    if i < 0 || i >= s.len() {
    } else if s[i] == '\\' {
        lemma_closing_end_bounds(s, i + 2, depth);
    } else if s[i] == '{' {
        lemma_closing_end_bounds(s, i + 1, depth + 1);
    } else if s[i] == '}' {
        if depth - 1 != 0 {
            lemma_closing_end_bounds(s, i + 1, depth - 1);
        }
    } else {
        lemma_closing_end_bounds(s, i + 1, depth);
    }
}

/// The object holding the patches in a script's text: from the first marker up to the brace
/// that closes it.
pub open spec fn patches_object(text: Seq<char>) -> Option<Seq<char>> {
    match first_occurrence(text, patches_marker()) {
        Some(at) => {
            let rest = text.skip(at);
            match closing_end(rest, 0, 0) {
                Some(end) => Some(rest.take(end)),
                None => None,
            }
        },
        None => None,
    }
}

/// The object's text with the script's escapes undone: `\\` becomes `\`, then `\"` becomes `"`.
pub open spec fn unescaped(raw: Seq<char>) -> Seq<char> {
    replace_all(replace_all(raw, seq!['\\', '\\'], seq!['\\']), seq!['\\', '"'], seq!['"'])
}

/// The JSON document held by a script's text, or why there is none: no balanced patches
/// object, or one that `serde_json` does not read.
pub open spec fn script_json(text: Seq<char>) -> Result<Json, RotationErrorView> {
    match patches_object(text) {
        Some(raw) => match serde_json_reading(unescaped(raw)) {
            Ok(document) => Ok(document),
            Err(message) => Err(
                RotationErrorView::ParseError("Serde parse error: "@ + message),
            ),
        },
        None => Err(RotationErrorView::ParseError("Script has unexpected format"@)),
    }
}

/// The first script among `texts` that mentions `patches`.
pub open spec fn rotation_script_index(texts: Seq<Seq<char>>, from: int) -> Option<int>
    decreases texts.len() - from,
{
    if from < 0 || from >= texts.len() {
        None
    } else if contains_text(texts[from], "patches"@) {
        Some(from)
    } else {
        rotation_script_index(texts, from + 1)
    }
}

/// What `scraper` finds in a page: the text of each `<script>` element of
/// `Html::parse_fragment(html)` that `select` yields for the selector `script`, in that order.
pub uninterp spec fn html_script_texts(html: Seq<char>) -> Seq<Seq<char>>;

/// The texts of a page's `<script>` elements, through `scraper` (`Html::parse_fragment`,
/// `Selector::parse("script")`, `Html::select`, `ElementRef::text` joined). Claimed: they
/// depend on the page alone.
#[verifier::external_body]
fn script_texts(html: &str) -> (r: Vec<String>)
    ensures
        r@.map_values(|t: String| t@) == html_script_texts(html@),
{
    let document = scraper::Html::parse_fragment(html);
    let selector = scraper::Selector::parse("script").unwrap();
    document.select(&selector).map(|e| e.text().collect::<Vec<&str>>().concat()).collect()
}

/// The JSON document of a page's rotation script, or why there is none: no script mentions
/// `patches` (see `rotation_script_index`), or its text holds no document (see `script_json`).
pub open spec fn page_document(html: Seq<char>) -> Result<Json, RotationErrorView> {
    let texts = html_script_texts(html);
    match rotation_script_index(texts, 0) {
        None => Err(RotationErrorView::ParseError("Not found<script> with json"@)),
        Some(i) => script_json(texts[i]),
    }
}

/// The rotation data that a page holds for the instant `now`, or why it holds none.
pub open spec fn page_outcome(html: Seq<char>, now: Moment) -> Result<
    RotationDataView,
    RotationErrorView,
> {
    match page_document(html) {
        Ok(document) => actual_data_outcome(document, now),
        Err(e) => Err(e),
    }
}

/// Whether what a page holds depends on the instant: its document is an object with a
/// `patches` member, among which the patch in play is looked for.
pub open spec fn page_needs_clock(html: Seq<char>) -> bool {
    page_document(html) matches Ok(document) && field(document, "patches"@) is Some
}

/// The message given when the clock yields no instant.
pub open spec fn clock_failure_message() -> Seq<char> {
    "The system clock gives no usable time"@
}

/// The first of `texts` that mentions `patches` (see `rotation_script_index`).
pub fn find_rotation_script(texts: &Vec<String>) -> (r: Result<&String, GetRotationError>)
    ensures
        match r {
            Ok(text) => rotation_script_index(texts@.map_values(|t: String| t@), 0) matches Some(i)
                && 0 <= i < texts@.len() && texts@[i]@ == text@,
            Err(e) => rotation_script_index(texts@.map_values(|t: String| t@), 0) is None && e@
                == RotationErrorView::ParseError("Not found<script> with json"@),
        },
{
    let ghost views = texts@.map_values(|t: String| t@);
    let word = chars_of("patches");
    let mut i: usize = 0;
    while i < texts.len()
        invariant
            i <= texts@.len(),
            views == texts@.map_values(|t: String| t@),
            word@ == "patches"@,
            rotation_script_index(views, 0) == rotation_script_index(views, i as int),
        decreases texts@.len() - i,
    {
        let text = chars_of(texts[i].as_str());
        if contains(&text, &word) {
            return Ok(&texts[i]);
        }
        i = i + 1;
    }
    Err(GetRotationError::ParseError(String::from_str("Not found<script> with json")))
}

/// Where the object opening at the start of `s` closes (see `closing_end`).
fn object_end(s: &Vec<char>) -> (r: Option<usize>)
    requires
        s@.len() > 0,
        s@[0] == '{',
    ensures
        match r {
            Some(end) => closing_end(s@, 0, 0) == Some(end as int),
            None => closing_end(s@, 0, 0) is None,
        },
{
    let mut depth: usize = 0;
    let mut i: usize = 0;
    while i < s.len()
        invariant
            i <= s@.len(),
            s@.len() > 0,
            s@[0] == '{',
            depth <= i,
            i == 0 ==> depth == 0,
            i > 0 ==> depth >= 1,
            closing_end(s@, 0, 0) == closing_end(s@, i as int, depth as int),
        decreases s@.len() - i,
    {
        if s[i] == '\\' {
            if s.len() - i > 2 {
                i = i + 2;
            } else {
                assert(closing_end(s@, i + 2, depth as int) is None);
                assert(closing_end(s@, s@.len() as int, depth as int) is None);
                i = s.len();
            }
        } else if s[i] == '{' {
            depth = depth + 1;
            i = i + 1;
        } else if s[i] == '}' {
            if depth == 1 {
                return Some(i + 1);
            }
            depth = depth - 1;
            i = i + 1;
        } else {
            i = i + 1;
        }
    }
    None
}

/// The JSON document held by a script's text (see `script_json`).
pub fn extract_json_from_script(rotation_script: &str) -> (r: Result<Json, GetRotationError>)
    ensures
        match r {
            Ok(document) => script_json(rotation_script@) == Ok::<Json, RotationErrorView>(
                document,
            ),
            Err(e) => script_json(rotation_script@) == Err::<Json, RotationErrorView>(e@),
        },
{
    let raw_text = chars_of(rotation_script);
    let marker = vec!['{', '\\', '"', 'p', 'a', 't', 'c', 'h', 'e', 's', '\\', '"', ':', '['];
    assert(marker@ =~= patches_marker());
    if let Some(start_pos) = find(&raw_text, &marker) {
        proof {
            crate::text::lemma_first_occurrence_from(raw_text@, marker@, 0);
        }
        let mut slice = raw_text;
        let tail = slice.split_off(start_pos);
        assert(tail@[0] == marker@[0]);
        assert(tail@ =~= rotation_script@.skip(start_pos as int));
        if let Some(end) = object_end(&tail) {
            proof {
                lemma_closing_end_bounds(tail@, 0, 0);
            }
            let mut raw_object = tail;
            raw_object.truncate(end);
            assert(raw_object@ =~= rotation_script@.skip(start_pos as int).take(end as int));
            let double_backslash = vec!['\\', '\\'];
            let backslash = vec!['\\'];
            let escaped_quote = vec!['\\', '"'];
            let quote = vec!['"'];
            assert(double_backslash@ =~= seq!['\\', '\\']);
            assert(backslash@ =~= seq!['\\']);
            assert(escaped_quote@ =~= seq!['\\', '"']);
            assert(quote@ =~= seq!['"']);
            let once = replace(&raw_object, &double_backslash, &backslash);
            let clean_json = replace(&once, &escaped_quote, &quote);
            assert(clean_json@ =~= unescaped(raw_object@));
            return match read_json(clean_json.as_slice()) {
                Ok(json) => Ok(json),
                Err(e) => {
                    let mut message = String::from_str("Serde parse error: ");
                    message.append(e.as_str());
                    Err(GetRotationError::ParseError(message))
                },
            };
        }
    }
    Err(GetRotationError::ParseError(String::from_str("Script has unexpected format")))
}

/// The JSON document of the page `html_body_str` (see `page_document`).
fn page_json(html_body_str: &str) -> (r: Result<Json, GetRotationError>)
    ensures
        match r {
            Ok(document) => page_document(html_body_str@) == Ok::<Json, RotationErrorView>(
                document,
            ),
            Err(e) => page_document(html_body_str@) == Err::<Json, RotationErrorView>(e@),
        },
{
    let texts = script_texts(html_body_str);
    let rotation_script = match find_rotation_script(&texts) {
        Ok(text) => text,
        Err(e) => return Err(e),
    };
    proof {
        let i: int = rotation_script_index(texts@.map_values(|t: String| t@), 0)->0;
        assert(texts@.map_values(|t: String| t@)[i] == rotation_script@);
    }
    extract_json_from_script(rotation_script.as_str())
}

/// The rotation data that the page `html_body_str` holds for the instant `now`, or why it holds
/// none (see `page_outcome`).
pub fn parse_rotation_at(html_body_str: &str, now: Moment) -> (r: Result<
    ActualRotationData,
    GetRotationError,
>)
    ensures
        outcome_view(r) == page_outcome(html_body_str@, now),
{
    match page_json(html_body_str) {
        Ok(json) => extract_actual_data_from_json(&json, now),
        Err(e) => Err(e),
    }
}

/// The rotation data that the page `html_body_str` holds for the current instant, or why it
/// holds none. The clock is read only where the outcome depends on it (see
/// `page_needs_clock`): elsewhere the outcome is the page's for any instant; where it does, it
/// is the page's for some well-formed instant, the one the clock gave, or, when the clock
/// gives none, a `MissingInformation` error.
pub fn parse_rotation(html_body_str: &str) -> (r: Result<ActualRotationData, GetRotationError>)
    ensures
        !page_needs_clock(html_body_str@) ==> forall|now: Moment|
            outcome_view(r) == #[trigger] page_outcome(html_body_str@, now),
        page_needs_clock(html_body_str@) ==> (exists|now: Moment|
            now.wf() && outcome_view(r) == #[trigger] page_outcome(html_body_str@, now))
            || outcome_view(r) == Err::<RotationDataView, RotationErrorView>(
            RotationErrorView::MissingInformation(clock_failure_message()),
        ),
{
    let json = match page_json(html_body_str) {
        Ok(json) => json,
        Err(e) => return Err(e),
    };
    let needs_clock = match get(&json, "patches") {
        Some(_) => true,
        None => false,
    };
    if !needs_clock {
        // No patch is looked for, so the instant plays no part in the outcome.
        let any_instant = Moment { secs: 0, nanos: 0 };
        return extract_actual_data_from_json(&json, any_instant);
    }
    match current_moment() {
        Some(now) => {
            let r = extract_actual_data_from_json(&json, now);
            assert(outcome_view(r) == page_outcome(html_body_str@, now));
            r
        },
        None => {
            let message = String::from_str("The system clock gives no usable time");
            assert(message@ == clock_failure_message());
            Err(GetRotationError::MissingInformation(message))
        },
    }
}

} // verus!
