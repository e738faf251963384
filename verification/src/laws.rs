//! Properties that hold across the library's functions.
use vstd::prelude::*;

use crate::json::{field, text_of, Json};
use crate::message::{pretty_map_name, rotation_lines, rotation_message, rotation_outcome};
use crate::moment::{
    first_change_nanos, first_change_second, precedes_instant, seconds_since, week_number,
    Moment, TimeOfDay, WEEK_SECONDS,
};
use crate::page::{
    closing_end, html_script_texts, lemma_closing_end_bounds, page_outcome, patches_marker,
    patches_object, rotation_script_index, script_json, unescaped,
};
use crate::rotation::{
    current_patch, patch_rotation, patches_rotation, region_weeks, rotation_for_moment,
    week_maps, ProbabilityView, RotationDataView, RotationErrorView, WeekView,
};
use crate::text::{
    contains_text, first_occurrence, lemma_first_occurrence_from, occurs_at, replace_all,
};

verus! {

/// Until the first weekly change (the change time on the day the patch starts, one week
/// later) the schedule is in its first week.
pub proof fn law_first_week_until_first_change(start: Moment, at: TimeOfDay, moment: Moment)
    requires
        precedes_instant(moment, first_change_second(start, at), first_change_nanos(at)),
    ensures
        week_number(start, at, moment) == 0,
{
}

/// From the first weekly change on, a moment outside a leap second that is at least `k`
/// and less than `k + 1` whole weeks after the first change is in week `k + 1`.
pub proof fn law_week_counts_whole_weeks(start: Moment, at: TimeOfDay, moment: Moment, k: int)
    requires
        at.wf(),
        moment.wf(),
        !moment.in_leap_second(),
        k >= 0,
        !precedes_instant(
            moment,
            first_change_second(start, at) + k * WEEK_SECONDS,
            first_change_nanos(at),
        ),
        precedes_instant(
            moment,
            first_change_second(start, at) + (k + 1) * WEEK_SECONDS,
            first_change_nanos(at),
        ),
    ensures
        week_number(start, at, moment) == k + 1,
{
    let secs: int = first_change_second(start, at);
    let nanos: int = first_change_nanos(at);
    assert(k * WEEK_SECONDS >= 0) by (nonlinear_arith)
        requires
            k >= 0,
    ;
    assert(!precedes_instant(moment, secs, nanos));
    let elapsed: int = seconds_since(moment, secs, nanos);
    assert(k * WEEK_SECONDS <= elapsed < (k + 1) * WEEK_SECONDS);
    vstd::arithmetic::div_mod::lemma_fundamental_div_mod_converse(
        elapsed,
        WEEK_SECONDS as int,
        k,
        elapsed - k * WEEK_SECONDS,
    );
}

/// A later moment is never in an earlier week of the schedule (for well-formed moments, when
/// the change time is a whole second or neither moment is inside a leap second).
pub proof fn law_weeks_never_go_back(start: Moment, at: TimeOfDay, earlier: Moment, later: Moment)
    requires
        at.wf(),
        earlier.wf(),
        later.wf(),
        !later.precedes(earlier),
        at.nanos == 0 || (!earlier.in_leap_second() && !later.in_leap_second()),
    ensures
        week_number(start, at, earlier) <= week_number(start, at, later),
{
    let secs: int = first_change_second(start, at);
    let nanos: int = first_change_nanos(at);
    if precedes_instant(earlier, secs, nanos) {
        if !precedes_instant(later, secs, nanos) {
            let e: int = seconds_since(later, secs, nanos);
            assert(e >= 0);
            vstd::arithmetic::div_mod::lemma_div_is_ordered(0, e, WEEK_SECONDS as int);
        }
    } else {
        let e1: int = seconds_since(earlier, secs, nanos);
        let e2: int = seconds_since(later, secs, nanos);
        let d1: int = earlier.nanos - nanos;
        let d2: int = later.nanos - nanos;
        assert(d1 >= 1_000_000_000 ==> d1 / 1_000_000_000int == 1);
        assert(0 <= d1 < 1_000_000_000 ==> d1 / 1_000_000_000int == 0);
        assert(d1 < 0 ==> d1 / 1_000_000_000int == -1);
        assert(d2 >= 1_000_000_000 ==> d2 / 1_000_000_000int == 1);
        assert(0 <= d2 < 1_000_000_000 ==> d2 / 1_000_000_000int == 0);
        assert(d2 < 0 ==> d2 / 1_000_000_000int == -1);
        assert(e1 <= e2);
        vstd::arithmetic::div_mod::lemma_div_is_ordered(e1, e2, WEEK_SECONDS as int);
    }
}

/// The patch that `current_patch` picks holds `now` in its span.
proof fn lemma_current_patch_in_play(patches: Seq<Json>, now: Moment)
    ensures
        current_patch(patches, now) matches Some(data) ==> !now.precedes(data.start)
            && !data.end.precedes(now),
    decreases patches.len(),
{
    if patches.len() > 0 {
        lemma_current_patch_in_play(patches.drop_first(), now);
    }
}

/// The rotation data that a page gives for an instant is that of a patch in play at that
/// instant: it started no later and ends no earlier.
pub proof fn law_page_data_is_in_play(html: Seq<char>, now: Moment)
    ensures
        page_outcome(html, now) matches Ok(data) ==> !now.precedes(data.start)
            && !data.end.precedes(now),
{
    let texts = html_script_texts(html);
    match rotation_script_index(texts, 0) {
        Some(i) => match script_json(texts[i]) {
            Ok(document) => {
                match field(document, "patches"@) {
                    Some(Json::Array(items)) => lemma_current_patch_in_play(items@, now),
                    _ => {},
                }
            },
            Err(_) => {},
        },
        None => {},
    }
}

/// Outside a patch's span (before its start, or from its end on) no maps are in play.
pub proof fn law_nothing_outside_the_span(data: RotationDataView, region: Seq<char>, moment: Moment)
    requires
        moment.precedes(data.start) || !moment.precedes(data.end),
    ensures
        rotation_for_moment(data, region, moment) is None,
{
}

/// In a week that is not of the `random` kind every map can be chosen.
pub proof fn law_fixed_weeks_are_certain(week: Json)
    requires
        text_of(field(week, "type"@)) != Some("random"@),
    ensures
        week_maps(week) matches Some(maps) ==> forall|i: int|
            0 <= i < maps.len() ==> #[trigger] maps[i].1 == ProbabilityView::Certain,
{
}

/// The object taken from a script starts at the first `{\"patches\":[` of the text and runs
/// to the brace that closes it: it begins with that marker and ends with `}`.
pub proof fn law_patches_object_is_whole(text: Seq<char>)
    ensures
        patches_object(text) matches Some(object) ==> {
            &&& first_occurrence(text, patches_marker()) matches Some(at)
            &&& object == text.subrange(at, at + object.len())
            &&& object.take(patches_marker().len() as int) == patches_marker()
            &&& object.last() == '}'
        },
{
    lemma_first_occurrence_from(text, patches_marker(), 0);
    if let Some(at) = first_occurrence(text, patches_marker()) {
        let rest = text.skip(at);
        let m = patches_marker();
        assert(rest.take(14) =~= m) by {
            assert(text.subrange(at, at + 14) =~= m);
        }
        assert forall|j: int| 0 <= j < 14 implies rest[j] == #[trigger] m[j] by {
            assert(rest.take(14)[j] == rest[j]);
        }
        lemma_marker_opens(rest);
        lemma_closing_end_bounds(rest, 14, 1);
        lemma_closing_end_closes(rest, 14, 1);
        if let Some(end) = closing_end(rest, 0, 0) {
            assert(rest.take(end).take(14) =~= m);
            assert(rest.take(end) =~= text.subrange(at, at + end));
        }
    }
}

/// Scanning across the marker leaves one brace open at its end.
proof fn lemma_marker_opens(s: Seq<char>)
    requires
        s.len() >= 14,
        forall|j: int| 0 <= j < 14 ==> s[j] == #[trigger] patches_marker()[j],
    ensures
        closing_end(s, 0, 0) == closing_end(s, 14, 1),
{
    let m = patches_marker();
    assert(s[0] == '{' && s[1] == '\\' && s[3] == 'p' && s[4] == 'a' && s[5] == 't' && s[6]
        == 'c' && s[7] == 'h' && s[8] == 'e' && s[9] == 's' && s[10] == '\\' && s[12] == ':'
        && s[13] == '[') by {
        assert(m[0] == '{' && m[1] == '\\' && m[3] == 'p' && m[4] == 'a' && m[5] == 't' && m[6]
            == 'c' && m[7] == 'h' && m[8] == 'e' && m[9] == 's' && m[10] == '\\' && m[12] == ':'
            && m[13] == '[');
    }
    assert(closing_end(s, 13, 1) == closing_end(s, 14, 1));
    assert(closing_end(s, 12, 1) == closing_end(s, 13, 1));
    assert(closing_end(s, 10, 1) == closing_end(s, 12, 1));
    assert(closing_end(s, 9, 1) == closing_end(s, 10, 1));
    assert(closing_end(s, 8, 1) == closing_end(s, 9, 1));
    assert(closing_end(s, 7, 1) == closing_end(s, 8, 1));
    assert(closing_end(s, 6, 1) == closing_end(s, 7, 1));
    assert(closing_end(s, 5, 1) == closing_end(s, 6, 1));
    assert(closing_end(s, 4, 1) == closing_end(s, 5, 1));
    assert(closing_end(s, 3, 1) == closing_end(s, 4, 1));
    assert(closing_end(s, 1, 1) == closing_end(s, 3, 1));
    assert(closing_end(s, 0, 0) == closing_end(s, 1, 1));
}

/// A scan that closes stops just past a closing brace.
proof fn lemma_closing_end_closes(s: Seq<char>, i: int, depth: int)
    ensures
        closing_end(s, i, depth) matches Some(end) ==> 0 < end <= s.len() && s[end - 1] == '}',
    decreases s.len() + 1 - i,
{
    if i < 0 || i >= s.len() {
    } else if s[i] == '\\' {
        lemma_closing_end_closes(s, i + 2, depth);
    } else if s[i] == '{' {
        lemma_closing_end_closes(s, i + 1, depth + 1);
    } else if s[i] == '}' {
        if depth - 1 != 0 {
            lemma_closing_end_closes(s, i + 1, depth - 1);
        }
    } else {
        lemma_closing_end_closes(s, i + 1, depth);
    }
}

/// How the page escapes a character of the JSON it puts in a script: a backslash and a
/// quote get a backslash before them.
pub open spec fn escaped_char(c: char) -> Seq<char> {
    if c == '\\' || c == '"' {
        seq!['\\', c]
    } else {
        seq![c]
    }
}

/// A text escaped the way the page escapes the JSON it puts in a script.
pub open spec fn escaped(text: Seq<char>) -> Seq<char>
    decreases text.len(),
{
    if text.len() == 0 {
        Seq::empty()
    } else {
        escaped_char(text[0]) + escaped(text.drop_first())
    }
}

/// A text with only its quotes escaped.
spec fn quotes_escaped(text: Seq<char>) -> Seq<char>
    decreases text.len(),
{
    if text.len() == 0 {
        Seq::empty()
    } else if text[0] == '"' {
        seq!['\\', '"'] + quotes_escaped(text.drop_first())
    } else {
        seq![text[0]] + quotes_escaped(text.drop_first())
    }
}

/// Undoing escaped backslashes in an escaped text leaves its quotes escaped.
proof fn lemma_backslashes_undone(text: Seq<char>)
    ensures
        replace_all(escaped(text), seq!['\\', '\\'], seq!['\\']) == quotes_escaped(text),
    decreases text.len(),
{
    if text.len() > 0 {
        let c: char = text[0];
        let rest = text.drop_first();
        lemma_backslashes_undone(rest);
        let e = escaped(text);
        let from = seq!['\\', '\\'];
        let to = seq!['\\'];
        assert(e == escaped_char(c) + escaped(rest));
        if c == '\\' {
            assert(e.take(2) =~= from);
            assert(e.skip(2) =~= escaped(rest));
        } else if c == '"' {
            assert(e.take(2) =~= seq!['\\', '"']);
            assert(e.drop_first() =~= seq!['"'] + escaped(rest));
            let tail = e.drop_first();
            if tail.len() >= 2 {
                assert(tail.take(2)[0] == '"');
            }
            assert(tail.drop_first() =~= escaped(rest));
            assert(replace_all(tail, from, to) =~= seq!['"'] + replace_all(escaped(rest), from, to));
            assert(replace_all(e, from, to) =~= seq!['\\'] + replace_all(tail, from, to));
            assert(quotes_escaped(text) =~= seq!['\\', '"'] + quotes_escaped(rest));
        } else {
            assert(e =~= seq![c] + escaped(rest));
            if e.len() >= 2 {
                assert(e.take(2)[0] == c);
            }
            assert(e.drop_first() =~= escaped(rest));
        }
    }
}

/// A text whose quotes are escaped does not start with a quote.
proof fn lemma_quotes_escaped_start(text: Seq<char>)
    ensures
        quotes_escaped(text).len() > 0 ==> quotes_escaped(text)[0] != '"',
        quotes_escaped(text).len() >= text.len(),
    decreases text.len(),
{
    if text.len() > 0 {
        lemma_quotes_escaped_start(text.drop_first());
    }
}

/// Undoing escaped quotes gives back the text.
proof fn lemma_quotes_undone(text: Seq<char>)
    ensures
        replace_all(quotes_escaped(text), seq!['\\', '"'], seq!['"']) == text,
    decreases text.len(),
{
    if text.len() > 0 {
        let c: char = text[0];
        let rest = text.drop_first();
        lemma_quotes_undone(rest);
        lemma_quotes_escaped_start(rest);
        let q = quotes_escaped(text);
        let from = seq!['\\', '"'];
        let to = seq!['"'];
        if c == '"' {
            assert(q =~= from + quotes_escaped(rest));
            assert(q.take(2) =~= from);
            assert(q.skip(2) =~= quotes_escaped(rest));
        } else {
            assert(q =~= seq![c] + quotes_escaped(rest));
            if q.len() >= 2 {
                assert(q.take(2)[1] == quotes_escaped(rest)[0]);
            }
            assert(q.drop_first() =~= quotes_escaped(rest));
        }
        assert(text =~= seq![c] + rest);
    }
}

/// Undoing the script's escapes gives back the JSON text the page escaped.
pub proof fn law_unescaping_undoes_escaping(text: Seq<char>)
    ensures
        unescaped(escaped(text)) == text,
{
    lemma_backslashes_undone(text);
    lemma_quotes_undone(text);
}

/// The lines of a rotation hold the shown name of every map in it.
proof fn lemma_lines_hold_names(rotation: Seq<(Seq<char>, Seq<char>)>, i: int)
    requires
        0 <= i < rotation.len(),
    ensures
        contains_text(rotation_lines(rotation), pretty_map_name(rotation[i].0)),
    decreases rotation.len(),
{
    let front = rotation.drop_last();
    let name = pretty_map_name(rotation.last().0);
    let lines = rotation_lines(rotation);
    assert(lines == rotation_lines(front) + name + " : "@ + rotation.last().1 + " %\n"@);
    if i == rotation.len() - 1 {
        let at: int = rotation_lines(front).len() as int;
        assert(lines.subrange(at, at + name.len()) =~= name);
        assert(occurs_at(lines, name, at));
    } else {
        lemma_lines_hold_names(front, i);
        assert(front[i] == rotation[i]);
        let at: int = choose|at: int| occurs_at(rotation_lines(front), pretty_map_name(front[i].0), at);
        let shown = pretty_map_name(rotation[i].0);
        assert(lines.subrange(at, at + shown.len()) =~= rotation_lines(front).subrange(
            at,
            at + shown.len(),
        ));
        assert(occurs_at(lines, shown, at));
    }
}

/// The message for a rotation names every map of it by its shown name.
pub proof fn law_message_names_every_map(region: Seq<char>, rotation: Seq<(Seq<char>, Seq<char>)>, i: int)
    requires
        0 <= i < rotation.len(),
    ensures
        contains_text(rotation_message(region, rotation), pretty_map_name(rotation[i].0)),
{
    lemma_lines_hold_names(rotation, i);
    let heading = "Ротация на "@ + region + " сервере:\n"@;
    let lines = rotation_lines(rotation);
    let shown = pretty_map_name(rotation[i].0);
    let at: int = choose|at: int| occurs_at(lines, shown, at);
    let message = rotation_message(region, rotation);
    assert(message == heading + lines);
    assert(message.subrange(heading.len() + at, heading.len() + at + shown.len()) =~= lines.subrange(
        at,
        at + shown.len(),
    ));
    assert(occurs_at(message, shown, heading.len() + at));
}

/// The shown name of a map holds its name.
pub proof fn law_shown_name_keeps_the_name(name: Seq<char>)
    ensures
        contains_text(pretty_map_name(name), name),
{
    if name == "Erangel"@ {
        reveal_strlit("Erangel");
        reveal_strlit("🏝️ Erangel");
        assert("🏝️ Erangel"@.subrange(3, 3 + name.len() as int) =~= name);
        assert(occurs_at(pretty_map_name(name), name, 3));
    } else if name == "Miramar"@ {
        reveal_strlit("Miramar");
        reveal_strlit("☀️ Miramar");
        assert("☀️ Miramar"@.subrange(3, 3 + name.len() as int) =~= name);
        assert(occurs_at(pretty_map_name(name), name, 3));
    } else if name == "Sanhok"@ {
        reveal_strlit("Sanhok");
        reveal_strlit("🏔️ Sanhok");
        assert("🏔️ Sanhok"@.subrange(3, 3 + name.len() as int) =~= name);
        assert(occurs_at(pretty_map_name(name), name, 3));
    } else if name == "Taego"@ {
        reveal_strlit("Taego");
        reveal_strlit("🏰 Taego");
        assert("🏰 Taego"@.subrange(2, 2 + name.len() as int) =~= name);
        assert(occurs_at(pretty_map_name(name), name, 2));
    } else if name == "Vikendi"@ {
        reveal_strlit("Vikendi");
        reveal_strlit("❄️ Vikendi");
        assert("❄️ Vikendi"@.subrange(3, 3 + name.len() as int) =~= name);
        assert(occurs_at(pretty_map_name(name), name, 3));
    } else if name == "Karakin"@ {
        reveal_strlit("Karakin");
        reveal_strlit("🏙️ Karakin");
        assert("🏙️ Karakin"@.subrange(3, 3 + name.len() as int) =~= name);
        assert(occurs_at(pretty_map_name(name), name, 3));
    } else if name == "Deston"@ {
        reveal_strlit("Deston");
        reveal_strlit("🏠 Deston");
        assert("🏠 Deston"@.subrange(2, 2 + name.len() as int) =~= name);
        assert(occurs_at(pretty_map_name(name), name, 2));
    } else if name == "Paramo"@ {
        reveal_strlit("Paramo");
        reveal_strlit("🏔️ Paramo");
        assert("🏔️ Paramo"@.subrange(3, 3 + name.len() as int) =~= name);
        assert(occurs_at(pretty_map_name(name), name, 3));
    } else if name == "Rondo"@ {
        reveal_strlit("Rondo");
        reveal_strlit("🌲 Rondo");
        assert("🌲 Rondo"@.subrange(2, 2 + name.len() as int) =~= name);
        assert(occurs_at(pretty_map_name(name), name, 2));
    } else {
        assert(name.subrange(0, name.len() as int) =~= name);
        assert(occurs_at(pretty_map_name(name), name, 0));
    }
}


/// Inside a patch's span, for a region the data names, the maps in play are the week of the
/// region's rotation that the moment falls in, whichever week that is, as long as the
/// rotation has that many weeks; past its last week there are none.
pub proof fn law_week_in_play(
    data: RotationDataView,
    region: Seq<char>,
    moment: Moment,
    weeks: Seq<WeekView>,
)
    requires
        !moment.precedes(data.start),
        moment.precedes(data.end),
        region_weeks(data.data, region) == Some(weeks),
    ensures
        0 <= week_number(data.start, data.map_change_time, moment) < weeks.len() ==> rotation_for_moment(
            data,
            region,
            moment,
        ) == Some(weeks[week_number(data.start, data.map_change_time, moment)]),
        week_number(data.start, data.map_change_time, moment) >= weeks.len() ==> rotation_for_moment(
            data,
            region,
            moment,
        ) is None,
{
}

/// A patch object that reads and whose span (`start` to `end`, both included) holds `now`.
pub open spec fn patch_in_play(patch: Json, now: Moment) -> bool {
    patch_rotation(patch) matches Some(d) && !now.precedes(d.start) && !d.end.precedes(now)
}

/// The first patch in play is the one chosen.
proof fn lemma_first_in_play_chosen(patches: Seq<Json>, now: Moment, j: int)
    requires
        0 <= j < patches.len(),
        patch_in_play(patches[j], now),
        forall|k: int| 0 <= k < j ==> !patch_in_play(#[trigger] patches[k], now),
    ensures
        current_patch(patches, now) == patch_rotation(patches[j]),
    decreases j,
{
    if j > 0 {
        let rest = patches.drop_first();
        assert(!patch_in_play(patches[0], now));
        assert forall|k: int| 0 <= k < j - 1 implies !patch_in_play(#[trigger] rest[k], now) by {
            assert(rest[k] == patches[k + 1]);
        }
        assert(rest[j - 1] == patches[j]);
        lemma_first_in_play_chosen(rest, now, j - 1);
    }
}

/// With no patch in play, none is chosen.
proof fn lemma_none_in_play(patches: Seq<Json>, now: Moment)
    requires
        forall|k: int| 0 <= k < patches.len() ==> !patch_in_play(#[trigger] patches[k], now),
    ensures
        current_patch(patches, now) is None,
    decreases patches.len(),
{
    if patches.len() > 0 {
        let rest = patches.drop_first();
        assert(!patch_in_play(patches[0], now));
        assert forall|k: int| 0 <= k < rest.len() implies !patch_in_play(#[trigger] rest[k], now) by {
            assert(rest[k] == patches[k + 1]);
        }
        lemma_none_in_play(rest, now);
    }
}

/// Among the patches of a `patches` array, the one chosen for `now` is the first that reads
/// and holds `now` in its span, wherever it stands in the array; none is chosen only when no
/// patch does.
pub proof fn law_first_patch_in_play_is_chosen(items: Vec<Json>, now: Moment, j: int)
    requires
        0 <= j < items@.len(),
    ensures
        patch_in_play(items@[j], now) && (forall|k: int|
            0 <= k < j ==> !patch_in_play(#[trigger] items@[k], now)) ==> patches_rotation(
            Json::Array(items),
            now,
        ) == patch_rotation(items@[j]),
        (forall|k: int| 0 <= k < items@.len() ==> !patch_in_play(#[trigger] items@[k], now))
            ==> patches_rotation(Json::Array(items), now) is None,
{
    if patch_in_play(items@[j], now) && (forall|k: int|
        0 <= k < j ==> !patch_in_play(#[trigger] items@[k], now)) {
        lemma_first_in_play_chosen(items@, now, j);
    }
    if forall|k: int| 0 <= k < items@.len() ==> !patch_in_play(#[trigger] items@[k], now) {
        lemma_none_in_play(items@, now);
    }
}

/// In a `random` week, a map marked `selectable: true` can always be chosen; any other map
/// takes the probability figure it gives, as a JSON number or a JSON string alike, and one
/// that gives neither has no usable figure. Each map keeps its name.
pub proof fn law_random_week_probabilities(week: Json, maps: Vec<(String, Json)>, i: int)
    requires
        field(week, "maps"@) == Some(Json::Object(maps)),
        text_of(field(week, "type"@)) == Some("random"@),
        0 <= i < maps@.len(),
        week_maps(week) is Some,
    ensures
        ({
            let data = maps@[i].1;
            let read = week_maps(week)->0;
            &&& read.len() == maps@.len()
            &&& read[i].0 == maps@[i].0@
            &&& field(data, "selectable"@) == Some(Json::Bool(true)) ==> read[i].1
                == ProbabilityView::Certain
            &&& field(data, "selectable"@) != Some(Json::Bool(true)) ==> match field(
                data,
                "probability"@,
            ) {
                Some(Json::Text(s)) => read[i].1 == ProbabilityView::Stated(s@),
                Some(Json::Number(n)) => read[i].1 == ProbabilityView::Stated(n.text@),
                _ => read[i].1 == ProbabilityView::Unknown,
            }
        }),
{
}

/// When the fetched page reads, the maps answered for a region are those of the week that
/// the instant of the request falls in, for every week of the region's rotation.
pub proof fn law_answer_follows_the_request_instant(
    body: Seq<char>,
    region: Seq<char>,
    now: Moment,
    data: RotationDataView,
    weeks: Seq<WeekView>,
)
    requires
        page_outcome(body, now) == Ok::<RotationDataView, RotationErrorView>(data),
        region_weeks(data.data, region) == Some(weeks),
        0 <= week_number(data.start, data.map_change_time, now) < weeks.len(),
        now.precedes(data.end),
    ensures
        rotation_outcome(Ok(body), region, now) == Ok::<WeekView, RotationErrorView>(
            weeks[week_number(data.start, data.map_change_time, now)],
        ),
{
    law_page_data_is_in_play(body, now);
}

} // verus!
