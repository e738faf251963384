//! The rotation of a region as the bot tells it, and the outcome of asking for it.
use vstd::prelude::*;

use crate::moment::{debug_text, instant_debug_text, Moment};
use crate::page::{page_outcome, parse_rotation_at};
use crate::rotation::{
    rotation_for_moment, week_view, GetRotationError, Probability, RotationErrorView, WeekView,
};
use crate::text::same_text;

verus! {

/// The name shown for a map: the known maps get their emblem, any other keeps its name.
pub open spec fn pretty_map_name(name: Seq<char>) -> Seq<char> {
    if name == "Erangel"@ {
        "🏝️ Erangel"@
    } else if name == "Miramar"@ {
        "☀️ Miramar"@
    } else if name == "Sanhok"@ {
        "🏔️ Sanhok"@
    } else if name == "Taego"@ {
        "🏰 Taego"@
    } else if name == "Vikendi"@ {
        "❄️ Vikendi"@
    } else if name == "Karakin"@ {
        "🏙️ Karakin"@
    } else if name == "Deston"@ {
        "🏠 Deston"@
    } else if name == "Paramo"@ {
        "🏔️ Paramo"@
    } else if name == "Rondo"@ {
        "🌲 Rondo"@
    } else {
        name
    }
}

/// One line per map, in order: its shown name, ` : `, its percentage, ` %`.
pub open spec fn rotation_lines(rotation: Seq<(Seq<char>, Seq<char>)>) -> Seq<char>
    decreases rotation.len(),
{
    if rotation.len() == 0 {
        Seq::empty()
    } else {
        rotation_lines(rotation.drop_last()) + pretty_map_name(rotation.last().0) + " : "@
            + rotation.last().1 + " %\n"@
    }
}

/// The message for the rotation of `region`: a heading line naming the region, then a line
/// per map.
pub open spec fn rotation_message(region: Seq<char>, rotation: Seq<(Seq<char>, Seq<char>)>) -> Seq<
    char,
> {
    "Ротация на "@ + region + " сервере:\n"@ + rotation_lines(rotation)
}

/// The model of a rotation whose percentages are written out.
pub open spec fn written_rotation(rotation: Vec<(String, String)>) -> Seq<(Seq<char>, Seq<char>)> {
    rotation@.map_values(|entry: (String, String)| (entry.0@, entry.1@))
}

/// The name shown for a map (see `pretty_map_name`).
pub fn pretty_name(name: &str) -> (r: String)
    ensures
        r@ == pretty_map_name(name@),
{
    if same_text(name, "Erangel") {
        String::from_str("🏝️ Erangel")
    } else if same_text(name, "Miramar") {
        String::from_str("☀️ Miramar")
    } else if same_text(name, "Sanhok") {
        String::from_str("🏔️ Sanhok")
    } else if same_text(name, "Taego") {
        String::from_str("🏰 Taego")
    } else if same_text(name, "Vikendi") {
        String::from_str("❄️ Vikendi")
    } else if same_text(name, "Karakin") {
        String::from_str("🏙️ Karakin")
    } else if same_text(name, "Deston") {
        String::from_str("🏠 Deston")
    } else if same_text(name, "Paramo") {
        String::from_str("🏔️ Paramo")
    } else if same_text(name, "Rondo") {
        String::from_str("🌲 Rondo")
    } else {
        String::from_str(name)
    }
}

/// The message for the rotation of `region`, each map given with its percentage written
/// out (see `rotation_message`).
pub fn prettify_rotation(region: &str, rotation: &Vec<(String, String)>) -> (r: String)
    ensures
        r@ == rotation_message(region@, written_rotation(*rotation)),
{
    let mut message = String::from_str("Ротация на ");
    message.append(region);
    message.append(" сервере:\n");
    let ghost heading = message@;
    let mut i: usize = 0;
    while i < rotation.len()
        invariant
            i <= rotation@.len(),
            heading == "Ротация на "@ + region@ + " сервере:\n"@,
            message@ == heading + rotation_lines(written_rotation(*rotation).take(i as int)),
        decreases rotation@.len() - i,
    {
        let shown = pretty_name(rotation[i].0.as_str());
        message.append(shown.as_str());
        message.append(" : ");
        message.append(rotation[i].1.as_str());
        message.append(" %\n");
        proof {
            let written = written_rotation(*rotation);
            assert(written.take(i + 1).drop_last() =~= written.take(i as int));
            assert(written.take(i + 1).last() == written[i as int]);
        }
        i = i + 1;
    }
    assert(written_rotation(*rotation).take(rotation@.len() as int) =~= written_rotation(*rotation));
    message
}

/// What asking for the rotation of `region` at `now` comes to, given the outcome of fetching
/// the page: the fetch's failure; the page's failure to hold rotation data (see
/// `page_outcome`); no maps for the region at that instant (see `rotation_for_moment`);
/// or those maps.
pub open spec fn rotation_outcome(
    page: Result<Seq<char>, Seq<char>>,
    region: Seq<char>,
    now: Moment,
) -> Result<WeekView, RotationErrorView> {
    match page {
        Err(failure) => Err(RotationErrorView::RequestError(failure)),
        Ok(body) => match page_outcome(body, now) {
            Err(e) => Err(e),
            Ok(data) => match rotation_for_moment(data, region, now) {
                Some(week) => Ok(week),
                None => Err(
                    RotationErrorView::MissingInformation(
                        "No available info for "@ + region + " and "@ + instant_debug_text(now),
                    ),
                ),
            },
        },
    }
}

/// The maps in play in `region` at `now`, given the outcome of fetching the statistics page
/// (its body, or the text of the fetch's error); see `rotation_outcome`.
pub fn get_rotation(page: Result<String, String>, region: &str, now: Moment) -> (r: Result<
    Vec<(String, Probability)>,
    GetRotationError,
>)
    requires
        now.wf(),
    ensures
        match r {
            Ok(week) => rotation_outcome(
                match page {
                    Ok(body) => Ok(body@),
                    Err(e) => Err(e@),
                },
                region@,
                now,
            ) == Ok::<WeekView, RotationErrorView>(week_view(week)),
            Err(e) => rotation_outcome(
                match page {
                    Ok(body) => Ok(body@),
                    Err(e) => Err(e@),
                },
                region@,
                now,
            ) == Err::<WeekView, RotationErrorView>(e@),
        },
{
    let rotation_data = match page {
        Ok(body) => parse_rotation_at(body.as_str(), now),
        Err(failure) => Err(GetRotationError::RequestError(failure)),
    };
    let rotation_data = match rotation_data {
        Ok(data) => data,
        Err(e) => return Err(e),
    };
    match rotation_data.into_rotation_for_moment(region, now) {
        Some(week) => Ok(week),
        None => {
            let mut message = String::from_str("No available info for ");
            message.append(region);
            message.append(" and ");
            let when = debug_text(&now);
            message.append(when.as_str());
            Err(GetRotationError::MissingInformation(message))
        },
    }
}

/// The reply to a request for the rotation of `region` from the page at `url`: the rotation
/// message when it came, a note that the page could not be reached otherwise.
pub open spec fn rotation_reply_text(
    region: Seq<char>,
    outcome: Option<Seq<(Seq<char>, Seq<char>)>>,
    url: Seq<char>,
) -> Seq<char> {
    match outcome {
        Some(rotation) => rotation_message(region, rotation),
        None => "Проблемы с доступом к "@ + url,
    }
}

/// The reply to a request for the rotation of `region` (see `rotation_reply_text`); the maps'
/// percentages come written out.
pub fn rotation_reply(
    region: &str,
    outcome: &Result<Vec<(String, String)>, GetRotationError>,
    url: &str,
) -> (r: String)
    ensures
        r@ == rotation_reply_text(
            region@,
            match outcome {
                Ok(rotation) => Some(written_rotation(*rotation)),
                Err(_) => None,
            },
            url@,
        ),
{
    match outcome {
        Ok(rotation) => prettify_rotation(region, rotation),
        Err(_) => {
            let mut text = String::from_str("Проблемы с доступом к ");
            text.append(url);
            text
        },
    }
}

/// The note sent while the rotation is being fetched from `url`.
pub fn request_notice(url: &str) -> (r: String)
    ensures
        r@ == "Запрашиваем ротацию на "@ + url@,
{
    let mut text = String::from_str("Запрашиваем ротацию на ");
    text.append(url);
    text
}

} // verus!
