//! The rotation schedule: reading it from the page's JSON, and picking the maps in play.
use vstd::prelude::*;

use crate::json::{field, get, text_of, whole_of, Json};
use crate::moment::{
    parse_rfc3339, parse_time, rfc3339_instant, naive_time_reading, week_number, week_of,
    weekday_from_number, weekday_numbered, Moment, TimeOfDay, Weekday,
};
use crate::text::{chars_of, same_text};

verus! {

/// How likely a map is to be played in its week, as the page gives it.
#[derive(Clone, Debug)]
pub enum Probability {
    /// The map can always be chosen (the page's 100 %).
    Certain,
    /// The page gives no usable figure (read as 0 %).
    Unknown,
    /// The page gives a figure: the decimal text of a JSON number, or a JSON string, to be
    /// read as a percentage (`str::parse::<f64>`, 0 % when it does not read).
    Stated(String),
}

/// The model of a `Probability`.
pub enum ProbabilityView {
    Certain,
    Unknown,
    Stated(Seq<char>),
}

impl View for Probability {
    type V = ProbabilityView;

    open spec fn view(&self) -> ProbabilityView {
        match self {
            Probability::Certain => ProbabilityView::Certain,
            Probability::Unknown => ProbabilityView::Unknown,
            Probability::Stated(s) => ProbabilityView::Stated(s@),
        }
    }
}

/// The maps of one week, in the page's order, with their probabilities.
pub type WeekView = Seq<(Seq<char>, ProbabilityView)>;

/// The model of one week's maps.
pub open spec fn week_view(week: Vec<(String, Probability)>) -> WeekView {
    week@.map_values(|entry: (String, Probability)| (entry.0@, entry.1@))
}

/// The rotation of one region: the maps of each week of the patch.
#[derive(Clone, Debug)]
pub struct Rotation {
    pub weeks: Vec<Vec<(String, Probability)>>,
}

impl View for Rotation {
    type V = Seq<WeekView>;

    open spec fn view(&self) -> Seq<WeekView> {
        self.weeks@.map_values(|week: Vec<(String, Probability)>| week_view(week))
    }
}

/// A figure the page gives for a map's probability: a number's text or a string's text.
pub open spec fn stated_probability(figure: Option<Json>) -> ProbabilityView {
    match figure {
        Some(Json::Number(n)) => ProbabilityView::Stated(n.text@),
        Some(Json::Text(s)) => ProbabilityView::Stated(s@),
        _ => ProbabilityView::Unknown,
    }
}

/// The probability of a map described by `data` in a week of the given kind: in a `random`
/// week a map marked `selectable: true` is certain and any other takes its `probability`
/// figure; in any other week every map is certain.
pub open spec fn map_probability(data: Json, random: bool) -> ProbabilityView {
    if !random {
        ProbabilityView::Certain
    } else {
        match field(data, "selectable"@) {
            Some(Json::Bool(true)) => ProbabilityView::Certain,
            _ => stated_probability(field(data, "probability"@)),
        }
    }
}

/// The maps of a week object: its `maps` object (each map described by an object) read in
/// order, the kind of week given by its `type` text.
pub open spec fn week_maps(week: Json) -> Option<WeekView> {
    match (field(week, "maps"@), text_of(field(week, "type"@))) {
        (Some(Json::Object(maps)), Some(kind)) => {
            if forall|i: int| 0 <= i < maps@.len() ==> #[trigger] maps@[i].1 is Object {
                Some(
                    Seq::new(
                        maps@.len(),
                        |i: int| (maps@[i].0@, map_probability(maps@[i].1, kind == "random"@)),
                    ),
                )
            } else {
                None
            }
        },
        _ => None,
    }
}

/// The weeks of a rotation: an array of week objects, every one of which reads.
pub open spec fn rotation_weeks(weeks: Json) -> Option<Seq<WeekView>> {
    match weeks {
        Json::Array(items) => {
            if forall|i: int| 0 <= i < items@.len() ==> #[trigger] week_maps(items@[i]) is Some {
                Some(Seq::new(items@.len(), |i: int| week_maps(items@[i])->0))
            } else {
                None
            }
        },
        _ => None,
    }
}

/// The probability of the map described by `data` (see `map_probability`).
fn read_probability(data: &Json, random: bool) -> (r: Probability)
    ensures
        r@ == map_probability(*data, random),
{
    if !random {
        return Probability::Certain;
    }
    match get(data, "selectable") {
        Some(Json::Bool(true)) => Probability::Certain,
        _ => match get(data, "probability") {
            Some(Json::Number(n)) => Probability::Stated(n.text.clone()),
            Some(Json::Text(s)) => Probability::Stated(s.clone()),
            _ => Probability::Unknown,
        },
    }
}

/// The maps of a week object (see `week_maps`).
fn read_week(week: &Json) -> (r: Option<Vec<(String, Probability)>>)
    ensures
        match r {
            Some(maps) => week_maps(*week) == Some(week_view(maps)),
            None => week_maps(*week) is None,
        },
{
    let maps = match get(week, "maps") {
        Some(Json::Object(maps)) => maps,
        _ => return None,
    };
    let kind = match get(week, "type") {
        Some(Json::Text(kind)) => kind,
        _ => return None,
    };
    let random = same_text(kind.as_str(), "random");
    let mut out: Vec<(String, Probability)> = Vec::new();
    let mut i: usize = 0;
    while i < maps.len()
        invariant
            i <= maps@.len(),
            out@.len() == i,
            random == (kind@ == "random"@),
            field(*week, "maps"@) == Some(Json::Object(*maps)),
            text_of(field(*week, "type"@)) == Some(kind@),
            forall|j: int| 0 <= j < i ==> #[trigger] maps@[j].1 is Object,
            forall|j: int|
                0 <= j < i ==> (#[trigger] out@[j]).0@ == maps@[j].0@ && out@[j].1@
                    == map_probability(maps@[j].1, random),
        decreases maps@.len() - i,
    {
        let data = &maps[i].1;
        match data {
            Json::Object(_) => {},
            _ => {
                assert(!(maps@[i as int].1 is Object));
                return None;
            },
        }
        let probability = read_probability(data, random);
        out.push((maps[i].0.clone(), probability));
        i = i + 1;
    }
    assert(week_view(out) =~= Seq::new(
        maps@.len(),
        |j: int| (maps@[j].0@, map_probability(maps@[j].1, kind@ == "random"@)),
    ));
    Some(out)
}

impl Rotation {
    /// Reads the weeks of a rotation (see `rotation_weeks`); nothing when any of them does
    /// not read.
    pub fn from_json(weeks_json: &Json) -> (r: Option<Rotation>)
        ensures
            match r {
                Some(rotation) => rotation_weeks(*weeks_json) == Some(rotation@),
                None => rotation_weeks(*weeks_json) is None,
            },
    {
        let items = match weeks_json {
            Json::Array(items) => items,
            _ => return None,
        };
        let mut weeks: Vec<Vec<(String, Probability)>> = Vec::new();
        let mut i: usize = 0;
        while i < items.len()
            invariant
                i <= items@.len(),
                weeks@.len() == i,
                *weeks_json == Json::Array(*items),
                forall|j: int| 0 <= j < i ==> #[trigger] week_maps(items@[j]) == Some(
                    week_view(weeks@[j]),
                ),
            decreases items@.len() - i,
        {
            match read_week(&items[i]) {
                Some(week) => weeks.push(week),
                None => {
                    assert(week_maps(items@[i as int]) is None);
                    return None;
                },
            }
            i = i + 1;
        }
        let rotation = Rotation { weeks };
        assert(rotation@ =~= Seq::new(items@.len(), |j: int| week_maps(items@[j])->0));
        Some(rotation)
    }
}

/// The rotation of a region object: its `regionId` text and its `weeks`.
pub open spec fn region_rotation(entry: Json) -> Option<(Seq<char>, Seq<WeekView>)> {
    match (text_of(field(entry, "regionId"@)), field(entry, "weeks"@)) {
        (Some(id), Some(weeks)) => match rotation_weeks(weeks) {
            Some(rotation) => Some((id, rotation)),
            None => None,
        },
        _ => None,
    }
}

/// The rotations of all regions: an array of region objects, every one of which reads.
pub open spec fn region_rotations(data: Json) -> Option<Seq<(Seq<char>, Seq<WeekView>)>> {
    match data {
        Json::Array(items) => {
            if forall|i: int|
                0 <= i < items@.len() ==> #[trigger] region_rotation(items@[i]) is Some {
                Some(Seq::new(items@.len(), |i: int| region_rotation(items@[i])->0))
            } else {
                None
            }
        },
        _ => None,
    }
}

/// The text after the page's date mark `$D`, when the text starts with it.
pub open spec fn without_date_mark(text: Seq<char>) -> Option<Seq<char>> {
    if text.len() >= 2 && text[0] == '$' && text[1] == 'D' {
        Some(text.skip(2))
    } else {
        None
    }
}

/// The instant in the member `key` of a patch: a text of the date mark and an RFC 3339
/// date and time.
pub open spec fn patch_instant(patch: Json, key: Seq<char>) -> Option<Moment> {
    match text_of(field(patch, key)) {
        Some(text) => match without_date_mark(text) {
            Some(rest) => rfc3339_instant(rest),
            None => None,
        },
        None => None,
    }
}

/// The number, counted from Monday as 0, of the week day that the page numbers from Monday
/// as 1: the number taken to a byte (`as u8`) less one, wrapping below zero.
pub open spec fn change_day_number(page_number: u64) -> u8 {
    ((page_number as int % 256 + 255) % 256) as u8
}

/// The model of the rotation data of a patch.
pub struct RotationDataView {
    pub start: Moment,
    pub end: Moment,
    pub map_change_time: TimeOfDay,
    pub map_change_weekday: Weekday,
    pub data: Seq<(Seq<char>, Seq<WeekView>)>,
}

/// The rotation data of a patch object: `start` and `end` instants, the weekly change time
/// (`mapChangeTime`, hours and minutes) and day (`mapChangeWeekday`, Monday as 1), and the
/// rotations of the regions (`data`).
pub open spec fn patch_rotation(patch: Json) -> Option<RotationDataView> {
    match (
        patch_instant(patch, "start"@),
        patch_instant(patch, "end"@),
        text_of(field(patch, "mapChangeTime"@)),
        whole_of(field(patch, "mapChangeWeekday"@)),
        field(patch, "data"@),
    ) {
        (Some(start), Some(end), Some(time_text), Some(day), Some(data)) => match (
            naive_time_reading(time_text, "%H:%M"@),
            weekday_numbered(change_day_number(day)),
            region_rotations(data),
        ) {
            (Some(time), Some(weekday), Some(regions)) => Some(
                RotationDataView {
                    start,
                    end,
                    map_change_time: time,
                    map_change_weekday: weekday,
                    data: regions,
                },
            ),
            _ => None,
        },
        _ => None,
    }
}

/// The first patch among `patches` that reads and whose span (`start` to `end`, both
/// included) holds `now`.
pub open spec fn current_patch(patches: Seq<Json>, now: Moment) -> Option<RotationDataView>
    decreases patches.len(),
{
    if patches.len() == 0 {
        None
    } else {
        match patch_rotation(patches[0]) {
            Some(data) => {
                if !now.precedes(data.start) && !data.end.precedes(now) {
                    Some(data)
                } else {
                    current_patch(patches.drop_first(), now)
                }
            },
            None => current_patch(patches.drop_first(), now),
        }
    }
}

/// The current patch of a `patches` array (see `current_patch`).
pub open spec fn patches_rotation(patches: Json, now: Moment) -> Option<RotationDataView> {
    match patches {
        Json::Array(items) => current_patch(items@, now),
        _ => None,
    }
}

/// The rotations of the regions in a region array (see `region_rotations`).
pub open spec fn regions_view(data: Vec<(String, Rotation)>) -> Seq<(Seq<char>, Seq<WeekView>)> {
    data@.map_values(|entry: (String, Rotation)| (entry.0@, entry.1@))
}

/// The rotation data of the patch in play: when it runs, when its maps change each week, and
/// the rotation of each region.
#[derive(Debug)]
pub struct ActualRotationData {
    start: Moment,
    end: Moment,
    map_change_time: TimeOfDay,
    map_change_weekday: Weekday,
    data: Vec<(String, Rotation)>,
}

impl View for ActualRotationData {
    type V = RotationDataView;

    closed spec fn view(&self) -> RotationDataView {
        RotationDataView {
            start: self.start,
            end: self.end,
            map_change_time: self.map_change_time,
            map_change_weekday: self.map_change_weekday,
            data: regions_view(self.data),
        }
    }
}

impl ActualRotationData {
    /// The change time is a time of day.
    #[verifier::type_invariant]
    spec fn change_time_is_time_of_day(self) -> bool {
        self.map_change_time.wf()
    }

    /// Reads the rotations of all regions (see `region_rotations`).
    pub fn convert_inner_data(data: &Json) -> (r: Option<Vec<(String, Rotation)>>)
        ensures
            match r {
                Some(regions) => region_rotations(*data) == Some(regions_view(regions)),
                None => region_rotations(*data) is None,
            },
    {
        let items = match data {
            Json::Array(items) => items,
            _ => return None,
        };
        let mut out: Vec<(String, Rotation)> = Vec::new();
        let mut i: usize = 0;
        while i < items.len()
            invariant
                i <= items@.len(),
                out@.len() == i,
                *data == Json::Array(*items),
                forall|j: int|
                    0 <= j < i ==> #[trigger] region_rotation(items@[j]) == Some(
                        (out@[j].0@, out@[j].1@),
                    ),
            decreases items@.len() - i,
        {
            let entry = &items[i];
            let id = match get(entry, "regionId") {
                Some(Json::Text(id)) => id,
                _ => {
                    assert(region_rotation(items@[i as int]) is None);
                    return None;
                },
            };
            let weeks = match get(entry, "weeks") {
                Some(weeks) => weeks,
                None => {
                    assert(region_rotation(items@[i as int]) is None);
                    return None;
                },
            };
            match Rotation::from_json(weeks) {
                Some(rotation) => {
                    out.push((id.clone(), rotation));
                },
                None => {
                    assert(region_rotation(items@[i as int]) is None);
                    return None;
                },
            }
            i = i + 1;
        }
        assert(regions_view(out) =~= Seq::new(
            items@.len(),
            |j: int| region_rotation(items@[j])->0,
        ));
        Some(out)
    }

    /// Reads the rotation data of a patch object (see `patch_rotation`).
    pub fn from_patch_data(patch_data: &Json) -> (r: Option<Self>)
        ensures
            match r {
                Some(data) => patch_rotation(*patch_data) == Some(data@),
                None => patch_rotation(*patch_data) is None,
            },
    {
        let start = match read_patch_instant(patch_data, "start") {
            Some(m) => m,
            None => return None,
        };
        let end = match read_patch_instant(patch_data, "end") {
            Some(m) => m,
            None => return None,
        };
        let time_text = match get(patch_data, "mapChangeTime") {
            Some(Json::Text(s)) => s,
            _ => return None,
        };
        let day = match get(patch_data, "mapChangeWeekday") {
            Some(Json::Number(n)) => match n.whole {
                Some(w) => w,
                None => return None,
            },
            _ => return None,
        };
        let data_json = match get(patch_data, "data") {
            Some(d) => d,
            None => return None,
        };
        let time_chars = chars_of(time_text.as_str());
        let map_change_time = match parse_time(time_chars.as_slice(), "%H:%M") {
            Some(t) => t,
            None => return None,
        };
        let day_byte: u8 = day as u8;
        let day_number: u8 = day_byte.wrapping_sub(1);
        assert(day_number == change_day_number(day)) by (bit_vector)
            requires
                day_byte == day as u8,
                day_number == (if day_byte >= 1 { (day_byte - 1) as u8 } else { 255u8 }),
        ;
        let map_change_weekday = match weekday_from_number(day_number) {
            Some(w) => w,
            None => return None,
        };
        let data = match Self::convert_inner_data(data_json) {
            Some(d) => d,
            None => return None,
        };
        Some(ActualRotationData { start, end, map_change_time, map_change_weekday, data })
    }

    /// The rotation data of the first patch in `patches_data` that reads and is in play at
    /// `now` (see `patches_rotation`).
    pub fn from_json(patches_data: &Json, now: Moment) -> (r: Option<Self>)
        ensures
            match r {
                Some(data) => patches_rotation(*patches_data, now) == Some(data@),
                None => patches_rotation(*patches_data, now) is None,
            },
    {
        let items = match patches_data {
            Json::Array(items) => items,
            _ => return None,
        };
        let mut i: usize = 0;
        assert(items@.skip(0) =~= items@);
        while i < items.len()
            invariant
                i <= items@.len(),
                *patches_data == Json::Array(*items),
                current_patch(items@, now) == current_patch(items@.skip(i as int), now),
            decreases items@.len() - i,
        {
            assert(items@.skip(i as int).drop_first() =~= items@.skip(i + 1));
            assert(items@.skip(i as int)[0] == items@[i as int]);
            if let Some(data) = Self::from_patch_data(&items[i]) {
                if !now.is_before(&data.start) && !data.end.is_before(&now) {
                    return Some(data);
                }
            }
            i = i + 1;
        }
        None
    }
}

/// The instant in the member `key` of a patch (see `patch_instant`).
fn read_patch_instant(patch: &Json, key: &str) -> (r: Option<Moment>)
    ensures
        r == patch_instant(*patch, key@),
{
    let text = match get(patch, key) {
        Some(Json::Text(text)) => text,
        _ => return None,
    };
    let mut chars = chars_of(text.as_str());
    if chars.len() >= 2 && chars[0] == '$' && chars[1] == 'D' {
        let rest = chars.split_off(2);
        assert(rest@ =~= text@.skip(2));
        parse_rfc3339(rest.as_slice())
    } else {
        None
    }
}

/// The weeks of the first region named `region`.
pub open spec fn region_weeks(data: Seq<(Seq<char>, Seq<WeekView>)>, region: Seq<char>) -> Option<
    Seq<WeekView>,
>
    decreases data.len(),
{
    if data.len() == 0 {
        None
    } else if data[0].0 == region {
        Some(data[0].1)
    } else {
        region_weeks(data.drop_first(), region)
    }
}

/// The maps in play in `region` at `moment`: nothing outside the patch's span (from `start`,
/// up to but not including `end`) or for a region the data does not name; otherwise the week
/// of the region's rotation that `moment` falls in (see `week_number`), when the rotation
/// has that many weeks.
pub open spec fn rotation_for_moment(data: RotationDataView, region: Seq<char>, moment: Moment) -> Option<
    WeekView,
> {
    if moment.precedes(data.start) || !moment.precedes(data.end) {
        None
    } else {
        match region_weeks(data.data, region) {
            Some(weeks) => {
                let week: int = week_number(data.start, data.map_change_time, moment);
                if weeks.len() == 0 {
                    None
                } else if week < weeks.len() {
                    Some(weeks[week])
                } else {
                    None
                }
            },
            None => None,
        }
    }
}

impl ActualRotationData {
    /// The maps in play in `region` at `moment`, with their probabilities (see
    /// `rotation_for_moment`).
    pub fn into_rotation_for_moment(self, region: &str, moment: Moment) -> (r: Option<
        Vec<(String, Probability)>,
    >)
        ensures
            match r {
                Some(maps) => rotation_for_moment(self@, region@, moment) == Some(week_view(maps)),
                None => rotation_for_moment(self@, region@, moment) is None,
            },
    {
        proof {
            use_type_invariant(&self);
        }
        if moment.is_before(&self.start) || !moment.is_before(&self.end) {
            return None;
        }
        let week: u64 = week_of(&self.start, &self.map_change_time, &moment);
        let ActualRotationData { data, .. } = self;
        let mut data = data;
        let found = find_region(&data, region);
        match found {
            None => None,
            Some(i) => {
                let (_, rotation) = data.swap_remove(i);
                let mut weeks = rotation.weeks;
                if weeks.len() == 0 {
                    return None;
                }
                if week < weeks.len() as u64 {
                    let maps = weeks.swap_remove(week as usize);
                    assert(rotation@[week as int] == week_view(maps));
                    return Some(maps);
                }
                None
            },
        }
    }
}

/// Where the first region named `region` stands in `data`.
fn find_region(data: &Vec<(String, Rotation)>, region: &str) -> (r: Option<usize>)
    ensures
        match r {
            Some(i) => i < data@.len() && region_weeks(regions_view(*data), region@) == Some(
                data@[i as int].1@,
            ),
            None => region_weeks(regions_view(*data), region@) is None,
        },
{
    let mut i: usize = 0;
    assert(regions_view(*data).skip(0) =~= regions_view(*data));
    while i < data.len()
        invariant
            i <= data@.len(),
            region_weeks(regions_view(*data), region@) == region_weeks(
                regions_view(*data).skip(i as int),
                region@,
            ),
        decreases data@.len() - i,
    {
        assert(regions_view(*data).skip(i as int).drop_first() =~= regions_view(*data).skip(i + 1));
        assert(regions_view(*data).skip(i as int)[0] == (data@[i as int].0@, data@[i as int].1@));
        if same_text(data[i].0.as_str(), region) {
            return Some(i);
        }
        i = i + 1;
    }
    None
}

impl ActualRotationData {
    /// When the patch starts.
    pub fn start(&self) -> (r: Moment)
        ensures
            r == self@.start,
    {
        self.start
    }

    /// When the patch ends.
    pub fn end(&self) -> (r: Moment)
        ensures
            r == self@.end,
    {
        self.end
    }

    /// The time of day at which the maps change each week.
    pub fn map_change_time(&self) -> (r: TimeOfDay)
        ensures
            r == self@.map_change_time,
    {
        self.map_change_time
    }

    /// The day of the week on which the maps change.
    pub fn map_change_weekday(&self) -> (r: Weekday)
        ensures
            r == self@.map_change_weekday,
    {
        self.map_change_weekday
    }
}

/// A failure to get the rotation.
#[derive(Clone, Debug)]
pub enum GetRotationError {
    /// The page could not be fetched.
    RequestError(String),
    /// The page does not hold rotation data in the expected shape.
    ParseError(String),
    /// The rotation data says nothing for the region and the moment asked about.
    MissingInformation(String),
}

/// The model of a `GetRotationError`.
pub enum RotationErrorView {
    RequestError(Seq<char>),
    ParseError(Seq<char>),
    MissingInformation(Seq<char>),
}

impl View for GetRotationError {
    type V = RotationErrorView;

    open spec fn view(&self) -> RotationErrorView {
        match self {
            GetRotationError::RequestError(s) => RotationErrorView::RequestError(s@),
            GetRotationError::ParseError(s) => RotationErrorView::ParseError(s@),
            GetRotationError::MissingInformation(s) => RotationErrorView::MissingInformation(s@),
        }
    }
}

/// The model of an outcome of reading rotation data.
pub open spec fn outcome_view(r: Result<ActualRotationData, GetRotationError>) -> Result<
    RotationDataView,
    RotationErrorView,
> {
    match r {
        Ok(data) => Ok(data@),
        Err(e) => Err(e@),
    }
}

/// The rotation data in play at `now` in a page's JSON document: a document that is not an
/// object is missing its `patches`; one without a `patches` member, or with none in play,
/// has an unexpected format.
pub open spec fn actual_data_outcome(json: Json, now: Moment) -> Result<
    RotationDataView,
    RotationErrorView,
> {
    if !(json is Object) {
        Err(RotationErrorView::ParseError("Missing \"patches\" field"@))
    } else {
        match field(json, "patches"@) {
            Some(patches) => match patches_rotation(patches, now) {
                Some(data) => Ok(data),
                None => Err(RotationErrorView::ParseError("Unexpected json format!"@)),
            },
            None => Err(RotationErrorView::ParseError("Unexpected json format!"@)),
        }
    }
}

/// The rotation data in play at `now` in a page's JSON document (see `actual_data_outcome`).
pub fn extract_actual_data_from_json(json: &Json, now: Moment) -> (r: Result<
    ActualRotationData,
    GetRotationError,
>)
    ensures
        outcome_view(r) == actual_data_outcome(*json, now),
{
    match json {
        Json::Object(_) => {},
        _ => {
            return Err(
                GetRotationError::ParseError(String::from_str("Missing \"patches\" field")),
            );
        },
    }
    if let Some(patches_data) = get(json, "patches") {
        if let Some(data) = ActualRotationData::from_json(patches_data, now) {
            return Ok(data);
        }
    }
    Err(GetRotationError::ParseError(String::from_str("Unexpected json format!")))
}

} // verus!
