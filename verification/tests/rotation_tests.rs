use map_rotation::{parse_rotation, parse_rotation_at, GetRotationError, Moment, Probability};

#[test]
fn parse_empty_html_returns_parse_error() {
    let result = parse_rotation("");
    match result {
        Err(GetRotationError::ParseError(_)) => return,
        _ => panic!("Unexpected result"),
    };
}

#[test]
fn parse_ill_formed_script_returns_parse_error() {
    let result = parse_rotation("<script>random</script>");
    match result {
        Err(GetRotationError::ParseError(_)) => return,
        _ => panic!("Unexpected result"),
    };
}

#[test]
fn parse_script_without_json_returns_parse_error() {
    let result = parse_rotation(BAD_SCRIPT_WITHOUT_JSON);
    match result {
        Err(GetRotationError::ParseError(_)) => return,
        _ => panic!("Unexpected result"),
    };
}

// The stored page breaks off inside its rotation data (it ends in `…`). Here it is closed
// after the map it breaks off in, and read at an instant within its patch (42.1, in play
// from 2026-06-17 to 2026-07-15).
fn completed_good_script() -> String {
    let cut = GOOD_SCRIPT.find('…').unwrap();
    format!("{}{}", &GOOD_SCRIPT[..cut], r#",\"name\":\"Erangel\"}}}]}]}]}]\n"])</script>"#)
}

// 2026-06-20T00:00:00Z, within the first week of the stored patch.
const IN_FIRST_WEEK: Moment = Moment { secs: 1781913600, nanos: 0 };

#[test]
fn parse_good_script_simply_works() {
    let result = parse_rotation_at(&completed_good_script(), IN_FIRST_WEEK);
    match result {
        Ok(_) => return,
        Err(err) => panic!("Unexpected result {:?}", err),
    };
}

#[test]
fn good_script_gives_the_first_week_of_a_region() {
    let data = parse_rotation_at(&completed_good_script(), IN_FIRST_WEEK).unwrap();
    let week = data.into_rotation_for_moment("AS", IN_FIRST_WEEK).unwrap();
    let names: Vec<&str> = week.iter().map(|(name, _)| name.as_str()).collect();
    assert_eq!(names, vec!["Erangel", "Miramar", "Sanhok", "Taego", "Vikendi"]);
    assert!(week.iter().all(|(_, p)| matches!(p, Probability::Certain)));
}

// As stored, the page breaks off before its patches object closes, so no object is found
// in its script: the reading follows the extraction step here, which needs the closing brace.
#[test]
fn cut_short_page_has_unexpected_format() {
    match parse_rotation(GOOD_SCRIPT) {
        Err(GetRotationError::ParseError(message)) => {
            assert_eq!(message, "Script has unexpected format")
        },
        other => panic!("Unexpected result {:?}", other),
    };
}

const GOOD_SCRIPT: &str = r#"
        <script>self.__next_f.push([1,"3d:I[157818,[\"/_next/static/immutable/chunks/13w2kol3q8q75.js\",\"/_next/static/immutable/chunks/133cexa4k--1s.js\",\"/_next/static/immutable/chunks/3uopvtxpg9_2d.js\",\"/_next/static/immutable/chunks/0s3df1yqd79tq.js\",\"/_next/static/immutable/chunks/1bbeyde0wsux7.js\",\"/_next/static/immutable/chunks/2cu8g0lcmzbm2.js\",\"/_next/static/immutable/chunks/0svmo796nqlw0.js\",\"/_next/static/immutable/chunks/0j8uk5osl0qrc.js\",\"/_next/static/immutable/chunks/2a8ruq5uttyhn.js\",\"/_next/static/immutable/chunks/0g7en015azlk8.js\",\"/_next/static/immutable/chunks/3py135zmn6sik.js\"],\"PatchList\"]\n3e:I[991325,[\"/_next/static/immutable/chunks/13w2kol3q8q75.js\",\"/_next/static/immutable/chunks/133cexa4k--1s.js\",\"/_next/static/immutable/chunks/3uopvtxpg9_2d.js\",\"/_next/static/immutable/chunks/0s3df1yqd79tq.js\",\"/_next/static/immutable/chunks/1bbeyde0wsux7.js\",\"/_next/static/immutable/chunks/2cu8g0lcmzbm2.js\",\"/_next/static/immutable/chunks/0svmo796nqlw0.js\",\"/_next/static/immutable/chunks/0j8uk5osl0qrc.js\",\"/_next/static/immutable/chunks/2a8ruq5uttyhn.js\"],\"IconMark\"]\n34:[[\"$\",\"script\",null,{\"type\":\"application/ld+json\",\"dangerouslySetInnerHTML\":{\"__html\":\"{\\\"@context\\\":\\\"https://schema.org\\\",\\\"@type\\\":\\\"WebPage\\\",\\\"name\\\":\\\"PUBG Map Rotation — Patch 42.3\\\",\\\"description\\\":\\\"Current and upcoming map rotation schedule for PUBG patch 42.3, for both PC and console.\\\",\\\"url\\\":\\\"https://pubgstatistics.com/maprotation\\\",\\\"dateModified\\\":\\\"2026-08-12T00:00:00.000Z\\\"}\"}}],[\"$\",\"$L3d\",null,{\"patches\":[{\"patch\":\"42.1\",\"enabled\":true,\"start\":\"$D2026-06-17T00:00:00.000Z\",\"end\":\"$D2026-07-15T00:00:00.000Z\",\"consoleStart\":\"$D2026-06-25T01:00:00.000Z\",\"consoleEnd\":\"$D2026-07-23T01:00:00.000Z\",\"mapChangeWeekday\":3,\"mapChangeTime\":\"02:00\",\"consoleMapChangeWeekday\":4,\"consoleMapChangeTime\":\"07:00\",\"dataVersion\":2,\"data\":[{\"regionId\":\"AS\",\"forPc\":true,\"forConsole\":false,\"type\":\"selection\",\"weeks\":[{\"type\":\"basic\",\"maps\":{\"Taego\":{\"type\":\"basic\",\"selectable\":false,\"name\":\"Taego\"},\"Sanhok\":{\"type\":\"basic\",\"selectable\":false,\"name\":\"Sanhok\"},\"Erangel\":{\"type\":\"basic\",\"selectable\":false,\"name\":\"Erangel\"},\"Miramar\":{\"type\":\"basic\",\"selectable\":false,\"name\":\"Miramar\"},\"Vikendi\":{\"type\":\"basic\",\"selectable\":false,\"name\":\"Vikendi\"}}},{\"type\":\"basic\",\"maps\":{\"Taego\":{\"type\":\"basic\",\"selectable\":false,\"name\":\"Taego\"},\"Paramo\":{\"type\":\"basic\",\"selectable\":false,\"name\":\"Paramo\"},\"Erangel\":{\"type\":\"basic\",\"selectable\":false,\"name\":\"Erangel\"},\"Karakin\":{\"type\":\"basic\",\"selectable\":false,\"name\":\"Karakin\"},\"Miramar\":{\"type\":\"basic\",\"selectable\":false,\"name\":\"Miramar\"}}},{\"type\":\"basic\",\"maps\":{\"Rondo\":{\"type\":\"basic\",\"selectable\":false,\"name\":\"Rondo\"},\"Taego\":{\"type\":\"basic\",\"selectable\":false,\"name\":\"Taego\"},\"Sanhok\":{\"type\":\"basic\",\"selectable\":false,\"name\":\"Sanhok\"},\"Erangel\":{\"type\":\"basic\",\"selectable\":false,\"name\":\"Erangel\"},\"Karakin\":{\"type\":\"basic\",\"selectable\":false,\"name\":\"Karakin\"}}},{\"type\":\"basic\",\"maps\":{\"Taego\":{\"type\":\"basic\",\"selectable\":false,\"name\":\"Taego\"},\"Deston\":{\"type\":\"basic\",\"selectable\":false,\"name\":\"Deston\"},\"Sanhok\":{\"type\":\"basic\",\"selectable\":false,\"name\":\"Sanhok\"},\"Erangel\":{\"type\":\"basic\",\"selectable\":false,\"name\":\"Erangel\"},\"Miramar\":{\"type\":\"basic\",\"selectable\":false,\"name\":\"Miramar\"}}}]},{\"regionId\":\"SEA\",\"forPc\":true,\"forConsole\":false,\"type\":\"selection\",\"weeks\":[{\"type\":\"basic\",\"maps\":{\"Taego\":{\"type\":\"basic\",\"selectable\":false,\"name\":\"Taego\"},\"Sanhok\":{\"type\":\"basic\",\"selectable\":false,\"name\":\"Sanhok\"},\"Erangel\":{\"type\":\"basic\",\"selectable\":false,\"name\":\"Erangel\"},\"Miramar\":{\"type\":\"basic\",\"selectable\":false,\"name\":\"Miramar\"},\"Vikendi\":{\"type\":\"basic\",\"selectable\":false,\"name\":\"Vikendi\"}}},{\"type\":\"basic\",\"maps\":{\"Taego\":{\"type\":\"basic\",\"selectable\":false,\"name\":\"Taego\"},\"Paramo\":{\"type\":\"basic\",\"selectable\":false,\"name\":\"Paramo\"},\"Erangel\":{\"type\":\"basic\",\"selectable\":false,\"name\":\"Erangel\"},\"Karakin\":{\"type\":\"basic\",\"selectable\":false,\"name\":\"Karakin\"},\"Miramar\":{\"type\":\"basic\",\"selectable\":false,\"name\":\"Miramar\"}}},{\"type\":\"basic\",\"maps\":{\"Rondo\":{\"type\":\"basic\",\"selectable\":false,\"name\":\"Rondo\"},\"Taego\":{\"type\":\"basic\",\"selectable\":false,\"name\":\"Taego\"},\"Sanhok\":{\"type\":\"basic\",\"selectable\":false,\"name\":\"Sanhok\"},\"Erangel\":{\"type\":\"basic\",\"selectable\":false,\"name\":\"Erangel\"},\"Karakin\":{\"type\":\"basic\",\"selectable\":false,\"name\":\"Karakin\"}}},{\"type\":\"basic\",\"maps\":{\"Taego\":{\"type\":\"basic\",\"selectable\":false,\"name\":\"Taego\"},\"Deston\":{\"type\":\"basic\",\"selectable\":false,\"name\":\"Deston\"},\"Sanhok\":{\"type\":\"basic\",\"selectable\":false,\"name\":\"Sanhok\"},\"Erangel\":{\"type\":\"basic\",\"selectable\":false,\"name\":\"Erangel\"},\"Miramar\":{\"type\":\"basic\",\"selectable\":false,\"name\":\"Miramar\"}}}]},{\"regionId\":\"KAKAO\",\"forPc\":true,\"forConsole\":false,\"type\":\"selection\",\"weeks\":[{\"type\":\"basic\",\"maps\":{\"Taego\":{\"type\":\"basic\",\"selectable\":false,\"name\":\"Taego\"},\"Paramo\":{\"type\":\"basic\",\"selectable\":false,\"name\":\"Paramo\"},\"Sanhok\":{\"type\":\"basic\",\"selectable\":false,\"name\":\"Sanhok\"},\"Erangel\":{\"type\":\"basic\",\"selectable\":false,\"name\":\"Erangel\"},\"Vikendi\":{\"type\":\"basic\",\"selectable\":false,\"name\":\"Vikendi\"}}},{\"type\":\"basic\",\"maps\":{\"Taego\":{\"type\":\"basic\",\"selectable\":false,\"name\":\"Taego\"},\"Sanhok\":{\"type\":\"basic\",\"selectable\":false,\"name\":\"Sanhok\"},\"Erangel\":{\"type\":\"basic\",\"selectable\":false,\"name\":\"Erangel\"},\"Karakin\":{\"type\":\"basic\",\"selectable\":false,\"name\":\"Karakin\"},\"Miramar\":{\"type\":\"basic\",\"selectable\":false,\"name\":\"Miramar\"}}},{\"type\":\"basic\",\"maps\":{\"Rondo\":{\"type\":\"basic\",\"selectable\":false,\"name\":\"Rondo\"},\"Taego\":{\"type\":\"basic\",\"selectable\":false,\"name\":\"Taego\"},\"Paramo\":{\"type\":\"basic\",\"selectable\":false,\"name\":\"Paramo\"},\"Sanhok\":{\"type\":\"basic\",\"selectable\":false,\"name\":\"Sanhok\"},\"Erangel\":{\"type\":\"basic\",\"selectable\":false,\"name\":\"Erangel\"}}},{\"type\":\"basic\",\"maps\":{\"Taego\":{\"type\":\"basic\",\"selectable\":false,\"name\":\"Taego\"},\"Deston\":{\"type\":\"basic\",\"selectable\":false,\"name\":\"Deston\"},\"Sanhok\":{\"type\":\"basic\",\"selectable\":false,\"name\":\"Sanhok\"},\"Erangel\":{\"type\":\"basic\",\"selectable\":false,\"name\":\"Erangel\"},\"Karakin\":{\"type\":\"basic\",\"selectable\":false,\"name\":\"Karakin\"}}}]},{\"regionId\":\"Ranked\",\"forPc\":true,\"forConsole\":true,\"type\":\"ranked\",\"weeks\":[{\"type\":\"random\",\"maps\":{\"Rondo\":{\"type\":\"random\",\"selectable\":false,\"name\":\"Rondo\",\"probability\":25,\"weight\":2},\"Taego\":{\"type\":\"random\",\"selectable\":false,\"name\":\"Taego\",\"probability\":25,\"weight\":2},\"Erangel\":{\"type\":\"random\",\"selectable\":false,\"name\":\"Erangel\",\"probability\":25,\"weight\":2},\"Miramar\":{\"type\":\"random\",\"selectable\":false,\"name\":\"Miramar\",\"probability\":25,\"weight\":2}}}]},{\"regionId\":\"NA\",\"forPc\":true,\"forConsole\":true,\"type\":\"selection\",\"weeks\":[{\"type\":\"basic\",\"maps\":{\"Rondo\":{\"type\":\"basic\",\"selectable\":false,\"name\":\"Rondo\"},\"Taego\":{\"type\":\"basic\",\"selectable\":false,\"name\":\"Taego\"},\"Erangel\":{\"type\":\"basic\",\"selectable\":false,\"name\":\"Erangel\"},\"Karakin\":{\"type\":\"basic\",\"selectable\":false,\"name\":\"Karakin\"},\"Vikendi\":{\"type\":\"basic\",\"selectable\":false,\"name\":\"Vikendi\"}}},{\"type\":\"basic\",\"maps\":{\"Taego\":{\"type\":\"basic\",\"selectable\":false,\"name\":\"Taego\"},\"Deston\":{\"type\":\"basic\",\"selectable\":false,\"name\":\"Deston\"},\"Erangel\":{\"type\":\"basic\",\"selectable\":false,\"name\":\"Erangel\"},\"Miramar\":{\"type\":\"basic\",\"selectable\":false,\"name\":\"Miramar\"},\"Vikendi\":{\"type\":\"basic\",\"selectable\":false,\"name\":\"Vikendi\"}}},{\"type\":\"basic\",\"maps\":{\"Rondo\":{\"type\":\"basic\",\"selectable\":false,\"name\":\"Rondo\"},\"Taego\":{\"type\":\"basic\",\"selectable\":false,\"name\":\"Taego\"},\"Paramo\":{\"type\":\"basic\",\"selectable\":false,\"name\":\"Paramo\"},\"Erangel\":{\"type\":\"basic\",\"selectable\":false,\"name\":\"Erangel\"},\"Miramar\":{\"type\":\"basic\",\"selectable\":false,\"name\":\"Miramar\"}}},{\"type\":\"basic\",\"maps\":{\"Rondo\":{\"type\":\"basic\",\"selectable\":false,\"name\":\"Rondo\"},\"Taego\":{\"type\":\"basic\",\"selectable\":false,\"name\":\"Taego\"},\"Sanhok\":{\"type\":\"basic\",\"selectable\":false,\"name\":\"Sanhok\"},\"Erangel\":{\"type\":\"basic\",\"selectable\":false,\"name\":\"Erangel\"},\"Vikendi\":{\"type\":\"basic\",\"selectable\":false,\"name\":\"Vikendi\"}}}]},{\"regionId\":\"SA\",\"forPc\":true,\"forConsole\":true,\"type\":\"selection\",\"weeks\":[{\"type\":\"basic\",\"maps\":{\"Rondo\":{\"type\":\"basic\",\"selectable\":false,\"name\":\"Rondo\"},\"Taego\":{\"type\":\"basic\",\"selectable\":false,\"name\":\"Taego\"},\"Sanhok\":{\"type\":\"basic\",\"selectable\":false,\"name\":\"Sanhok\"},\"Erangel\":{\"type\":\"basic\",\"selectable\":false,\"name\":\"Erangel\"},\"Vikendi\":{\"type\":\"basic\",\"selectable\":false,\"name\":\"Vikendi\"}}},{\"type\":\"basic\",\"maps\":{\"Taego\":{\"type\":\"basic\",\"selectable\":false,\"name\":\"Taego\"},\"Deston\":{\"type\":\"basic\",\"selectable\":false,\"name\":\"Deston\"},\"Erangel\":{\"type\":\"basic\",\"selectable\":false…</script>
    "#;

const BAD_SCRIPT_WITHOUT_JSON: &str = r#"
        <script>self.__next_f.push([1])</script>
    "#;
