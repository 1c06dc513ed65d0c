//! The knobs of a demo host, as text from its environment.
use vstd::prelude::*;
use vstd::string::*;
use crate::platform::{PhysicalSize, Platform};
use crate::paths::lemma_parts_join;
use crate::profile::text_of;
use crate::surface::CefSurfaceConfig;
use crate::text::{
    chars_of, cut_all, cut_once, find, i32_value, lemma_cut, lemma_find, parse_i32, parse_unsigned,
    split, split_once, string_of, trim, trim_start, trimmed, trimmed_start, unsigned_value, views,
    CharClass,
};

verus! {

/// A page that is one colour and never stands still, for checking pixels.
pub const PIXEL_FIXTURE_URL: &'static str = "data:text/html;base64,PHN0eWxlPmh0bWwsYm9keXttYXJnaW46MDt3aWR0aDoxMDAlO2hlaWdodDoxMDAlO2JhY2tncm91bmQ6IzFlOTBmZn1pe3Bvc2l0aW9uOmZpeGVkO3dpZHRoOjFweDtoZWlnaHQ6MXB4fTwvc3R5bGU+PGk+PC9pPjxzY3JpcHQ+bGV0IG49MDtzZXRJbnRlcnZhbCgoKT0+ZG9jdW1lbnQucXVlcnlTZWxlY3RvcignaScpLnN0eWxlLmJhY2tncm91bmQ9bisrJTI/JyMwMDAnOicjZmZmJywxNik8L3NjcmlwdD4=";

/// The page to start with: the fixture where pixels are checked, else the given
/// one, else a plain page.
pub fn initial_url(fixture: bool, url: Option<String>) -> (page: String)
    ensures
        match url {
            _ if fixture => page@ == PIXEL_FIXTURE_URL@,
            Some(url) => page == url,
            None => page@ == "https://example.com"@,
        },
{
    if fixture {
        return PIXEL_FIXTURE_URL.to_owned();
    }
    match url {
        Some(url) => url,
        None => "https://example.com".to_owned(),
    }
}

/// The number that trimmed text writes.
pub open spec fn trimmed_i32(text: Seq<char>) -> Option<int> {
    i32_value(trim(text, CharClass::WhiteSpace))
}

/// The number that `chars` write, white space around it aside.
fn read_i32(chars: &Vec<char>) -> (value: Option<i32>)
    ensures
        match value {
            Some(v) => trimmed_i32(chars@) == Some(v as int),
            None => trimmed_i32(chars@) is None,
        },
{
    parse_i32(&trimmed(chars, CharClass::WhiteSpace))
}

/// A whole number, white space around it aside.
pub fn parse_integer(text: &str) -> (value: Option<i32>)
    ensures
        match value {
            Some(v) => trimmed_i32(text@) == Some(v as int),
            None => trimmed_i32(text@) is None,
        },
{
    read_i32(&chars_of(text))
}

/// A point written as two numbers with a comma between them.
pub open spec fn point_value(text: Seq<char>) -> Option<(int, int)> {
    match split_once(text, ',') {
        Some((x, y)) => match (trimmed_i32(x), trimmed_i32(y)) {
            (Some(x), Some(y)) => Some((x, y)),
            _ => None,
        },
        None => None,
    }
}

/// A point written as two numbers with a comma between them.
pub fn parse_point(text: &str) -> (point: Option<(i32, i32)>)
    ensures
        match point {
            Some((x, y)) => point_value(text@) == Some((x as int, y as int)),
            None => point_value(text@) is None,
        },
{
    match cut_once(&chars_of(text), ',') {
        Some((x, y)) => match (read_i32(&x), read_i32(&y)) {
            (Some(x), Some(y)) => Some((x, y)),
            _ => None,
        },
        None => None,
    }
}

/// The two ends of a drag written as four numbers with commas between them.
/// Anything after the fourth does not count.
pub open spec fn drag_value(text: Seq<char>) -> Option<(int, int, int, int)> {
    let parts = split(text, ',');
    if parts.len() < 4 {
        None
    } else {
        match (
            trimmed_i32(parts[0]),
            trimmed_i32(parts[1]),
            trimmed_i32(parts[2]),
            trimmed_i32(parts[3]),
        ) {
            (Some(a), Some(b), Some(c), Some(d)) => Some((a, b, c, d)),
            _ => None,
        }
    }
}

/// The two ends of a drag written as four numbers with commas between them.
pub fn parse_drag(text: &str) -> (drag: Option<(i32, i32, i32, i32)>)
    ensures
        match drag {
            Some((a, b, c, d)) => drag_value(text@) == Some(
                (a as int, b as int, c as int, d as int),
            ),
            None => drag_value(text@) is None,
        },
{
    let parts: Vec<Vec<char>> = cut_all(&chars_of(text), ',');
    assert(split(text@, ',').len() == parts.len());
    if parts.len() < 4 {
        return None;
    }
    assert(split(text@, ',')[0] == parts@[0]@);
    assert(split(text@, ',')[1] == parts@[1]@);
    assert(split(text@, ',')[2] == parts@[2]@);
    assert(split(text@, ',')[3] == parts@[3]@);
    match (read_i32(&parts[0]), read_i32(&parts[1]), read_i32(&parts[2]), read_i32(&parts[3])) {
        (Some(a), Some(b), Some(c), Some(d)) => Some((a, b, c, d)),
        _ => None,
    }
}

/// A count, written without white space.
pub fn parse_count(text: &str) -> (count: Option<u32>)
    ensures
        match count {
            Some(n) => unsigned_value(text@, 10, u32::MAX as int) == Some(n as int),
            None => unsigned_value(text@, 10, u32::MAX as int) is None,
        },
{
    match parse_unsigned(&chars_of(text), 10, 0xffff_ffff) {
        Some(n) => Some(n as u32),
        None => None,
    }
}

/// A number of seconds, written without white space.
pub fn parse_seconds(text: &str) -> (seconds: Option<u64>)
    ensures
        match seconds {
            Some(n) => unsigned_value(text@, 10, u64::MAX as int) == Some(n as int),
            None => unsigned_value(text@, 10, u64::MAX as int) is None,
        },
{
    parse_unsigned(&chars_of(text), 10, u64::MAX)
}

/// A number of seconds, white space around it aside.
pub fn parse_trimmed_seconds(text: &str) -> (seconds: Option<u64>)
    ensures
        match seconds {
            Some(n) => unsigned_value(trim(text@, CharClass::WhiteSpace), 10, u64::MAX as int)
                == Some(n as int),
            None => unsigned_value(trim(text@, CharClass::WhiteSpace), 10, u64::MAX as int) is None,
        },
{
    parse_unsigned(&trimmed(&chars_of(text), CharClass::WhiteSpace), 10, u64::MAX)
}

/// The first character of a text.
pub fn first_char(text: &str) -> (first: Option<char>)
    ensures
        first == (if text@.len() > 0 {
            Some(text@[0])
        } else {
            None
        }),
{
    let chars: Vec<char> = chars_of(text);
    if chars.len() > 0 {
        Some(chars[0])
    } else {
        None
    }
}

/// The user and the password of `user:password`. Without a colon it is all user.
pub open spec fn credentials(text: Seq<char>) -> (Seq<char>, Seq<char>) {
    match split_once(text, ':') {
        Some((user, password)) => (user, password),
        None => (text, Seq::empty()),
    }
}

/// The user and the password of `user:password`. Without a colon it is all user.
pub fn parse_credentials(text: &str) -> (pair: (String, String))
    ensures
        (pair.0@, pair.1@) == credentials(text@),
{
    match cut_once(&chars_of(text), ':') {
        Some((user, password)) => (string_of(&user), string_of(&password)),
        None => (text.to_owned(), String::new()),
    }
}

// ── Switches ──────────────────────────────────────────────────────────────────

/// One command-line switch: a name, with or without a value.
pub open spec fn switch_of(text: Seq<char>) -> (Seq<char>, Option<Seq<char>>) {
    match split_once(text, '=') {
        Some((name, value)) => (name, Some(value)),
        None => (text, None),
    }
}

/// The switches in a list with commas between them, without the empty ones.
pub open spec fn switches(pieces: Seq<Seq<char>>) -> Seq<(Seq<char>, Option<Seq<char>>)>
    decreases pieces.len(),
{
    if pieces.len() == 0 {
        Seq::empty()
    } else if pieces.last().len() == 0 {
        switches(pieces.drop_last())
    } else {
        switches(pieces.drop_last()).push(switch_of(pieces.last()))
    }
}

/// What a list of switches says.
pub open spec fn switches_view(list: Seq<(String, Option<String>)>) -> Seq<
    (Seq<char>, Option<Seq<char>>),
> {
    list.map_values(
        |entry: (String, Option<String>)|
            (
                entry.0@,
                match entry.1 {
                    Some(value) => Some(value@),
                    None => None,
                },
            ),
    )
}

/// Command-line switches, written as `name` or `name=value` with commas between
/// them.
pub fn parse_switches(text: &str) -> (list: Vec<(String, Option<String>)>)
    ensures
        switches_view(list@) == switches(split(text@, ',')),
{
    let parts: Vec<Vec<char>> = cut_all(&chars_of(text), ',');
    let ghost pieces = split(text@, ',');
    let mut list: Vec<(String, Option<String>)> = Vec::new();
    let mut i: usize = 0;
    assert(switches_view(list@) =~= switches(pieces.take(0)));
    while i < parts.len()
        invariant
            i <= parts.len(),
            pieces == views(parts@),
            switches_view(list@) == switches(pieces.take(i as int)),
        decreases parts.len() - i,
    {
        let part: &Vec<char> = &parts[i];
        let ghost before = list@;
        proof {
            assert(pieces[i as int] == part@);
            assert(pieces.take(i + 1).drop_last() =~= pieces.take(i as int));
            assert(pieces.take(i + 1).last() == part@);
        }
        if part.len() > 0 {
            let entry: (String, Option<String>) = match cut_once(part, '=') {
                Some((name, value)) => (string_of(&name), Some(string_of(&value))),
                None => (string_of(part), None),
            };
            let ghost said = switch_of(part@);
            list.push(entry);
            assert(switches_view(list@) =~= switches_view(before).push(said));
        }
        i += 1;
    }
    assert(pieces.take(i as int) =~= pieces);
    list
}

// ── Background ────────────────────────────────────────────────────────────────

/// Whether a text is `transparent`, in letters of either case.
pub open spec fn says_transparent(text: Seq<char>) -> bool {
    text.len() == 11 && forall|i: int|
        0 <= i < 11 ==> (#[trigger] text[i]) == "transparent"@[i] || text[i] == "TRANSPARENT"@[i]
}

/// Whether a text is `transparent`, in letters of either case.
fn is_transparent(chars: &Vec<char>) -> (found: bool)
    ensures
        found == says_transparent(chars@),
{
    proof {
        reveal_strlit("transparent");
        reveal_strlit("TRANSPARENT");
    }
    if chars.len() != 11 {
        return false;
    }
    let lower: Vec<char> = chars_of("transparent");
    let upper: Vec<char> = chars_of("TRANSPARENT");
    let mut i: usize = 0;
    while i < 11
        invariant
            i <= 11,
            chars@.len() == 11,
            lower@ == "transparent"@,
            upper@ == "TRANSPARENT"@,
            lower@.len() == 11,
            upper@.len() == 11,
            forall|k: int|
                0 <= k < i ==> (#[trigger] chars@[k]) == "transparent"@[k] || chars@[k]
                    == "TRANSPARENT"@[k],
        decreases 11 - i,
    {
        if chars[i] != lower[i] && chars[i] != upper[i] {
            assert(!(chars@[i as int] == "transparent"@[i as int] || chars@[i as int]
                == "TRANSPARENT"@[i as int]));
            return false;
        }
        i += 1;
    }
    true
}

/// The red, green and blue of a colour number.
pub open spec fn rgb_of(n: int) -> Seq<u8> {
    seq![(n / 0x1_0000 % 0x100) as u8, (n / 0x100 % 0x100) as u8, (n % 0x100) as u8]
}

/// Whether `background` is what a text asks for: nothing painted for
/// `transparent`, the colour of `rrggbb` with or without a number sign, and white
/// for anything else and for no text at all.
pub open spec fn is_background(text: Option<Seq<char>>, background: Option<[u8; 3]>) -> bool {
    match text {
        Some(text) => if says_transparent(text) {
            background is None
        } else {
            match unsigned_value(trim_start(text, CharClass::Hash), 16, u32::MAX as int) {
                Some(n) => background matches Some(rgb) && rgb@ == rgb_of(n),
                None => background matches Some(rgb) && rgb@ == seq![255u8, 255u8, 255u8],
            }
        },
        None => background matches Some(rgb) && rgb@ == seq![255u8, 255u8, 255u8],
    }
}

/// The background that a text asks for.
pub fn env_background(text: Option<&str>) -> (background: Option<[u8; 3]>)
    ensures
        is_background(
            match text {
                Some(text) => Some(text@),
                None => None,
            },
            background,
        ),
{
    let white: [u8; 3] = [255, 255, 255];
    assert(white@ =~= seq![255u8, 255u8, 255u8]);
    match text {
        None => Some(white),
        Some(text) => {
            let chars: Vec<char> = chars_of(text);
            if is_transparent(&chars) {
                return None;
            }
            match parse_unsigned(&trimmed_start(&chars, CharClass::Hash), 16, 0xffff_ffff) {
                Some(n) => {
                    let rgb: [u8; 3] = [
                        (n / 0x1_0000 % 0x100) as u8,
                        (n / 0x100 % 0x100) as u8,
                        (n % 0x100) as u8,
                    ];
                    assert(rgb@ =~= rgb_of(n as int));
                    Some(rgb)
                },
                None => Some(white),
            }
        },
    }
}

// ── Configurations ────────────────────────────────────────────────────────────

/// What the environment says of a surface.
#[derive(Debug)]
pub struct SurfaceVars {
    pub background: Option<String>,
    pub download_dir: Option<String>,
    pub profile: Option<String>,
    /// Use the DevTools protocol.
    pub protocol: bool,
    /// Answer auth challenges.
    pub auth: bool,
    /// Answer permission requests.
    pub permissions: bool,
}

/// How many popups end a scripted run on macOS: as many as asked for, else one.
pub fn popup_limit(text: Option<&str>, scripted: bool) -> (limit: Option<u32>)
    ensures
        limit == match text {
            Some(text) if unsigned_value(text@, 10, u32::MAX as int) is Some => Some(
                unsigned_value(text@, 10, u32::MAX as int)->0 as u32,
            ),
            _ => if scripted {
                Some(1u32)
            } else {
                None
            },
        },
{
    let asked: Option<u32> = match text {
        Some(text) => parse_count(text),
        None => None,
    };
    match asked {
        Some(count) => Some(count),
        None => if scripted {
            Some(1)
        } else {
            None
        },
    }
}

/// After how many seconds a run ends, if ever. `unattended` says that the run
/// ends by its frames or is scripted. On macOS such a run has a limit even where
/// none is said, and so has one that says something else.
pub fn time_limit(text: Option<&str>, unattended: bool, platform: Platform) -> (limit: Option<u64>)
    ensures
        limit == match text {
            Some(text) if unsigned_value(text@, 10, u64::MAX as int) is Some => Some(
                unsigned_value(text@, 10, u64::MAX as int)->0 as u64,
            ),
            _ => if platform == Platform::Macos && (unattended || text is Some) {
                Some(60u64)
            } else {
                None
            },
        },
{
    let asked: Option<u64> = match text {
        Some(text) => parse_seconds(text),
        None => None,
    };
    match asked {
        Some(seconds) => Some(seconds),
        None => if platform == Platform::Macos && (unattended || text.is_some()) {
            Some(60)
        } else {
            None
        },
    }
}

/// The configuration of a demo's surface. What the environment does not say is
/// off.
pub fn surface_config(url: String, size: PhysicalSize, vars: SurfaceVars) -> (config:
    CefSurfaceConfig)
    ensures
        config.initial_url == url,
        config.initial_size == size,
        is_background(text_of(vars.background), config.background_color),
        config.prefer_accelerated,
        config.user_data_dir == vars.profile,
        config.devtools_protocol == vars.protocol,
        config.handle_permission_requests == vars.permissions,
        config.handle_auth_challenges == vars.auth,
        config.download_dir == vars.download_dir,
{
    let background_color: Option<[u8; 3]> = match &vars.background {
        Some(text) => env_background(Some(text.as_str())),
        None => env_background(None),
    };
    CefSurfaceConfig {
        initial_url: url,
        initial_size: size,
        background_color,
        prefer_accelerated: true,
        user_data_dir: vars.profile,
        devtools_protocol: vars.protocol,
        handle_permission_requests: vars.permissions,
        handle_auth_challenges: vars.auth,
        download_dir: vars.download_dir,
    }
}

/// The switches of a demo on `platform`: those that let an unattended run get
/// past its first start, then those of the environment.
pub fn demo_switches(platform: Platform, list: Option<&str>) -> (all: Vec<
    (String, Option<String>),
>)
    ensures
        switches_view(all@) == own_switches(platform) + match list {
            Some(list) => switches(split(list@, ',')),
            None => Seq::empty(),
        },
{
    let mut all: Vec<(String, Option<String>)> = Vec::new();
    match platform {
        Platform::Linux => {
            // A fresh profile blocks on Chromium's first-run questions before
            // there is a window.
            all.push(("no-first-run".to_owned(), None));
            all.push(("no-default-browser-check".to_owned(), None));
        },
        Platform::Macos => {
            // Chromium's storage would ask for the login password.
            all.push(("use-mock-keychain".to_owned(), None));
        },
        _ => {},
    }
    assert(switches_view(all@) =~= own_switches(platform));
    match list {
        Some(list) => {
            let ghost own = all@;
            let mut more: Vec<(String, Option<String>)> = parse_switches(list);
            let ghost said = more@;
            all.append(&mut more);
            assert(switches_view(all@) =~= switches_view(own) + switches_view(said));
        },
        None => {
            assert(own_switches(platform) + Seq::empty() =~= own_switches(platform));
        },
    }
    all
}

/// The switches that a demo on `platform` always has.
pub open spec fn own_switches(platform: Platform) -> Seq<(Seq<char>, Option<Seq<char>>)> {
    match platform {
        Platform::Linux => seq![("no-first-run"@, None), ("no-default-browser-check"@, None)],
        Platform::Macos => seq![("use-mock-keychain"@, None)],
        _ => Seq::empty(),
    }
}

/// The first page is the fixture where one is wanted, else the page that was asked
/// for, else a page that is always there.
pub proof fn law_the_first_page_is_the_one_asked_for(
    fixture: bool,
    url: Option<String>,
    page: String,
)
    requires
        call_ensures(initial_url, (fixture, url), page),
    ensures
        fixture ==> page@ == PIXEL_FIXTURE_URL@,
        !fixture ==> (url matches Some(url) ==> page == url),
        !fixture && url is None ==> page@ == "https://example.com"@,
{
}

/// Everything up to the first colon is the user, and everything behind it the
/// password, further colons with it. Without a colon all of it is the user.
pub proof fn law_credentials_part_at_the_first_colon(text: &str, pair: (String, String))
    requires
        call_ensures(parse_credentials, (text,), pair),
    ensures
        text@.contains(':') ==> text@ == pair.0@ + seq![':'] + pair.1@ && !pair.0@.contains(':'),
        !text@.contains(':') ==> pair.0@ == text@ && pair.1@.len() == 0,
{
    lemma_find(text@, ':');
    let n = find(text@, ':') as int;
    if n < text@.len() {
        assert(text@ =~= text@.take(n) + seq![':'] + text@.skip(n + 1));
    }
}

/// A point is two numbers with a comma between them, in that order, each with or
/// without space round it.
pub proof fn law_a_point_is_two_numbers(
    x: Seq<char>,
    y: Seq<char>,
    text: &str,
    point: Option<(i32, i32)>,
)
    requires
        call_ensures(parse_point, (text,), point),
        !x.contains(','),
        text@ == x + seq![','] + y,
    ensures
        point is Some <==> i32_value(trim(x, CharClass::WhiteSpace)) is Some && i32_value(
            trim(y, CharClass::WhiteSpace),
        ) is Some,
        point matches Some((px, py)) ==> i32_value(trim(x, CharClass::WhiteSpace)) == Some(
            px as int,
        ) && i32_value(trim(y, CharClass::WhiteSpace)) == Some(py as int),
{
    lemma_cut(x, y, ',');
}

/// A drag is four numbers with a comma between each two, in that order.
pub proof fn law_a_drag_is_four_numbers(
    a: Seq<char>,
    b: Seq<char>,
    c: Seq<char>,
    d: Seq<char>,
    text: &str,
    drag: Option<(i32, i32, i32, i32)>,
)
    requires
        call_ensures(parse_drag, (text,), drag),
        !a.contains(','),
        !b.contains(','),
        !c.contains(','),
        !d.contains(','),
        text@ == a + seq![','] + (b + seq![','] + (c + seq![','] + d)),
    ensures
        drag matches Some((fx, fy, tx, ty)) ==> {
            &&& i32_value(trim(a, CharClass::WhiteSpace)) == Some(fx as int)
            &&& i32_value(trim(b, CharClass::WhiteSpace)) == Some(fy as int)
            &&& i32_value(trim(c, CharClass::WhiteSpace)) == Some(tx as int)
            &&& i32_value(trim(d, CharClass::WhiteSpace)) == Some(ty as int)
        },
        drag is None ==> i32_value(trim(a, CharClass::WhiteSpace)) is None || i32_value(
            trim(b, CharClass::WhiteSpace),
        ) is None || i32_value(trim(c, CharClass::WhiteSpace)) is None || i32_value(
            trim(d, CharClass::WhiteSpace),
        ) is None,
{
    let tail = c + seq![','] + d;
    lemma_split_head(a, b + seq![','] + tail, ',');
    lemma_split_head(b, tail, ',');
    lemma_split_head(c, d, ',');
    lemma_find(d, ',');
    assert(split(d, ',') == seq![d]);
    let parts = split(text@, ',');
    assert(parts[0] == a && parts[1] == b && parts[2] == c && parts[3] == d);
}

proof fn lemma_split_head(head: Seq<char>, tail: Seq<char>, c: char)
    requires
        !head.contains(c),
    ensures
        split(head + seq![c] + tail, c) == seq![head] + split(tail, c),
{
    lemma_cut(head, tail, c);
}

/// Each piece of a list is a switch, in order, but for the empty ones: its name is
/// what comes before the first equals sign and its value what comes behind it, and
/// without one it is a name alone.
pub proof fn law_switches_are_names_with_values(
    before: Seq<Seq<char>>,
    name: Seq<char>,
    value: Seq<char>,
)
    requires
        !name.contains('='),
    ensures
        switches(Seq::empty()).len() == 0,
        switches(before.push(Seq::empty())) == switches(before),
        switches(before.push(name + seq!['='] + value)) == switches(before).push(
            (name, Some(value)),
        ),
        name.len() > 0 ==> switches(before.push(name)) == switches(before).push((name, None)),
{
    let empty = Seq::<char>::empty();
    let full = name + seq!['='] + value;
    lemma_cut(name, value, '=');
    lemma_find(name, '=');
    assert(before.push(empty).drop_last() =~= before);
    assert(before.push(full).drop_last() =~= before);
    assert(before.push(name).drop_last() =~= before);
    if find(name, '=') < name.len() {
        assert(name.contains('='));
    }
}

/// A list of switches names them in the order in which they stand.
pub proof fn law_switches_keep_their_order(text: &str, list: Vec<(String, Option<String>)>)
    requires
        call_ensures(parse_switches, (text,), list),
        text@.len() > 0,
        !text@.contains(','),
        !text@.contains('='),
    ensures
        list@.len() == 1,
        list@[0].0@ == text@,
        list@[0].1 is None,
{
    lemma_find(text@, ',');
    lemma_find(text@, '=');
    assert(split(text@, ',') =~= seq![text@]);
    law_switches_are_names_with_values(Seq::empty(), text@, Seq::empty());
    assert(Seq::<Seq<char>>::empty().push(text@) =~= seq![text@]);
    let view = switches_view(list@);
    assert(view.len() == 1);
    assert(view[0] == (text@, None::<Seq<char>>));
    assert(view[0].0 == list@[0].0@);
}

/// A background is its red, green and blue in that order, each a byte of the number
/// that was written. One that says so is transparent, and what cannot be read is
/// white.
pub proof fn law_a_background_is_red_green_blue(text: Option<&str>, background: Option<[u8; 3]>)
    requires
        call_ensures(env_background, (text,), background),
    ensures
        text is None ==> background is Some && background->0@ == seq![255u8, 255u8, 255u8],
        text matches Some(text) ==> (background is None <==> says_transparent(text@)),
        text matches Some(text) ==> (background matches Some(rgb)
            ==> match unsigned_value(trim_start(text@, CharClass::Hash), 16, u32::MAX as int) {
            Some(n) => rgb@.len() == 3 && 0x1_0000 * rgb@[0] + 0x100 * rgb@[1] + rgb@[2] == n
                % 0x100_0000,
            None => rgb@ == seq![255u8, 255u8, 255u8],
        }),
{
    if let Some(text) = text {
        if let Some(n) = unsigned_value(trim_start(text@, CharClass::Hash), 16, u32::MAX as int) {
            lemma_three_bytes(n);
        }
    }
}

proof fn lemma_three_bytes(n: int)
    ensures
        rgb_of(n).len() == 3,
        0x1_0000 * rgb_of(n)[0] + 0x100 * rgb_of(n)[1] + rgb_of(n)[2] == n % 0x100_0000,
{
    let a = n / 0x100;
    let b = a / 0x100;
    assert(n / 0x1_0000 == b);
    assert(n == 0x100 * (0x100 * (0x100 * (b / 0x100) + b % 0x100) + a % 0x100) + n % 0x100);
}

/// "Transparent" is transparent in either case, letter by letter.
pub proof fn law_transparent_is_a_word(text: Seq<char>)
    ensures
        says_transparent(text) <==> text.len() == 11 && forall|i: int|
            0 <= i < 11 ==> (#[trigger] text[i]) as int == "transparent"@[i] as int
                || text[i] as int == "transparent"@[i] as int - 32,
{
    reveal_strlit("transparent");
    reveal_strlit("TRANSPARENT");
    assert forall|i: int| 0 <= i < 11 implies #[trigger] "TRANSPARENT"@[i] as int
        == "transparent"@[i] as int - 32 by {
        assert(i == 0 || i == 1 || i == 2 || i == 3 || i == 4 || i == 5 || i == 6 || i == 7 || i
            == 8 || i == 9 || i == 10);
    }
    if text.len() == 11 {
        assert forall|i: int| 0 <= i < 11 implies (((#[trigger] text[i]) == "transparent"@[i]
            || text[i] == "TRANSPARENT"@[i]) <==> (text[i] as int == "transparent"@[i] as int
            || text[i] as int == "transparent"@[i] as int - 32)) by {
            assert("TRANSPARENT"@[i] as int == "transparent"@[i] as int - 32);
        }
    }
}

/// A scripted run waits for one popup unless it is told how many; any other run
/// waits for none.
pub proof fn law_a_scripted_run_waits_for_a_popup(
    text: Option<&str>,
    scripted: bool,
    limit: Option<u32>,
)
    requires
        call_ensures(popup_limit, (text, scripted), limit),
    ensures
        text is None ==> limit == (if scripted { Some(1u32) } else { None }),
        text matches Some(text) ==> (unsigned_value(text@, 10, u32::MAX as int) matches Some(n)
            ==> limit == Some(n as u32)),
        text matches Some(text) ==> (unsigned_value(text@, 10, u32::MAX as int) is None ==> limit
            == (if scripted { Some(1u32) } else { None })),
{
}

/// An unattended run on macOS ends after a minute unless it is told otherwise, and
/// any other run only where it is told to.
pub proof fn law_an_unattended_run_ends(
    text: Option<&str>,
    unattended: bool,
    platform: Platform,
    limit: Option<u64>,
)
    requires
        call_ensures(time_limit, (text, unattended, platform), limit),
    ensures
        text matches Some(text) ==> (unsigned_value(text@, 10, u64::MAX as int) matches Some(n)
            ==> limit == Some(n as u64)),
        text is None ==> limit == (if platform == Platform::Macos && unattended {
            Some(60u64)
        } else {
            None
        }),
        text matches Some(text) ==> (unsigned_value(text@, 10, u64::MAX as int) is None ==> limit
            == (if platform == Platform::Macos { Some(60u64) } else { None })),
{
}

proof fn lemma_switches_join(left: Seq<Seq<char>>, right: Seq<Seq<char>>)
    ensures
        switches(left + right) == switches(left) + switches(right),
    decreases right.len(),
{
    if right.len() == 0 {
        assert(left + right =~= left);
        assert(switches(left) + switches(right) =~= switches(left));
    } else {
        lemma_switches_join(left, right.drop_last());
        assert((left + right).drop_last() =~= left + right.drop_last());
        assert(switches(left + right) =~= switches(left) + switches(right));
    }
}

/// A list of switches is the switches before a comma and then those behind it, and a
/// demo starts with its own in front.
pub proof fn law_lists_of_switches_join(
    head: &str,
    tail: &str,
    text: &str,
    platform: Platform,
    first: Vec<(String, Option<String>)>,
    second: Vec<(String, Option<String>)>,
    all: Vec<(String, Option<String>)>,
    own: Vec<(String, Option<String>)>,
    demo: Vec<(String, Option<String>)>,
)
    requires
        text@ == head@ + seq![','] + tail@,
        call_ensures(parse_switches, (head,), first),
        call_ensures(parse_switches, (tail,), second),
        call_ensures(parse_switches, (text,), all),
        call_ensures(demo_switches, (platform, None), own),
        call_ensures(demo_switches, (platform, Some(text)), demo),
    ensures
        switches_view(all@) == switches_view(first@) + switches_view(second@),
        switches_view(demo@) == switches_view(own@) + switches_view(all@),
{
    lemma_parts_join(head@, tail@, ',');
    lemma_switches_join(split(head@, ','), split(tail@, ','));
    assert(own_switches(platform) + Seq::<(Seq<char>, Option<Seq<char>>)>::empty()
        =~= own_switches(platform));
}

/// A surface is made as its variables say, one for one.
pub proof fn law_a_surface_is_made_as_asked(
    url: String,
    size: PhysicalSize,
    vars: SurfaceVars,
    config: CefSurfaceConfig,
    colour: &str,
    background: Option<[u8; 3]>,
)
    requires
        call_ensures(surface_config, (url, size, vars), config),
        vars.background is Some ==> vars.background->0@ == colour@,
        call_ensures(env_background, (Some(colour),), background),
    ensures
        vars.background is Some ==> (config.background_color is None <==> background is None),
        vars.background is Some && background is Some ==> config.background_color->0@
            == background->0@,
        vars.background is None ==> config.background_color is Some
            && config.background_color->0@ == seq![255u8, 255u8, 255u8],
        config.initial_url == url,
        config.initial_size == size,
        config.prefer_accelerated,
        config.user_data_dir == vars.profile,
        config.download_dir == vars.download_dir,
        config.devtools_protocol <==> vars.protocol,
        config.handle_permission_requests <==> vars.permissions,
        config.handle_auth_challenges <==> vars.auth,
{
}

/// A number is read without the white space round it; one that stands for a count or
/// for seconds may have none.
pub proof fn law_numbers_are_read_trimmed(
    text: &str,
    value: Option<i32>,
    count: Option<u32>,
    seconds: Option<u64>,
    trimmed: Option<u64>,
    first: Option<char>,
)
    requires
        call_ensures(parse_integer, (text,), value),
        call_ensures(parse_count, (text,), count),
        call_ensures(parse_seconds, (text,), seconds),
        call_ensures(parse_trimmed_seconds, (text,), trimmed),
        call_ensures(first_char, (text,), first),
    ensures
        value is Some <==> i32_value(trim(text@, CharClass::WhiteSpace)) is Some,
        value matches Some(value) ==> i32_value(trim(text@, CharClass::WhiteSpace)) == Some(
            value as int,
        ),
        count is Some <==> unsigned_value(text@, 10, 0xffff_ffff) is Some,
        count matches Some(count) ==> unsigned_value(text@, 10, 0xffff_ffff) == Some(count as int),
        seconds matches Some(seconds) ==> unsigned_value(text@, 10, u64::MAX as int) == Some(
            seconds as int,
        ),
        seconds is None ==> unsigned_value(text@, 10, u64::MAX as int) is None,
        trimmed matches Some(trimmed) ==> unsigned_value(
            trim(text@, CharClass::WhiteSpace),
            10,
            u64::MAX as int,
        ) == Some(trimmed as int),
        first is Some <==> text@.len() > 0,
        first matches Some(first) ==> first == text@[0],
{
}

/// Linux does not greet or ask for the default browser, macOS does not ask for the
/// keychain, and every platform has what the host adds behind that.
pub proof fn law_demos_start_quietly(
    platform: Platform,
    all: Vec<(String, Option<String>)>,
)
    requires
        call_ensures(demo_switches, (platform, None), all),
    ensures
        platform == Platform::Linux ==> all@.len() == 2 && all@[0].0@ == "no-first-run"@
            && all@[1].0@ == "no-default-browser-check"@,
        platform == Platform::Macos ==> all@.len() == 1 && all@[0].0@ == "use-mock-keychain"@,
        platform == Platform::Windows ==> all@.len() == 0,
        forall|i: int| 0 <= i < all@.len() ==> (#[trigger] all@[i]).1 is None,
{
    let view = switches_view(all@);
    assert(view.len() == all@.len());
    assert forall|i: int| 0 <= i < all@.len() implies (#[trigger] all@[i]).1 is None by {
        assert(view[i].1 is None);
    }
    if all@.len() > 0 {
        assert(view[0].0 == all@[0].0@);
    }
    if all@.len() > 1 {
        assert(view[1].0 == all@[1].0@);
    }
}

} // verus!
