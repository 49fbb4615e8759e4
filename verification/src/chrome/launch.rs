//! How a managed browser is launched, and what its addresses are.

use crate::text::{
    after_last, after_prefix, ascii_lower, before_any, byte_len, chars_of, clipped, concat2,
    cut_after_last, cut_before, decimal, decimal_text, drop_trailing, find_chars, find_from,
    first_of, lemma_find_from, lemma_first_of, lower, occurs_at, opt_view, position_of, same,
    strip_prefix, text_of, truncate, utf8_len, views, without_trailing,
};
use vstd::prelude::*;
use vstd::string::*;

verus! {

/// The launch configurations of a managed browser. Each is a fixed set of
/// arguments.
#[derive(Debug, Clone, Copy, PartialEq, Eq, Structural)]
pub enum LaunchMode {
    /// A visible window, with no rendering workarounds.
    HeadedDefault,
    /// A visible window, rendered in software.
    HeadedSoftware,
    /// No window, rendered in software.
    HeadlessSoftware,
    /// No window, with the GPU inside the browser process.
    HeadlessInProcessGpu,
}

impl LaunchMode {
    /// The stable label of the mode.
    pub open spec fn label_view(self) -> Seq<char> {
        match self {
            LaunchMode::HeadedDefault => "headed-default"@,
            LaunchMode::HeadedSoftware => "headed-software"@,
            LaunchMode::HeadlessSoftware => "headless-software"@,
            LaunchMode::HeadlessInProcessGpu => "headless-in-process-gpu"@,
        }
    }

    /// Does the mode open a visible window?
    pub open spec fn is_headed(self) -> bool {
        self == LaunchMode::HeadedDefault || self == LaunchMode::HeadedSoftware
    }

    /// The rendering arguments of the mode.
    pub open spec fn flags_view(self) -> Seq<Seq<char>> {
        match self {
            LaunchMode::HeadedDefault => seq![],
            LaunchMode::HeadedSoftware => seq![
                "--disable-gpu"@,
                "--disable-gpu-compositing"@,
                "--disable-gpu-rasterization"@,
                "--use-angle=swiftshader"@,
                "--disable-gpu-program-cache"@,
                "--disable-gpu-shader-disk-cache"@,
            ],
            LaunchMode::HeadlessSoftware => seq![
                "--disable-gpu"@,
                "--disable-gpu-compositing"@,
                "--use-angle=swiftshader"@,
                "--disable-gpu-program-cache"@,
                "--disable-gpu-shader-disk-cache"@,
            ],
            LaunchMode::HeadlessInProcessGpu => seq![
                "--in-process-gpu"@,
                "--disable-gpu-program-cache"@,
                "--disable-gpu-shader-disk-cache"@,
            ],
        }
    }

    /// The stable label of the mode.
    pub fn label(self) -> (r: &'static str)
        ensures
            r@ == self.label_view(),
    {
        match self {
            LaunchMode::HeadedDefault => "headed-default",
            LaunchMode::HeadedSoftware => "headed-software",
            LaunchMode::HeadlessSoftware => "headless-software",
            LaunchMode::HeadlessInProcessGpu => "headless-in-process-gpu",
        }
    }

    /// Whether a window is expected: `headed` or `headless`.
    pub fn window_mode(self) -> (r: &'static str)
        ensures
            r@ == (if self.is_headed() {
                "headed"@
            } else {
                "headless"@
            }),
    {
        match self {
            LaunchMode::HeadedDefault | LaunchMode::HeadedSoftware => "headed",
            LaunchMode::HeadlessSoftware | LaunchMode::HeadlessInProcessGpu => "headless",
        }
    }

    /// The rendering arguments of the mode.
    pub fn rendering_flags(self) -> (r: Vec<String>)
        ensures
            views(r@) == self.flags_view(),
    {
        let mut v: Vec<String> = Vec::new();
        match self {
            LaunchMode::HeadedDefault => {},
            LaunchMode::HeadedSoftware => {
                v.push("--disable-gpu".to_owned());
                v.push("--disable-gpu-compositing".to_owned());
                v.push("--disable-gpu-rasterization".to_owned());
                v.push("--use-angle=swiftshader".to_owned());
                v.push("--disable-gpu-program-cache".to_owned());
                v.push("--disable-gpu-shader-disk-cache".to_owned());
            },
            LaunchMode::HeadlessSoftware => {
                v.push("--disable-gpu".to_owned());
                v.push("--disable-gpu-compositing".to_owned());
                v.push("--use-angle=swiftshader".to_owned());
                v.push("--disable-gpu-program-cache".to_owned());
                v.push("--disable-gpu-shader-disk-cache".to_owned());
            },
            LaunchMode::HeadlessInProcessGpu => {
                v.push("--in-process-gpu".to_owned());
                v.push("--disable-gpu-program-cache".to_owned());
                v.push("--disable-gpu-shader-disk-cache".to_owned());
            },
        }
        assert(views(v@) == self.flags_view());
        v
    }
}

/// The arguments that every launch begins with.
pub open spec fn base_args(profile: Seq<char>, port: u16) -> Seq<Seq<char>> {
    seq![
        "--remote-debugging-port="@ + decimal(port as nat),
        "--user-data-dir="@ + profile,
        "--remote-allow-origins=*"@,
        "--no-first-run"@,
        "--no-default-browser-check"@,
        "--disable-background-networking"@,
        "--disable-component-update"@,
        "--disable-sync"@,
        "--no-pings"@,
        "--mute-audio"@,
    ]
}

/// The argument that decides whether there is a window.
pub open spec fn window_arg(headless: bool) -> Seq<char> {
    if headless {
        "--headless=new"@
    } else {
        "--window-size=1280,900"@
    }
}

/// The page to open, as an argument, where there is one.
pub open spec fn url_args(url: Option<Seq<char>>) -> Seq<Seq<char>> {
    match url {
        Some(u) => seq![u],
        None => seq![],
    }
}

/// All the arguments of a launch.
pub open spec fn chrome_args(
    profile: Seq<char>,
    port: u16,
    url: Option<Seq<char>>,
    headless: bool,
    mode: LaunchMode,
) -> Seq<Seq<char>> {
    base_args(profile, port) + seq![window_arg(headless)] + mode.flags_view() + url_args(url)
}

/// The fixed arguments of a managed launch. A caller chooses neither the
/// flags nor the executable.
pub fn build_chrome_args(
    profile: &str,
    port: u16,
    url: Option<String>,
    headless: bool,
    mode: LaunchMode,
) -> (r: Vec<String>)
    ensures
        views(r@) == chrome_args(profile@, port, opt_view(url), headless, mode),
{
    let mut args: Vec<String> = Vec::new();
    args.push(concat2("--remote-debugging-port=", &decimal_text(port as u64)));
    args.push(concat2("--user-data-dir=", profile));
    args.push("--remote-allow-origins=*".to_owned());
    args.push("--no-first-run".to_owned());
    args.push("--no-default-browser-check".to_owned());
    args.push("--disable-background-networking".to_owned());
    args.push("--disable-component-update".to_owned());
    args.push("--disable-sync".to_owned());
    args.push("--no-pings".to_owned());
    args.push("--mute-audio".to_owned());
    assert(views(args@) == base_args(profile@, port));
    let ghost base = views(args@);
    if headless {
        args.push("--headless=new".to_owned());
    } else {
        args.push("--window-size=1280,900".to_owned());
    }
    assert(views(args@) == base + seq![window_arg(headless)]);
    let ghost windowed = views(args@);
    let flags = mode.rendering_flags();
    let mut i: usize = 0;
    while i < flags.len()
        invariant
            i <= flags@.len(),
            views(args@) == windowed + views(flags@).take(i as int),
        decreases flags@.len() - i,
    {
        let ghost before = views(args@);
        args.push(flags[i].clone());
        assert(views(args@) == before.push(flags@[i as int]@));
        assert(views(flags@).take(i + 1) == views(flags@).take(i as int).push(flags@[i as int]@));
        i = i + 1;
    }
    assert(views(flags@).take(flags@.len() as int) == views(flags@));
    let ghost flagged = views(args@);
    match url {
        Some(u) => {
            args.push(u);
            assert(views(args@) == flagged + seq![u@]);
        },
        None => {
            assert(flagged + Seq::<Seq<char>>::empty() == flagged);
        },
    }
    args
}

/// The arguments before the page to open.
pub open spec fn fixed_args(
    profile: Seq<char>,
    port: u16,
    headless: bool,
    mode: LaunchMode,
) -> Seq<Seq<char>> {
    chrome_args(profile, port, None, headless, mode)
}

/// The page to open is the only argument that a caller brings in: it comes
/// last, and what comes before it does not depend on it.
pub proof fn law_only_the_url_varies(
    profile: Seq<char>,
    port: u16,
    url: Seq<char>,
    headless: bool,
    mode: LaunchMode,
)
    ensures
        chrome_args(profile, port, Some(url), headless, mode) == fixed_args(
            profile,
            port,
            headless,
            mode,
        ).push(url),
{
    assert(chrome_args(profile, port, Some(url), headless, mode) =~= fixed_args(
        profile,
        port,
        headless,
        mode,
    ).push(url));
}

proof fn lemma_not_headless(a: Seq<char>, k: int)
    requires
        0 <= k < 10,
        k < a.len() ==> a[k] != "--headless"@[k],
    ensures
        !"--headless"@.is_prefix_of(a),
{
    reveal_strlit("--headless");
    if "--headless"@.is_prefix_of(a) {
        assert(a.subrange(0, 10)[k] == a[k]);
    }
}

/// A headed launch never carries a `--headless` argument, whatever its mode,
/// and always asks for a sized window; a headless launch always carries it.
pub proof fn law_window_contract(profile: Seq<char>, port: u16, mode: LaunchMode, i: int)
    requires
        0 <= i < fixed_args(profile, port, false, mode).len(),
    ensures
        !"--headless"@.is_prefix_of(fixed_args(profile, port, false, mode)[i]),
        fixed_args(profile, port, false, mode).contains("--window-size=1280,900"@),
        fixed_args(profile, port, true, mode).contains("--headless=new"@),
{
    let headed = fixed_args(profile, port, false, mode);
    let headless = fixed_args(profile, port, true, mode);
    assert(headed[10] == "--window-size=1280,900"@);
    assert(headless[10] == "--headless=new"@);
    reveal_strlit("--headless");
    if i < 11 {
        reveal_strlit("--remote-debugging-port=");
        reveal_strlit("--user-data-dir=");
        reveal_strlit("--remote-allow-origins=*");
        reveal_strlit("--no-first-run");
        reveal_strlit("--no-default-browser-check");
        reveal_strlit("--disable-background-networking");
        reveal_strlit("--disable-component-update");
        reveal_strlit("--disable-sync");
        reveal_strlit("--no-pings");
        reveal_strlit("--mute-audio");
        reveal_strlit("--window-size=1280,900");
        if i < 10 {
            assert(headed[i] == base_args(profile, port)[i]);
        }
        assert(headed[i][2] != 'h');
        lemma_not_headless(headed[i], 2);
    } else {
        reveal_strlit("--disable-gpu");
        reveal_strlit("--disable-gpu-compositing");
        reveal_strlit("--disable-gpu-rasterization");
        reveal_strlit("--use-angle=swiftshader");
        reveal_strlit("--disable-gpu-program-cache");
        reveal_strlit("--disable-gpu-shader-disk-cache");
        reveal_strlit("--in-process-gpu");
        assert(headed[i] == mode.flags_view()[i - 11]);
        assert(headed[i][2] != 'h');
        lemma_not_headless(headed[i], 2);
    }
}

/// The arguments that would weaken the browser's own protection.
pub open spec fn forbidden_args() -> Seq<Seq<char>> {
    seq!["--no-sandbox"@, "--disable-web-security"@, "--remote-debugging-address"@]
}

/// No launch weakens the browser's protection: none of its arguments begins
/// with a forbidden one, in any mode.
pub proof fn law_no_forbidden_args(
    profile: Seq<char>,
    port: u16,
    headless: bool,
    mode: LaunchMode,
    i: int,
    f: int,
)
    requires
        0 <= i < fixed_args(profile, port, headless, mode).len(),
        0 <= f < 3,
    ensures
        !forbidden_args()[f].is_prefix_of(fixed_args(profile, port, headless, mode)[i]),
{
    let args = fixed_args(profile, port, headless, mode);
    let a = args[i];
    let bad = forbidden_args()[f];
    reveal_strlit("--no-sandbox");
    reveal_strlit("--disable-web-security");
    reveal_strlit("--remote-debugging-address");
    reveal_strlit("--remote-debugging-port=");
    reveal_strlit("--user-data-dir=");
    reveal_strlit("--remote-allow-origins=*");
    reveal_strlit("--no-first-run");
    reveal_strlit("--no-default-browser-check");
    reveal_strlit("--disable-background-networking");
    reveal_strlit("--disable-component-update");
    reveal_strlit("--disable-sync");
    reveal_strlit("--no-pings");
    reveal_strlit("--mute-audio");
    reveal_strlit("--window-size=1280,900");
    reveal_strlit("--headless=new");
    reveal_strlit("--disable-gpu");
    reveal_strlit("--disable-gpu-compositing");
    reveal_strlit("--disable-gpu-rasterization");
    reveal_strlit("--use-angle=swiftshader");
    reveal_strlit("--disable-gpu-program-cache");
    reveal_strlit("--disable-gpu-shader-disk-cache");
    reveal_strlit("--in-process-gpu");
    if bad.is_prefix_of(a) {
        assert forall|k: int| 0 <= k < bad.len() implies a[k] == bad[k] by {
            assert(a.subrange(0, bad.len() as int)[k] == bad[k]);
        }
        if i < 10 {
            assert(a == base_args(profile, port)[i]);
        } else if i > 10 {
            assert(a == mode.flags_view()[i - 11]);
        }
        assert(a[2] == bad[2] && a[5] == bad[5] && a[10] == bad[10] && a[11] == bad[11]);
        if f == 2 {
            assert(a[19] == bad[19] && a[20] == bad[20]);
        }
    }
}

/// The authority at the start of what follows `://`: up to the next `/`, `?`
/// or `#`.
pub open spec fn authority_of(rest: Seq<char>) -> Seq<char> {
    before_any(rest, seq!['/', '?', '#'])
}

/// The host of an authority: what follows its last `@`, without a port. An
/// address in brackets is taken whole, with them; where anything but a port
/// follows the bracket, no part of it is the host.
pub open spec fn authority_host(authority: Seq<char>) -> Seq<char> {
    let place = after_last(authority, '@');
    if place.len() > 0 && place[0] == '[' {
        let end = first_of(place, seq![']'], 0);
        if end + 1 < place.len() && place[end + 1] == ':' {
            place.take(end + 1)
        } else {
            place
        }
    } else {
        before_any(place, seq![':'])
    }
}

/// The host at the start of what follows `://`.
fn host_at_start(rest: &str) -> (r: String)
    ensures
        r@ == authority_host(authority_of(rest@)),
{
    let stops: Vec<char> = vec!['/', '?', '#'];
    assert(stops@ == seq!['/', '?', '#']);
    let place = cut_after_last(&cut_before(rest, &stops), '@');
    let v = chars_of(&place);
    if v.len() > 0 && v[0] == '[' {
        let close: Vec<char> = vec![']'];
        assert(close@ == seq![']']);
        let end = position_of(&v, &close, 0);
        if end < v.len() - 1 && v[end + 1] == ':' {
            let r = text_of(&v, 0, end + 1);
            assert(r@ == place@.take(end + 1));
            r
        } else {
            place
        }
    } else {
        let colon: Vec<char> = vec![':'];
        assert(colon@ == seq![':']);
        cut_before(&place, &colon)
    }
}

/// The host of a URL, in lower case: that of the authority behind `://`.
pub open spec fn host_of(url: Seq<char>) -> Option<Seq<char>> {
    match find_from(url, "://"@, 0) {
        None => None,
        Some(at) => {
            let host = authority_host(authority_of(url.skip(at + 3)));
            if host.len() == 0 {
                None
            } else {
                Some(ascii_lower(host))
            }
        },
    }
}

/// The host of a URL, in lower case.
pub fn url_host(u: &str) -> (r: Option<String>)
    ensures
        opt_view(r) == host_of(u@),
{
    let v = chars_of(u);
    let mark = chars_of("://");
    let total: usize = v.len();
    proof {
        reveal_strlit("://");
        lemma_find_from(u@, "://"@, 0);
    }
    match find_chars(&v, &mark, 0) {
        None => None,
        Some(at) => {
            assert(at + 3 <= total);
            let rest = text_of(&v, at + 3, v.len());
            assert(rest@ == u@.skip(at + 3));
            let host = host_at_start(&rest);
            if host.as_str().is_empty() {
                None
            } else {
                Some(lower(&host))
            }
        },
    }
}

/// A host with the loopback name written as its address.
pub open spec fn plain_host(h: Seq<char>) -> Seq<char> {
    if h == "localhost"@ {
        "127.0.0.1"@
    } else {
        h
    }
}

/// Are two hosts the same, with `localhost` taken for `127.0.0.1`?
pub fn hosts_match(a: &str, b: &str) -> (r: bool)
    ensures
        r == (plain_host(a@) == plain_host(b@)),
{
    let na = if same(a, "localhost") {
        "127.0.0.1"
    } else {
        a
    };
    let nb = if same(b, "localhost") {
        "127.0.0.1"
    } else {
        b
    };
    same(na, nb)
}

/// The number of bytes that `n` base64 digits stand for.
pub open spec fn base64_bytes(n: int) -> int {
    n / 4 * 3 + (if n % 4 == 2 {
        1int
    } else if n % 4 == 3 {
        2
    } else {
        0
    })
}

/// The number of bytes that a base64 text stands for.
pub fn base64_decoded_len(b64: &str) -> (r: usize)
    ensures
        r == base64_bytes(utf8_len(without_trailing(b64@, '=')) as int),
{
    let clean = drop_trailing(b64, '=');
    let n: usize = byte_len(&clean);
    let extra: usize = if n % 4 == 2 {
        1
    } else if n % 4 == 3 {
        2
    } else {
        0
    };
    n / 4 * 3 + extra
}

/// A page address for display: without query and fragment, bounded.
pub open spec fn shown_url(url: Seq<char>) -> Seq<char> {
    clipped(before_any(url, seq!['?', '#']), 200)
}

/// A page address for display: without query and fragment, bounded.
pub fn display_url(url: &str) -> (r: String)
    ensures
        r@ == shown_url(url@),
{
    let stops: Vec<char> = vec!['?', '#'];
    assert(stops@ == seq!['?', '#']);
    truncate(&cut_before(url, &stops), 200)
}

/// An address as recorded from network traffic: without query and fragment,
/// bounded.
pub open spec fn clean_url(url: Seq<char>) -> Seq<char> {
    clipped(before_any(url, seq!['?', '#']), 120)
}

/// An address as recorded from network traffic: without query and fragment,
/// bounded.
pub fn sanitize_url(url: &str) -> (r: String)
    ensures
        r@ == clean_url(url@),
{
    let stops: Vec<char> = vec!['?', '#'];
    assert(stops@ == seq!['?', '#']);
    truncate(&cut_before(url, &stops), 120)
}

/// A displayed or recorded address has neither query nor fragment, and is a
/// prefix of the address: all of it up to the query, the fragment or the bound.
pub proof fn law_shown_urls_are_bare(url: Seq<char>, c: char)
    requires
        c == '?' || c == '#',
    ensures
        !shown_url(url).contains(c),
        !clean_url(url).contains(c),
        shown_url(url).is_prefix_of(url),
        clean_url(url).is_prefix_of(url),
        shown_url(url).len() <= 200,
        clean_url(url).len() <= 120,
        shown_url(url).len() == 200 || shown_url(url) == url || url[shown_url(url).len() as int]
            == '?' || url[shown_url(url).len() as int] == '#',
        clean_url(url).len() == 120 || clean_url(url) == url || url[clean_url(url).len() as int]
            == '?' || url[clean_url(url).len() as int] == '#',
{
    let stops = seq!['?', '#'];
    lemma_first_of(url, stops, 0);
    assert(stops.contains('?') && stops.contains('#')) by {
        assert(stops[0] == '?' && stops[1] == '#');
    }
    assert forall|k: int| 0 <= k < before_any(url, stops).len() implies before_any(url, stops)[k]
        != c by {
        assert(!stops.contains(url[k]));
    }
}

/// The host of a `ws://` address.
pub open spec fn ws_host(url: Seq<char>) -> Option<Seq<char>> {
    match after_prefix(url, "ws://"@) {
        None => None,
        Some(rest) => Some(authority_host(authority_of(rest))),
    }
}

/// The hosts that name this machine.
pub open spec fn loopback_host(host: Seq<char>) -> bool {
    ascii_lower(host) == ascii_lower("localhost"@) || host == "127.0.0.1"@ || host == "[::1]"@
        || host == "::1"@
}

/// Does the address name this machine over `ws://`?
pub open spec fn ws_loopback(url: Seq<char>) -> bool {
    match ws_host(url) {
        None => false,
        Some(host) => loopback_host(host),
    }
}

/// Does the address name this machine over `ws://`? Nothing else is dialed.
pub fn ws_is_loopback(ws_url: &str) -> (r: bool)
    ensures
        r == ws_loopback(ws_url@),
{
    match strip_prefix(ws_url, "ws://") {
        None => false,
        Some(rest) => {
            let host = host_at_start(&rest);
            crate::text::same_ignoring_case(&host, "localhost") || same(&host, "127.0.0.1") || same(
                &host,
                "[::1]",
            ) || same(&host, "::1")
        },
    }
}

/// The user part of an address never stands for its host: whatever comes before
/// an `@`, the address names this machine exactly where what follows does.
pub proof fn law_user_part_names_no_host(user: Seq<char>, place: Seq<char>)
    requires
        !place.contains('@'),
    ensures
        authority_host(user.push('@') + place) == authority_host(place),
{
    lemma_after_last(user.push('@'), place);
    lemma_after_last(Seq::empty(), place);
    assert(after_last(user.push('@'), '@') == Seq::<char>::empty());
    assert(Seq::<char>::empty() + place =~= place);
}

/// What has no `@` stays whole behind a front.
proof fn lemma_after_last(front: Seq<char>, place: Seq<char>)
    requires
        !place.contains('@'),
    ensures
        after_last(front + place, '@') == after_last(front, '@') + place,
    decreases place.len(),
{
    if place.len() == 0 {
        assert(front + place =~= front);
        assert(after_last(front, '@') + place =~= after_last(front, '@'));
    } else {
        let rest = place.drop_last();
        assert forall|k: int| 0 <= k < rest.len() implies rest[k] != '@' by {
            assert(place.contains(place[k]));
        }
        lemma_after_last(front, rest);
        assert((front + place).drop_last() =~= front + rest);
        assert(place.contains(place.last()));
        assert((after_last(front, '@') + rest).push(place.last()) =~= after_last(front, '@') + place);
    }
}

/// Two hosts match exactly where they are the same, or one is `localhost` and the
/// other its address.
pub proof fn law_hosts_match_by_name(a: &str, b: &str, r: bool)
    requires
        call_ensures(hosts_match, (a, b), r),
    ensures
        r <==> a@ == b@ || (a@ == "localhost"@ && b@ == "127.0.0.1"@) || (a@ == "127.0.0.1"@ && b@
            == "localhost"@),
{
}

/// Four base64 digits stand for three bytes: the bytes hold all the bits of the
/// digits but those that fill up the last byte.
pub proof fn law_base64_digits_hold_six_bits(n: int)
    requires
        n >= 0,
        n % 4 != 1,
    ensures
        8 * base64_bytes(n) <= 6 * n < 8 * base64_bytes(n) + 8,
{
}

/// A launch names the port and the profile, and opens the page that is asked for;
/// it asks for no window exactly where it is headless. Software rendering switches
/// the graphics processor off, and the default window renders as the browser would.
pub proof fn law_launch_is_as_asked(
    profile: &str,
    port: u16,
    url: Option<String>,
    headless: bool,
    mode: LaunchMode,
    r: Vec<String>,
)
    requires
        call_ensures(build_chrome_args, (profile, port, url, headless, mode), r),
    ensures
        views(r@).contains("--remote-debugging-port="@ + decimal(port as nat)),
        views(r@).contains("--user-data-dir="@ + profile@),
        headless ==> views(r@).contains("--headless=new"@),
        !headless ==> views(r@).contains("--window-size=1280,900"@),
        url matches Some(u) ==> r@.len() > 0 && r@.last()@ == u@,
        mode == LaunchMode::HeadedSoftware || mode == LaunchMode::HeadlessSoftware ==> views(
            r@,
        ).contains("--disable-gpu"@) && views(r@).contains("--use-angle=swiftshader"@),
        mode == LaunchMode::HeadlessInProcessGpu ==> views(r@).contains("--in-process-gpu"@),
        mode == LaunchMode::HeadedDefault ==> r@.len() == (if url is Some {
            12nat
        } else {
            11
        }),
        views(r@).contains("--no-first-run"@) && views(r@).contains("--disable-sync"@) && views(
            r@,
        ).contains("--disable-background-networking"@),
{
    let args = chrome_args(profile@, port, opt_view(url), headless, mode);
    assert(views(r@).len() == r@.len());
    assert(args[0] == "--remote-debugging-port="@ + decimal(port as nat));
    assert(args[1] == "--user-data-dir="@ + profile@);
    assert(args[3] == "--no-first-run"@);
    assert(args[5] == "--disable-background-networking"@);
    assert(args[7] == "--disable-sync"@);
    assert(args[10] == window_arg(headless));
    match mode {
        LaunchMode::HeadedSoftware => {
            assert(args[11] == "--disable-gpu"@);
            assert(args[14] == "--use-angle=swiftshader"@);
        },
        LaunchMode::HeadlessSoftware => {
            assert(args[11] == "--disable-gpu"@);
            assert(args[13] == "--use-angle=swiftshader"@);
        },
        LaunchMode::HeadlessInProcessGpu => {
            assert(args[11] == "--in-process-gpu"@);
        },
        LaunchMode::HeadedDefault => {},
    }
    if url is Some {
        assert(args.last() == url->0@);
        assert(views(r@).last() == r@.last()@);
    }
}

/// Is every character of a host one that a host is made of?
pub open spec fn is_plain_host(host: Seq<char>) -> bool {
    host.len() > 0 && forall|k: int|
        0 <= k < host.len() ==> #[trigger] host[k] != '/' && host[k] != '?' && host[k] != '#'
            && host[k] != '@' && host[k] != ':' && host[k] != '['
}

/// The host of an address stands between `://` and what follows it: a path, a query
/// or a fragment, or a port before them. It is told in lower case.
pub proof fn law_host_stands_behind_the_scheme(
    scheme: Seq<char>,
    host: Seq<char>,
    port: Seq<char>,
    tail: Seq<char>,
    url: &str,
    r: Option<String>,
)
    requires
        call_ensures(url_host, (url,), r),
        url@ == scheme + "://"@ + (host + port + tail),
        !scheme.contains(':'),
        is_plain_host(host),
        port.len() == 0 || (port[0] == ':' && forall|k: int|
            1 <= k < port.len() ==> '0' <= #[trigger] port[k] <= '9'),
        tail.len() == 0 || tail[0] == '/' || tail[0] == '?' || tail[0] == '#',
    ensures
        r is Some && r->0@ == ascii_lower(host),
{
    reveal_strlit("://");
    let mark = "://"@;
    let rest = host + port + tail;
    let n = scheme.len() as int;
    assert(url@.subrange(n, n + 3) =~= mark);
    assert(occurs_at(url@, mark, n));
    lemma_find_from(url@, mark, 0);
    let at = find_from(url@, mark, 0)->0;
    if at < n {
        assert(url@.subrange(at, at + 3)[0] == mark[0]);
        assert(url@[at] == scheme[at]);
    }
    assert(at == n);
    assert(url@.skip(n + 3) =~= rest);
    lemma_authority(host, port, tail);
    lemma_authority_host(host, port);
}

proof fn lemma_authority(host: Seq<char>, port: Seq<char>, tail: Seq<char>)
    requires
        is_plain_host(host),
        port.len() == 0 || (port[0] == ':' && forall|k: int|
            1 <= k < port.len() ==> '0' <= #[trigger] port[k] <= '9'),
        tail.len() == 0 || tail[0] == '/' || tail[0] == '?' || tail[0] == '#',
    ensures
        authority_of(host + port + tail) == host + port,
{
    let rest = host + port + tail;
    let stops = seq!['/', '?', '#'];
    assert(stops[0] == '/' && stops[1] == '?' && stops[2] == '#');
    lemma_first_of(rest, stops, 0);
    let e = first_of(rest, stops, 0);
    let m = (host + port).len() as int;
    if e < m {
        assert(stops.contains(rest[e]));
        if e < host.len() {
            assert(rest[e] == host[e]);
        } else {
            assert(rest[e] == port[e - host.len()]);
        }
    }
    if e > m {
        assert(rest[m] == tail[0]);
        assert(stops.contains(rest[m]));
    }
    assert(rest.take(m) =~= host + port);
}

proof fn lemma_authority_host(host: Seq<char>, port: Seq<char>)
    requires
        is_plain_host(host),
        port.len() == 0 || (port[0] == ':' && forall|k: int|
            1 <= k < port.len() ==> '0' <= #[trigger] port[k] <= '9'),
    ensures
        authority_host(host + port) == host,
{
    let place = host + port;
    assert(!place.contains('@')) by {
        if place.contains('@') {
            let k = choose|k: int| 0 <= k < place.len() && place[k] == '@';
            if k < host.len() {
                assert(place[k] == host[k]);
            } else {
                assert(place[k] == port[k - host.len()]);
            }
        }
    }
    lemma_after_last(Seq::empty(), place);
    assert(Seq::<char>::empty() + place =~= place);
    assert(after_last(Seq::<char>::empty(), '@') =~= Seq::<char>::empty());
    assert(place[0] == host[0]);
    let colon = seq![':'];
    assert(colon[0] == ':');
    lemma_first_of(place, colon, 0);
    let e = first_of(place, colon, 0);
    if e < host.len() {
        assert(colon.contains(place[e]));
        assert(place[e] == host[e]);
    }
    if port.len() > 0 && e > host.len() {
        assert(place[host.len() as int] == port[0]);
        assert(colon.contains(place[host.len() as int]));
    }
    assert(place.take(host.len() as int) =~= host);
}

/// An address is dialed only over `ws://` and only where its host names this machine.
/// An address of another machine is not, whatever stands before or behind its host.
pub proof fn law_only_this_machine_is_dialed(
    host: Seq<char>,
    port: Seq<char>,
    tail: Seq<char>,
    url: &str,
    r: bool,
)
    requires
        call_ensures(ws_is_loopback, (url,), r),
        is_plain_host(host),
        port.len() == 0 || (port[0] == ':' && forall|k: int|
            1 <= k < port.len() ==> '0' <= #[trigger] port[k] <= '9'),
        tail.len() == 0 || tail[0] == '/' || tail[0] == '?' || tail[0] == '#',
    ensures
        url@ == "ws://"@ + (host + port + tail) ==> (r <==> host == "127.0.0.1"@ || ascii_lower(host)
            == ascii_lower("localhost"@)),
        !"ws://"@.is_prefix_of(url@) ==> !r,
{
    reveal_strlit("ws://");
    reveal_strlit("[::1]");
    reveal_strlit("::1");
    if url@ == "ws://"@ + (host + port + tail) {
        assert(url@.skip(5) =~= host + port + tail);
        assert("ws://"@.is_prefix_of(url@));
        lemma_authority(host, port, tail);
        lemma_authority_host(host, port);
        assert(host[0] != ':' && host[0] != '[');
        assert("[::1]"@[0] == '[');
        assert("::1"@[0] == ':');
    }
}

/// A mode is headed or headless, as its name begins.
pub proof fn law_modes_are_headed_or_not(mode: LaunchMode, label: &'static str, window: &'static str)
    requires
        call_ensures(LaunchMode::label, (mode,), label),
        call_ensures(LaunchMode::window_mode, (mode,), window),
    ensures
        window@ == "headed"@ <==> mode == LaunchMode::HeadedDefault || mode
            == LaunchMode::HeadedSoftware,
        window@ == "headless"@ <==> mode == LaunchMode::HeadlessSoftware || mode
            == LaunchMode::HeadlessInProcessGpu,
        (window@ + "-"@).is_prefix_of(label@),
{
    reveal_strlit("headed");
    reveal_strlit("headless");
    reveal_strlit("-");
    reveal_strlit("headed-default");
    reveal_strlit("headed-software");
    reveal_strlit("headless-software");
    reveal_strlit("headless-in-process-gpu");
    assert("headed"@.len() == 6 && "headless"@.len() == 8 && "-"@.len() == 1);
    assert(label@.take(window@.len() as int + 1) =~= window@ + "-"@);
}

} // verus!
