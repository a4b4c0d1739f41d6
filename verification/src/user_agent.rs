//! The user agent and the screen that a session shows, so that Chrome does not
//! tell that it runs without a window.
//!
//! The metadata is kept as JSON in the shape of DevTools'
//! `Network.UserAgentMetadata`.
use vstd::prelude::*;

use crate::json::{
    array, integer, items, member, members, object, text, whole, whole_number, Json, JsonView,
    Number,
};
use crate::sessions::Viewport;
use crate::text::laws::{law_after_first, law_pieces};
use crate::text::{
    after_first, cat3, has_text, lemma_first_index_is, occurs_at, pieces, split_on, text_after,
    texts,
};

verus! {

/// The version of Chrome: all of it, and what stands before its first dot.
#[derive(Debug)]
pub struct ChromeVersion {
    pub full: String,
    pub major: String,
}

/// The version that a product text names: `HeadlessChrome/146.0.7680.31` has it
/// after the slash. A text without a slash names the version this was made for.
pub open spec fn full_version(product: Seq<char>) -> Seq<char> {
    match after_first(product, '/') {
        Some(v) => v,
        None => "146.0.7680.31"@,
    }
}

/// What stands before the first dot of a version.
pub open spec fn major_version(full: Seq<char>) -> Seq<char> {
    pieces(full, '.')[0]
}

/// The version of Chrome, from the product text of DevTools'
/// `Browser.getVersion`.
pub fn chrome_version(product: &str) -> (r: ChromeVersion)
    ensures
        r.full@ == full_version(product@),
        r.major@ == major_version(full_version(product@)),
{
    let full = match text_after(product, '/') {
        Some(v) => v,
        None => "146.0.7680.31".to_string(),
    };
    let parts = split_on(full.as_str(), '.');
    proof {
        assert(pieces(full@, '.').len() > 0);
        assert(texts(parts@)[0] == parts@[0]@);
    }
    let major = parts[0].clone();
    ChromeVersion { full, major }
}

/// What a session shows as its user agent.
#[derive(Debug)]
pub struct UaOverride {
    pub user_agent: String,
    /// DevTools' `Network.UserAgentMetadata`.
    pub metadata: Json,
}

/// What a [`UaOverride`] says.
#[verifier::ext_equal]
pub struct UaView {
    pub user_agent: Seq<char>,
    pub metadata: JsonView,
}

impl View for UaOverride {
    type V = UaView;

    open spec fn view(&self) -> UaView {
        UaView { user_agent: self.user_agent@, metadata: self.metadata@ }
    }
}

/// One entry of a brand list.
pub open spec fn brand(name: Seq<char>, version: Seq<char>) -> JsonView {
    JsonView::Object(
        seq![("brand"@, JsonView::Str(name)), ("version"@, JsonView::Str(version))],
    )
}

/// The brands that Chrome names, at one version, with the made-up brand that it
/// names beside them.
pub open spec fn brand_list(version: Seq<char>, made_up: Seq<char>) -> JsonView {
    JsonView::Array(
        seq![
            brand("Chromium"@, version),
            brand("Google Chrome"@, version),
            brand("Not-A.Brand"@, made_up),
        ],
    )
}

/// The user agent of Chrome at a version, on a phone or a desktop.
pub open spec fn user_agent_of(major: Seq<char>, mobile: bool) -> Seq<char> {
    if mobile {
        "Mozilla/5.0 (Linux; Android 14; Pixel 8) AppleWebKit/537.36 (KHTML, like Gecko) Chrome/"@
            + major + ".0.0.0 Mobile Safari/537.36"@
    } else {
        "Mozilla/5.0 (X11; Linux x86_64) AppleWebKit/537.36 (KHTML, like Gecko) Chrome/"@ + major
            + ".0.0.0 Safari/537.36"@
    }
}

/// The metadata that goes with the user agent.
pub open spec fn metadata_of(full: Seq<char>, major: Seq<char>, mobile: bool) -> JsonView {
    JsonView::Object(
        seq![
            ("brands"@, brand_list(major, "24"@)),
            ("fullVersionList"@, brand_list(full, "24.0.0.0"@)),
            ("platform"@, JsonView::Str(if mobile { "Android"@ } else { "Linux"@ })),
            ("platformVersion"@, JsonView::Str(if mobile { "14"@ } else { ""@ })),
            ("architecture"@, JsonView::Str(if mobile { ""@ } else { "x86"@ })),
            ("model"@, JsonView::Str(if mobile { "Pixel 8"@ } else { ""@ })),
            ("mobile"@, JsonView::Bool(mobile)),
            (
                "formFactors"@,
                JsonView::Array(
                    seq![JsonView::Str(if mobile { "Mobile"@ } else { "Desktop"@ })],
                ),
            ),
        ],
    )
}

/// The user agent override at a version.
pub open spec fn override_of(full: Seq<char>, major: Seq<char>, mobile: bool) -> UaView {
    UaView {
        user_agent: user_agent_of(major, mobile),
        metadata: metadata_of(full, major, mobile),
    }
}

/// One entry of a brand list.
fn brand_json(name: &str, version: &str) -> (r: Json)
    ensures
        r@ == brand(name@, version@),
{
    let v = vec![member("brand", text(name)), member("version", text(version))];
    assert(members(v@) =~= seq![
        ("brand"@, JsonView::Str(name@)),
        ("version"@, JsonView::Str(version@)),
    ]);
    object(v)
}

/// The brand list at a version.
fn brands_json(version: &str, made_up: &str) -> (r: Json)
    ensures
        r@ == brand_list(version@, made_up@),
{
    let v = vec![
        brand_json("Chromium", version),
        brand_json("Google Chrome", version),
        brand_json("Not-A.Brand", made_up),
    ];
    assert(items(v@) =~= seq![
        brand("Chromium"@, version@),
        brand("Google Chrome"@, version@),
        brand("Not-A.Brand"@, made_up@),
    ]);
    array(v)
}

/// A list of one text.
fn one_text(s: &str) -> (r: Json)
    ensures
        r@ == JsonView::Array(seq![JsonView::Str(s@)]),
{
    let v = vec![text(s)];
    assert(items(v@) =~= seq![JsonView::Str(s@)]);
    array(v)
}

/// The user agent override for a version of Chrome, on a phone or a desktop. The
/// user agent and the metadata name one version and one platform, as a site that
/// compares them expects.
pub fn resolve(version: &ChromeVersion, use_mobile: bool) -> (r: UaOverride)
    ensures
        r@ == override_of(version.full@, version.major@, use_mobile),
{
    let full = version.full.as_str();
    let major = version.major.as_str();
    let user_agent = if use_mobile {
        cat3(
            "Mozilla/5.0 (Linux; Android 14; Pixel 8) AppleWebKit/537.36 (KHTML, like Gecko) Chrome/",
            major,
            ".0.0.0 Mobile Safari/537.36",
        )
    } else {
        cat3(
            "Mozilla/5.0 (X11; Linux x86_64) AppleWebKit/537.36 (KHTML, like Gecko) Chrome/",
            major,
            ".0.0.0 Safari/537.36",
        )
    };
    let v = vec![
        member("brands", brands_json(major, "24")),
        member("fullVersionList", brands_json(full, "24.0.0.0")),
        member("platform", text(if use_mobile { "Android" } else { "Linux" })),
        member("platformVersion", text(if use_mobile { "14" } else { "" })),
        member("architecture", text(if use_mobile { "" } else { "x86" })),
        member("model", text(if use_mobile { "Pixel 8" } else { "" })),
        member("mobile", Json::Bool(use_mobile)),
        member("formFactors", one_text(if use_mobile { "Mobile" } else { "Desktop" })),
    ];
    assert(members(v@) =~= metadata_of(full@, major@, use_mobile)->Object_0);
    UaOverride { user_agent, metadata: object(v) }
}

/// The parameters of DevTools' `Network.setUserAgentOverride` for an override.
/// Browsers name the languages they take; to name none would stand out.
pub open spec fn override_params(ua: UaView) -> JsonView {
    JsonView::Object(
        seq![
            ("userAgent"@, JsonView::Str(ua.user_agent)),
            ("userAgentMetadata"@, ua.metadata),
            ("acceptLanguage"@, JsonView::Str("en-US,en;q=0.9"@)),
        ],
    )
}

/// The parameters of DevTools' `Network.setUserAgentOverride` for an override.
pub fn user_agent_params(ua: &UaOverride) -> (r: Json)
    ensures
        r@ == override_params(ua@),
{
    let v = vec![
        member("userAgent", text(ua.user_agent.as_str())),
        member("userAgentMetadata", ua.metadata.copy()),
        member("acceptLanguage", text("en-US,en;q=0.9")),
    ];
    assert(members(v@) =~= override_params(ua@)->Object_0);
    object(v)
}

/// The parameters of DevTools' `Emulation.setDeviceMetricsOverride` for a size:
/// a page of that size on a screen that is neither scaled nor a phone's.
pub open spec fn metrics_params(size: Viewport) -> JsonView {
    JsonView::Object(
        seq![
            ("width"@, JsonView::Number(whole_number(size.width))),
            ("height"@, JsonView::Number(whole_number(size.height))),
            ("deviceScaleFactor"@, JsonView::Number(Number::Unsigned(1))),
            ("mobile"@, JsonView::Bool(false)),
        ],
    )
}

/// The parameters of DevTools' `Emulation.setDeviceMetricsOverride` for a size.
pub fn viewport_params(size: Viewport) -> (r: Json)
    ensures
        r@ == metrics_params(size),
{
    let v = vec![
        member("width", integer(size.width)),
        member("height", integer(size.height)),
        member("deviceScaleFactor", whole(1)),
        member("mobile", Json::Bool(false)),
    ];
    assert(members(v@) =~= metrics_params(size)->Object_0);
    object(v)
}

/// The script that runs before any script of a page, on every target. It hides
/// what a page can see of a Chrome without a window: `navigator.webdriver`, the
/// missing PDF viewer plugins, and the missing `window.chrome.runtime`. Each part
/// stands on its own, so that one that fails, or runs twice, breaks nothing.
pub const STEALTH_JS: &'static str = r#"(() => {
  try { Object.defineProperty(navigator, 'webdriver', { get: () => false }); } catch (e) {}
  // NOTE: navigator.languages is deliberately NOT overridden. This script runs
  // only in the main world; Web Workers get a fresh context with the browser's
  // real navigator.languages (["en-US"]). Faking ["en-US","en"] here made the
  // main thread disagree with workers — deviceandbrowserinfo's
  // hasInconsistentWorkerValues. Reading the real value keeps them consistent.
  // (To present ["en-US","en"] everywhere instead, set Chrome --accept-lang at
  // launch in chrome.nix so it applies browser-wide, main AND workers.)
  try { Object.defineProperty(navigator, 'pdfViewerEnabled', { get: () => true }); } catch (e) {}
  try {
    const mk = (name) => {
      const p = Object.create(Plugin.prototype);
      Object.defineProperties(p, {
        name: { value: name, enumerable: true },
        description: { value: 'Portable Document Format', enumerable: true },
        filename: { value: 'internal-pdf-viewer', enumerable: true },
        length: { value: 1 },
      });
      return p;
    };
    const arr = ['PDF Viewer', 'Chrome PDF Viewer', 'Chromium PDF Viewer', 'Microsoft Edge PDF Viewer', 'WebKit built-in PDF'].map(mk);
    Object.defineProperty(navigator, 'plugins', { get: () => arr });
  } catch (e) {}
  try { window.chrome = window.chrome || {}; window.chrome.runtime = window.chrome.runtime || {}; } catch (e) {}
  try {
    const q = navigator.permissions && navigator.permissions.query;
    if (q) navigator.permissions.query = (p) =>
      p && p.name === 'notifications'
        ? Promise.resolve({ state: Notification.permission })
        : q(p);
  } catch (e) {}
  // NOTE: no WebGL renderer spoof — Chrome renders on the real NVIDIA GPU
  // (see chrome.nix), so the genuine renderer string passes the consistency
  // checks that a software-GL spoof fails (iphey flagged the spoof).
})();"#;

/// The address patterns of the machine itself, which no page may load from: a
/// page that tries the machine's ports sees every one of them refused alike.
pub open spec fn loopback_patterns() -> Seq<Seq<char>> {
    seq![
        "*://localhost/*"@,
        "*://localhost:*"@,
        "*://127.0.0.1/*"@,
        "*://127.0.0.1:*"@,
        "*://[::1]/*"@,
        "*://[::1]:*"@,
        "*://0.0.0.0/*"@,
        "*://0.0.0.0:*"@,
    ]
}

/// The address patterns of the machine itself, for DevTools'
/// `Network.setBlockedURLs`.
pub fn blocked_loopback() -> (r: Vec<String>)
    ensures
        texts(r@) == loopback_patterns(),
{
    let v = vec![
        "*://localhost/*".to_string(),
        "*://localhost:*".to_string(),
        "*://127.0.0.1/*".to_string(),
        "*://127.0.0.1:*".to_string(),
        "*://[::1]/*".to_string(),
        "*://[::1]:*".to_string(),
        "*://0.0.0.0/*".to_string(),
        "*://0.0.0.0:*".to_string(),
    ];
    assert(texts(v@) =~= loopback_patterns());
    v
}

/// The version that headless Chrome names is read from behind the slash.
pub proof fn law_version_of_headless(version: Seq<char>)
    ensures
        full_version("HeadlessChrome/"@ + version) == version,
{
    reveal_strlit("HeadlessChrome/");
    let product = "HeadlessChrome/"@ + version;
    lemma_first_index_is(product, '/', 14);
    assert(product.skip(15) =~= version);
}

/// The user agent never says that Chrome runs without a window, whatever the
/// version; only a version that itself had a capital H in it could.
pub proof fn law_headless_does_not_show(major: Seq<char>, mobile: bool)
    requires
        !major.contains('H'),
    ensures
        !has_text(user_agent_of(major, mobile), "Headless"@),
{
    reveal_strlit("Headless");
    reveal_strlit(
        "Mozilla/5.0 (Linux; Android 14; Pixel 8) AppleWebKit/537.36 (KHTML, like Gecko) Chrome/",
    );
    reveal_strlit(
        "Mozilla/5.0 (X11; Linux x86_64) AppleWebKit/537.36 (KHTML, like Gecko) Chrome/",
    );
    reveal_strlit(".0.0.0 Mobile Safari/537.36");
    reveal_strlit(".0.0.0 Safari/537.36");
    let s = user_agent_of(major, mobile);
    let front = s.len() - major.len() - (if mobile {
        ".0.0.0 Mobile Safari/537.36"@.len()
    } else {
        ".0.0.0 Safari/537.36"@.len()
    });
    assert forall|i: int| !occurs_at(s, "Headless"@, i) by {
        if occurs_at(s, "Headless"@, i) {
            let found = s.subrange(i, i + 8);
            assert(found[0] == 'H' && found[1] == 'e');
            assert(s[i] == 'H' && s[i + 1] == 'e');
            if front <= i < front + major.len() {
                assert(major[i - front] == 'H');
                assert(major.contains('H'));
            }
        }
    }
}

/// The version is all that stands behind the first slash of the product, whatever
/// the product is called, and its major part all that stands before its first dot.
pub proof fn law_version_is_behind_the_slash(
    name: Seq<char>,
    major: Seq<char>,
    minor: Seq<char>,
)
    requires
        !name.contains('/'),
        !major.contains('.'),
    ensures
        full_version(name + seq!['/'] + minor) == minor,
        full_version(name) == "146.0.7680.31"@,
        major_version(major + seq!['.'] + minor) == major,
        major_version(major) == major,
{
    law_after_first(name, minor, '/');
    law_pieces(major, minor, '.');
}

/// The user agent is that of Chrome at its major version and shows no more of the
/// version; it is a phone's exactly where a phone was asked for.
pub proof fn law_user_agent_shows_the_version(major: Seq<char>)
    ensures
        has_text(user_agent_of(major, true), "Chrome/"@ + major + ".0.0.0 Mobile Safari/"@),
        has_text(user_agent_of(major, false), "Chrome/"@ + major + ".0.0.0 Safari/"@),
        has_text(user_agent_of(major, true), "(Linux; Android 14; Pixel 8)"@),
        has_text(user_agent_of(major, false), "(X11; Linux x86_64)"@),
{
    reveal_strlit(
        "Mozilla/5.0 (Linux; Android 14; Pixel 8) AppleWebKit/537.36 (KHTML, like Gecko) Chrome/",
    );
    reveal_strlit(
        "Mozilla/5.0 (X11; Linux x86_64) AppleWebKit/537.36 (KHTML, like Gecko) Chrome/",
    );
    reveal_strlit(".0.0.0 Mobile Safari/537.36");
    reveal_strlit(".0.0.0 Safari/537.36");
    reveal_strlit(".0.0.0 Mobile Safari/");
    reveal_strlit(".0.0.0 Safari/");
    reveal_strlit("Chrome/");
    reveal_strlit("(Linux; Android 14; Pixel 8)");
    reveal_strlit("(X11; Linux x86_64)");
    let phone = user_agent_of(major, true);
    let desk = user_agent_of(major, false);
    let p = "Chrome/"@ + major + ".0.0.0 Mobile Safari/"@;
    let d = "Chrome/"@ + major + ".0.0.0 Safari/"@;
    let i = phone.len() - p.len() - 6;
    let j = desk.len() - d.len() - 6;
    assert(phone.subrange(i, i + p.len()) =~= p);
    assert(occurs_at(phone, p, i));
    assert(desk.subrange(j, j + d.len()) =~= d);
    assert(occurs_at(desk, d, j));
    assert(phone.subrange(12, 40) =~= "(Linux; Android 14; Pixel 8)"@);
    assert(occurs_at(phone, "(Linux; Android 14; Pixel 8)"@, 12));
    assert(desk.subrange(12, 31) =~= "(X11; Linux x86_64)"@);
    assert(occurs_at(desk, "(X11; Linux x86_64)"@, 12));
}

/// The metadata agrees with the user agent: it names the same major version, and
/// all of the version in its own list, and it describes a phone exactly where the
/// user agent does.
pub proof fn law_metadata_agrees(full: Seq<char>, major: Seq<char>, mobile: bool)
    ensures
        override_of(full, major, mobile).user_agent == user_agent_of(major, mobile),
        override_of(full, major, mobile).metadata matches JsonView::Object(ms) && {
            &&& ms.len() == 8
            &&& ms[0].0 == "brands"@ && names_versions(ms[0].1, major, "24"@)
            &&& ms[1].0 == "fullVersionList"@ && names_versions(ms[1].1, full, "24.0.0.0"@)
            &&& ms.contains(("mobile"@, JsonView::Bool(mobile)))
            &&& mobile ==> {
                &&& ms.contains(("platform"@, JsonView::Str("Android"@)))
                &&& ms.contains(("platformVersion"@, JsonView::Str("14"@)))
                &&& ms.contains(("architecture"@, JsonView::Str(""@)))
                &&& ms.contains(("model"@, JsonView::Str("Pixel 8"@)))
                &&& ms.contains(
                    ("formFactors"@, JsonView::Array(seq![JsonView::Str("Mobile"@)])),
                )
            }
            &&& !mobile ==> {
                &&& ms.contains(("platform"@, JsonView::Str("Linux"@)))
                &&& ms.contains(("platformVersion"@, JsonView::Str(""@)))
                &&& ms.contains(("architecture"@, JsonView::Str("x86"@)))
                &&& ms.contains(("model"@, JsonView::Str(""@)))
                &&& ms.contains(
                    ("formFactors"@, JsonView::Array(seq![JsonView::Str("Desktop"@)])),
                )
            }
        },
{
    let ms = metadata_of(full, major, mobile)->Object_0;
    assert(ms[2].0 == "platform"@);
    assert(ms[3].0 == "platformVersion"@);
    assert(ms[4].0 == "architecture"@);
    assert(ms[5].0 == "model"@);
    assert(ms[6].0 == "mobile"@);
    assert(ms[7].0 == "formFactors"@);
}

/// A list names Chromium and Google Chrome at one version, and the made-up brand
/// at its own.
pub open spec fn names_versions(list: JsonView, version: Seq<char>, made_up: Seq<char>) -> bool {
    let entry = |name: Seq<char>, v: Seq<char>|
        JsonView::Object(seq![("brand"@, JsonView::Str(name)), ("version"@, JsonView::Str(v))]);
    list matches JsonView::Array(l) && {
        &&& l.len() == 3
        &&& l[0] == entry("Chromium"@, version)
        &&& l[1] == entry("Google Chrome"@, version)
        &&& l[2] == entry("Not-A.Brand"@, made_up)
    }
}

/// DevTools is told the very user agent and metadata of an override, and the very
/// size of a window, each side in its place.
pub proof fn law_parameters_say_what_is_set(ua: UaView, size: Viewport)
    ensures
        override_params(ua) matches JsonView::Object(ms) && {
            &&& ms.len() == 3
            &&& ms.contains(("userAgent"@, JsonView::Str(ua.user_agent)))
            &&& ms.contains(("userAgentMetadata"@, ua.metadata))
            &&& ms.contains(("acceptLanguage"@, JsonView::Str("en-US,en;q=0.9"@)))
        },
        metrics_params(size) matches JsonView::Object(ms) && {
            &&& ms.len() == 4
            &&& ms.contains(("width"@, JsonView::Number(whole_number(size.width))))
            &&& ms.contains(("height"@, JsonView::Number(whole_number(size.height))))
            &&& ms.contains(("deviceScaleFactor"@, JsonView::Number(Number::Unsigned(1))))
            &&& ms.contains(("mobile"@, JsonView::Bool(false)))
        },
{
    let a = override_params(ua)->Object_0;
    let b = metrics_params(size)->Object_0;
    assert(a[0].0 == "userAgent"@ && a[1].0 == "userAgentMetadata"@ && a[2].0
        == "acceptLanguage"@);
    assert(b[0].0 == "width"@ && b[1].0 == "height"@ && b[2].0 == "deviceScaleFactor"@ && b[3].0
        == "mobile"@);
}

/// For every name of the machine itself both an address without a port and one
/// with a port are blocked.
pub proof fn law_every_loopback_name_is_blocked(k: int)
    requires
        0 <= k < 4,
    ensures
        ({
            let name = seq!["localhost"@, "127.0.0.1"@, "[::1]"@, "0.0.0.0"@][k];
            &&& loopback_patterns().contains("*://"@ + name + "/*"@)
            &&& loopback_patterns().contains("*://"@ + name + ":*"@)
        }),
        loopback_patterns().len() == 8,
{
    reveal_strlit("localhost");
    reveal_strlit("127.0.0.1");
    reveal_strlit("[::1]");
    reveal_strlit("0.0.0.0");
    reveal_strlit("*://");
    reveal_strlit("/*");
    reveal_strlit(":*");
    reveal_strlit("*://localhost/*");
    reveal_strlit("*://localhost:*");
    reveal_strlit("*://127.0.0.1/*");
    reveal_strlit("*://127.0.0.1:*");
    reveal_strlit("*://[::1]/*");
    reveal_strlit("*://[::1]:*");
    reveal_strlit("*://0.0.0.0/*");
    reveal_strlit("*://0.0.0.0:*");
    let name = seq!["localhost"@, "127.0.0.1"@, "[::1]"@, "0.0.0.0"@][k];
    assert(loopback_patterns()[2 * k] =~= "*://"@ + name + "/*"@);
    assert(loopback_patterns()[2 * k + 1] =~= "*://"@ + name + ":*"@);
}

}
