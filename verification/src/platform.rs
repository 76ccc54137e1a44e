//! Platform capability predicates.
//!
//! The adapter reads the user agent and platform strings once from the
//! navigator and hands them over in a [`PlatformInfo`]; each predicate is
//! then a verified case-insensitive substring test over those strings.

use vstd::prelude::*;

verus! {

/// The lowercased form of `s`, as the standard library's case folding
/// produces it. The result depends on the characters alone.
pub uninterp spec fn lower_of(s: Seq<char>) -> Seq<char>;

/// Relies on `str::to_lowercase`: returns the lowercase equivalent of the
/// string, a function of its characters alone, named [`lower_of`].
#[verifier::external_body]
fn to_lower(s: &str) -> (r: String)
    ensures
        r@ == lower_of(s@),
{
    s.to_lowercase()
}

/// Relies on `str::chars`: yields exactly the characters of the string,
/// in order.
#[verifier::external_body]
fn chars_vec(s: &str) -> (r: Vec<char>)
    ensures
        r@ == s@,
{
    s.chars().collect()
}

/// Whether `needle` occurs contiguously inside `hay`.
pub open spec fn spec_contains_seq(hay: Seq<char>, needle: Seq<char>) -> bool {
    exists|i: int|
        0 <= i && i + needle.len() <= hay.len() && #[trigger] hay.subrange(i, i + needle.len())
            == needle
}

/// Substring search: whether `needle` occurs contiguously inside `hay`.
pub fn contains_chars(hay: &Vec<char>, needle: &Vec<char>) -> (r: bool)
    ensures
        r == spec_contains_seq(hay@, needle@),
{
    let h = hay.len();
    let n = needle.len();
    if n > h {
        return false;
    }
    if n == 0 {
        assert(hay@.subrange(0, 0 + needle@.len() as int) =~= needle@);
        return true;
    }
    let mut i: usize = 0;
    while i <= h - n
        invariant
            0 < n <= h,
            h == hay@.len(),
            n == needle@.len(),
            i <= h - n + 1,
            forall|k: int|
                0 <= k < i ==> #[trigger] hay@.subrange(k, k + needle@.len()) != needle@,
        decreases h - n - i + 1,
    {
        let mut j: usize = 0;
        while j < n && hay[i + j] == needle[j]
            invariant
                0 < n <= h,
                h == hay@.len(),
                n == needle@.len(),
                i + n <= h,
                j <= n,
                forall|t: int| 0 <= t < j ==> hay@[i + t] == needle@[t],
            decreases n - j,
        {
            j += 1;
        }
        if j == n {
            assert(hay@.subrange(i as int, i + needle@.len()) =~= needle@);
            return true;
        }
        assert(hay@.subrange(i as int, i + needle@.len()) != needle@) by {
            assert(hay@.subrange(i as int, i + needle@.len())[j as int] == hay@[i + j]);
        }
        i += 1;
    }
    assert(!spec_contains_seq(hay@, needle@)) by {
        assert forall|k: int|
            0 <= k && k + needle@.len() <= hay@.len() implies #[trigger] hay@.subrange(
            k,
            k + needle@.len(),
        ) != needle@ by {
            assert(k < i);
        }
    }
    false
}

/// What the navigator reports of the platform; either string is absent
/// where the platform withholds it.
#[derive(Clone, PartialEq, Eq, Debug)]
pub struct PlatformInfo {
    pub user_agent: Option<String>,
    pub platform: Option<String>,
}

/// Whether the given navigator string, lowercased, contains `needle`.
pub open spec fn spec_navigator_contains(field: Option<String>, needle: Seq<char>) -> bool {
    match field {
        Some(s) => spec_contains_seq(lower_of(s@), needle),
        None => false,
    }
}

/// Whether the user agent string, lowercased, contains `search_text`.
pub fn test_user_agent(info: &PlatformInfo, search_text: &str) -> (r: bool)
    ensures
        r == spec_navigator_contains(info.user_agent, search_text@),
{
    match &info.user_agent {
        Some(user_agent) => {
            let lowered = to_lower(user_agent.as_str());
            let hay = chars_vec(lowered.as_str());
            let needle = chars_vec(search_text);
            contains_chars(&hay, &needle)
        },
        None => false,
    }
}

/// Whether the platform string, lowercased, contains `search_text`.
pub fn test_platform(info: &PlatformInfo, search_text: &str) -> (r: bool)
    ensures
        r == spec_navigator_contains(info.platform, search_text@),
{
    match &info.platform {
        Some(platform) => {
            let lowered = to_lower(platform.as_str());
            let hay = chars_vec(lowered.as_str());
            let needle = chars_vec(search_text);
            contains_chars(&hay, &needle)
        },
        None => false,
    }
}

/// Whether the platform is an iPhone.
pub fn is_iphone(info: &PlatformInfo) -> (r: bool)
    ensures
        r == spec_navigator_contains(info.platform, "iphone"@),
{
    test_platform(info, "iphone")
}

/// Whether the platform is an iPad.
pub fn is_ipad(info: &PlatformInfo) -> (r: bool)
    ensures
        r == spec_navigator_contains(info.platform, "ipad"@),
{
    test_platform(info, "ipad")
}

/// Whether the platform is iOS: an iPhone or an iPad.
pub fn is_ios(info: &PlatformInfo) -> (r: bool)
    ensures
        r == (spec_navigator_contains(info.platform, "iphone"@) || spec_navigator_contains(
            info.platform,
            "ipad"@,
        )),
{
    is_iphone(info) || is_ipad(info)
}

/// Whether the platform is Android.
pub fn is_android(info: &PlatformInfo) -> (r: bool)
    ensures
        r == spec_navigator_contains(info.user_agent, "android"@),
{
    test_user_agent(info, "android")
}

/// Whether the browser is Chrome.
pub fn is_chrome(info: &PlatformInfo) -> (r: bool)
    ensures
        r == spec_navigator_contains(info.user_agent, "chrome"@),
{
    test_user_agent(info, "chrome")
}

/// Whether the platform is a Mac.
pub fn is_mac(info: &PlatformInfo) -> (r: bool)
    ensures
        r == spec_navigator_contains(info.platform, "mac"@),
{
    test_platform(info, "mac")
}

/// Whether the platform is an Apple device: iOS or a Mac.
pub fn is_apple_device(info: &PlatformInfo) -> (r: bool)
    ensures
        r == (spec_navigator_contains(info.platform, "iphone"@) || spec_navigator_contains(
            info.platform,
            "ipad"@,
        ) || spec_navigator_contains(info.platform, "mac"@)),
{
    is_ios(info) || is_mac(info)
}

/// Whether the browser engine is WebKit proper: the user agent names
/// AppleWebKit but not Chrome.
pub fn is_webkit(info: &PlatformInfo) -> (r: bool)
    ensures
        r == (spec_navigator_contains(info.user_agent, "applewebkit"@)
            && !spec_navigator_contains(info.user_agent, "chrome"@)),
{
    test_user_agent(info, "applewebkit") && !is_chrome(info)
}

} // verus!
